//! Frames: the transition that is currently playing, and the per-channel
//! bookkeeping of a linear fade.

use vstd::prelude::*;
use crate::colour::Colour;

verus! {

/// Milliseconds between unit steps, one rate per channel.
#[derive(Copy, Clone, Debug, PartialEq, Eq)]
pub struct MillisPerNotch {
    pub r: i32,
    pub g: i32,
    pub b: i32,
}

/// Keep the output as it is until `time` milliseconds have passed since `start`.
#[derive(Copy, Clone, Debug, PartialEq, Eq)]
pub struct HoldFrame {
    pub start: u32,
    pub time: u32,
}

/// One channel of a fade. The sign of `millis_per_change` is the direction of
/// the fade and its magnitude the time between two unit steps; zero means the
/// channel does not move. `millis_countdown` is the time left to the next step.
#[derive(Copy, Clone, Debug, PartialEq, Eq)]
pub struct FadeChannel {
    pub millis_per_change: i32,
    pub millis_countdown: i32,
}

/// A linear transition of the output towards `target`, of which `remain`
/// milliseconds are left, last advanced at the instant `last`.
#[derive(Copy, Clone, Debug, PartialEq, Eq)]
pub struct FadeFrame {
    pub channels: [FadeChannel; 3],
    pub target: Colour,
    pub last: u32,
    pub remain: u32,
}

/// The transition that is playing. `Stop` asks for a new frame.
#[derive(Copy, Clone, Debug, PartialEq, Eq)]
pub enum Frame {
    Stop,
    Hold(HoldFrame),
    Fade(FadeFrame),
}

/// The longest fade, in milliseconds: rates and countdowns are kept in `i32`.
pub const FADE_SPAN_MAX: u32 = 0x7fff_ffff;

/// `v` held to the range of `i32`.
pub open spec fn clamp_i32(v: int) -> i32 {
    if v < i32::MIN as int {
        i32::MIN
    } else if v > i32::MAX as int {
        i32::MAX
    } else {
        v as i32
    }
}

/// The magnitude of `v`.
pub open spec fn magnitude(v: int) -> int {
    if v < 0 {
        -v
    } else {
        v
    }
}

/// The duration of a fade that was asked to last `delay` milliseconds.
pub open spec fn fade_span(delay: u32) -> u32 {
    if delay > FADE_SPAN_MAX {
        FADE_SPAN_MAX
    } else {
        delay
    }
}

/// The rate of a channel that has `span` milliseconds to get from `from` to
/// `to`: the span divided by the signed distance, rounded towards zero, and
/// zero where the channel is already there.
pub open spec fn channel_rate(span: u32, from: u8, to: u8) -> int {
    if to > from {
        span as int / (to - from)
    } else if to < from {
        -(span as int / (from - to))
    } else {
        0
    }
}

/// A channel value moved one unit in the direction of `rate`, held to `0..=255`.
pub open spec fn nudged(input: u8, rate: i32) -> u8 {
    if rate >= 1 {
        if input < 255 {
            (input + 1) as u8
        } else {
            255u8
        }
    } else if input > 0 {
        (input - 1) as u8
    } else {
        0u8
    }
}

/// An elapsed time as `adjust` takes it.
pub open spec fn elapsed_i32(diff: u32) -> i32 {
    if diff > FADE_SPAN_MAX {
        i32::MAX
    } else {
        diff as i32
    }
}

impl FadeChannel {
    /// The channel that `new` returns.
    pub open spec fn started(rate: i32) -> FadeChannel {
        FadeChannel { millis_per_change: rate, millis_countdown: clamp_i32(magnitude(rate as int)) }
    }

    /// A channel at the start of its fade: a full interval is left to the
    /// first step.
    pub fn new(start: i32) -> (ch: FadeChannel)
        ensures
            ch == FadeChannel::started(start),
    {
        let countdown: i32 = if start == i32::MIN {
            i32::MAX
        } else if start < 0 {
            -start
        } else {
            start
        };
        FadeChannel { millis_per_change: start, millis_countdown: countdown }
    }

    /// The channel and the channel value after `diff` milliseconds have passed.
    ///
    /// A channel of rate zero does nothing. Otherwise the countdown goes down by
    /// `diff`; if that takes it below zero, the value moves one unit and the
    /// countdown gains one interval. The countdown is held to the range of `i32`.
    pub open spec fn adjusted(self, diff: i32, input: u8) -> (FadeChannel, u8) {
        if self.millis_per_change == 0 {
            (self, input)
        } else {
            let left = self.millis_countdown as int - diff as int;
            if left < 0 {
                (
                    FadeChannel {
                        millis_per_change: self.millis_per_change,
                        millis_countdown: clamp_i32(
                            left + magnitude(self.millis_per_change as int),
                        ),
                    },
                    nudged(input, self.millis_per_change),
                )
            } else {
                (
                    FadeChannel {
                        millis_per_change: self.millis_per_change,
                        millis_countdown: clamp_i32(left),
                    },
                    input,
                )
            }
        }
    }

    /// Lets `diff` milliseconds pass and returns the channel's new value: at
    /// most one unit away from `input`, in the direction of the fade.
    pub fn adjust(&mut self, diff: i32, input: u8) -> (output: u8)
        ensures
            (*final(self), output) == old(self).adjusted(diff, input),
    {
        let mut output: u8 = input;
        if self.millis_per_change != 0 {
            let mut left: i64 = self.millis_countdown as i64 - diff as i64;
            if left < 0 {
                let rate: i64 = self.millis_per_change as i64;
                let interval: i64 = if rate < 0 {
                    -rate
                } else {
                    rate
                };
                left = left + interval;
                if self.millis_per_change >= 1 {
                    output = if input < 255 {
                        input + 1
                    } else {
                        255
                    };
                } else {
                    output = if input > 0 {
                        input - 1
                    } else {
                        0
                    };
                }
            }
            self.millis_countdown = if left < i32::MIN as i64 {
                i32::MIN
            } else if left > i32::MAX as i64 {
                i32::MAX
            } else {
                left as i32
            };
        }
        output
    }
}

fn rate_between(span: u32, from: u8, to: u8) -> (rate: i32)
    requires
        span <= FADE_SPAN_MAX,
    ensures
        rate as int == channel_rate(span, from, to),
        -(span as int) <= rate as int <= span as int,
{
    if to > from {
        let distance: u32 = (to - from) as u32;
        let quotient: u32 = span / distance;
        assert(quotient <= span) by (nonlinear_arith)
            requires
                quotient == span / distance,
                distance >= 1,
        ;
        quotient as i32
    } else if to < from {
        let distance: u32 = (from - to) as u32;
        let quotient: u32 = span / distance;
        assert(quotient <= span) by (nonlinear_arith)
            requires
                quotient == span / distance,
                distance >= 1,
        ;
        -(quotient as i32)
    } else {
        0
    }
}

impl FadeFrame {
    /// The fade from `current` to `target` over `fade_span(delay)` milliseconds
    /// that starts at the instant `now`.
    pub open spec fn between(current: Colour, target: Colour, delay: u32, now: u32) -> FadeFrame {
        let span = fade_span(delay);
        FadeFrame {
            channels: [
                FadeChannel::started(channel_rate(span, current.r, target.r) as i32),
                FadeChannel::started(channel_rate(span, current.g, target.g) as i32),
                FadeChannel::started(channel_rate(span, current.b, target.b) as i32),
            ],
            target,
            last: now,
            remain: span,
        }
    }

    /// The frame and the output after a tick at the instant `now`.
    ///
    /// Nothing happens while no whole millisecond has passed since the last
    /// tick. While more time remains than has passed, every channel is
    /// adjusted and the remaining time goes down. Otherwise the fade is over:
    /// the output is the target, exactly.
    pub open spec fn ticked(self, output: Colour, now: u32) -> (Frame, Colour) {
        let diff = now.wrapping_sub(self.last);
        if diff < 1 {
            (Frame::Fade(self), output)
        } else if self.remain > diff {
            let red = self.channels[0].adjusted(elapsed_i32(diff), output.r);
            let green = self.channels[1].adjusted(elapsed_i32(diff), output.g);
            let blue = self.channels[2].adjusted(elapsed_i32(diff), output.b);
            (
                Frame::Fade(
                    FadeFrame {
                        channels: [red.0, green.0, blue.0],
                        target: self.target,
                        last: now,
                        remain: (self.remain - diff) as u32,
                    },
                ),
                Colour { r: red.1, g: green.1, b: blue.1 },
            )
        } else {
            (Frame::Stop, self.target)
        }
    }

    /// Advances the fade to the instant `now` and returns the frame that is
    /// active afterwards, together with the new output.
    pub fn tick(self, output: Colour, now: u32) -> (next: (Frame, Colour))
        ensures
            next == self.ticked(output, now),
    {
        let diff: u32 = now.wrapping_sub(self.last);
        if diff < 1 {
            (Frame::Fade(self), output)
        } else if self.remain > diff {
            let step: i32 = if diff > FADE_SPAN_MAX {
                i32::MAX
            } else {
                diff as i32
            };
            let mut red = self.channels[0];
            let mut green = self.channels[1];
            let mut blue = self.channels[2];
            let r: u8 = red.adjust(step, output.r);
            let g: u8 = green.adjust(step, output.g);
            let b: u8 = blue.adjust(step, output.b);
            (
                Frame::Fade(
                    FadeFrame {
                        channels: [red, green, blue],
                        target: self.target,
                        last: now,
                        remain: self.remain - diff,
                    },
                ),
                Colour { r, g, b },
            )
        } else {
            (Frame::Stop, self.target)
        }
    }
}

impl Frame {
    /// Starts a fade from `current` to `target` at the instant `now`.
    ///
    /// The fade lasts `delay` milliseconds, or `FADE_SPAN_MAX` if `delay` is
    /// longer. Each channel's rate is that duration divided by the signed
    /// distance the channel has to go, rounded towards zero; a channel that is
    /// already at its target gets rate zero.
    pub fn new_fade(current: Colour, target: Colour, delay: u32, now: u32) -> (frame: Frame)
        ensures
            frame == Frame::Fade(FadeFrame::between(current, target, delay, now)),
    {
        let span: u32 = if delay > FADE_SPAN_MAX {
            FADE_SPAN_MAX
        } else {
            delay
        };
        Frame::Fade(
            FadeFrame {
                channels: [
                    FadeChannel::new(rate_between(span, current.r, target.r)),
                    FadeChannel::new(rate_between(span, current.g, target.g)),
                    FadeChannel::new(rate_between(span, current.b, target.b)),
                ],
                target,
                last: now,
                remain: span,
            },
        )
    }
}

} // verus!
