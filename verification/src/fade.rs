//! What holds of every fade, whatever the instants at which it is advanced.

use vstd::prelude::*;
use crate::colour::Colour;
use crate::frame::{
    channel_rate,
    elapsed_i32,
    fade_span,
    magnitude,
    FadeChannel,
    FadeFrame,
    Frame,
    FADE_SPAN_MAX,
};

verus! {

/// The frame and the output after a fade was advanced at each of `instants`
/// in turn. A frame that is no fade, or no longer one, stays as it is.
pub open spec fn faded(frame: Frame, output: Colour, instants: Seq<u32>) -> (Frame, Colour)
    decreases instants.len(),
{
    if instants.len() == 0 {
        (frame, output)
    } else {
        match frame {
            Frame::Fade(fade) => {
                let (next, colour) = fade.ticked(output, instants[0]);
                faded(next, colour, instants.drop_first())
            },
            _ => (frame, output),
        }
    }
}

/// The time that passes from `last` over `instants`, each step measured on
/// the wrapping clock.
pub open spec fn elapsed_over(last: u32, instants: Seq<u32>) -> int
    decreases instants.len(),
{
    if instants.len() == 0 {
        0
    } else {
        instants[0].wrapping_sub(last) + elapsed_over(instants[0], instants.drop_first())
    }
}

/// Whether `value` lies between `a` and `b`, whichever of the two is larger.
pub open spec fn lies_between(value: u8, a: u8, b: u8) -> bool {
    (a <= value && value <= b) || (b <= value && value <= a)
}

/// Whether each channel of `colour` lies between that channel of `a` and `b`.
pub open spec fn within(colour: Colour, a: Colour, b: Colour) -> bool {
    &&& lies_between(colour.r, a.r, b.r)
    &&& lies_between(colour.g, a.g, b.g)
    &&& lies_between(colour.b, a.b, b.b)
}

/// Whether a channel that fades from `from` to `to` over `span` milliseconds
/// can never be seen beyond `to`.
///
/// A channel steps once each time more than its rate has passed since the
/// step before, so with a rate rounded down it may have made all its steps
/// before the fade is over, and step on. It cannot where it does not move,
/// where the rounding loses less than one interval, or where its target is
/// the end of the range, at which the value is held.
pub open spec fn steady(span: u32, from: u8, to: u8) -> bool {
    let distance = magnitude(to - from);
    let interval = magnitude(channel_rate(span, from, to));
    ||| interval == 0
    ||| interval * (distance + 1) + 1 >= span
    ||| (to > from && to == 255)
    ||| (to < from && to == 0)
}

/// What a channel that is on its way from `from` to `to` keeps, with `remain`
/// milliseconds of the fade left.
pub open spec fn on_course(ch: FadeChannel, value: u8, from: u8, to: u8, remain: u32) -> bool {
    let rate = ch.millis_per_change as int;
    if rate == 0 {
        value == from
    } else if rate > 0 {
        &&& from <= value
        &&& from < to
        &&& to == 255 || (value <= to && ch.millis_countdown + rate * (to - value) >= remain - 1)
    } else {
        &&& value <= from
        &&& to < from
        &&& to == 0 || (to <= value && ch.millis_countdown + (-rate) * (value - to) >= remain - 1)
    }
}

proof fn lemma_channel_starts_on_course(span: u32, from: u8, to: u8)
    requires
        span <= FADE_SPAN_MAX,
        steady(span, from, to),
    ensures
        on_course(FadeChannel::started(channel_rate(span, from, to) as i32), from, from, to, span),
        -(span as int) <= channel_rate(span, from, to) <= span as int,
{
    let distance = magnitude(to - from);
    if distance > 0 {
        let quotient = span as int / distance;
        assert(0 <= quotient <= span) by (nonlinear_arith)
            requires
                quotient == span as int / distance,
                distance >= 1,
                span >= 0,
        ;
        assert(quotient * (distance + 1) == quotient + quotient * distance) by (nonlinear_arith);
    }
}

proof fn lemma_channel_stays_on_course(
    ch: FadeChannel,
    value: u8,
    from: u8,
    to: u8,
    remain: u32,
    diff: u32,
)
    requires
        on_course(ch, value, from, to, remain),
        1 <= diff < remain,
        remain <= FADE_SPAN_MAX,
    ensures
        ({
            let (next, moved) = ch.adjusted(elapsed_i32(diff), value);
            on_course(next, moved, from, to, (remain - diff) as u32)
        }),
{
    let rate = ch.millis_per_change as int;
    let left = ch.millis_countdown - diff;
    if rate > 0 && to != 255 {
        assert(rate * (to - value - 1) == rate * (to - value) - rate) by (nonlinear_arith);
        if left < 0 {
            assert(to - value >= 1) by (nonlinear_arith)
                requires
                    rate * (to - value) > 0,
                    rate > 0,
            ;
        }
    } else if rate < 0 && to != 0 {
        assert((-rate) * (value - to - 1) == (-rate) * (value - to) - (-rate))
            by (nonlinear_arith);
        if left < 0 {
            assert(value - to >= 1) by (nonlinear_arith)
                requires
                    (-rate) * (value - to) > 0,
                    -rate > 0,
            ;
        }
    }
}

proof fn lemma_on_course_within(ch: FadeChannel, value: u8, from: u8, to: u8, remain: u32)
    requires
        on_course(ch, value, from, to, remain),
    ensures
        lies_between(value, from, to),
{
}

proof fn lemma_course_kept(fade: FadeFrame, output: Colour, from: Colour, instants: Seq<u32>)
    requires
        fade.remain <= FADE_SPAN_MAX,
        on_course(fade.channels[0], output.r, from.r, fade.target.r, fade.remain),
        on_course(fade.channels[1], output.g, from.g, fade.target.g, fade.remain),
        on_course(fade.channels[2], output.b, from.b, fade.target.b, fade.remain),
    ensures
        within(faded(Frame::Fade(fade), output, instants).1, from, fade.target),
    decreases instants.len(),
{
    lemma_on_course_within(fade.channels[0], output.r, from.r, fade.target.r, fade.remain);
    lemma_on_course_within(fade.channels[1], output.g, from.g, fade.target.g, fade.remain);
    lemma_on_course_within(fade.channels[2], output.b, from.b, fade.target.b, fade.remain);
    if instants.len() > 0 {
        let now = instants[0];
        let rest = instants.drop_first();
        let diff = now.wrapping_sub(fade.last);
        let (next, colour) = fade.ticked(output, now);
        if diff < 1 {
            lemma_course_kept(fade, output, from, rest);
        } else if fade.remain > diff {
            lemma_channel_stays_on_course(
                fade.channels[0],
                output.r,
                from.r,
                fade.target.r,
                fade.remain,
                diff,
            );
            lemma_channel_stays_on_course(
                fade.channels[1],
                output.g,
                from.g,
                fade.target.g,
                fade.remain,
                diff,
            );
            lemma_channel_stays_on_course(
                fade.channels[2],
                output.b,
                from.b,
                fade.target.b,
                fade.remain,
                diff,
            );
            let moved = next->Fade_0;
            lemma_course_kept(moved, colour, from, rest);
        } else {
            assert(faded(next, colour, rest) == (next, colour));
        }
    }
}

/// A fade reaches its target exactly: once the instants at which it is
/// advanced add up to the time it had left, and to one millisecond at least,
/// the frame has stopped and the output is the target, however the time was
/// split over the instants.
pub proof fn lemma_fade_reaches_target(fade: FadeFrame, output: Colour, instants: Seq<u32>)
    requires
        elapsed_over(fade.last, instants) >= fade.remain,
        elapsed_over(fade.last, instants) >= 1,
    ensures
        faded(Frame::Fade(fade), output, instants) == (Frame::Stop, fade.target),
    decreases instants.len(),
{
    if instants.len() > 0 {
        let now = instants[0];
        let rest = instants.drop_first();
        let diff = now.wrapping_sub(fade.last);
        let (next, colour) = fade.ticked(output, now);
        if diff < 1 {
            assert(now == fade.last);
            lemma_fade_reaches_target(fade, output, rest);
        } else if fade.remain > diff {
            let moved = next->Fade_0;
            lemma_fade_reaches_target(moved, colour, rest);
        } else {
            assert(faded(next, colour, rest) == (next, colour));
        }
    }
}

/// A fade from `current` to `target` over `delay` milliseconds ends on
/// `target` exactly, once the time that has passed since it started is the
/// fade's duration at least, and one millisecond at least.
pub proof fn lemma_new_fade_reaches_target(
    current: Colour,
    target: Colour,
    delay: u32,
    now: u32,
    instants: Seq<u32>,
)
    requires
        elapsed_over(now, instants) >= fade_span(delay),
        elapsed_over(now, instants) >= 1,
    ensures
        faded(
            Frame::Fade(FadeFrame::between(current, target, delay, now)),
            current,
            instants,
        ) == (Frame::Stop, target),
{
    lemma_fade_reaches_target(FadeFrame::between(current, target, delay, now), current, instants);
}

/// While a fade from `current` to `target` plays, every output lies between
/// the two colours, channel by channel, at whatever instants the fade is
/// advanced, provided that each channel is steady.
pub proof fn lemma_fade_stays_within(
    current: Colour,
    target: Colour,
    delay: u32,
    now: u32,
    instants: Seq<u32>,
)
    requires
        steady(fade_span(delay), current.r, target.r),
        steady(fade_span(delay), current.g, target.g),
        steady(fade_span(delay), current.b, target.b),
    ensures
        within(
            faded(
                Frame::Fade(FadeFrame::between(current, target, delay, now)),
                current,
                instants,
            ).1,
            current,
            target,
        ),
{
    let span = fade_span(delay);
    lemma_channel_starts_on_course(span, current.r, target.r);
    lemma_channel_starts_on_course(span, current.g, target.g);
    lemma_channel_starts_on_course(span, current.b, target.b);
    lemma_course_kept(FadeFrame::between(current, target, delay, now), current, current, instants);
}

} // verus!
