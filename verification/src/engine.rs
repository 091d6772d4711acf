//! The animation engine: playback modes, the frame state machine, and the
//! settings that the command protocol changes.

use vstd::prelude::*;
use crate::colour::{palette_at, palette_colour, Colour, COLOUR_CYCLE_MAX, PALETTE_LEN};
use crate::device::RgbDevice;
use crate::frame::{FadeFrame, Frame, HoldFrame};

verus! {

/// How long a solid colour is held before the engine looks at its mode again.
pub const SOLID_HOLD_MS: u32 = 1000;

/// How long one flash of the strobe lasts.
pub const STROBE_FLASH_MS: u32 = 70;

/// The base timing parameter of a new engine, in milliseconds.
pub const DEFAULT_DELAY_MS: u32 = 5000;

/// The playback mode, with the phase that each mode has reached.
///
/// `Cycle` holds the palette cursor it last showed. `Strobe` holds whether it
/// picks colours at random and whether the flash is on. `Swirl` holds whether
/// it picks colours at random, the palette cursor it is fading to, and whether
/// it is fading (rather than resting between two fades).
#[derive(Copy, Clone, Debug, PartialEq, Eq)]
pub enum RgbMode {
    Solid,
    Cycle(usize),
    Strobe(bool, bool),
    Swirl(bool, usize, bool),
}

/// Everything the engine knows, but for the state of its random generator.
#[derive(Copy, Clone, Debug, PartialEq, Eq)]
pub struct EngineState {
    pub enabled: bool,
    pub intensity: u8,
    pub delay: u32,
    pub index: usize,
    pub output: Colour,
    pub mode: RgbMode,
    pub frame: Frame,
}

/// The cursor after `index` in a walk through the first `max` palette entries.
pub open spec fn advanced_index(index: usize, max: usize) -> usize {
    if index + 1 >= max {
        0
    } else {
        (index + 1) as usize
    }
}

/// The palette cursor that a random draw selects.
pub open spec fn drawn_index(draw: u32) -> usize {
    (draw as usize % COLOUR_CYCLE_MAX) as usize
}

/// Twice the base delay, held to the range of `u32`.
pub open spec fn doubled(delay: u32) -> u32 {
    if delay as int * 2 > u32::MAX as int {
        u32::MAX
    } else {
        (delay * 2) as u32
    }
}

/// Whether choosing the next frame in this mode consumes a random draw.
pub open spec fn mode_wants_draw(mode: RgbMode) -> bool {
    match mode {
        RgbMode::Strobe(random, flashing) => random && !flashing,
        RgbMode::Swirl(random, _, fading) => random && !fading,
        _ => false,
    }
}

/// Whether a colour that was picked at random lies in the cycled part of the
/// palette: where choosing the next frame in the mode `before` consumes a
/// draw, the cursor that `after` holds for it is below `COLOUR_CYCLE_MAX`.
pub open spec fn picked_in_prefix(before: RgbMode, after: EngineState) -> bool {
    match before {
        RgbMode::Swirl(true, _, false) => after.mode matches RgbMode::Swirl(true, index, true)
            && index < COLOUR_CYCLE_MAX,
        RgbMode::Strobe(true, false) => after.index < COLOUR_CYCLE_MAX && after.output
            == palette_at(after.index),
        _ => true,
    }
}

impl EngineState {
    /// The state of an engine that was just made.
    pub open spec fn initial() -> EngineState {
        EngineState {
            enabled: false,
            intensity: 255,
            delay: DEFAULT_DELAY_MS,
            index: (COLOUR_CYCLE_MAX - 1) as usize,
            output: Colour { r: 255, g: 255, b: 255 },
            mode: RgbMode::Swirl(false, 0, false),
            frame: Frame::Stop,
        }
    }

    /// The colour that the output receives: the displayed colour dimmed by the
    /// global intensity.
    pub open spec fn displayed(self) -> Colour {
        self.output.scaled(self.intensity)
    }

    /// The state after the mode has chosen its next frame at the instant `now`,
    /// and that frame. `draw` is the random number used where the mode picks a
    /// colour at random; it has no influence otherwise.
    pub open spec fn next_frame(self, now: u32, draw: u32) -> (EngineState, Frame) {
        match self.mode {
            RgbMode::Solid => (self, Frame::Hold(HoldFrame { start: now, time: SOLID_HOLD_MS })),
            RgbMode::Cycle(index) => {
                let next = advanced_index(index, COLOUR_CYCLE_MAX);
                (
                    EngineState { mode: RgbMode::Cycle(next), output: palette_at(next), ..self },
                    Frame::Hold(HoldFrame { start: now, time: self.delay }),
                )
            },
            RgbMode::Swirl(random, index, fading) => {
                if fading {
                    (
                        EngineState { mode: RgbMode::Swirl(random, index, false), ..self },
                        Frame::Hold(HoldFrame { start: now, time: self.delay }),
                    )
                } else {
                    let next = if random {
                        drawn_index(draw)
                    } else {
                        advanced_index(index, COLOUR_CYCLE_MAX)
                    };
                    (
                        EngineState { mode: RgbMode::Swirl(random, next, true), ..self },
                        Frame::Fade(
                            FadeFrame::between(
                                self.output,
                                palette_at(next),
                                doubled(self.delay),
                                now,
                            ),
                        ),
                    )
                }
            },
            RgbMode::Strobe(random, flashing) => {
                if flashing {
                    (
                        EngineState {
                            mode: RgbMode::Strobe(random, false),
                            output: Colour::black(),
                            ..self
                        },
                        Frame::Hold(HoldFrame { start: now, time: self.delay }),
                    )
                } else {
                    let cursor = if random {
                        drawn_index(draw)
                    } else {
                        self.index
                    };
                    (
                        EngineState {
                            mode: RgbMode::Strobe(random, true),
                            index: cursor,
                            output: palette_at(cursor),
                            ..self
                        },
                        Frame::Hold(HoldFrame { start: now, time: STROBE_FLASH_MS }),
                    )
                }
            },
        }
    }

    /// The state after the frame state machine has run once at the instant
    /// `now`. A stopped engine adopts the next frame of its mode; a hold ends
    /// once more than its time has passed since its start; a fade advances.
    /// Elapsed times are differences of instants modulo 2^32.
    pub open spec fn ticked(self, now: u32, draw: u32) -> EngineState {
        match self.frame {
            Frame::Stop => {
                let (state, frame) = self.next_frame(now, draw);
                EngineState { frame, ..state }
            },
            Frame::Hold(hold) => {
                if now.wrapping_sub(hold.start) > hold.time {
                    EngineState { frame: Frame::Stop, ..self }
                } else {
                    self
                }
            },
            Frame::Fade(fade) => {
                let (frame, output) = fade.ticked(self.output, now);
                EngineState { frame, output, ..self }
            },
        }
    }

    /// Whether running the frame state machine consumes a random draw.
    pub open spec fn wants_draw(self) -> bool {
        self.frame is Stop && mode_wants_draw(self.mode)
    }
}

/// `oorandom::Rand32`, the random generator: a value that is carried along and
/// never looked into.
#[verifier::external_type_specification]
#[verifier::external_body]
pub struct ExRand32(oorandom::Rand32);

/// Calls `oorandom::Rand32::new`. Nothing is claimed of the generator it
/// returns.
#[verifier::external_body]
fn seeded(seed: u64) -> (rng: oorandom::Rand32) {
    oorandom::Rand32::new(seed)
}

/// Calls `oorandom::Rand32::rand_u32`. Nothing is claimed of the number it
/// returns, nor of the generator afterwards.
#[verifier::external_body]
fn draw_u32(rng: &mut oorandom::Rand32) -> (value: u32) {
    rng.rand_u32()
}

/// Moves a cursor one step through the first `max` palette entries, back to
/// the start after the last.
pub fn advance_colour_index(index: &mut usize, max: usize)
    ensures
        *final(index) == advanced_index(*old(index), max),
{
    if *index >= max || *index + 1 >= max {
        *index = 0;
    } else {
        *index = *index + 1;
    }
}

fn pick_index(draw: u32) -> (index: usize)
    ensures
        index == drawn_index(draw),
        index < COLOUR_CYCLE_MAX,
{
    (draw as usize) % COLOUR_CYCLE_MAX
}

fn double_delay(delay: u32) -> (span: u32)
    ensures
        span == doubled(delay),
{
    if delay > u32::MAX / 2 {
        u32::MAX
    } else {
        delay * 2
    }
}

/// The engine. Its view is its `EngineState`.
pub struct RgbEngine {
    state: EngineState,
    rand: oorandom::Rand32,
}

impl View for RgbEngine {
    type V = EngineState;

    closed spec fn view(&self) -> EngineState {
        self.state
    }
}

impl RgbEngine {
    /// A new engine: switched off, full intensity, resting before its first
    /// swirl. The random generator is seeded with the instant `now`.
    pub fn new(now: u32) -> (engine: RgbEngine)
        ensures
            engine@ == EngineState::initial(),
    {
        RgbEngine {
            state: EngineState {
                enabled: false,
                intensity: 255,
                delay: DEFAULT_DELAY_MS,
                index: COLOUR_CYCLE_MAX - 1,
                output: Colour::new(0xff, 0xff, 0xff),
                mode: RgbMode::Swirl(false, 0, false),
                frame: Frame::Stop,
            },
            rand: seeded(now as u64),
        }
    }

    /// A copy of the engine's state.
    pub fn state(&self) -> (state: EngineState)
        ensures
            state == self@,
    {
        self.state
    }

    /// Switches the engine and the output on or off.
    pub fn power<D: RgbDevice>(&mut self, dev: &mut D, on: bool)
        ensures
            final(self)@ == (EngineState { enabled: on, ..old(self)@ }),
            final(dev).lit() == on,
            final(dev).shown() == old(dev).shown(),
    {
        self.state.enabled = on;
        if on {
            dev.enable();
        } else {
            dev.disable();
        }
    }

    /// Switches the engine and the output off if the engine was on, and on if
    /// it was off.
    pub fn toggle<D: RgbDevice>(&mut self, dev: &mut D)
        ensures
            final(self)@ == (EngineState { enabled: !old(self)@.enabled, ..old(self)@ }),
            final(dev).lit() == !old(self)@.enabled,
            final(dev).shown() == old(dev).shown(),
    {
        let on = !self.state.enabled;
        self.power(dev, on);
    }

    /// One tick of the animation at the instant `now`. A switched-off engine
    /// does nothing. Otherwise the frame state machine runs once and the output
    /// receives the displayed colour, dimmed by the intensity.
    pub fn handle_animation<D: RgbDevice>(&mut self, dev: &mut D, now: u32)
        ensures
            !old(self)@.enabled ==> final(self)@ == old(self)@ && *final(dev) == *old(dev),
            old(self)@.enabled ==> exists|draw: u32|
                final(self)@ == #[trigger] old(self)@.ticked(now, draw),
            old(self)@.enabled && !old(self)@.wants_draw() ==> final(self)@ == old(self)@.ticked(
                now,
                0,
            ),
            old(self)@.enabled && old(self)@.frame is Stop ==> picked_in_prefix(
                old(self)@.mode,
                final(self)@,
            ),
            old(self)@.enabled ==> final(dev).shown() == final(self)@.displayed(),
            old(self)@.enabled && old(self)@.intensity == 255 ==> final(dev).shown()
                == final(self)@.output,
            old(self)@.enabled ==> final(dev).lit() == old(dev).lit(),
    {
        if self.state.enabled {
            self.update_frame(now);
            dev.set_colour(self.state.output.scale(self.state.intensity));
        }
    }

    /// Reads the global intensity, after overwriting it if `update` holds a
    /// value.
    pub fn intensity(&mut self, update: Option<u8>) -> (value: u8)
        ensures
            value == (match update {
                Some(v) => v,
                None => old(self)@.intensity,
            }),
            final(self)@ == (EngineState { intensity: value, ..old(self)@ }),
    {
        if let Some(update) = update {
            self.state.intensity = update;
        }
        self.state.intensity
    }

    /// Reads the base delay, after overwriting it if `update` holds a value.
    pub fn delay(&mut self, update: Option<u32>) -> (value: u32)
        ensures
            value == (match update {
                Some(v) => v,
                None => old(self)@.delay,
            }),
            final(self)@ == (EngineState { delay: value, ..old(self)@ }),
    {
        if let Some(update) = update {
            self.state.delay = update;
        }
        self.state.delay
    }

    /// Reads the palette cursor, after overwriting it if `update` holds a
    /// value. Any cursor is accepted: wherever it selects a colour it is taken
    /// modulo the palette's length.
    pub fn index(&mut self, update: Option<usize>) -> (value: usize)
        ensures
            value == (match update {
                Some(v) => v,
                None => old(self)@.index,
            }),
            final(self)@ == (EngineState { index: value, ..old(self)@ }),
    {
        if let Some(update) = update {
            self.state.index = update;
        }
        self.state.index
    }

    /// Moves the palette cursor one entry up; from the last entry it goes to
    /// the first.
    pub fn index_up(&mut self)
        ensures
            final(self)@ == (EngineState {
                index: ((old(self)@.index + 1) % (PALETTE_LEN as int)) as usize,
                ..old(self)@
            }),
            final(self)@.index < PALETTE_LEN,
            old(self)@.index == PALETTE_LEN - 1 ==> final(self)@.index == 0,
    {
        self.state.index = (self.state.index % PALETTE_LEN + 1) % PALETTE_LEN;
    }

    /// Moves the palette cursor one entry down; from the first entry it goes to
    /// the last.
    pub fn index_down(&mut self)
        ensures
            final(self)@ == (EngineState {
                index: if old(self)@.index == 0 {
                    (PALETTE_LEN - 1) as usize
                } else {
                    (old(self)@.index - 1) as usize
                },
                ..old(self)@
            }),
            old(self)@.index == 0 ==> final(self)@.index == PALETTE_LEN - 1,
    {
        if self.state.index == 0 {
            self.state.index = PALETTE_LEN - 1;
        } else {
            self.state.index = self.state.index - 1;
        }
    }

    /// The displayed colour, before dimming.
    pub fn get_colour(&self) -> (colour: Colour)
        ensures
            colour == self@.output,
    {
        self.state.output
    }

    /// Overwrites the displayed colour. The frame that is playing goes on.
    pub fn set_colour(&mut self, colour: Colour)
        ensures
            final(self)@ == (EngineState { output: colour, ..old(self)@ }),
    {
        self.state.output = colour;
    }

    /// Selects the solid mode. The frame that is playing finishes first.
    pub fn solid_mode(&mut self)
        ensures
            final(self)@ == (EngineState { mode: RgbMode::Solid, ..old(self)@ }),
    {
        self.state.mode = RgbMode::Solid;
    }

    /// Selects the cycle mode, from the start of the palette.
    pub fn cycle_mode(&mut self)
        ensures
            final(self)@ == (EngineState { mode: RgbMode::Cycle(0), ..old(self)@ }),
    {
        self.state.mode = RgbMode::Cycle(0);
    }

    /// Selects the swirl mode, resting, from the start of the palette.
    pub fn swirl_mode(&mut self, random: bool)
        ensures
            final(self)@ == (EngineState { mode: RgbMode::Swirl(random, 0, false), ..old(self)@ }),
    {
        self.state.mode = RgbMode::Swirl(random, 0, false);
    }

    /// Selects the strobe mode, with the flash off.
    pub fn strobe_mode(&mut self, random: bool)
        ensures
            final(self)@ == (EngineState { mode: RgbMode::Strobe(random, false), ..old(self)@ }),
    {
        self.state.mode = RgbMode::Strobe(random, false);
    }

    /// Drops the frame that is playing and adopts the next frame of the mode.
    pub fn force_update(&mut self, now: u32)
        ensures
            exists|draw: u32|
                final(self)@ == (EngineState {
                    frame: (#[trigger] old(self)@.next_frame(now, draw)).1,
                    ..old(self)@.next_frame(now, draw).0
                }),
            !mode_wants_draw(old(self)@.mode) ==> final(self)@ == (EngineState {
                frame: old(self)@.next_frame(now, 0).1,
                ..old(self)@.next_frame(now, 0).0
            }),
            picked_in_prefix(old(self)@.mode, final(self)@),
    {
        let frame = self.get_next_frame(now);
        self.state.frame = frame;
    }

    /// Runs the frame state machine once at the instant `now`.
    ///
    /// Where the mode picks its next colour at random, the state is the one
    /// that some draw leads to; everywhere else it is fully determined.
    pub fn update_frame(&mut self, now: u32)
        ensures
            exists|draw: u32| final(self)@ == #[trigger] old(self)@.ticked(now, draw),
            !old(self)@.wants_draw() ==> final(self)@ == old(self)@.ticked(now, 0),
            old(self)@.frame is Stop ==> picked_in_prefix(old(self)@.mode, final(self)@),
    {
        let ghost before = self.state;
        match self.state.frame {
            Frame::Stop => {
                let frame = self.get_next_frame(now);
                let ghost chosen = self.state;
                self.state.frame = frame;
                proof {
                    let draw = choose|draw: u32|
                        (chosen, frame) == #[trigger] before.next_frame(now, draw);
                    assert(self.state == before.ticked(now, draw));
                }
            },
            Frame::Hold(hold) => {
                if now.wrapping_sub(hold.start) > hold.time {
                    self.state.frame = Frame::Stop;
                }
                assert(self.state == before.ticked(now, 0));
            },
            Frame::Fade(fade) => {
                let (frame, output) = fade.tick(self.state.output, now);
                self.state.output = output;
                self.state.frame = frame;
                assert(self.state == before.ticked(now, 0));
            },
        }
    }

    /// Lets the mode choose its next frame at the instant `now`, drawing a
    /// random number where the mode asks for one.
    pub fn get_next_frame(&mut self, now: u32) -> (frame: Frame)
        ensures
            exists|draw: u32| (final(self)@, frame) == #[trigger] old(self)@.next_frame(now, draw),
            !mode_wants_draw(old(self)@.mode) ==> (final(self)@, frame) == old(self)@.next_frame(
                now,
                0,
            ),
            picked_in_prefix(old(self)@.mode, final(self)@),
    {
        let wanted = match self.state.mode {
            RgbMode::Strobe(random, flashing) => random && !flashing,
            RgbMode::Swirl(random, _, fading) => random && !fading,
            _ => false,
        };
        let draw: u32 = if wanted {
            draw_u32(&mut self.rand)
        } else {
            0
        };
        let frame = self.next_frame(now, draw);
        assert((self@, frame) == old(self)@.next_frame(now, draw));
        frame
    }

    /// Lets the mode choose its next frame at the instant `now`, with `draw` as
    /// the random number.
    ///
    /// Solid holds for a second. Cycle moves to the next palette entry and
    /// holds it for the base delay. Swirl alternates between resting for the
    /// base delay and fading to its next colour over twice the base delay.
    /// Strobe alternates between black for the base delay and a short flash of
    /// the cursor's colour. A colour picked at random lies in the cycled part
    /// of the palette.
    pub fn next_frame(&mut self, now: u32, draw: u32) -> (frame: Frame)
        ensures
            (final(self)@, frame) == old(self)@.next_frame(now, draw),
            picked_in_prefix(old(self)@.mode, final(self)@),
    {
        match self.state.mode {
            RgbMode::Solid => Frame::Hold(HoldFrame { start: now, time: SOLID_HOLD_MS }),
            RgbMode::Cycle(index) => {
                let mut next: usize = index;
                advance_colour_index(&mut next, COLOUR_CYCLE_MAX);
                self.state.mode = RgbMode::Cycle(next);
                self.state.output = palette_colour(next);
                Frame::Hold(HoldFrame { start: now, time: self.state.delay })
            },
            RgbMode::Swirl(random, index, fading) => {
                if fading {
                    self.state.mode = RgbMode::Swirl(random, index, false);
                    Frame::Hold(HoldFrame { start: now, time: self.state.delay })
                } else {
                    let mut next: usize = index;
                    if random {
                        next = pick_index(draw);
                    } else {
                        advance_colour_index(&mut next, COLOUR_CYCLE_MAX);
                    }
                    self.state.mode = RgbMode::Swirl(random, next, true);
                    let target = palette_colour(next);
                    Frame::new_fade(self.state.output, target, double_delay(self.state.delay), now)
                }
            },
            RgbMode::Strobe(random, flashing) => {
                if flashing {
                    self.state.mode = RgbMode::Strobe(random, false);
                    self.state.output = Colour::new(0, 0, 0);
                    Frame::Hold(HoldFrame { start: now, time: self.state.delay })
                } else {
                    if random {
                        self.state.index = pick_index(draw);
                    }
                    self.state.mode = RgbMode::Strobe(random, true);
                    self.state.output = palette_colour(self.state.index);
                    Frame::Hold(HoldFrame { start: now, time: STROBE_FLASH_MS })
                }
            },
        }
    }
}

} // verus!
