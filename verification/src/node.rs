//! The node: one engine and one light output, driven by command lines.

use vstd::prelude::*;
use vstd::string::StringSliceAdditionalSpecFns;
use vstd::utf8::valid_utf8;
use crate::colour::{Colour, PALETTE_LEN};
use crate::device::RgbDevice;
use crate::engine::{picked_in_prefix, EngineState, RgbEngine, RgbMode};
use crate::protocol::{
    error_text,
    parse_line,
    read_line,
    reply_for,
    return_error,
    send_response,
    trim_end,
    trimmed,
    Parsed,
    Request,
};
use crate::serial::{first_newline_at, pushed, InputLine, PortRead, LINE_CAPACITY, NEWLINE};

verus! {

/// The engine state after a channel preset was selected. Channels above 8
/// select nothing.
pub open spec fn channel_preset(state: EngineState, ch: u8) -> EngineState {
    if ch == 0 {
        EngineState { mode: RgbMode::Cycle(0), ..state }
    } else if ch == 1 {
        EngineState { mode: RgbMode::Solid, index: 26, ..state }
    } else if ch == 2 {
        EngineState { mode: RgbMode::Solid, index: 27, ..state }
    } else if ch == 3 {
        EngineState { mode: RgbMode::Solid, index: 28, ..state }
    } else if ch == 4 {
        EngineState { mode: RgbMode::Solid, ..state }
    } else if ch == 5 {
        EngineState { mode: RgbMode::Strobe(false, false), ..state }
    } else if ch == 6 {
        EngineState { mode: RgbMode::Strobe(true, false), ..state }
    } else if ch == 7 {
        EngineState { mode: RgbMode::Swirl(false, 0, false), ..state }
    } else if ch == 8 {
        EngineState { mode: RgbMode::Swirl(true, 0, false), ..state }
    } else {
        state
    }
}

/// The engine state after a request was carried out. A request whose argument
/// could not be read changes nothing.
pub open spec fn engine_after(state: EngineState, request: Request) -> EngineState {
    match request {
        Request::Toggle => EngineState { enabled: !state.enabled, ..state },
        Request::Power(Some(level)) => EngineState { enabled: level > 0, ..state },
        Request::Red(Some(value)) => EngineState {
            output: Colour { r: value, ..state.output },
            ..state
        },
        Request::Green(Some(value)) => EngineState {
            output: Colour { g: value, ..state.output },
            ..state
        },
        Request::Blue(Some(value)) => EngineState {
            output: Colour { b: value, ..state.output },
            ..state
        },
        Request::Delay(Some(ms)) => EngineState { delay: ms, ..state },
        Request::Index(Some(cursor)) => EngineState { index: cursor as usize, ..state },
        Request::Channel(Some(ch)) => channel_preset(state, ch),
        Request::Intensity(Some(value)) => EngineState { intensity: value, ..state },
        Request::IndexUp => EngineState {
            index: ((state.index + 1) % (PALETTE_LEN as int)) as usize,
            ..state
        },
        Request::IndexDown => EngineState {
            index: if state.index == 0 {
                (PALETTE_LEN - 1) as usize
            } else {
                (state.index - 1) as usize
            },
            ..state
        },
        _ => state,
    }
}

/// Whether the output is switched on after a request was carried out.
pub open spec fn lit_after(lit: bool, enabled: bool, request: Request) -> bool {
    match request {
        Request::Toggle => !enabled,
        Request::Power(Some(level)) => level > 0,
        _ => lit,
    }
}

/// The engine state after a line was dispatched.
pub open spec fn engine_after_line(state: EngineState, outcome: Parsed) -> EngineState {
    match outcome {
        Parsed::Valid(request) => engine_after(state, request),
        _ => state,
    }
}

/// Whether the output is switched on after a line was dispatched.
pub open spec fn lit_after_line(lit: bool, enabled: bool, outcome: Parsed) -> bool {
    match outcome {
        Parsed::Valid(request) => lit_after(lit, enabled, request),
        _ => lit,
    }
}

/// Whether a read completes a line: it brought bytes that fit in the buffer
/// behind `held`, with a newline among them.
pub open spec fn line_completed(held: Seq<u8>, read: PortRead<'_>) -> bool {
    read matches PortRead::Data(chunk) && held.len() + chunk@.len() <= LINE_CAPACITY
        && chunk@.contains(NEWLINE)
}

/// The offset of the first newline of a chunk that holds one.
pub open spec fn newline_offset(chunk: Seq<u8>) -> int {
    choose|at: int| first_newline_at(chunk, at)
}

/// The line that a chunk completes: what was held and the chunk, up to and
/// including the chunk's first newline.
pub open spec fn completed_line(held: Seq<u8>, chunk: Seq<u8>) -> Seq<u8> {
    (held + chunk).subrange(0, held.len() + newline_offset(chunk) + 1)
}

/// What follows the completed line in the buffer.
pub open spec fn left_over(held: Seq<u8>, chunk: Seq<u8>) -> Seq<u8> {
    (held + chunk).subrange(
        held.len() + newline_offset(chunk) + 1,
        held.len() + chunk.len() as int,
    )
}

/// An engine together with the light output that it drives.
pub struct RgbNode<D: RgbDevice> {
    pub rgb: D,
    pub engine: RgbEngine,
}

impl<D: RgbDevice> RgbNode<D> {
    /// A node with a new engine, seeded with the instant `now`.
    pub fn new(rgb: D, now: u32) -> (node: Self)
        ensures
            node.rgb == rgb,
            node.engine@ == EngineState::initial(),
    {
        RgbNode { rgb, engine: RgbEngine::new(now) }
    }

    /// Takes in what one read of the serial port gave, and dispatches the line
    /// that it completed, if it completed one. Returns the bytes to send back.
    ///
    /// A completed line that is text is dispatched without the separators at
    /// its end; one that is not text is answered with `error`. Either way the
    /// line leaves the buffer, and what followed it stays for the next call.
    pub fn process_input(&mut self, input: &mut InputLine, read: PortRead<'_>) -> (reply: Vec<u8>)
        ensures
            final(self).rgb.shown() == old(self).rgb.shown(),
            read is Quiet ==> {
                &&& final(input).held() == old(input).held()
                &&& final(input).terminator() == old(input).terminator()
            },
            read is Failed ==> {
                &&& final(input).held() == Seq::<u8>::empty()
                &&& final(input).terminator() == 0
            },
            !line_completed(old(input).held(), read) ==> {
                &&& reply@ == Seq::<u8>::empty()
                &&& final(self).engine@ == old(self).engine@
                &&& final(self).rgb.lit() == old(self).rgb.lit()
                &&& read matches PortRead::Data(chunk) ==> pushed(
                    old(input).held(),
                    old(input).terminator(),
                    chunk@,
                    final(input).held(),
                    final(input).terminator(),
                    false,
                )
            },
            line_completed(old(input).held(), read) ==> {
                let chunk = read->Data_0@;
                let line = completed_line(old(input).held(), chunk);
                let outcome = read_line(trimmed(line));
                &&& final(input).held() == left_over(old(input).held(), chunk)
                &&& final(input).terminator() == 0
                &&& valid_utf8(line) ==> {
                    &&& reply@ == reply_for(outcome, trimmed(line))
                    &&& final(self).engine@ == engine_after_line(old(self).engine@, outcome)
                    &&& final(self).rgb.lit() == lit_after_line(
                        old(self).rgb.lit(),
                        old(self).engine@.enabled,
                        outcome,
                    )
                }
                &&& !valid_utf8(line) ==> {
                    &&& reply@ == error_text()
                    &&& final(self).engine@ == old(self).engine@
                    &&& final(self).rgb.lit() == old(self).rgb.lit()
                }
            },
    {
        let ghost held = input.held();
        if input.poll_read(read) {
            proof {
                let chunk = read->Data_0@;
                let at = input.terminator() - held.len() - 1;
                assert(first_newline_at(chunk, at));
                let chosen = newline_offset(chunk);
                assert(first_newline_at(chunk, chosen));
                assert(chosen == at);
            }
            let reply = match input.to_str() {
                Ok(text) => self.process_command(trim_end(text.as_bytes())),
                Err(_) => return_error(),
            };
            input.discard();
            reply
        } else {
            Vec::new()
        }
    }

    /// Dispatches one line and returns the bytes to send back.
    ///
    /// A line without a token is ignored and gets no reply. A line whose first
    /// token names no command, or that holds too few arguments, changes
    /// nothing and is answered with `error`. Any other line has its request
    /// carried out and is echoed back with a newline; the version command is
    /// answered with the version instead.
    pub fn process_command(&mut self, line: &[u8]) -> (reply: Vec<u8>)
        ensures
            reply@ == reply_for(read_line(line@), line@),
            final(self).engine@ == engine_after_line(old(self).engine@, read_line(line@)),
            final(self).rgb.lit() == lit_after_line(
                old(self).rgb.lit(),
                old(self).engine@.enabled,
                read_line(line@),
            ),
            final(self).rgb.shown() == old(self).rgb.shown(),
    {
        match parse_line(line) {
            Parsed::Blank => Vec::new(),
            Parsed::Invalid => return_error(),
            Parsed::Valid(request) => {
                self.perform(request);
                match request {
                    Request::Version => send_response("version 0.1".as_bytes()),
                    _ => send_response(line),
                }
            },
        }
    }

    /// Carries out a request.
    ///
    /// The power command switches on for a level above zero and off
    /// otherwise, and toggles without a level. The colour commands set one
    /// channel of the displayed colour. An argument that could not be read
    /// leaves everything as it was.
    pub fn perform(&mut self, request: Request)
        ensures
            final(self).engine@ == engine_after(old(self).engine@, request),
            final(self).rgb.lit() == lit_after(
                old(self).rgb.lit(),
                old(self).engine@.enabled,
                request,
            ),
            final(self).rgb.shown() == old(self).rgb.shown(),
    {
        match request {
            Request::Toggle => {
                self.engine.toggle(&mut self.rgb);
            },
            Request::Power(Some(level)) => {
                self.engine.power(&mut self.rgb, level > 0);
            },
            Request::Red(Some(value)) => {
                let mut colour = self.engine.get_colour();
                colour.r = value;
                self.engine.set_colour(colour);
            },
            Request::Green(Some(value)) => {
                let mut colour = self.engine.get_colour();
                colour.g = value;
                self.engine.set_colour(colour);
            },
            Request::Blue(Some(value)) => {
                let mut colour = self.engine.get_colour();
                colour.b = value;
                self.engine.set_colour(colour);
            },
            Request::Delay(Some(ms)) => {
                self.engine.delay(Some(ms));
            },
            Request::Index(Some(cursor)) => {
                self.engine.index(Some(cursor as usize));
            },
            Request::Channel(Some(ch)) => {
                self.change_channel(ch);
            },
            Request::Intensity(Some(value)) => {
                self.engine.intensity(Some(value));
            },
            Request::IndexUp => {
                self.engine.index_up();
            },
            Request::IndexDown => {
                self.engine.index_down();
            },
            _ => {},
        }
    }

    /// One tick of the animation at the instant `now`.
    pub fn handle_animation(&mut self, now: u32)
        ensures
            !old(self).engine@.enabled ==> {
                &&& final(self).engine@ == old(self).engine@
                &&& final(self).rgb == old(self).rgb
            },
            old(self).engine@.enabled ==> {
                &&& exists|draw: u32|
                    final(self).engine@ == #[trigger] old(self).engine@.ticked(now, draw)
                &&& !old(self).engine@.wants_draw() ==> final(self).engine@
                    == old(self).engine@.ticked(now, 0)
                &&& old(self).engine@.frame is Stop ==> picked_in_prefix(
                    old(self).engine@.mode,
                    final(self).engine@,
                )
                &&& final(self).rgb.shown() == final(self).engine@.displayed()
                &&& final(self).rgb.lit() == old(self).rgb.lit()
            },
    {
        self.engine.handle_animation(&mut self.rgb, now);
    }

    /// Selects one of the presets: 0 cycles, 1 to 3 are solid colours of the
    /// palette's tail, 4 is solid, 5 and 6 strobe, 7 and 8 swirl; 6 and 8 pick
    /// their colours at random. Any other channel changes nothing.
    pub fn change_channel(&mut self, ch: u8)
        ensures
            final(self).engine@ == channel_preset(old(self).engine@, ch),
            final(self).rgb == old(self).rgb,
    {
        if ch == 0 {
            self.engine.cycle_mode();
        } else if ch == 1 {
            self.engine.solid_mode();
            self.engine.index(Some(26));
        } else if ch == 2 {
            self.engine.solid_mode();
            self.engine.index(Some(27));
        } else if ch == 3 {
            self.engine.solid_mode();
            self.engine.index(Some(28));
        } else if ch == 4 {
            self.engine.solid_mode();
        } else if ch == 5 {
            self.engine.strobe_mode(false);
        } else if ch == 6 {
            self.engine.strobe_mode(true);
        } else if ch == 7 {
            self.engine.swirl_mode(false);
        } else if ch == 8 {
            self.engine.swirl_mode(true);
        }
    }
}

} // verus!
