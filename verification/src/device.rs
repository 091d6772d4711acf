//! The light output that receives the engine's colours.

use vstd::prelude::*;
use crate::colour::Colour;

verus! {

/// A three-channel light output.
///
/// `lit` and `shown` are the output's observable state, and the contracts of
/// the three methods say how each call changes it. An implementation that is
/// compiled without being verified supplies the two as ordinary methods that
/// return what the output remembers.
pub trait RgbDevice {
    /// Whether the output stage is switched on.
    spec fn lit(&self) -> bool;

    /// The colour last handed to the output.
    spec fn shown(&self) -> Colour;

    /// Switches the output stage on, keeping the colour.
    fn enable(&mut self)
        ensures
            final(self).lit(),
            final(self).shown() == old(self).shown(),
    ;

    /// Switches the output stage off, keeping the colour.
    fn disable(&mut self)
        ensures
            !final(self).lit(),
            final(self).shown() == old(self).shown(),
    ;

    /// Shows a colour, leaving the output stage on or off as it was.
    fn set_colour(&mut self, val: Colour)
        ensures
            final(self).shown() == val,
            final(self).lit() == old(self).lit(),
    ;
}

/// An output that is nothing but its observable state, for running the node
/// without hardware.
#[derive(Copy, Clone, Debug, PartialEq, Eq, Structural)]
pub struct ModelDevice {
    pub on: bool,
    pub colour: Colour,
}

impl ModelDevice {
    /// An output that is switched off and shows black.
    pub fn new() -> (dev: ModelDevice)
        ensures
            !dev.on,
            dev.colour == Colour::black(),
    {
        ModelDevice { on: false, colour: Colour { r: 0, g: 0, b: 0 } }
    }
}

impl RgbDevice for ModelDevice {
    open spec fn lit(&self) -> bool {
        self.on
    }

    open spec fn shown(&self) -> Colour {
        self.colour
    }

    fn enable(&mut self) {
        self.on = true;
    }

    fn disable(&mut self) {
        self.on = false;
    }

    fn set_colour(&mut self, val: Colour) {
        self.colour = val;
    }
}

/// The duty of a timer channel for one colour channel, on a timer whose
/// full duty is `max_duty`: the value times a 256th of the full duty, rounded
/// down before multiplying.
pub open spec fn duty_for(value: u8, max_duty: u16) -> int {
    value as int * (max_duty as int / 256)
}

/// Computes the duty of a timer channel for one colour channel. The scale is
/// linear and the result never exceeds `max_duty`.
pub fn duty(value: u8, max_duty: u16) -> (ticks: u16)
    ensures
        ticks as int == duty_for(value, max_duty),
        ticks <= max_duty,
{
    let notch: u16 = max_duty / 256;
    assert(value as int * (notch as int) <= 255 * 255 && value as int * (notch as int) <= 256
        * (notch as int)) by (nonlinear_arith)
        requires
            0 <= value as int <= 255,
            0 <= notch as int <= 255,
    ;
    (value as u16) * notch
}

} // verus!
