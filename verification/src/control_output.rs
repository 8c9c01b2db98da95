//! Output side of the control plane: the state that one control cycle asks
//! for, and the levels it puts on the digital lines.

use vstd::prelude::*;

verus! {

/// Number of status LEDs.
pub const LEDS: usize = 4;

/// Number of gate outputs.
pub const GATES: usize = 2;

/// Number of control-voltage outputs.
pub const CVS: usize = 2;

/// Everything the outputs are to show after one control cycle.
///
/// The control voltages are carried in the 32-bit encoding in which the
/// controller produced them; nothing here reads into them.
#[derive(Clone, Copy, Debug, PartialEq, Eq)]
pub struct ControlOutputState {
    /// Whether each LED is lit.
    pub leds: [bool; LEDS],
    /// Whether each gate output is high.
    pub gates: [bool; GATES],
    /// Control voltages to put out, encoded.
    pub cvs: [u32; CVS],
}

/// Levels to drive on the digital output lines; `true` is high.
#[derive(Clone, Copy, Debug, PartialEq, Eq)]
pub struct Pins {
    pub leds: (bool, bool, bool, bool),
    pub gates: (bool, bool),
}

impl ControlOutputState {
    /// The level of each digital line under this state: a lit LED and an
    /// open gate are high, each on the line of its own place.
    pub fn pins(&self) -> (pins: Pins)
        ensures
            pins.leds == (self.leds@[0], self.leds@[1], self.leds@[2], self.leds@[3]),
            pins.gates == (self.gates@[0], self.gates@[1]),
    {
        Pins {
            leds: (self.leds[0], self.leds[1], self.leds[2], self.leds[3]),
            gates: (self.gates[0], self.gates[1]),
        }
    }
}

} // verus!
