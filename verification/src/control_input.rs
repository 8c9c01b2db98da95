//! Input side of the control plane: the per-channel drivers and the
//! aggregator that turns one sampling cycle into a snapshot.

pub mod buttons;
pub mod cvs;
pub mod debouncer;
pub mod gates;
pub mod pots;
pub mod switch;

pub use self::buttons::Pins as ButtonsPins;
pub use self::cvs::Pins as CvsPins;
pub use self::gates::Pins as GatesPins;
pub use self::pots::Pins as PotsPins;
pub use self::switch::Pins as SwitchPins;

use vstd::prelude::*;
use self::buttons::{Buttons, BUTTONS};
use self::cvs::CVS;
use self::gates::{Gates, GATES};
use self::pots::POTS;
use self::switch::Switch;

verus! {

/// The state of every input after one sampling cycle.
///
/// The analog readings are carried in the 32-bit encoding in which the
/// conditioning stage produced them; nothing here reads into them.
#[derive(Clone, Copy, Debug, PartialEq, Eq)]
pub struct ControlInputSnapshot {
    /// Conditioned potentiometer readings, encoded.
    pub pots: [u32; POTS],
    /// Whether each button counts as pressed.
    pub buttons: [bool; BUTTONS],
    /// Conditioned control voltages, encoded; absent until first sampled.
    pub cvs: [Option<u32>; CVS],
    /// Whether each gate input counts as high.
    pub gates: [bool; GATES],
    /// Position of the rotary switch, from 0 to 7.
    pub switch: u8,
}

/// What one sampling cycle read: the conditioned analog values and the raw
/// levels of the digital lines.
#[derive(Clone, Copy, Debug)]
pub struct Reading {
    /// Conditioned potentiometer readings, encoded.
    pub pots: [u32; POTS],
    /// Conditioned control voltages, encoded.
    pub cvs: [u32; CVS],
    pub buttons_pins: ButtonsPins,
    pub gates_pins: GatesPins,
    pub switch_pins: SwitchPins,
}

/// Owner of the digital drivers and of the analog values last handed in.
#[derive(Clone, Copy, Debug)]
pub struct ControlInputInterface {
    pots: [u32; POTS],
    buttons: Buttons,
    cvs: [Option<u32>; CVS],
    gates: Gates,
    switch: Switch,
}

impl ControlInputInterface {
    /// The potentiometer readings held.
    pub closed spec fn pots(&self) -> Seq<u32> {
        self.pots@
    }

    /// The control voltages held.
    pub closed spec fn cvs(&self) -> Seq<Option<u32>> {
        self.cvs@
    }

    /// Driver of both buttons.
    pub closed spec fn buttons(&self) -> Buttons {
        self.buttons
    }

    /// Driver of both gate inputs.
    pub closed spec fn gates(&self) -> Gates {
        self.gates
    }

    /// Driver of the rotary switch.
    pub closed spec fn switch(&self) -> Switch {
        self.switch
    }

    /// All inputs at rest: potentiometers at the encoding of zero, no control
    /// voltage sampled yet, nothing pressed or selected and no active sample
    /// in any window, the switch at its first position.
    pub fn new() -> (interface: Self)
        ensures
            interface.pots() == Seq::new(POTS as nat, |i: int| 0u32),
            interface.cvs() == Seq::new(CVS as nat, |i: int| None::<u32>),
            forall|i: int|
                0 <= i < BUTTONS ==> {
                    &&& (#[trigger] interface.buttons().button(i)).window() == Seq::new(
                        buttons::DEPTH as nat,
                        |k: int| false,
                    )
                    &&& !interface.buttons().button(i).active()
                },
            forall|i: int|
                0 <= i < GATES ==> {
                    &&& (#[trigger] interface.gates().trigger(i)).window() == Seq::new(
                        gates::DEPTH as nat,
                        |k: int| false,
                    )
                    &&& !interface.gates().trigger(i).active()
                },
            forall|i: int|
                #![trigger interface.switch().window(i)]
                #![trigger interface.switch().active(i)]
                0 <= i < switch::POSITIONS ==> {
                    &&& interface.switch().window(i) == Seq::new(
                        switch::DEPTH as nat,
                        |k: int| false,
                    )
                    &&& !interface.switch().active(i)
                },
            interface.switch().position() == 0,
    {
        let interface = ControlInputInterface {
            pots: [0; POTS],
            buttons: Buttons::new(),
            cvs: [None; CVS],
            gates: Gates::new(),
            switch: Switch::new(),
        };
        assert(interface.pots@ =~= Seq::new(POTS as nat, |i: int| 0u32));
        assert(interface.cvs@ =~= Seq::new(CVS as nat, |i: int| None::<u32>));
        interface
    }

    /// Takes one cycle's reading into the drivers: the analog values replace
    /// those held, the digital lines are debounced.
    pub fn sample(&mut self, reading: &Reading)
        ensures
            final(self).pots() == reading.pots@,
            final(self).cvs() == Seq::new(CVS as nat, |i: int| Some(reading.cvs@[i])),
            final(self).buttons().sampled(old(self).buttons(), reading.buttons_pins),
            final(self).gates().sampled(old(self).gates(), reading.gates_pins),
            final(self).switch().sampled(old(self).switch(), reading.switch_pins),
    {
        self.pots = reading.pots;
        self.buttons.sample(&reading.buttons_pins);
        self.cvs = [
            Some(reading.cvs[0]),
            Some(reading.cvs[1]),
            Some(reading.cvs[2]),
            Some(reading.cvs[3]),
        ];
        self.gates.sample(&reading.gates_pins);
        self.switch.sample(&reading.switch_pins);
        assert(self.cvs@ =~= Seq::new(CVS as nat, |i: int| Some(reading.cvs@[i])));
    }

    /// The present state of every input, by value.
    pub fn snapshot(&self) -> (snapshot: ControlInputSnapshot)
        ensures
            snapshot.pots@ == self.pots(),
            snapshot.cvs@ == self.cvs(),
            forall|i: int|
                0 <= i < BUTTONS ==> snapshot.buttons@[i] == (#[trigger] self.buttons().button(
                    i,
                )).active(),
            forall|i: int|
                0 <= i < GATES ==> snapshot.gates@[i] == (#[trigger] self.gates().trigger(
                    i,
                )).active(),
            snapshot.switch == self.switch().position(),
            snapshot.switch < 8,
    {
        ControlInputSnapshot {
            pots: self.pots,
            buttons: self.buttons.values(),
            cvs: self.cvs,
            gates: self.gates.values(),
            switch: self.switch.value(),
        }
    }
}

} // verus!
