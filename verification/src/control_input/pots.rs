//! Raw stage of the four potentiometers: which converter serves which line,
//! and what a failed conversion counts as.

use vstd::prelude::*;

verus! {

/// Number of potentiometers on the panel.
pub const POTS: usize = 4;

/// What the conversions of one cycle gave on each potentiometer line;
/// `None` where a conversion failed.
#[derive(Clone, Copy, Debug, PartialEq, Eq)]
pub struct Pins {
    pub pot_1: Option<u32>,
    pub pot_2: Option<u32>,
    pub pot_3: Option<u32>,
    pub pot_4: Option<u32>,
}

/// A raw conversion result together with the slope of the converter that
/// took it, which is the count the result is to be normalized by.
#[derive(Clone, Copy, Debug, PartialEq, Eq)]
pub struct Pot {
    pub sample: u32,
    pub slope: u32,
}

/// The raw state of all potentiometers.
#[derive(Clone, Copy, Debug)]
pub struct Pots {
    pots: [Pot; POTS],
}

/// What a conversion counts as: its result, or zero if it failed.
pub open spec fn or_zero(conversion: Option<u32>) -> u32 {
    match conversion {
        Some(sample) => sample,
        None => 0,
    }
}

impl Pins {
    /// The conversions in the order of the lines.
    pub open spec fn conversions(&self) -> Seq<Option<u32>> {
        seq![self.pot_1, self.pot_2, self.pot_3, self.pot_4]
    }
}

/// The slope that belongs to line `i`: the first and third potentiometer
/// are served by the second converter, the other two by the first.
pub open spec fn slope_of(i: int, slope_1: u32, slope_2: u32) -> u32 {
    if i % 2 == 0 {
        slope_2
    } else {
        slope_1
    }
}

impl Pot {
    /// A line that has not been converted yet.
    pub fn new() -> (pot: Self)
        ensures
            pot == (Pot { sample: 0, slope: 0 }),
    {
        Pot { sample: 0, slope: 0 }
    }

    /// Takes one conversion with the slope of its converter.
    pub fn set(&mut self, conversion: Option<u32>, slope: u32)
        ensures
            *final(self) == (Pot { sample: or_zero(conversion), slope }),
    {
        self.sample = match conversion {
            Some(sample) => sample,
            None => 0,
        };
        self.slope = slope;
    }
}

impl Pots {
    /// The raw state of line `i`, counted from zero.
    pub closed spec fn pot(&self, i: int) -> Pot {
        self.pots@[i]
    }

    /// No line converted yet.
    pub fn new() -> (pots: Self)
        ensures
            forall|i: int| 0 <= i < POTS ==> #[trigger] pots.pot(i) == (Pot { sample: 0, slope: 0 }),
    {
        Pots { pots: [Pot::new(), Pot::new(), Pot::new(), Pot::new()] }
    }

    /// Takes the conversions of one cycle. `slope_1` and `slope_2` are the
    /// slopes of the first and the second converter.
    pub fn sample(&mut self, pins: &Pins, slope_1: u32, slope_2: u32)
        ensures
            forall|i: int|
                0 <= i < POTS ==> #[trigger] final(self).pot(i) == (Pot {
                    sample: or_zero(pins.conversions()[i]),
                    slope: slope_of(i, slope_1, slope_2),
                }),
    {
        self.pots[0].set(pins.pot_1, slope_2);
        self.pots[1].set(pins.pot_2, slope_1);
        self.pots[2].set(pins.pot_3, slope_2);
        self.pots[3].set(pins.pot_4, slope_1);
    }

    /// The raw state of every line.
    pub fn values(&self) -> (values: [Pot; POTS])
        ensures
            forall|i: int| 0 <= i < POTS ==> values@[i] == #[trigger] self.pot(i),
    {
        [self.pots[0], self.pots[1], self.pots[2], self.pots[3]]
    }
}

} // verus!
