//! Raw stage of the four control-voltage inputs: which converter serves
//! which line, and what a failed conversion counts as.

use vstd::prelude::*;

verus! {

/// Number of control-voltage inputs.
pub const CVS: usize = 4;

/// What the conversions of one cycle gave on each control-voltage line;
/// `None` where a conversion failed.
#[derive(Clone, Copy, Debug, PartialEq, Eq)]
pub struct Pins {
    pub cv_1: Option<u32>,
    pub cv_2: Option<u32>,
    pub cv_3: Option<u32>,
    pub cv_4: Option<u32>,
}

/// A raw conversion result together with the slope of the converter that
/// took it, which is the count the result is to be normalized by.
#[derive(Clone, Copy, Debug, PartialEq, Eq)]
pub struct Raw {
    pub sample: u32,
    pub slope: u32,
}

/// One control-voltage line: nothing until it was first converted.
#[derive(Clone, Copy, Debug, PartialEq, Eq)]
pub struct Cv {
    value: Option<Raw>,
}

/// The raw state of all control-voltage inputs.
#[derive(Clone, Copy, Debug)]
pub struct Cvs {
    cvs: [Cv; CVS],
}

/// What a conversion counts as: its result, or zero if it failed.
pub open spec fn or_zero(conversion: Option<u32>) -> u32 {
    match conversion {
        Some(sample) => sample,
        None => 0,
    }
}

impl Pins {
    /// The conversions in the order of the lines.
    pub open spec fn conversions(&self) -> Seq<Option<u32>> {
        seq![self.cv_1, self.cv_2, self.cv_3, self.cv_4]
    }
}

/// The slope that belongs to line `i`: the first and third input are served
/// by the first converter, the other two by the second.
pub open spec fn slope_of(i: int, slope_1: u32, slope_2: u32) -> u32 {
    if i % 2 == 0 {
        slope_1
    } else {
        slope_2
    }
}

impl Cv {
    /// What the line holds.
    pub closed spec fn raw(&self) -> Option<Raw> {
        self.value
    }

    /// A line that has not been converted yet.
    pub fn new() -> (cv: Self)
        ensures
            cv.raw() is None,
    {
        Cv { value: None }
    }

    /// Takes one conversion with the slope of its converter.
    pub fn set(&mut self, conversion: Option<u32>, slope: u32)
        ensures
            final(self).raw() == Some((Raw { sample: or_zero(conversion), slope })),
    {
        let sample = match conversion {
            Some(sample) => sample,
            None => 0,
        };
        self.value = Some(Raw { sample, slope });
    }
}

impl Cvs {
    /// What line `i`, counted from zero, holds.
    pub closed spec fn cv(&self, i: int) -> Option<Raw> {
        self.cvs@[i].raw()
    }

    /// No line converted yet.
    pub fn new() -> (cvs: Self)
        ensures
            forall|i: int| 0 <= i < CVS ==> #[trigger] cvs.cv(i) is None,
    {
        Cvs { cvs: [Cv::new(), Cv::new(), Cv::new(), Cv::new()] }
    }

    /// Takes the conversions of one cycle. `slope_1` and `slope_2` are the
    /// slopes of the first and the second converter.
    pub fn sample(&mut self, pins: &Pins, slope_1: u32, slope_2: u32)
        ensures
            forall|i: int|
                0 <= i < CVS ==> #[trigger] final(self).cv(i) == Some(
                    (Raw {
                        sample: or_zero(pins.conversions()[i]),
                        slope: slope_of(i, slope_1, slope_2),
                    }),
                ),
    {
        self.cvs[0].set(pins.cv_1, slope_1);
        self.cvs[1].set(pins.cv_2, slope_2);
        self.cvs[2].set(pins.cv_3, slope_1);
        self.cvs[3].set(pins.cv_4, slope_2);
    }

    /// What every line holds.
    pub fn values(&self) -> (values: [Option<Raw>; CVS])
        ensures
            forall|i: int| 0 <= i < CVS ==> values@[i] == #[trigger] self.cv(i),
    {
        [self.cvs[0].value, self.cvs[1].value, self.cvs[2].value, self.cvs[3].value]
    }
}

} // verus!
