use vstd::prelude::*;

verus! {

/// The scale a thermometer reads in.
#[derive(Debug, Clone, Copy, PartialEq, Eq, Structural)]
pub enum TempMeasures {
    C,
    F,
}

impl TempMeasures {
    /// The unit as it follows a reading in a report.
    pub fn symbol(&self) -> (r: &'static str)
        ensures
            r@ == (match *self {
                TempMeasures::C => "° C"@,
                TempMeasures::F => "° F"@,
            }),
    {
        match self {
            TempMeasures::C => "° C",
            TempMeasures::F => "° F",
        }
    }

    /// The scale's letter.
    pub fn letter(&self) -> (r: &'static str)
        ensures
            r@ == (match *self {
                TempMeasures::C => "C"@,
                TempMeasures::F => "F"@,
            }),
    {
        match self {
            TempMeasures::C => "C",
            TempMeasures::F => "F",
        }
    }

    /// The scale that a conversion switches to.
    pub fn other(&self) -> (r: TempMeasures)
        ensures
            r != *self,
    {
        match self {
            TempMeasures::C => TempMeasures::F,
            TempMeasures::F => TempMeasures::C,
        }
    }
}

} // verus!
