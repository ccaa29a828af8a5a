use vstd::prelude::*;

verus! {

/// The console model being emulated.
#[derive(PartialEq, Eq, Structural, Copy, Clone, Debug)]
pub enum GbMode {
    Classic,
    ColorAsClassic,
    Color,
}

/// CPU clock speed of the color console.
#[derive(PartialEq, Eq, Structural, Copy, Clone, Debug)]
pub enum GbSpeed {
    Single,
    Double,
}

impl GbSpeed {
    /// Clock multiplier of the speed.
    pub open spec fn spec_factor(self) -> u32 {
        match self {
            GbSpeed::Single => 1,
            GbSpeed::Double => 2,
        }
    }

    pub fn factor(self) -> (r: u32)
        ensures
            r == self.spec_factor(),
    {
        match self {
            GbSpeed::Single => 1,
            GbSpeed::Double => 2,
        }
    }
}

} // verus!
