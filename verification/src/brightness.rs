use vstd::prelude::*;

verus! {

/// A brightness setting for the display: one of `LEVELS` levels, level 0
/// being the dimmest.
#[derive(Clone, Copy, Debug, PartialEq, Eq)]
pub struct Brightness<const LEVELS: u8>(pub u8);

/// Indication of a brightness error issue.
#[derive(Clone, Copy, Debug, PartialEq, Eq)]
pub enum BrightnessError {
    /// Requested brightness above maximum.
    TooBright,
}

impl<const LEVELS: u8> Brightness<LEVELS> {
    /// The stored level is one of the `LEVELS` levels.
    pub open spec fn wf(&self) -> bool {
        self.0 < LEVELS
    }

    /// Create a new brightness with a custom level.
    /// Fails if the requested level is too large.
    pub fn new(level: u8) -> (r: Result<Self, BrightnessError>)
        ensures
            match r {
                Ok(b) => {
                    &&& level < LEVELS
                    &&& b.0 == level
                    &&& b.wf()
                },
                Err(e) => {
                    &&& e == BrightnessError::TooBright
                    &&& level >= LEVELS
                },
            },
    {
        if level >= LEVELS {
            return Err(BrightnessError::TooBright);
        }
        Ok(Brightness(level))
    }

    /// Return the level value.
    pub fn level(&self) -> (l: u8)
        ensures
            l == self.0,
    {
        self.0
    }
}

} // verus!
