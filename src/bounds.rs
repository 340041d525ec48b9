use vstd::prelude::*;

verus! {

/// The configured sample range: `0 <= min < max`.
#[derive(Clone, Copy, Debug, PartialEq, Eq, Structural)]
pub struct Bounds {
    pub min: i32,
    pub max: i32,
}

impl Bounds {
    pub open spec fn wf(self) -> bool {
        0 <= self.min < self.max
    }
}

/// Why a pair of sample bounds is refused at startup.
#[derive(Clone, Copy, Debug, PartialEq, Eq, Structural)]
pub enum BoundsError {
    /// The maximum is not strictly greater than the minimum.
    MaxNotAboveMin,
    /// The minimum is negative.
    NegativeMin,
}

impl BoundsError {
    /// The message shown when startup is aborted.
    pub fn message(&self) -> (r: &'static str)
        ensures
            *self == BoundsError::MaxNotAboveMin ==> r@
                == "Max APM must be strictly greater than min APM!"@,
            *self == BoundsError::NegativeMin ==> r@ == "APM values cannot be negative!"@,
    {
        match self {
            BoundsError::MaxNotAboveMin => "Max APM must be strictly greater than min APM!",
            BoundsError::NegativeMin => "APM values cannot be negative!",
        }
    }
}

/// The default lowest sample that gives a nonzero level.
pub const DEFAULT_MIN: i32 = 40;

/// The default sample at which the level is full.
pub const DEFAULT_MAX: i32 = 100;

/// Checks the startup bounds; the ordering check comes first.
pub fn validate_bounds(min: i32, max: i32) -> (r: Result<Bounds, BoundsError>)
    ensures
        max <= min ==> r == Err::<Bounds, BoundsError>(BoundsError::MaxNotAboveMin),
        min < max && min < 0 ==> r == Err::<Bounds, BoundsError>(BoundsError::NegativeMin),
        0 <= min < max ==> r == Ok::<Bounds, BoundsError>(Bounds { min, max }),
        r is Ok ==> r->Ok_0.wf(),
{
    if max <= min {
        Err(BoundsError::MaxNotAboveMin)
    } else if min < 0 {
        Err(BoundsError::NegativeMin)
    } else {
        Ok(Bounds { min, max })
    }
}

} // verus!
