use vstd::prelude::*;

verus! {

/// A normalized actuator level, held exactly as the fraction `num / den`
/// with `0 <= num <= den` and `den > 0`.
#[derive(Clone, Copy, Debug, PartialEq, Eq, Structural)]
pub struct Level {
    pub num: u32,
    pub den: u32,
}

/// The clamped fraction `(s - min) / (max - min)`, as a numerator over `max - min`.
pub open spec fn clamped_num(s: int, min: int, max: int) -> int {
    if s <= min {
        0
    } else if s >= max {
        max - min
    } else {
        s - min
    }
}

/// Maps a sample to a level: `clamp((s - min) / (max - min), 0, 1)`.
pub fn intensity(s: i32, min: i32, max: i32) -> (r: Level)
    requires
        0 <= min < max,
    ensures
        r.den == max - min,
        r.num == clamped_num(s as int, min as int, max as int),
{
    let den: u32 = (max - min) as u32;
    let num: u32 = if s <= min {
        0
    } else if s >= max {
        den
    } else {
        (s - min) as u32
    };
    Level { num, den }
}

/// The level of the lowest sample bound is zero.
pub proof fn lemma_intensity_at_min(min: int, max: int)
    requires
        0 <= min < max,
    ensures
        clamped_num(min, min, max) == 0,
{
}

/// The level of the highest sample bound is full: the numerator equals the denominator.
pub proof fn lemma_intensity_at_max(min: int, max: int)
    requires
        0 <= min < max,
    ensures
        clamped_num(max, min, max) == max - min,
{
}

/// The level never leaves `[0, 1]`.
pub proof fn lemma_intensity_in_unit(s: int, min: int, max: int)
    requires
        0 <= min < max,
    ensures
        0 <= clamped_num(s, min, max) <= max - min,
{
}

/// A larger sample never gives a lower level.
pub proof fn lemma_intensity_monotone(a: int, b: int, min: int, max: int)
    requires
        0 <= min < max,
        a <= b,
    ensures
        clamped_num(a, min, max) <= clamped_num(b, min, max),
{
}

} // verus!
