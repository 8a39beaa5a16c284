use vstd::prelude::*;

verus! {

/// The value `num` clamped into `[min, max]`: `min` when below it, `max`
/// when above it, `num` itself otherwise.
pub open spec fn clamp_spec(num: int, min: int, max: int) -> int {
    if num < min {
        min
    } else if num > max {
        max
    } else {
        num
    }
}

/// Clamps `num` into `[min, max]`. When `min > max` the lower bound wins
/// for values below it and the upper bound for values above it.
pub fn clamp(num: i32, min: i32, max: i32) -> (r: i32)
    ensures
        r as int == clamp_spec(num as int, min as int, max as int),
        min <= max ==> min <= r <= max,
{
    if num < min {
        min
    } else if num > max {
        max
    } else {
        num
    }
}

} // verus!
