//! Interpolation helpers.

use vstd::prelude::*;
use crate::fixed::{fits, fx_mul, Fx};
use crate::vec3::{v3_add, v3_add_fits, v3_scale, v3_scale_fits, v3_sub, v3_sub_fits, Vec3, V3};

verus! {

/// Linear interpolation between two points: `start + (end - start) * t`.
pub open spec fn spec_lerp(start: V3, end: V3, t: int) -> V3 {
    v3_add(start, v3_scale(v3_sub(end, start), t))
}

pub open spec fn lerp_fits(start: V3, end: V3, t: int) -> bool {
    &&& v3_sub_fits(end, start)
    &&& v3_scale_fits(v3_sub(end, start), t)
    &&& v3_add_fits(start, v3_scale(v3_sub(end, start), t))
}

/// Linear interpolation between two points.
pub fn lerp(start: Vec3, end: Vec3, t: Fx) -> (r: Vec3)
    requires
        lerp_fits(start@, end@, t@),
    ensures
        r@ == spec_lerp(start@, end@, t@),
{
    start.add(end.sub(start).scale(t))
}

/// Linear interpolation between two scalars: `start + (end - start) * t`.
pub open spec fn spec_lerp_scalar(start: int, end: int, t: int) -> int {
    start + fx_mul(end - start, t)
}

pub open spec fn lerp_scalar_fits(start: int, end: int, t: int) -> bool {
    fits(end - start) && fits(fx_mul(end - start, t)) && fits(spec_lerp_scalar(start, end, t))
}

/// Linear interpolation between two scalars.
pub fn lerp_scalar(start: Fx, end: Fx, t: Fx) -> (r: Fx)
    requires
        lerp_scalar_fits(start@, end@, t@),
    ensures
        r@ == spec_lerp_scalar(start@, end@, t@),
{
    start.add(end.sub(start).mul(t))
}

} // verus!
