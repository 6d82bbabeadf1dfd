//! From a point in the world to a pixel on the screen. The perspective
//! transform itself is arithmetic on real numbers and is done elsewhere; here
//! stand the decisions around it: which points are shown at all, and where a
//! transformed point lands in pixel space, whose rows count downwards.

use vstd::prelude::*;

use crate::data::dcs::{Position, Vec3, ONE};

verus! {

/// How far `point` lies in front of the camera, measured along the camera's
/// forward axis and scaled by that axis' length. Below zero the point is
/// behind the plane through the camera that faces forward.
pub open spec fn forward_distance(point: Vec3, camera: Position) -> int {
    (point.x - camera.p.x) * camera.x.x + (point.y - camera.p.y) * camera.x.y + (point.z
        - camera.p.z) * camera.x.z
}

/// The point lies strictly behind the camera.
pub open spec fn behind(point: Vec3, camera: Position) -> bool {
    forward_distance(point, camera) < 0
}

/// The value within the range of the representation that is nearest to `v`.
pub open spec fn clamped(v: int) -> i64 {
    if v > i64::MAX {
        i64::MAX
    } else if v < i64::MIN {
        i64::MIN
    } else {
        v as i64
    }
}

/// Where a point is shown. `transformed` is the point after the perspective
/// transform into the viewport: across, up, and depth; `None` where the
/// transform yields no numbers. A point behind the camera is not shown, nor
/// one whose depth is below zero; any other lands `up` below the top of a
/// screen `height` pixels high.
pub open spec fn projected(point: Vec3, height: i32, camera: Position, transformed: Option<Vec3>)
    -> Option<(i64, i64)> {
    match transformed {
        Some(at) => if behind(point, camera) || at.z < 0 {
            None
        } else {
            Some((at.x, clamped(height * ONE - at.y)))
        },
        None => None,
    }
}

fn scaled_offset(to: i64, from: i64, axis: i64) -> (product: i128)
    ensures
        product == (to - from) * axis,
{
    let offset: i128 = to as i128 - from as i128;
    let factor: i128 = axis as i128;
    assert(-0x7fff_ffff_ffff_ffff_ffff_ffff_ffff_ffff <= offset * factor
        <= 0x7fff_ffff_ffff_ffff_ffff_ffff_ffff_ffff) by (nonlinear_arith)
        requires
            -0xffff_ffff_ffff_ffff <= offset <= 0xffff_ffff_ffff_ffff,
            -0x8000_0000_0000_0000 <= factor <= 0x7fff_ffff_ffff_ffff,
    ;
    offset * factor
}

fn sum_is_negative(a: i128, b: i128, c: i128) -> (negative: bool)
    ensures
        negative == (a + b + c < 0),
{
    match a.checked_add(b) {
        Some(ab) => match ab.checked_add(c) {
            Some(abc) => abc < 0,
            None => ab < 0,
        },
        None => a < 0,
    }
}

/// Whether the point lies strictly behind the camera.
pub fn is_behind(point: &Vec3, camera: &Position) -> (hidden: bool)
    ensures
        hidden == behind(*point, *camera),
{
    sum_is_negative(
        scaled_offset(point.x, camera.p.x, camera.x.x),
        scaled_offset(point.y, camera.p.y, camera.x.y),
        scaled_offset(point.z, camera.p.z, camera.x.z),
    )
}

impl Vec3 {
    /// The pixel at which this point is shown, if it is shown at all. A point
    /// that lies strictly behind the camera is never shown, whichever way the
    /// camera is turned.
    pub fn project(
        &self,
        screen_dimensions: (i32, i32),
        camera: &Position,
        transformed: Option<Vec3>,
    ) -> (pixel: Option<(i64, i64)>)
        ensures
            pixel == projected(*self, screen_dimensions.1, *camera, transformed),
            behind(*self, *camera) ==> pixel is None,
    {
        match transformed {
            None => None,
            Some(at) => {
                if is_behind(self, camera) || at.z < 0 {
                    None
                } else {
                    let height: i128 = screen_dimensions.1 as i128;
                    assert(height * 1_000_000 == screen_dimensions.1 * ONE);
                    let top: i128 = height * 1_000_000;
                    let down: i128 = top - at.y as i128;
                    let y: i64 = if down > i64::MAX as i128 {
                        i64::MAX
                    } else if down < i64::MIN as i128 {
                        i64::MIN
                    } else {
                        down as i64
                    };
                    Some((at.x, y))
                }
            },
        }
    }
}

} // verus!
