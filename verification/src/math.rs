//! Common math types.
//!
//! Linear algebra is done by [`glam`]. Its vectors and matrices hold IEEE-754
//! single-precision numbers, which the verifier does not look into: they are
//! carried through as opaque values and every operation on them is a call into
//! `glam` whose result is given a name. Two such values are the same when their
//! components are the same numbers, all NaNs counting as one.

use vstd::prelude::*;

pub use glam::{Affine2, Mat2, Mat3, UVec2, Vec2};

verus! {

/// `glam::Vec2`, a pair of single-precision coordinates.
#[verifier::external_type_specification]
#[verifier::external_body]
pub struct ExVec2(glam::Vec2);

/// `glam::Affine2`, a 2x2 matrix together with a translation.
#[verifier::external_type_specification]
#[verifier::external_body]
pub struct ExAffine2(glam::Affine2);

/// `glam::Mat2`, a 2x2 matrix.
#[verifier::external_type_specification]
#[verifier::external_body]
pub struct ExMat2(glam::Mat2);

/// `glam::Mat3`, a 3x3 matrix.
#[verifier::external_type_specification]
#[verifier::external_body]
pub struct ExMat3(glam::Mat3);

/// The vector whose coordinates are the integers `x` and `y`, each rounded to
/// the nearest single-precision number.
pub uninterp spec fn vec2_of(x: u32, y: u32) -> Vec2;

/// The component-wise sum `a + b`.
pub uninterp spec fn vec2_sum(a: Vec2, b: Vec2) -> Vec2;

/// The component-wise difference `a - b`.
pub uninterp spec fn vec2_difference(a: Vec2, b: Vec2) -> Vec2;

/// The component-wise product `a * b`.
pub uninterp spec fn vec2_product(a: Vec2, b: Vec2) -> Vec2;

/// The component-wise quotient `a / b`.
pub uninterp spec fn vec2_quotient(a: Vec2, b: Vec2) -> Vec2;

/// Calls `glam::UVec2::as_vec2` on the vector `(x, y)`, which casts each
/// integer coordinate to a single-precision number.
#[verifier::external_body]
pub(crate) fn vec2_from_u32(x: u32, y: u32) -> (r: Vec2)
    ensures
        r == vec2_of(x, y),
{
    glam::UVec2::new(x, y).as_vec2()
}

/// Calls `glam`'s `Add` for `Vec2`, which adds component by component.
#[verifier::external_body]
pub(crate) fn vec2_add(a: Vec2, b: Vec2) -> (r: Vec2)
    ensures
        r == vec2_sum(a, b),
{
    a + b
}

/// Calls `glam`'s `Sub` for `Vec2`, which subtracts component by component.
#[verifier::external_body]
pub(crate) fn vec2_sub(a: Vec2, b: Vec2) -> (r: Vec2)
    ensures
        r == vec2_difference(a, b),
{
    a - b
}

/// Calls `glam`'s `Mul` for `Vec2`, which multiplies component by component.
#[verifier::external_body]
pub(crate) fn vec2_mul(a: Vec2, b: Vec2) -> (r: Vec2)
    ensures
        r == vec2_product(a, b),
{
    a * b
}

/// Calls `glam`'s `Div` for `Vec2`, which divides component by component.
#[verifier::external_body]
pub(crate) fn vec2_div(a: Vec2, b: Vec2) -> (r: Vec2)
    ensures
        r == vec2_quotient(a, b),
{
    a / b
}

/// Defines a rectangle bounding.
#[derive(Debug, Clone, Copy, PartialEq, Eq, Structural)]
pub struct Rect {
    /// Horizontal position
    pub x: u32,
    /// Vertical position
    pub y: u32,
    /// Horizontal size
    pub w: u32,
    /// Vertical size
    pub h: u32,
}

impl Rect {
    /// Create a new rectangle with position and size.
    #[must_use]
    pub fn new(x: u32, y: u32, w: u32, h: u32) -> (r: Self)
        ensures
            r == (Rect { x, y, w, h }),
    {
        Self { x, y, w, h }
    }
}

impl Default for Rect {
    /// The empty rectangle at the top-left corner.
    fn default() -> (r: Self)
        ensures
            r == (Rect { x: 0, y: 0, w: 0, h: 0 }),
    {
        Self { x: 0, y: 0, w: 0, h: 0 }
    }
}

} // verus!
