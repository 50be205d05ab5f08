use vstd::prelude::*;

use glam::{Affine2, Mat2, Mat3, Vec2};

use crate::math::vec2_of;

verus! {

/// The affine map that moves every point by `offset`.
pub uninterp spec fn translation_affine(offset: Vec2) -> Affine2;

/// The affine map that multiplies each coordinate of a point by the matching
/// coordinate of `scale`.
pub uninterp spec fn scale_affine(scale: Vec2) -> Affine2;

/// The product `first * second` of two affine maps: the map that applies
/// `second` to a point and then `first` to the result.
pub uninterp spec fn affine_product(first: Affine2, second: Affine2) -> Affine2;

/// The image of `point` under `affine`: its matrix times the point, plus its
/// translation.
pub uninterp spec fn affine_image(affine: Affine2, point: Vec2) -> Vec2;

/// The affine map with the 2x2 matrix `matrix` and no translation.
pub uninterp spec fn mat2_affine(matrix: Mat2) -> Affine2;

/// The affine map held in the first two rows of the 3x3 matrix `matrix`.
pub uninterp spec fn mat3_affine(matrix: Mat3) -> Affine2;

/// Reads `glam::Affine2::IDENTITY`: the identity matrix with a zero
/// translation, which is the value `Affine2::from_translation` builds for the
/// zero vector.
#[verifier::external_body]
fn affine_identity() -> (r: Affine2)
    ensures
        r == translation_affine(vec2_of(0, 0)),
{
    Affine2::IDENTITY
}

/// Calls `glam::Affine2::from_translation`.
#[verifier::external_body]
fn affine_from_translation(offset: Vec2) -> (r: Affine2)
    ensures
        r == translation_affine(offset),
{
    Affine2::from_translation(offset)
}

/// Calls `glam::Affine2::from_scale`.
#[verifier::external_body]
fn affine_from_scale(scale: Vec2) -> (r: Affine2)
    ensures
        r == scale_affine(scale),
{
    Affine2::from_scale(scale)
}

/// Calls `glam`'s `Mul` for `Affine2`.
#[verifier::external_body]
fn affine_mul(first: Affine2, second: Affine2) -> (r: Affine2)
    ensures
        r == affine_product(first, second),
{
    first * second
}

/// Calls `glam::Affine2::transform_point2`.
#[verifier::external_body]
fn affine_transform_point(affine: &Affine2, point: Vec2) -> (r: Vec2)
    ensures
        r == affine_image(*affine, point),
{
    affine.transform_point2(point)
}

/// Calls `glam::Affine2::from_mat2`.
#[verifier::external_body]
fn affine_from_mat2(matrix: Mat2) -> (r: Affine2)
    ensures
        r == mat2_affine(matrix),
{
    Affine2::from_mat2(matrix)
}

/// Calls `glam::Affine2::from_mat3`.
#[verifier::external_body]
fn affine_from_mat3(matrix: Mat3) -> (r: Affine2)
    ensures
        r == mat3_affine(matrix),
{
    Affine2::from_mat3(matrix)
}

/// Two-dimensional coordinate transformation.
#[must_use]
#[derive(Debug, Clone, Copy)]
pub struct Transform(Affine2);

impl View for Transform {
    type V = Affine2;

    /// The affine map that this transform applies.
    closed spec fn view(&self) -> Affine2 {
        self.0
    }
}

impl Transform {
    /// The transform that applies the affine map `aff`.
    pub closed spec fn spec_from_affine(aff: Affine2) -> Transform {
        Transform(aff)
    }

    /// A transform is fixed by the affine map that it applies.
    pub broadcast proof fn lemma_from_affine(aff: Affine2)
        ensures
            (#[trigger] Transform::spec_from_affine(aff))@ == aff,
    {
    }

    /// The affine map of the identity transform.
    pub open spec fn spec_identity() -> Affine2 {
        translation_affine(vec2_of(0, 0))
    }

    /// The affine map of `self.compose(other)`.
    pub open spec fn spec_compose(self, other: Transform) -> Affine2 {
        affine_product(self@, other@)
    }

    /// The affine map of `self.translate(coords)`.
    pub open spec fn spec_translate(self, coords: Vec2) -> Affine2 {
        affine_product(self@, translation_affine(coords))
    }

    /// The affine map of `self.scale(scale)`.
    pub open spec fn spec_scale(self, scale: Vec2) -> Affine2 {
        affine_product(self@, scale_affine(scale))
    }

    /// The identity transform. Essentially, it does nothing.
    #[inline]
    pub fn identity() -> (r: Self)
        ensures
            r@ == Self::spec_identity(),
    {
        Self(affine_identity())
    }

    /// Create a transform from an affine transformation matrix.
    #[inline]
    pub fn from_affine(aff: Affine2) -> (r: Self)
        ensures
            r == Transform::spec_from_affine(aff),
            r@ == aff,
    {
        Self(aff)
    }

    /// Create a transform with translation.
    #[inline]
    pub fn from_translation(coords: Vec2) -> (r: Self)
        ensures
            r@ == translation_affine(coords),
    {
        Self(affine_from_translation(coords))
    }

    /// Create a transform with scale.
    #[inline]
    pub fn from_scale(scale: Vec2) -> (r: Self)
        ensures
            r@ == scale_affine(scale),
    {
        Self(affine_from_scale(scale))
    }

    /// Create a transform with translation and scale: points are scaled, then
    /// moved.
    #[inline]
    pub fn from_translation_scale(translation: Vec2, scale: Vec2) -> (r: Self)
        ensures
            r@ == affine_product(translation_affine(translation), scale_affine(scale)),
    {
        Self::from_translation(translation).scale(scale)
    }

    /// Create a transform with translation, scale and a rotation given as a
    /// transform of its own: points are rotated, then scaled, then moved.
    #[inline]
    pub fn from_translation_scale_rotation(translation: Vec2, scale: Vec2, rotation: Self) -> (r:
        Self)
        ensures
            r@ == affine_product(
                affine_product(translation_affine(translation), scale_affine(scale)),
                rotation@,
            ),
    {
        Self::from_translation(translation).scale(scale).compose(rotation)
    }

    /// Compose this transform with `other`, which is applied to a point
    /// first; this transform is applied to the result.
    #[inline]
    pub fn compose(self, other: Self) -> (r: Self)
        ensures
            r@ == self.spec_compose(other),
    {
        Self(affine_mul(self.0, other.0))
    }

    /// Translate this transform by `coords`.
    #[inline]
    pub fn translate(self, coords: Vec2) -> (r: Self)
        ensures
            r@ == self.spec_translate(coords),
    {
        self.compose(Self::from_translation(coords))
    }

    /// Scale this transform by `scale`.
    #[inline]
    pub fn scale(self, scale: Vec2) -> (r: Self)
        ensures
            r@ == self.spec_scale(scale),
    {
        self.compose(Self::from_scale(scale))
    }

    /// Get the affine transformation matrix for this transform.
    #[must_use]
    pub fn to_affine(self) -> (aff: Affine2)
        ensures
            aff == self@,
    {
        self.0
    }

    /// Transform a 2D point with this object.
    ///
    /// This may translate, scale and rotate.
    #[must_use]
    #[inline]
    pub fn transform_point(&self, point: Vec2) -> (image: Vec2)
        ensures
            image == affine_image(self@, point),
    {
        affine_transform_point(&self.0, point)
    }
}

impl core::ops::Mul for Transform {
    type Output = Transform;

    /// Compose two transforms: the right one is applied to a point first.
    #[inline]
    fn mul(self, rhs: Transform) -> (r: Transform) {
        self.compose(rhs)
    }
}

impl vstd::std_specs::ops::MulSpecImpl for Transform {
    open spec fn obeys_mul_spec() -> bool {
        true
    }

    open spec fn mul_req(self, rhs: Transform) -> bool {
        true
    }

    open spec fn mul_spec(self, rhs: Transform) -> Transform {
        Transform::spec_from_affine(self.spec_compose(rhs))
    }
}

impl From<Mat3> for Transform {
    /// The transform held in the first two rows of a 3x3 matrix.
    #[inline]
    fn from(value: Mat3) -> (r: Self) {
        Self(affine_from_mat3(value))
    }
}

impl vstd::std_specs::convert::FromSpecImpl<Mat3> for Transform {
    open spec fn obeys_from_spec() -> bool {
        true
    }

    open spec fn from_spec(value: Mat3) -> Self {
        Transform::spec_from_affine(mat3_affine(value))
    }
}

impl From<Mat2> for Transform {
    /// The transform with the given 2x2 matrix and no translation.
    #[inline]
    fn from(value: Mat2) -> (r: Self) {
        Self(affine_from_mat2(value))
    }
}

impl vstd::std_specs::convert::FromSpecImpl<Mat2> for Transform {
    open spec fn obeys_from_spec() -> bool {
        true
    }

    open spec fn from_spec(value: Mat2) -> Self {
        Transform::spec_from_affine(mat2_affine(value))
    }
}

impl From<()> for Transform {
    /// The identity transform.
    #[inline]
    fn from(value: ()) -> (r: Self) {
        Self::identity()
    }
}

impl vstd::std_specs::convert::FromSpecImpl<()> for Transform {
    open spec fn obeys_from_spec() -> bool {
        true
    }

    open spec fn from_spec(value: ()) -> Self {
        Transform::spec_from_affine(Transform::spec_identity())
    }
}

impl From<Vec2> for Transform {
    /// Create a transform with translation.
    #[inline]
    fn from(value: Vec2) -> (r: Self) {
        Self::from_translation(value)
    }
}

impl vstd::std_specs::convert::FromSpecImpl<Vec2> for Transform {
    open spec fn obeys_from_spec() -> bool {
        true
    }

    open spec fn from_spec(value: Vec2) -> Self {
        Transform::spec_from_affine(translation_affine(value))
    }
}

impl From<(Vec2, Vec2)> for Transform {
    /// Create a transform with translation and scale.
    #[inline]
    fn from(value: (Vec2, Vec2)) -> (r: Self) {
        Self::from_translation_scale(value.0, value.1)
    }
}

impl vstd::std_specs::convert::FromSpecImpl<(Vec2, Vec2)> for Transform {
    open spec fn obeys_from_spec() -> bool {
        true
    }

    open spec fn from_spec(value: (Vec2, Vec2)) -> Self {
        Transform::spec_from_affine(
            affine_product(translation_affine(value.0), scale_affine(value.1)),
        )
    }
}

impl Default for Transform {
    /// The identity transform.
    fn default() -> (r: Self)
        ensures
            r@ == Transform::spec_identity(),
    {
        Self::identity()
    }
}

/// Each of `translate`, `scale` and `compose` multiplies its primitive onto
/// the right of the receiver. So the chain that starts from the identity,
/// translates, scales and then composes a rotation is the product
/// `identity * translation * scale * rotation`, in this order and with these
/// brackets, and what it does to a point is what that product does to it.
pub proof fn lemma_chain_multiplies_on_the_right(
    start: Transform,
    moved: Transform,
    scaled: Transform,
    turned: Transform,
    translation: Vec2,
    scale: Vec2,
    rotation: Transform,
    point: Vec2,
)
    requires
        start@ == Transform::spec_identity(),
        moved@ == start.spec_translate(translation),
        scaled@ == moved.spec_scale(scale),
        turned@ == scaled.spec_compose(rotation),
    ensures
        turned@ == affine_product(
            affine_product(
                affine_product(Transform::spec_identity(), translation_affine(translation)),
                scale_affine(scale),
            ),
            rotation@,
        ),
        affine_image(turned@, point) == affine_image(
            affine_product(
                affine_product(
                    affine_product(Transform::spec_identity(), translation_affine(translation)),
                    scale_affine(scale),
                ),
                rotation@,
            ),
            point,
        ),
{
}

} // verus!
