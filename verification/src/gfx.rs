//! Rendering and resource loading

use vstd::prelude::*;

pub use ecolor::Color32 as Color;
use ecolor::Color32;
use glam::Vec2;

mod canvas;
mod texture;
mod transform;
pub use canvas::{
    lemma_key_events_press_and_release, lemma_repeat_does_not_press, lemma_repeats_leave_input,
    Canvas, CanvasError, Command, CommandView, DisplayMode, Event, ScaleFactor, Viewport,
    ViewportScaling,
};
pub use texture::{
    color_has_alpha, image_color, image_height, image_rgb8, image_rgba8, image_width,
    lemma_destroyed_exactly_once, lemma_early_releases_keep, lemma_no_destroy_after_teardown,
    lemma_null_is_never_destroyed, lemma_release_leaves_others, lemma_sized_texture_draws,
    lemma_unowned_is_never_destroyed, quad_corner, quad_indices, quad_vertex, LedgerView,
    LoadError as TextureLoadError, Options as TextureOptions, Origin, PixelFormat, ScaleMode,
    SliceView, Texture, TextureData, TextureLedger, TextureSlice, TextureView, Upload,
};
pub use transform::{
    affine_image, affine_product, lemma_chain_multiplies_on_the_right, mat2_affine, mat3_affine,
    scale_affine, translation_affine, Transform,
};

verus! {

/// `ecolor::Color32`, a colour of four 8-bit channels with premultiplied alpha.
#[verifier::external_type_specification]
#[verifier::external_body]
pub struct ExColor32(ecolor::Color32);

/// The red, green, blue and alpha channels that `color` stores.
pub uninterp spec fn color_channels(color: Color32) -> (u8, u8, u8, u8);

/// Calls `ecolor::Color32::to_tuple`, which returns the four stored channels.
#[verifier::external_body]
pub(crate) fn channels(color: Color32) -> (c: (u8, u8, u8, u8))
    ensures
        c == color_channels(color),
{
    color.to_tuple()
}

/// Reads `ecolor::Color32::WHITE`, the opaque colour with every channel at 255.
#[verifier::external_body]
pub(crate) fn white() -> (color: Color32)
    ensures
        color_channels(color) == (255u8, 255u8, 255u8, 255u8),
{
    Color32::WHITE
}

/// A point on the screen with texture coordinates and color.
///
/// This is a rendering primitive.
#[derive(Debug, Clone, Copy)]
pub struct Vertex {
    /// 2D position of the vertex on screen.
    pub coord: Vec2,
    /// Color of the vertex.
    pub color: Color32,
    /// Texture coordinate of the vertex. This should be [0, 1].
    pub uv: Vec2,
}

/// What a [`Vertex`] stands for: its position, the channels of its colour and
/// its texture coordinate.
pub struct VertexView {
    /// 2D position of the vertex on screen.
    pub coord: Vec2,
    /// Red, green, blue and alpha of the vertex.
    pub color: (u8, u8, u8, u8),
    /// Texture coordinate of the vertex.
    pub uv: Vec2,
}

impl View for Vertex {
    type V = VertexView;

    open spec fn view(&self) -> VertexView {
        VertexView { coord: self.coord, color: color_channels(self.color), uv: self.uv }
    }
}

impl Vertex {
    /// Create a vertex from 2d coordinates and uv coordinates.
    ///
    /// The color will be white.
    #[must_use]
    pub fn from_xy_uv(coord: Vec2, uv: Vec2) -> (v: Self)
        ensures
            v@ == (VertexView { coord, color: (255u8, 255u8, 255u8, 255u8), uv }),
    {
        let color = white();
        Self { coord, color, uv }
    }
}

/// Objects which can be drawn by [`draw`].
pub trait Drawable {
    /// Whether [`Drawable::drawn`] says what drawing this object adds to a
    /// canvas. It does for the drawables of this crate. An implementation
    /// that leaves this out promises nothing about what it draws.
    open spec fn is_specified(&self) -> bool {
        false
    }

    /// The commands that drawing this object with `transform` adds to a
    /// canvas, where [`Drawable::is_specified`] holds.
    open spec fn drawn(&self, transform: Transform) -> Seq<CommandView> {
        Seq::empty()
    }

    /// Draws this object, applying a transform to it.
    ///
    /// You can use any of the drawing functions on the [`Canvas`]. Drawing your own geometry is
    /// possible via [`draw_geometry`][Canvas::draw_geometry].
    fn draw(&self, canvas: &mut Canvas, transform: Transform)
        ensures
            self.is_specified() ==> final(canvas)@ == old(canvas)@ + self.drawn(transform),
    ;
}

/// Clears the screen.
pub fn clear(canvas: &mut Canvas, color: Color32)
    ensures
        final(canvas)@ == old(canvas)@.push(CommandView::Clear(color_channels(color))),
{
    canvas.clear(color)
}

/// Display the current frame.
///
/// This is usually already called for you.
pub fn display(canvas: &mut Canvas)
    ensures
        final(canvas)@ == old(canvas)@.push(CommandView::Present),
{
    canvas.display()
}

/// Draws some [`Drawable`] object onto the screen.
///
/// This is the main drawing function. It can draw [textures][Texture] and [slices][TextureSlice],
/// positioned according to the [transform][Transform].
pub fn draw<T: Drawable>(canvas: &mut Canvas, object: &T, transform: Transform)
    ensures
        object.is_specified() ==> final(canvas)@ == old(canvas)@ + object.drawn(transform),
{
    object.draw(canvas, transform)
}

} // verus!
