use std::rc::Rc;

use vstd::prelude::*;

use glam::Vec2;
use image::{ColorType, DynamicImage, ImageError};

use crate::error::SdlError;
use crate::gfx::{Canvas, CommandView, Drawable, Transform, Vertex, VertexView};
use crate::math::{
    vec2_add, vec2_difference, vec2_div, vec2_from_u32, vec2_mul, vec2_of, vec2_product,
    vec2_quotient, vec2_sub, vec2_sum, Rect,
};

verus! {

/// `std::io::Error`, the failure of an operation on a file.
#[verifier::external_type_specification]
#[verifier::external_body]
pub struct ExIoError(std::io::Error);

/// `image::ImageError`, the failure to decode an image.
#[verifier::external_type_specification]
#[verifier::external_body]
pub struct ExImageError(image::ImageError);

/// `image::DynamicImage`, a decoded image in one of several pixel layouts.
#[verifier::external_type_specification]
#[verifier::external_body]
pub struct ExDynamicImage(image::DynamicImage);

/// `image::ColorType`, the pixel layout of a decoded image.
#[verifier::external_type_specification]
#[verifier::external_body]
pub struct ExColorType(image::ColorType);

/// The width of `img` in pixels.
pub uninterp spec fn image_width(img: DynamicImage) -> u32;

/// The height of `img` in pixels.
pub uninterp spec fn image_height(img: DynamicImage) -> u32;

/// The pixel layout of `img`.
pub uninterp spec fn image_color(img: DynamicImage) -> ColorType;

/// Whether the pixel layout `color` has an alpha channel.
pub uninterp spec fn color_has_alpha(color: ColorType) -> bool;

/// The pixels of `img`, row by row from the top, as four bytes each: red,
/// green, blue, alpha.
pub uninterp spec fn image_rgba8(img: DynamicImage) -> Seq<u8>;

/// The pixels of `img`, row by row from the top, as three bytes each: red,
/// green, blue.
pub uninterp spec fn image_rgb8(img: DynamicImage) -> Seq<u8>;

/// Calls `to_string` on a `std::io::Error`. The text comes from the operating
/// system, so nothing is said of it.
#[verifier::external_body]
fn io_error_message(error: &std::io::Error) -> (text: String) {
    error.to_string()
}

/// Calls `to_string` on an `image::ImageError`. The text may come from a file
/// error underneath, and so from the operating system: nothing is said of it.
#[verifier::external_body]
fn image_error_message(error: &ImageError) -> (text: String) {
    error.to_string()
}

/// Calls `image::DynamicImage::width`.
#[verifier::external_body]
fn width_of(img: &DynamicImage) -> (w: u32)
    ensures
        w == image_width(*img),
{
    img.width()
}

/// Calls `image::DynamicImage::height`.
#[verifier::external_body]
fn height_of(img: &DynamicImage) -> (h: u32)
    ensures
        h == image_height(*img),
{
    img.height()
}

/// Calls `image::DynamicImage::color`.
#[verifier::external_body]
fn color_of(img: &DynamicImage) -> (color: ColorType)
    ensures
        color == image_color(*img),
{
    img.color()
}

/// Calls `image::ColorType::has_alpha`.
#[verifier::external_body]
fn has_alpha(color: ColorType) -> (alpha: bool)
    ensures
        alpha == color_has_alpha(color),
{
    color.has_alpha()
}

/// Calls `image::DynamicImage::into_rgba8`, which converts the image to
/// 8-bit RGBA, and hands out the buffer of the result.
#[verifier::external_body]
fn into_rgba8(img: DynamicImage) -> (pixels: Vec<u8>)
    ensures
        pixels@ == image_rgba8(img),
{
    img.into_rgba8().into_raw()
}

/// Calls `image::DynamicImage::into_rgb8`, which converts the image to 8-bit
/// RGB, and hands out the buffer of the result.
#[verifier::external_body]
fn into_rgb8(img: DynamicImage) -> (pixels: Vec<u8>)
    ensures
        pixels@ == image_rgb8(img),
{
    img.into_rgb8().into_raw()
}

/// Calls `Rc::clone`, which gives another pointer to the same value.
#[verifier::external_body]
fn share(data: &Rc<TextureData>) -> (other: Rc<TextureData>)
    ensures
        other == *data,
{
    Rc::clone(data)
}

/// Texture load error.
#[derive(Debug)]
pub enum LoadError {
    /// This texture couldn't be opened.
    Io(std::io::Error),
    /// The image data couldn't be decoded.
    Decode(image::ImageError),
    /// The renderer failed to create a texture, for unknown reasons.
    Renderer(SdlError),
}

impl LoadError {
    /// Whether `text` is a description of this error: for a renderer error
    /// the description of the backend error. A file error and a decoding
    /// error are worded by the operating system or the decoder, and any text
    /// passes.
    pub open spec fn describes(self, text: Seq<char>) -> bool {
        match self {
            LoadError::Io(_) => true,
            LoadError::Decode(_) => true,
            LoadError::Renderer(e) => text == SdlError::spec_message(e@),
        }
    }

    /// A description of this error for people to read.
    pub fn message(&self) -> (s: String)
        ensures
            self.describes(s@),
    {
        match self {
            LoadError::Io(e) => io_error_message(e),
            LoadError::Decode(e) => image_error_message(e),
            LoadError::Renderer(e) => e.message(),
        }
    }
}

impl From<std::io::Error> for LoadError {
    fn from(e: std::io::Error) -> (r: Self) {
        LoadError::Io(e)
    }
}

impl vstd::std_specs::convert::FromSpecImpl<std::io::Error> for LoadError {
    open spec fn obeys_from_spec() -> bool {
        true
    }

    open spec fn from_spec(e: std::io::Error) -> Self {
        LoadError::Io(e)
    }
}

impl From<image::ImageError> for LoadError {
    fn from(e: image::ImageError) -> (r: Self) {
        LoadError::Decode(e)
    }
}

impl vstd::std_specs::convert::FromSpecImpl<image::ImageError> for LoadError {
    open spec fn obeys_from_spec() -> bool {
        true
    }

    open spec fn from_spec(e: image::ImageError) -> Self {
        LoadError::Decode(e)
    }
}

impl From<SdlError> for LoadError {
    fn from(e: SdlError) -> (r: Self) {
        LoadError::Renderer(e)
    }
}

impl vstd::std_specs::convert::FromSpecImpl<SdlError> for LoadError {
    open spec fn obeys_from_spec() -> bool {
        true
    }

    open spec fn from_spec(e: SdlError) -> Self {
        LoadError::Renderer(e)
    }
}

/// Texture origin.
///
/// This is usually on the top-left, as are the coordinates onscreen.
#[derive(Debug, Clone, Copy)]
pub struct Origin(pub Vec2);

impl Origin {
    /// Top left, [0, 0]
    pub fn top_left() -> (origin: Self)
        ensures
            origin.0 == vec2_of(0, 0),
    {
        Self(vec2_from_u32(0, 0))
    }

    /// Top right, [1, 0]
    pub fn top_right() -> (origin: Self)
        ensures
            origin.0 == vec2_of(1, 0),
    {
        Self(vec2_from_u32(1, 0))
    }

    /// Bottom left, [0, 1]
    pub fn bottom_left() -> (origin: Self)
        ensures
            origin.0 == vec2_of(0, 1),
    {
        Self(vec2_from_u32(0, 1))
    }

    /// Bottom right, [1, 1]
    pub fn bottom_right() -> (origin: Self)
        ensures
            origin.0 == vec2_of(1, 1),
    {
        Self(vec2_from_u32(1, 1))
    }

    /// Center, [0.5, 0.5]
    pub fn center() -> (origin: Self)
        ensures
            origin.0 == vec2_quotient(vec2_of(1, 1), vec2_of(2, 2)),
    {
        Self(vec2_div(vec2_from_u32(1, 1), vec2_from_u32(2, 2)))
    }
}

impl Default for Origin {
    /// Top left.
    fn default() -> (origin: Self)
        ensures
            origin.0 == vec2_of(0, 0),
    {
        Self::top_left()
    }
}

/// Texture scaling.
#[derive(Debug, Clone, Copy, PartialEq, Eq, Structural)]
pub enum ScaleMode {
    /// Nearest-neighbor scaling. This is best for pixel art.
    Nearest,
    /// Linear, "fuzzy" scaling.
    Linear,
}

impl ScaleMode {
    /// The number by which the backend knows this mode: 0 for nearest, 1 for
    /// linear.
    pub open spec fn spec_index(self) -> u32 {
        match self {
            ScaleMode::Nearest => 0,
            ScaleMode::Linear => 1,
        }
    }

    /// The number by which the backend knows this mode.
    pub fn index(self) -> (n: u32)
        ensures
            n == self.spec_index(),
    {
        match self {
            ScaleMode::Nearest => 0,
            ScaleMode::Linear => 1,
        }
    }
}

impl Default for ScaleMode {
    /// Nearest-neighbor scaling.
    fn default() -> (mode: Self)
        ensures
            mode == ScaleMode::Nearest,
    {
        ScaleMode::Nearest
    }
}

/// Texture load options.
#[derive(Debug, Clone, Copy)]
pub struct Options {
    /// How this texture is scaled. The default depends on engine [settings][crate::Settings].
    pub scaling: Option<ScaleMode>,
    /// The origin point for this texture. Defaults to top left.
    pub origin: Origin,
}

impl Default for Options {
    /// No scaling of its own, origin at the top left.
    fn default() -> (options: Self)
        ensures
            options.scaling is None,
            options.origin.0 == vec2_of(0, 0),
    {
        Self { scaling: None, origin: Origin::top_left() }
    }
}

impl From<ScaleMode> for Options {
    fn from(scaling: ScaleMode) -> (r: Self) {
        Self { scaling: Some(scaling), origin: Origin::top_left() }
    }
}

impl vstd::std_specs::convert::FromSpecImpl<ScaleMode> for Options {
    open spec fn obeys_from_spec() -> bool {
        true
    }

    open spec fn from_spec(scaling: ScaleMode) -> Self {
        Options { scaling: Some(scaling), origin: Origin(vec2_of(0, 0)) }
    }
}

impl From<Origin> for Options {
    fn from(origin: Origin) -> (r: Self) {
        Self { scaling: None, origin }
    }
}

impl vstd::std_specs::convert::FromSpecImpl<Origin> for Options {
    open spec fn obeys_from_spec() -> bool {
        true
    }

    open spec fn from_spec(origin: Origin) -> Self {
        Options { scaling: None, origin }
    }
}

/// Layout of the pixels handed to the backend.
#[derive(Debug, Clone, Copy, PartialEq, Eq, Structural)]
pub enum PixelFormat {
    /// Four bytes per pixel: red, green, blue, alpha.
    Rgba32,
    /// Three bytes per pixel: red, green, blue.
    Rgb24,
}

impl PixelFormat {
    /// How many bytes one pixel takes.
    pub open spec fn spec_byte_size_per_pixel(self) -> u32 {
        match self {
            PixelFormat::Rgba32 => 4,
            PixelFormat::Rgb24 => 3,
        }
    }

    /// How many bytes one pixel takes.
    pub fn byte_size_per_pixel(self) -> (n: u32)
        ensures
            n == self.spec_byte_size_per_pixel(),
    {
        match self {
            PixelFormat::Rgba32 => 4,
            PixelFormat::Rgb24 => 3,
        }
    }
}

/// Everything the backend needs to create a texture from a decoded image.
#[derive(Debug)]
pub struct Upload {
    /// Layout of `pixels`.
    pub format: PixelFormat,
    /// The pixels, row by row from the top.
    pub pixels: Vec<u8>,
    /// Width of the image in pixels.
    pub width: u32,
    /// Height of the image in pixels.
    pub height: u32,
    /// Length of one row of pixels in bytes.
    pub pitch: u64,
    /// The scale mode to give the texture, if it is to have one of its own.
    pub scaling: Option<ScaleMode>,
    /// The origin that the texture will have.
    pub origin: Origin,
}

impl Upload {
    /// The pixel format in which `img` is uploaded: with alpha if the image
    /// has an alpha channel, without if it has none.
    pub open spec fn format_of(img: DynamicImage) -> PixelFormat {
        if color_has_alpha(image_color(img)) {
            PixelFormat::Rgba32
        } else {
            PixelFormat::Rgb24
        }
    }

    /// The pixels of `img` in the format in which it is uploaded.
    pub open spec fn pixels_of(img: DynamicImage) -> Seq<u8> {
        if color_has_alpha(image_color(img)) {
            image_rgba8(img)
        } else {
            image_rgb8(img)
        }
    }

    /// The pixel format of pixels with or without an alpha channel.
    pub open spec fn format_for(has_alpha: bool) -> PixelFormat {
        if has_alpha {
            PixelFormat::Rgba32
        } else {
            PixelFormat::Rgb24
        }
    }

    /// Whether the pixel buffer is exactly as long as the rows of the image
    /// take: the length of a row times the height.
    pub open spec fn spec_fits(&self) -> bool {
        self.pixels@.len() == self.pitch * self.height
    }

    /// Describes the texture that the backend is to create from pixels in
    /// memory, given row by row from the top: four bytes a pixel with an
    /// alpha channel, three without.
    pub fn from_pixels(
        pixels: Vec<u8>,
        width: u32,
        height: u32,
        has_alpha: bool,
        options: &Options,
    ) -> (upload: Self)
        ensures
            upload.format == Self::format_for(has_alpha),
            upload.pixels == pixels,
            upload.width == width,
            upload.height == height,
            upload.pitch == width * Self::format_for(has_alpha).spec_byte_size_per_pixel(),
            upload.scaling == options.scaling,
            upload.origin == options.origin,
    {
        let format = if has_alpha {
            PixelFormat::Rgba32
        } else {
            PixelFormat::Rgb24
        };
        let size = format.byte_size_per_pixel();
        assert(width * size <= 0xffff_ffff * 4) by (nonlinear_arith)
            requires
                width <= 0xffff_ffff,
                size <= 4,
        ;
        let pitch: u64 = width as u64 * size as u64;
        Self {
            format,
            pixels,
            width,
            height,
            pitch,
            scaling: options.scaling,
            origin: options.origin,
        }
    }

    /// Whether the pixel buffer is exactly as long as the rows of the image
    /// take. The backend reads that many bytes, so an upload that does not
    /// fit must not reach it.
    pub fn fits(&self) -> (fits: bool)
        ensures
            fits == self.spec_fits(),
    {
        let rows = self.height as u128;
        let bytes = self.pitch as u128;
        assert(bytes * rows <= 0xffff_ffff_ffff_ffff * 0xffff_ffff) by (nonlinear_arith)
            requires
                bytes <= 0xffff_ffff_ffff_ffff,
                rows <= 0xffff_ffff,
        ;
        self.pixels.len() as u128 == bytes * rows
    }

    /// Describes the texture that the backend is to create from a decoded
    /// image: the pixels in RGBA or RGB, the size of the image, the length of
    /// a row, and the scale mode and origin asked for.
    pub fn from_image(img: DynamicImage, options: &Options) -> (upload: Self)
        ensures
            upload.format == Self::format_of(img),
            upload.pixels@ == Self::pixels_of(img),
            upload.width == image_width(img),
            upload.height == image_height(img),
            upload.pitch == image_width(img) * Self::format_of(img).spec_byte_size_per_pixel(),
            upload.scaling == options.scaling,
            upload.origin == options.origin,
    {
        let width = width_of(&img);
        let height = height_of(&img);
        let (format, pixels) = if has_alpha(color_of(&img)) {
            (PixelFormat::Rgba32, into_rgba8(img))
        } else {
            (PixelFormat::Rgb24, into_rgb8(img))
        };
        let pitch: u64 = width as u64 * format.byte_size_per_pixel() as u64;
        Self {
            format,
            pixels,
            width,
            height,
            pitch,
            scaling: options.scaling,
            origin: options.origin,
        }
    }
}

/// One image resource on the GPU: the handle under which the backend knows
/// it, and its size in pixels. The null handle, 0, stands for no resource.
#[derive(Debug, PartialEq, Eq, Structural)]
pub struct TextureData {
    handle: usize,
    w: u32,
    h: u32,
}

impl TextureData {
    /// A resource that has a size exists: only the null handle comes with
    /// no width and no height.
    #[verifier::type_invariant]
    spec fn sized_exists(&self) -> bool {
        self.handle == 0 ==> self.w == 0 && self.h == 0
    }

    /// The handle under which the backend knows this resource.
    pub closed spec fn spec_raw(&self) -> usize {
        self.handle
    }

    /// Width of the resource in pixels.
    pub closed spec fn spec_width(&self) -> u32 {
        self.w
    }

    /// Height of the resource in pixels.
    pub closed spec fn spec_height(&self) -> u32 {
        self.h
    }

    /// The placeholder: no resource, no size.
    pub fn empty() -> (data: Self)
        ensures
            data.spec_raw() == 0,
            data.spec_width() == 0,
            data.spec_height() == 0,
    {
        Self { handle: 0, w: 0, h: 0 }
    }

    /// The resource that the backend made for `upload`. `created` is what the
    /// backend answered: the handle of the new texture, or why there is none.
    /// A failure, and a null handle too, is a renderer error.
    pub fn from_image(upload: &Upload, created: Result<usize, SdlError>) -> (data: Result<
        Self,
        LoadError,
    >)
        ensures
            match created {
                Ok(handle) if handle != 0 => data matches Ok(d) && d.spec_raw() == handle
                    && d.spec_width() == upload.width && d.spec_height() == upload.height,
                Ok(_) => data matches Err(LoadError::Renderer(e)) && e@ == Seq::<char>::empty(),
                Err(cause) => data == Err::<Self, LoadError>(LoadError::Renderer(cause)),
            },
    {
        match created {
            Ok(handle) => {
                if handle != 0 {
                    Ok(Self { handle, w: upload.width, h: upload.height })
                } else {
                    Err(LoadError::Renderer(SdlError::new(String::new())))
                }
            },
            Err(cause) => Err(LoadError::Renderer(cause)),
        }
    }

    /// The handle under which the backend knows this resource.
    pub fn raw(&self) -> (handle: usize)
        ensures
            handle == self.spec_raw(),
            handle == 0 ==> self.spec_width() == 0 && self.spec_height() == 0,
    {
        proof {
            use_type_invariant(self);
        }
        self.handle
    }
}

/// What a [`Texture`] stands for.
pub struct TextureView {
    /// Backend handle of the shared resource; 0 for the placeholder.
    pub handle: usize,
    /// Width of the resource in pixels.
    pub width: u32,
    /// Height of the resource in pixels.
    pub height: u32,
    /// The pivot, in units of the texture's size.
    pub origin: Vec2,
}

impl TextureView {
    /// Whether the texture is one that exists: a texture that has a size has
    /// a resource, so the null handle comes with no width and no height.
    /// Every [`Texture`] is such a texture.
    pub open spec fn is_valid(self) -> bool {
        self.handle == 0 ==> self.width == 0 && self.height == 0
    }
}

/// An image which lives on the GPU.
#[must_use]
#[derive(Debug)]
pub struct Texture {
    data: Rc<TextureData>,
    origin: Vec2,
}

impl View for Texture {
    type V = TextureView;

    closed spec fn view(&self) -> TextureView {
        TextureView {
            handle: self.data.spec_raw(),
            width: self.data.spec_width(),
            height: self.data.spec_height(),
            origin: self.origin,
        }
    }
}

/// The corner of the unit square with the given number: top left, top right,
/// bottom left, bottom right.
pub open spec fn quad_corner(i: int) -> Vec2 {
    vec2_of((i % 2) as u32, (i / 2) as u32)
}

/// The order in which the corners of a quad form its two triangles.
pub open spec fn quad_indices() -> Seq<i32> {
    seq![0i32, 1i32, 2i32, 2i32, 1i32, 3i32]
}

/// The white vertex that a quad drawn with `affine` has at `corner` of the
/// unit square: the pivot `origin` is taken off the corner before the map is
/// applied, and the texture coordinate is `uv`.
pub open spec fn quad_vertex(affine: glam::Affine2, origin: Vec2, corner: Vec2, uv: Vec2) -> VertexView {
    VertexView {
        coord: crate::gfx::transform::affine_image(affine, vec2_difference(corner, origin)),
        color: (255u8, 255u8, 255u8, 255u8),
        uv,
    }
}

impl Texture {
    /// The request that drawing the whole texture with `transform` makes: a
    /// quad of the texture's size in pixels, over the whole image.
    pub open spec fn quad(self, transform: Transform) -> CommandView {
        let affine = transform.spec_scale(vec2_of(self@.width, self@.height));
        CommandView::Geometry {
            texture: self@.handle,
            vertices: Seq::new(
                4,
                |i: int| quad_vertex(affine, self@.origin, quad_corner(i), quad_corner(i)),
            ),
            indices: Some(quad_indices()),
        }
    }

    /// Creates an empty texture. This is a placeholder value.
    pub fn empty() -> (texture: Self)
        ensures
            texture@ == (TextureView { handle: 0, width: 0, height: 0, origin: vec2_of(0, 0) }),
            texture@.is_valid(),
    {
        let data = Rc::new(TextureData::empty());
        let origin = vec2_from_u32(0, 0);
        Self { data, origin }
    }

    /// Describes the texture that the backend is to create from an image in
    /// memory.
    pub fn upload(img: DynamicImage, options: Options) -> (upload: Upload)
        ensures
            upload.format == Upload::format_of(img),
            upload.pixels@ == Upload::pixels_of(img),
            upload.width == image_width(img),
            upload.height == image_height(img),
            upload.pitch == image_width(img) * Upload::format_of(img).spec_byte_size_per_pixel(),
            upload.scaling == options.scaling,
            upload.origin == options.origin,
    {
        Upload::from_image(img, &options)
    }

    /// Describes the texture that the backend is to create from pixels in
    /// memory.
    pub fn upload_pixels(
        pixels: Vec<u8>,
        width: u32,
        height: u32,
        has_alpha: bool,
        options: Options,
    ) -> (upload: Upload)
        ensures
            upload.format == Upload::format_for(has_alpha),
            upload.pixels == pixels,
            upload.width == width,
            upload.height == height,
            upload.pitch == width * Upload::format_for(has_alpha).spec_byte_size_per_pixel(),
            upload.scaling == options.scaling,
            upload.origin == options.origin,
    {
        Upload::from_pixels(pixels, width, height, has_alpha, &options)
    }

    /// Creates a texture from an image in memory, once the backend has
    /// answered the upload: `created` is the handle of the new texture, or
    /// why there is none.
    pub fn from_image(upload: &Upload, created: Result<usize, SdlError>) -> (texture: Result<
        Self,
        LoadError,
    >)
        ensures
            match created {
                Ok(handle) if handle != 0 => texture matches Ok(t) && t@.is_valid() && t@ == (
                TextureView {
                    handle,
                    width: upload.width,
                    height: upload.height,
                    origin: upload.origin.0,
                }),
                Ok(_) => texture matches Err(LoadError::Renderer(e)) && e@ == Seq::<char>::empty(),
                Err(cause) => texture matches Err(LoadError::Renderer(e)) && e == cause,
            },
    {
        let origin = upload.origin.0;
        match TextureData::from_image(upload, created) {
            Ok(data) => Ok(Self { data: Rc::new(data), origin }),
            Err(e) => Err(e),
        }
    }

    /// The texture that stands in for one that failed to load: whatever the
    /// outcome of loading, a texture comes back, the empty one on failure.
    pub fn or_empty(loaded: Result<Self, LoadError>) -> (texture: Self)
        ensures
            match loaded {
                Ok(t) => texture == t,
                Err(_) => texture@ == (TextureView {
                    handle: 0,
                    width: 0,
                    height: 0,
                    origin: vec2_of(0, 0),
                }),
            },
            texture@.is_valid(),
    {
        let texture = match loaded {
            Ok(t) => t,
            Err(_) => Self::empty(),
        };
        proof {
            use_type_invariant(&*texture.data);
        }
        texture
    }

    /// Creates a slice which points to part of this texture. Useful for spritesheets.
    pub fn slice(&self, rect: Rect) -> (slice: TextureSlice)
        ensures
            slice@ == (SliceView { texture: self@, rect }),
            slice@.texture.is_valid(),
    {
        proof {
            use_type_invariant(&*self.data);
        }
        let texture = Self { data: share(&self.data), origin: self.origin };
        TextureSlice { texture, rect }
    }

    /// Sets the origin on this texture.
    pub fn with_origin(self, origin: Origin) -> (texture: Self)
        ensures
            texture@ == (TextureView { origin: origin.0, ..self@ }),
            texture@.is_valid(),
    {
        proof {
            use_type_invariant(&*self.data);
        }
        Self { data: self.data, origin: origin.0 }
    }

    /// Another handle to the same resource, with the same origin.
    pub fn share(&self) -> (texture: Self)
        ensures
            texture@ == self@,
            texture@.is_valid(),
    {
        proof {
            use_type_invariant(&*self.data);
        }
        Self { data: share(&self.data), origin: self.origin }
    }

    /// The width of this texture.
    #[must_use]
    pub fn width(&self) -> (w: u32)
        ensures
            w == self@.width,
            self@.is_valid(),
    {
        proof {
            use_type_invariant(&*self.data);
        }
        self.data.w
    }

    /// The height of this texture.
    #[must_use]
    pub fn height(&self) -> (h: u32)
        ensures
            h == self@.height,
            self@.is_valid(),
    {
        proof {
            use_type_invariant(&*self.data);
        }
        self.data.h
    }

    /// The handle under which the backend knows the resource of this texture.
    pub fn raw(&self) -> (handle: usize)
        ensures
            handle == self@.handle,
            self@.is_valid(),
    {
        self.data.raw()
    }
}

impl Clone for Texture {
    /// Another handle to the same resource, with the same origin.
    fn clone(&self) -> (texture: Self)
        ensures
            texture@ == self@,
            texture@.is_valid(),
    {
        self.share()
    }
}

/// What a [`TextureSlice`] stands for.
pub struct SliceView {
    /// The texture that the slice shows a part of.
    pub texture: TextureView,
    /// The part, in pixels of the texture.
    pub rect: Rect,
}

/// A [`Texture`] which only draws a small rectangle of it.
#[must_use]
#[derive(Debug)]
pub struct TextureSlice {
    texture: Texture,
    rect: Rect,
}

impl View for TextureSlice {
    type V = SliceView;

    closed spec fn view(&self) -> SliceView {
        SliceView { texture: self.texture@, rect: self.rect }
    }
}

impl Clone for TextureSlice {
    /// Another view of the same part of the same texture.
    fn clone(&self) -> (slice: Self)
        ensures
            slice@ == self@,
            slice@.texture.is_valid(),
    {
        Self { texture: self.texture.share(), rect: self.rect }
    }
}

impl TextureSlice {
    /// The texture coordinate that the slice has at `corner` of the unit
    /// square: the corner taken to the slice's share of the texture, then
    /// moved to where the slice starts.
    pub open spec fn uv_at(self, corner: Vec2) -> Vec2 {
        let size = vec2_of(self@.texture.width, self@.texture.height);
        let start = vec2_quotient(vec2_of(self@.rect.x, self@.rect.y), size);
        let extent = vec2_quotient(vec2_of(self@.rect.w, self@.rect.h), size);
        vec2_sum(vec2_product(corner, extent), start)
    }

    /// The request that drawing the slice with `transform` makes: a quad of
    /// the rectangle's size in pixels, over the rectangle's part of the image.
    pub open spec fn quad(self, transform: Transform) -> CommandView {
        let affine = transform.spec_scale(vec2_of(self@.rect.w, self@.rect.h));
        CommandView::Geometry {
            texture: self@.texture.handle,
            vertices: Seq::new(
                4,
                |i: int|
                    quad_vertex(
                        affine,
                        self@.texture.origin,
                        quad_corner(i),
                        self.uv_at(quad_corner(i)),
                    ),
            ),
            indices: Some(quad_indices()),
        }
    }

    /// The width of this slice.
    #[must_use]
    pub fn width(&self) -> (w: u32)
        ensures
            w == self@.rect.w,
            self@.texture.is_valid(),
    {
        proof {
            use_type_invariant(&*self.texture.data);
        }
        self.rect.w
    }

    /// The height of this slice.
    #[must_use]
    pub fn height(&self) -> (h: u32)
        ensures
            h == self@.rect.h,
            self@.texture.is_valid(),
    {
        proof {
            use_type_invariant(&*self.texture.data);
        }
        self.rect.h
    }
}

/// The four corners of the unit square and the index list of its two
/// triangles.
fn quad_corners() -> (corners: [Vec2; 4])
    ensures
        forall|i: int| 0 <= i < 4 ==> corners[i] == quad_corner(i),
{
    [vec2_from_u32(0, 0), vec2_from_u32(1, 0), vec2_from_u32(0, 1), vec2_from_u32(1, 1)]
}

impl Drawable for Texture {
    open spec fn is_specified(&self) -> bool {
        true
    }

    /// Nothing for the placeholder, else the quad of the texture.
    open spec fn drawn(&self, transform: Transform) -> Seq<CommandView> {
        if self@.handle == 0 {
            Seq::empty()
        } else {
            seq![self.quad(transform)]
        }
    }

    fn draw(&self, canvas: &mut Canvas, transform: Transform) {
        if self.raw() == 0 {
            assert(canvas@ =~= old(canvas)@ + self.drawn(transform));
            return ;
        }
        let size = vec2_from_u32(self.data.w, self.data.h);
        let scaled = transform.scale(size);
        let corners = quad_corners();
        let mut verts: Vec<Vertex> = Vec::new();
        let mut i: usize = 0;
        while i < 4
            invariant
                0 <= i <= 4,
                verts.len() == i,
                forall|j: int| 0 <= j < 4 ==> corners[j] == quad_corner(j),
                forall|j: int|
                    0 <= j < i ==> (#[trigger] verts@[j])@ == quad_vertex(
                        scaled@,
                        self@.origin,
                        quad_corner(j),
                        quad_corner(j),
                    ),
            decreases 4 - i,
        {
            let p = corners[i];
            let at = scaled.transform_point(vec2_sub(p, self.origin));
            verts.push(Vertex::from_xy_uv(at, p));
            i += 1;
        }
        let indices: [i32; 6] = [0, 1, 2, 2, 1, 3];
        canvas.draw_geometry(self, verts.as_slice(), Some(indices.as_slice()));
        proof {
            assert(verts@.map_values(|v: Vertex| v@) =~= self.quad(transform)->vertices);
            assert(indices@ =~= quad_indices());
            assert(canvas@ =~= old(canvas)@ + self.drawn(transform));
        }
    }
}

impl Drawable for TextureSlice {
    open spec fn is_specified(&self) -> bool {
        true
    }

    /// Nothing for a slice of the placeholder, else the quad of the slice.
    open spec fn drawn(&self, transform: Transform) -> Seq<CommandView> {
        if self@.texture.handle == 0 {
            Seq::empty()
        } else {
            seq![self.quad(transform)]
        }
    }

    fn draw(&self, canvas: &mut Canvas, transform: Transform) {
        if self.texture.raw() == 0 {
            assert(canvas@ =~= old(canvas)@ + self.drawn(transform));
            return ;
        }
        let origin = self.texture.origin;
        let extent = vec2_from_u32(self.texture.data.w, self.texture.data.h);

        let size = vec2_from_u32(self.rect.w, self.rect.h);
        let uv = vec2_div(vec2_from_u32(self.rect.x, self.rect.y), extent);
        let uv_size = vec2_div(size, extent);
        let scaled = transform.scale(size);

        let corners = quad_corners();
        let mut verts: Vec<Vertex> = Vec::new();
        let mut i: usize = 0;
        while i < 4
            invariant
                0 <= i <= 4,
                verts.len() == i,
                forall|j: int| 0 <= j < 4 ==> corners[j] == quad_corner(j),
                forall|corner: Vec2|
                    self.uv_at(corner) == vec2_sum(#[trigger] vec2_product(corner, uv_size), uv),
                forall|j: int|
                    0 <= j < i ==> (#[trigger] verts@[j])@ == quad_vertex(
                        scaled@,
                        origin,
                        quad_corner(j),
                        self.uv_at(quad_corner(j)),
                    ),
            decreases 4 - i,
        {
            let p = corners[i];
            let at = scaled.transform_point(vec2_sub(p, origin));
            verts.push(Vertex::from_xy_uv(at, vec2_add(vec2_mul(p, uv_size), uv)));
            i += 1;
        }
        let indices: [i32; 6] = [0, 1, 2, 2, 1, 3];
        canvas.draw_geometry(&self.texture, verts.as_slice(), Some(indices.as_slice()));
        proof {
            assert(verts@.map_values(|v: Vertex| v@) =~= self.quad(transform)->vertices);
            assert(indices@ =~= quad_indices());
            assert(canvas@ =~= old(canvas)@ + self.drawn(transform));
        }
    }
}

/// What a [`TextureLedger`] stands for.
pub struct LedgerView {
    /// How many owners each resource has, by its handle. A handle without
    /// owners is not in the map.
    pub owners: Map<usize, nat>,
    /// Whether the rendering context that made the resources is still there.
    pub alive: bool,
}

impl LedgerView {
    /// How many owners the resource with this handle has.
    pub open spec fn count(self, handle: usize) -> nat {
        if self.owners.contains_key(handle) {
            self.owners[handle]
        } else {
            0
        }
    }

    /// Whether one more owner of `handle` can be counted: the null handle has
    /// no owners, and a count stops at the largest number.
    pub open spec fn can_retain(self, handle: usize) -> bool {
        handle != 0 && self.count(handle) < usize::MAX
    }

    /// The ledger after one more owner of `handle` is counted.
    pub open spec fn retain(self, handle: usize) -> LedgerView {
        if self.can_retain(handle) {
            LedgerView { owners: self.owners.insert(handle, self.count(handle) + 1), ..self }
        } else {
            self
        }
    }

    /// The ledger after one owner of `handle` is gone.
    pub open spec fn release(self, handle: usize) -> LedgerView {
        if handle == 0 || self.count(handle) == 0 {
            self
        } else if self.count(handle) == 1 {
            LedgerView { owners: self.owners.remove(handle), ..self }
        } else {
            LedgerView {
                owners: self.owners.insert(handle, (self.count(handle) - 1) as nat),
                ..self
            }
        }
    }

    /// Whether the backend is to destroy the resource when one owner of
    /// `handle` goes: it is the last owner, and the rendering context is
    /// still there.
    pub open spec fn destroys(self, handle: usize) -> bool {
        handle != 0 && self.count(handle) == 1 && self.alive
    }

    /// The ledger after the rendering context is gone.
    pub open spec fn teardown(self) -> LedgerView {
        LedgerView { alive: false, ..self }
    }

    /// The ledger after `n` owners of `handle` are gone, one after the other.
    pub open spec fn release_times(self, handle: usize, n: nat) -> LedgerView
        decreases n,
    {
        if n == 0 {
            self
        } else {
            self.release(handle).release_times(handle, (n - 1) as nat)
        }
    }

    /// How often the backend is asked to destroy the resource while `n`
    /// owners of `handle` go, one after the other.
    pub open spec fn destroy_calls(self, handle: usize, n: nat) -> nat
        decreases n,
    {
        if n == 0 {
            0
        } else {
            (if self.destroys(handle) {
                1nat
            } else {
                0nat
            }) + self.release(handle).destroy_calls(handle, (n - 1) as nat)
        }
    }
}

/// Keeps count of the owners of each GPU resource, and says when the backend
/// is to destroy one: when its last owner goes, and only as long as the
/// rendering context is there.
#[derive(Debug)]
pub struct TextureLedger {
    owners: std::collections::BTreeMap<usize, usize>,
    alive: bool,
}

impl View for TextureLedger {
    type V = LedgerView;

    closed spec fn view(&self) -> LedgerView {
        LedgerView {
            owners: Map::new(
                |handle: usize| self.owners@.contains_key(handle) && self.owners@[handle] > 0,
                |handle: usize| self.owners@[handle] as nat,
            ),
            alive: self.alive,
        }
    }
}

impl TextureLedger {
    /// A ledger without resources, for a rendering context that is there.
    pub fn new() -> (ledger: Self)
        ensures
            ledger@ == (LedgerView { owners: Map::empty(), alive: true }),
    {
        let ledger = Self { owners: std::collections::BTreeMap::new(), alive: true };
        assert(ledger@.owners =~= Map::<usize, nat>::empty());
        ledger
    }

    /// Whether the rendering context is still there.
    pub fn is_alive(&self) -> (alive: bool)
        ensures
            alive == self@.alive,
    {
        self.alive
    }

    /// How many owners the resource with this handle has.
    pub fn owners(&self, handle: usize) -> (count: usize)
        ensures
            count == self@.count(handle),
    {
        match self.owners.get(&handle) {
            Some(count) => *count,
            None => 0,
        }
    }

    /// Counts one more owner of the resource `handle`: a texture that was
    /// created, or one more handle to a texture. Returns whether it was
    /// counted; the null handle never is.
    pub fn retain(&mut self, handle: usize) -> (counted: bool)
        ensures
            counted == old(self)@.can_retain(handle),
            final(self)@ == old(self)@.retain(handle),
    {
        let count = self.owners(handle);
        if handle != 0 && count < usize::MAX {
            self.owners.insert(handle, count + 1);
            assert(self@.owners =~= old(self)@.retain(handle).owners);
            true
        } else {
            false
        }
    }

    /// One owner of the resource `handle` is gone. Returns the handle when
    /// the backend is to destroy the resource now, which is when this was its
    /// last owner and the rendering context is there.
    pub fn release(&mut self, handle: usize) -> (destroy: Option<usize>)
        ensures
            final(self)@ == old(self)@.release(handle),
            destroy == if old(self)@.destroys(handle) {
                Some(handle)
            } else {
                None
            },
    {
        let count = self.owners(handle);
        if handle == 0 || count == 0 {
            None
        } else if count == 1 {
            self.owners.remove(&handle);
            assert(self@.owners =~= old(self)@.release(handle).owners);
            if self.alive {
                Some(handle)
            } else {
                None
            }
        } else {
            self.owners.insert(handle, count - 1);
            assert(self@.owners =~= old(self)@.release(handle).owners);
            None
        }
    }

    /// The rendering context is gone: from now on no resource is destroyed.
    pub fn teardown(&mut self)
        ensures
            final(self)@ == old(self)@.teardown(),
    {
        self.alive = false;
        assert(self@.owners =~= old(self)@.owners);
    }
}

/// Drawing a texture that has a size submits its quad, and so does drawing a
/// slice of it: only the placeholder, which has no size, draws nothing.
pub proof fn lemma_sized_texture_draws(
    texture: Texture,
    slice: TextureSlice,
    transform: Transform,
)
    requires
        texture@.is_valid(),
        texture@.width > 0 || texture@.height > 0,
        slice@.texture == texture@,
    ensures
        texture.drawn(transform) == seq![texture.quad(transform)],
        slice.drawn(transform) == seq![slice.quad(transform)],
{
}

/// While owners of a resource remain after a release, nothing is destroyed:
/// fewer releases than there are owners make no destroy call.
pub proof fn lemma_early_releases_keep(ledger: LedgerView, handle: usize, n: nat)
    requires
        handle != 0,
        n < ledger.count(handle),
    ensures
        ledger.destroy_calls(handle, n) == 0,
        ledger.release_times(handle, n).count(handle) == ledger.count(handle) - n,
        ledger.release_times(handle, n).alive == ledger.alive,
    decreases n,
{
    if n > 0 {
        lemma_early_releases_keep(ledger.release(handle), handle, (n - 1) as nat);
    }
}

/// The null handle stands for no resource: no release of it makes a destroy
/// call.
pub proof fn lemma_null_is_never_destroyed(ledger: LedgerView, n: nat)
    ensures
        ledger.destroy_calls(0, n) == 0,
    decreases n,
{
    if n > 0 {
        lemma_null_is_never_destroyed(ledger.release(0), (n - 1) as nat);
    }
}

/// A resource without owners is not destroyed again, however often it is
/// released.
pub proof fn lemma_unowned_is_never_destroyed(ledger: LedgerView, handle: usize, n: nat)
    requires
        ledger.count(handle) == 0,
    ensures
        ledger.destroy_calls(handle, n) == 0,
    decreases n,
{
    if n > 0 {
        lemma_unowned_is_never_destroyed(ledger.release(handle), handle, (n - 1) as nat);
    }
}

/// When every owner of a resource is released, and however many releases
/// follow, the backend is asked to destroy the resource exactly once if the
/// rendering context is there, and never if it is gone.
pub proof fn lemma_destroyed_exactly_once(ledger: LedgerView, handle: usize, n: nat)
    requires
        handle != 0,
        1 <= ledger.count(handle) <= n,
    ensures
        ledger.alive ==> ledger.destroy_calls(handle, n) == 1,
        !ledger.alive ==> ledger.destroy_calls(handle, n) == 0,
        ledger.release_times(handle, n).count(handle) == 0,
    decreases n,
{
    let next = ledger.release(handle);
    if ledger.count(handle) == 1 {
        lemma_unowned_is_never_destroyed(next, handle, (n - 1) as nat);
        lemma_unowned_stays(next, handle, (n - 1) as nat);
    } else {
        lemma_destroyed_exactly_once(next, handle, (n - 1) as nat);
    }
}

/// Releasing a resource without owners leaves it without owners.
proof fn lemma_unowned_stays(ledger: LedgerView, handle: usize, n: nat)
    requires
        ledger.count(handle) == 0,
    ensures
        ledger.release_times(handle, n).count(handle) == 0,
    decreases n,
{
    if n > 0 {
        lemma_unowned_stays(ledger.release(handle), handle, (n - 1) as nat);
    }
}

/// Once the rendering context is gone, releasing the owners of a resource
/// makes no destroy call at all.
pub proof fn lemma_no_destroy_after_teardown(ledger: LedgerView, handle: usize, n: nat)
    ensures
        ledger.teardown().destroy_calls(handle, n) == 0,
    decreases n,
{
    if n > 0 {
        let next = ledger.teardown().release(handle);
        assert(next == ledger.release(handle).teardown());
        lemma_no_destroy_after_teardown(ledger.release(handle), handle, (n - 1) as nat);
    }
}

/// Releases of one resource leave the owners of every other resource as they
/// are.
pub proof fn lemma_release_leaves_others(ledger: LedgerView, handle: usize, other: usize)
    requires
        other != handle,
    ensures
        ledger.release(handle).count(other) == ledger.count(other),
        ledger.retain(handle).count(other) == ledger.count(other),
{
}

} // verus!
