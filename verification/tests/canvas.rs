use baba::gfx::{
    clear, display, Canvas, CanvasError, Color, Command, DisplayMode, ScaleFactor, Texture,
    TextureOptions, Vertex, Viewport, ViewportScaling,
};
use baba::{Error, SdlError};
use glam::Vec2;
use image::DynamicImage;

fn describe(command: &Command) -> String {
    format!("{:?}", command)
}

#[test]
fn integer_viewport_picks_whole_multiple() {
    let viewport = Viewport::new(224, 224);
    assert_eq!(viewport.logical_size, (224, 224));
    assert_eq!(viewport.scaling, ViewportScaling::Integer);
    // 800 / 224 is 3.57 and 600 / 224 is 2.68: the height is the tighter axis
    assert_eq!(viewport.scale_factor((800, 600)), Some(ScaleFactor { numer: 2, denom: 1 }));
    // the width alone would allow 3, and so does a window that is high enough
    assert_eq!(viewport.scale_factor((800, 800)), Some(ScaleFactor { numer: 3, denom: 1 }));
    assert_eq!(viewport.scale_factor((800, 672)), Some(ScaleFactor { numer: 3, denom: 1 }));
    assert_eq!(viewport.scale_factor((800, 671)), Some(ScaleFactor { numer: 2, denom: 1 }));
}

#[test]
fn fractional_viewport_keeps_the_fraction() {
    let viewport = Viewport::new(224, 224).fractional();
    assert_eq!(viewport.scaling, ViewportScaling::Fractional);
    assert_eq!(viewport.scale_factor((800, 600)), Some(ScaleFactor { numer: 600, denom: 224 }));
    assert_eq!(viewport.integer().scaling, ViewportScaling::Integer);
}

#[test]
fn scale_follows_the_tighter_axis() {
    assert_eq!(
        Viewport::new(100, 50).scale_factor((250, 1000)),
        Some(ScaleFactor { numer: 2, denom: 1 })
    );
    assert_eq!(
        Viewport::new(100, 50).scale_factor((1000, 250)),
        Some(ScaleFactor { numer: 5, denom: 1 })
    );
    assert_eq!(
        Viewport::new(320, 240).scale_factor((100, 100)),
        Some(ScaleFactor { numer: 0, denom: 1 })
    );
    assert_eq!(
        Viewport::new(u32::MAX, 1).fractional().scale_factor((u32::MAX, u32::MAX)),
        Some(ScaleFactor { numer: u32::MAX, denom: u32::MAX })
    );
    assert_eq!(Viewport::new(0, 10).scale_factor((800, 600)), None);
    assert_eq!(Viewport::new(10, 0).fractional().scale_factor((800, 600)), None);
}

#[test]
fn requests_are_recorded_in_order() {
    let mut canvas = Canvas::new();
    assert!(canvas.commands().is_empty());
    canvas.set_window_title("Hello");
    canvas.set_window_size(640, 480);
    canvas.set_viewport(&Viewport::new(320, 240));
    canvas.set_viewport(&Viewport::new(32, 24).fractional());
    canvas.set_vsync(true);
    canvas.show_window();
    canvas.clear(Color::from_rgb(0x2f, 0x28, 0x43));
    canvas.display();
    let seen: Vec<String> = canvas.commands().iter().map(describe).collect();
    assert_eq!(
        seen,
        vec![
            "SetWindowTitle(\"Hello\")",
            "SetWindowSize(640, 480)",
            "SetLogicalSize(320, 240)",
            "SetIntegerScaling(true)",
            "SetLogicalSize(32, 24)",
            "SetIntegerScaling(false)",
            "SetVsync(true)",
            "ShowWindow",
            "Clear(47, 40, 67, 255)",
            "Present",
        ]
    );
    let taken = canvas.take_commands();
    assert_eq!(taken.len(), 10);
    assert!(canvas.commands().is_empty());
}

#[test]
fn free_functions_record_too() {
    let mut canvas = Canvas::new();
    clear(&mut canvas, Color::WHITE);
    display(&mut canvas);
    let seen: Vec<String> = canvas.commands().iter().map(describe).collect();
    assert_eq!(seen, vec!["Clear(255, 255, 255, 255)", "Present"]);
}

#[test]
fn clear_passes_the_stored_channels() {
    let mut canvas = Canvas::new();
    canvas.clear(Color::from_rgba_premultiplied(1, 2, 3, 4));
    match &canvas.commands()[0] {
        Command::Clear(r, g, b, a) => assert_eq!((*r, *g, *b, *a), (1, 2, 3, 4)),
        other => panic!("unexpected: {:?}", other),
    }
}

#[test]
fn geometry_is_copied_as_given() {
    let upload = Texture::upload(DynamicImage::new_rgba8(2, 2), TextureOptions::default());
    let texture = Texture::from_image(&upload, Ok(42)).unwrap();
    let vertices = [
        Vertex::from_xy_uv(Vec2::new(0.0, 0.0), Vec2::new(0.0, 0.0)),
        Vertex::from_xy_uv(Vec2::new(8.0, 0.0), Vec2::new(1.0, 0.0)),
        Vertex::from_xy_uv(Vec2::new(0.0, 8.0), Vec2::new(0.0, 1.0)),
    ];
    let mut canvas = Canvas::new();
    canvas.draw_geometry(&texture, &vertices, None);
    canvas.draw_geometry(&texture, &vertices[..2], Some(&[0, 1, 0]));
    match &canvas.commands()[0] {
        Command::Geometry { texture, vertices, indices } => {
            assert_eq!(*texture, 42);
            assert_eq!(vertices.len(), 3);
            assert_eq!(vertices[1].coord, Vec2::new(8.0, 0.0));
            assert_eq!(vertices[2].uv, Vec2::new(0.0, 1.0));
            assert_eq!(vertices[0].color, Color::WHITE);
            assert_eq!(*indices, None);
        }
        other => panic!("unexpected: {:?}", other),
    }
    match &canvas.commands()[1] {
        Command::Geometry { vertices, indices, .. } => {
            assert_eq!(vertices.len(), 2);
            assert_eq!(*indices, Some(vec![0, 1, 0]));
        }
        other => panic!("unexpected: {:?}", other),
    }
}

#[test]
fn vertex_is_white() {
    let v = Vertex::from_xy_uv(Vec2::new(1.0, 2.0), Vec2::new(0.25, 0.75));
    assert_eq!(v.coord, Vec2::new(1.0, 2.0));
    assert_eq!(v.uv, Vec2::new(0.25, 0.75));
    assert_eq!(v.color.to_tuple(), (255, 255, 255, 255));
}

#[test]
fn default_display_mode_is_blank() {
    let mode = DisplayMode::default();
    assert_eq!((mode.width, mode.height, mode.refresh), (0, 0, 0));
    assert_eq!(mode.renderer, "");
}

#[test]
fn error_messages() {
    let sdl = SdlError::new("No available video device".to_string());
    assert_eq!(sdl.text(), "No available video device");
    assert_eq!(sdl.message(), "SDL error: No available video device");
    let canvas = CanvasError::from(sdl);
    assert_eq!(canvas.message(), "SDL error: No available video device");
    let error = Error::from(canvas);
    assert_eq!(
        error.message(),
        "Failed to initialise canvas: SDL error: No available video device"
    );
    let load = baba::gfx::TextureLoadError::from(SdlError::new("x".to_string()));
    assert_eq!(Error::from(load).message(), "Failed to load texture: SDL error: x");
}

struct Frame {
    title: &'static str,
}

impl baba::gfx::Drawable for Frame {
    fn draw(&self, canvas: &mut Canvas, _transform: baba::gfx::Transform) {
        canvas.set_window_title(self.title);
        canvas.clear(Color::BLACK);
    }
}

#[test]
fn drawables_of_the_caller_are_drawn() {
    let mut canvas = Canvas::new();
    baba::gfx::draw(&mut canvas, &Frame { title: "frame" }, baba::gfx::Transform::identity());
    canvas.draw(&Frame { title: "again" }, baba::gfx::Transform::identity());
    let seen: Vec<String> = canvas.commands().iter().map(describe).collect();
    assert_eq!(
        seen,
        vec![
            "SetWindowTitle(\"frame\")",
            "Clear(0, 0, 0, 255)",
            "SetWindowTitle(\"again\")",
            "Clear(0, 0, 0, 255)",
        ]
    );
}

#[test]
fn vsync_status() {
    assert!(Canvas::took_vsync(0));
    assert!(!Canvas::took_vsync(-1));
    assert!(!Canvas::took_vsync(1));
}

#[test]
fn display_mode_from_the_backend() {
    let mode = DisplayMode::from_backend(Some((1920, 1080, 144)), Some("opengl".to_string()));
    assert_eq!((mode.width, mode.height, mode.refresh), (1920, 1080, 144));
    assert_eq!(mode.renderer, "opengl");
    let mode = DisplayMode::from_backend(None, None);
    assert_eq!((mode.width, mode.height, mode.refresh), (0, 0, 0));
    assert_eq!(mode.renderer, "");
    let mode = DisplayMode::from_backend(Some((-1, i32::MIN, i32::MAX)), None);
    assert_eq!(mode.width, u32::MAX);
    assert_eq!(mode.height, 0x8000_0000);
    assert_eq!(mode.refresh, 0x7fff_ffff);
}
