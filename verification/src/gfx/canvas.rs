use vstd::prelude::*;

use ecolor::Color32;

use crate::error::SdlError;
use crate::gfx::texture::Texture;
use crate::gfx::{channels, color_channels, Drawable, Transform, Vertex, VertexView};
use crate::input::{press_key, release_key, InputState, InputView, KeyCode};

verus! {

/// Defines how coordinates are translated.
#[must_use]
#[derive(Debug, Clone, Copy)]
pub struct Viewport {
    /// Maximum X and Y.
    pub logical_size: (u32, u32),
    /// How should coordinates be divided.
    pub scaling: ViewportScaling,
}

/// Toggles integer scaling for the viewport.
#[derive(Debug, Clone, Copy, PartialEq, Eq, Structural)]
pub enum ViewportScaling {
    /// Integer scaling. Coordinates will always use the smallest multiple of window coordinates.
    Integer,
    /// No integer scaling.
    Fractional,
}

/// The factor by which a viewport is enlarged to fill a window, as the
/// fraction `numer / denom`.
#[derive(Debug, Clone, Copy, PartialEq, Eq, Structural)]
pub struct ScaleFactor {
    /// Numerator of the factor.
    pub numer: u32,
    /// Denominator of the factor, never zero.
    pub denom: u32,
}

impl Viewport {
    /// The factor by which a viewport of `logical` size is enlarged in a
    /// window of `window` size: the largest factor at which both axes still
    /// fit, rounded down to a whole number under integer scaling. A viewport
    /// without area has no factor.
    pub open spec fn spec_scale_factor(self, window: (u32, u32)) -> Option<ScaleFactor> {
        let (width, height) = self.logical_size;
        if width == 0 || height == 0 {
            None
        } else if window.0 as int * height as int <= window.1 as int * width as int {
            // the horizontal axis is the tighter one
            match self.scaling {
                ViewportScaling::Integer => Some(
                    ScaleFactor { numer: (window.0 / width) as u32, denom: 1 },
                ),
                ViewportScaling::Fractional => Some(ScaleFactor { numer: window.0, denom: width }),
            }
        } else {
            match self.scaling {
                ViewportScaling::Integer => Some(
                    ScaleFactor { numer: (window.1 / height) as u32, denom: 1 },
                ),
                ViewportScaling::Fractional => Some(ScaleFactor { numer: window.1, denom: height }),
            }
        }
    }

    /// Shorthand for `logical_size` and integer scaling.
    pub fn new(width: u32, height: u32) -> (viewport: Self)
        ensures
            viewport == (Viewport {
                logical_size: (width, height),
                scaling: ViewportScaling::Integer,
            }),
    {
        Self { logical_size: (width, height), scaling: ViewportScaling::Integer }
    }

    /// Disables integer scaling.
    pub fn fractional(self) -> (viewport: Self)
        ensures
            viewport == (Viewport {
                logical_size: self.logical_size,
                scaling: ViewportScaling::Fractional,
            }),
    {
        Self { logical_size: self.logical_size, scaling: ViewportScaling::Fractional }
    }

    /// Enables integer scaling.
    pub fn integer(self) -> (viewport: Self)
        ensures
            viewport == (Viewport {
                logical_size: self.logical_size,
                scaling: ViewportScaling::Integer,
            }),
    {
        Self { logical_size: self.logical_size, scaling: ViewportScaling::Integer }
    }

    /// The factor by which this viewport is enlarged to fill a window of the
    /// given size, or `None` for a viewport without area.
    pub fn scale_factor(&self, window: (u32, u32)) -> (factor: Option<ScaleFactor>)
        ensures
            factor == self.spec_scale_factor(window),
            factor matches Some(f) ==> f.denom != 0,
    {
        let (width, height) = self.logical_size;
        if width == 0 || height == 0 {
            return None;
        }
        assert(window.0 * height <= 0xffff_ffff * 0xffff_ffff && window.1 * width <= 0xffff_ffff
            * 0xffff_ffff) by (nonlinear_arith)
            requires
                window.0 <= 0xffff_ffff,
                window.1 <= 0xffff_ffff,
                width <= 0xffff_ffff,
                height <= 0xffff_ffff,
        ;
        let across: u64 = window.0 as u64 * height as u64;
        let down: u64 = window.1 as u64 * width as u64;
        let (extent, logical) = if across <= down {
            (window.0, width)
        } else {
            (window.1, height)
        };
        match self.scaling {
            ViewportScaling::Integer => Some(ScaleFactor { numer: extent / logical, denom: 1 }),
            ViewportScaling::Fractional => Some(ScaleFactor { numer: extent, denom: logical }),
        }
    }
}

/// Canvas creation error.
#[derive(Debug)]
pub enum CanvasError {
    /// Backend error, this system might not be supported.
    Sdl(SdlError),
}

impl CanvasError {
    /// What [`CanvasError::message`] returns: the description of the backend
    /// error, unchanged.
    pub open spec fn spec_message(self) -> Seq<char> {
        match self {
            CanvasError::Sdl(e) => SdlError::spec_message(e@),
        }
    }

    /// A description of this error for people to read.
    pub fn message(&self) -> (s: String)
        ensures
            s@ == self.spec_message(),
    {
        match self {
            CanvasError::Sdl(e) => e.message(),
        }
    }
}

impl From<SdlError> for CanvasError {
    fn from(e: SdlError) -> (r: Self) {
        CanvasError::Sdl(e)
    }
}

impl vstd::std_specs::convert::FromSpecImpl<SdlError> for CanvasError {
    open spec fn obeys_from_spec() -> bool {
        true
    }

    open spec fn from_spec(e: SdlError) -> Self {
        CanvasError::Sdl(e)
    }
}

/// Some information about the canvas' output
#[derive(Debug)]
pub struct DisplayMode {
    /// Window width.
    pub width: u32,
    /// Window height.
    pub height: u32,
    /// Refresh rate.
    pub refresh: u32,
    /// Name of the renderer being used.
    pub renderer: String,
}

impl DisplayMode {
    /// The number that a signed number of the backend stands for: itself,
    /// and for a negative one the unsigned number with the same bits.
    pub open spec fn unsigned(n: i32) -> u32 {
        if n >= 0 {
            n as u32
        } else {
            (n + 0x1_0000_0000) as u32
        }
    }

    fn to_unsigned(n: i32) -> (u: u32)
        ensures
            u == Self::unsigned(n),
    {
        if n >= 0 {
            n as u32
        } else {
            (n as i64 + 0x1_0000_0000) as u32
        }
    }

    /// The display mode that two queries of the backend give: `mode` is the
    /// width, height and refresh rate that the window's display reported,
    /// `renderer` the name that the renderer reported. A query that failed
    /// leaves its part blank: zeros, or an empty name.
    pub fn from_backend(mode: Option<(i32, i32, i32)>, renderer: Option<String>) -> (display: Self)
        ensures
            match mode {
                Some((w, h, rate)) => display.width == Self::unsigned(w) && display.height
                    == Self::unsigned(h) && display.refresh == Self::unsigned(rate),
                None => display.width == 0 && display.height == 0 && display.refresh == 0,
            },
            match renderer {
                Some(name) => display.renderer == name,
                None => display.renderer@ == Seq::<char>::empty(),
            },
    {
        let (width, height, refresh) = match mode {
            Some((w, h, rate)) => (
                Self::to_unsigned(w),
                Self::to_unsigned(h),
                Self::to_unsigned(rate),
            ),
            None => (0, 0, 0),
        };
        let renderer = match renderer {
            Some(name) => name,
            None => String::new(),
        };
        Self { width, height, refresh, renderer }
    }
}

impl Default for DisplayMode {
    /// A display of which nothing is known: every number zero, no renderer name.
    fn default() -> (mode: Self)
        ensures
            mode.width == 0,
            mode.height == 0,
            mode.refresh == 0,
            mode.renderer@ == Seq::<char>::empty(),
    {
        Self { width: 0, height: 0, refresh: 0, renderer: String::new() }
    }
}

/// Something that happened in the windowing backend, as far as the canvas
/// cares.
#[derive(Debug, Clone, Copy, PartialEq, Eq, Structural)]
pub enum Event {
    /// The user asked the program to end.
    Quit,
    /// A key went down, or is repeating while held.
    KeyDown {
        /// Scancode of the key.
        scancode: u32,
        /// Whether this is a repetition of a key that is already held.
        repeat: bool,
    },
    /// A key was released.
    KeyUp {
        /// Scancode of the key.
        scancode: u32,
    },
    /// Anything else.
    Other,
}

impl Event {
    /// The input state after this event, starting from `input`. A key-down
    /// that is no repetition presses its key, a key-up releases it; a
    /// repetition, a scancode that names no key and every other event leave
    /// the state as it is.
    pub open spec fn apply(self, input: InputView) -> InputView {
        match self {
            Event::KeyDown { scancode, repeat } => match KeyCode::spec_from_scancode(scancode) {
                Some(key) if !repeat => input.press(key),
                _ => input,
            },
            Event::KeyUp { scancode } => match KeyCode::spec_from_scancode(scancode) {
                Some(key) => input.release(key),
                None => input,
            },
            _ => input,
        }
    }

    /// The input state after the events of `events` in turn.
    pub open spec fn apply_all(events: Seq<Event>, input: InputView) -> InputView
        decreases events.len(),
    {
        if events.len() == 0 {
            input
        } else {
            Self::apply_all(events.drop_first(), events[0].apply(input))
        }
    }

    /// Whether `events` holds a quit event.
    pub open spec fn has_quit(events: Seq<Event>) -> bool {
        exists|i: int| 0 <= i < events.len() && events[i] is Quit
    }

    /// Feeds this event to the input state. Returns `false` for a quit event,
    /// `true` for any other.
    pub fn dispatch(self, input: &mut InputState) -> (proceed: bool)
        ensures
            proceed == !(self is Quit),
            final(input)@ == self.apply(old(input)@),
    {
        match self {
            Event::Quit => false,
            Event::KeyDown { scancode, repeat } => {
                if !repeat {
                    if let Some(key) = KeyCode::from_scancode(scancode) {
                        press_key(input, key);
                    }
                }
                true
            },
            Event::KeyUp { scancode } => {
                if let Some(key) = KeyCode::from_scancode(scancode) {
                    release_key(input, key);
                }
                true
            },
            Event::Other => true,
        }
    }
}

/// A request to the windowing and rendering backend.
#[derive(Debug)]
pub enum Command {
    /// Set the title of the window.
    SetWindowTitle(String),
    /// Set the size of the window, in pixels.
    SetWindowSize(u32, u32),
    /// Map drawing coordinates onto a logical area of this size, and keep the
    /// window at least this large.
    SetLogicalSize(u32, u32),
    /// Restrict the scale of the logical area to whole numbers, or lift the
    /// restriction.
    SetIntegerScaling(bool),
    /// Switch vertical sync on or off.
    SetVsync(bool),
    /// Make the window visible.
    ShowWindow,
    /// Fill the frame with a colour, given as red, green, blue and alpha.
    Clear(u8, u8, u8, u8),
    /// Draw a list of textured triangles.
    Geometry {
        /// Backend handle of the texture to draw with.
        texture: usize,
        /// Corners of the triangles.
        vertices: Vec<Vertex>,
        /// Which vertices form each triangle, three per triangle. Without
        /// indices, each run of three vertices forms one.
        indices: Option<Vec<i32>>,
    },
    /// Show the frame that was drawn.
    Present,
}

/// What a [`Command`] stands for.
pub enum CommandView {
    /// Set the title of the window.
    SetWindowTitle(Seq<char>),
    /// Set the size of the window.
    SetWindowSize(u32, u32),
    /// Set the logical drawing area.
    SetLogicalSize(u32, u32),
    /// Switch integer scaling on or off.
    SetIntegerScaling(bool),
    /// Switch vertical sync on or off.
    SetVsync(bool),
    /// Make the window visible.
    ShowWindow,
    /// Fill the frame with a colour.
    Clear((u8, u8, u8, u8)),
    /// Draw a list of textured triangles.
    Geometry { texture: usize, vertices: Seq<VertexView>, indices: Option<Seq<i32>> },
    /// Show the frame that was drawn.
    Present,
}

impl View for Command {
    type V = CommandView;

    open spec fn view(&self) -> CommandView {
        match *self {
            Command::SetWindowTitle(title) => CommandView::SetWindowTitle(title@),
            Command::SetWindowSize(w, h) => CommandView::SetWindowSize(w, h),
            Command::SetLogicalSize(w, h) => CommandView::SetLogicalSize(w, h),
            Command::SetIntegerScaling(on) => CommandView::SetIntegerScaling(on),
            Command::SetVsync(on) => CommandView::SetVsync(on),
            Command::ShowWindow => CommandView::ShowWindow,
            Command::Clear(r, g, b, a) => CommandView::Clear((r, g, b, a)),
            Command::Geometry { texture, vertices, indices } => CommandView::Geometry {
                texture,
                vertices: vertices@.map_values(|v: Vertex| v@),
                indices: match indices {
                    Some(list) => Some(list@),
                    None => None,
                },
            },
            Command::Present => CommandView::Present,
        }
    }
}

/// An object responsible for rendering stuff onto a window.
///
/// The canvas does not talk to the backend itself: every operation adds the
/// requests it makes to a list, in the order in which the backend has to carry
/// them out. Whoever owns the window takes the list with [`Canvas::take_commands`]
/// and performs it.
#[derive(Debug)]
pub struct Canvas {
    commands: Vec<Command>,
}

impl View for Canvas {
    type V = Seq<CommandView>;

    /// The requests that were made and not yet taken, oldest first.
    closed spec fn view(&self) -> Seq<CommandView> {
        self.commands@.map_values(|c: Command| c@)
    }
}

impl Canvas {
    /// The requests that [`Canvas::set_viewport`] makes.
    pub open spec fn viewport_commands(viewport: Viewport) -> Seq<CommandView> {
        seq![
            CommandView::SetLogicalSize(viewport.logical_size.0, viewport.logical_size.1),
            CommandView::SetIntegerScaling(viewport.scaling is Integer),
        ]
    }

    /// A canvas on which nothing was requested yet.
    pub fn new() -> (canvas: Self)
        ensures
            canvas@ == Seq::<CommandView>::empty(),
    {
        let canvas = Self { commands: Vec::new() };
        assert(canvas@ =~= Seq::<CommandView>::empty());
        canvas
    }

    fn submit(&mut self, command: Command)
        ensures
            final(self)@ == old(self)@.push(command@),
    {
        self.commands.push(command);
        assert(self@ =~= old(self)@.push(command@));
    }

    /// The requests made so far, oldest first.
    pub fn commands(&self) -> (list: &Vec<Command>)
        ensures
            list@.map_values(|c: Command| c@) == self@,
    {
        &self.commands
    }

    /// Hands out the requests made so far, oldest first, and forgets them.
    pub fn take_commands(&mut self) -> (list: Vec<Command>)
        ensures
            list@.map_values(|c: Command| c@) == old(self)@,
            final(self)@ == Seq::<CommandView>::empty(),
    {
        let mut list: Vec<Command> = Vec::new();
        std::mem::swap(&mut self.commands, &mut list);
        assert(self@ =~= Seq::<CommandView>::empty());
        list
    }

    /// Drains `events`, the pending events of the backend in the order in
    /// which they came, into the input state: every one of them, those behind
    /// a quit event too. Returns `false` exactly when a quit event was among
    /// them.
    pub fn process_events(&self, input: &mut InputState, events: &[Event]) -> (proceed: bool)
        ensures
            proceed == !Event::has_quit(events@),
            final(input)@ == Event::apply_all(events@, old(input)@),
    {
        let mut proceed = true;
        let mut i: usize = 0;
        assert(events@.skip(0) =~= events@);
        while i < events.len()
            invariant
                0 <= i <= events.len(),
                proceed == forall|j: int| 0 <= j < i ==> !(events@[j] is Quit),
                Event::apply_all(events@, old(input)@) == Event::apply_all(
                    events@.skip(i as int),
                    input@,
                ),
            decreases events.len() - i,
        {
            let event = events[i];
            assert(events@.skip(i as int)[0] == event);
            assert(events@.skip(i as int).drop_first() =~= events@.skip(i as int + 1));
            if !event.dispatch(input) {
                proceed = false;
            }
            i += 1;
        }
        assert(events@.skip(i as int).len() == 0);
        proceed
    }

    /// Sets the window title.
    pub fn set_window_title(&mut self, title: &str)
        ensures
            final(self)@ == old(self)@.push(CommandView::SetWindowTitle(title@)),
    {
        self.submit(Command::SetWindowTitle(String::from_str(title)));
    }

    /// Sets the window size.
    pub fn set_window_size(&mut self, width: u32, height: u32)
        ensures
            final(self)@ == old(self)@.push(CommandView::SetWindowSize(width, height)),
    {
        self.submit(Command::SetWindowSize(width, height));
    }

    /// Toggles vertical sync.
    pub fn set_vsync(&mut self, vsync: bool)
        ensures
            final(self)@ == old(self)@.push(CommandView::SetVsync(vsync)),
    {
        self.submit(Command::SetVsync(vsync));
    }

    /// Whether the backend took a request for vertical sync, going by the
    /// status that it answered with: zero means that it did.
    pub fn took_vsync(status: i32) -> (taken: bool)
        ensures
            taken == (status == 0),
    {
        status == 0
    }

    fn set_logical_size(&mut self, width: u32, height: u32)
        ensures
            final(self)@ == old(self)@.push(CommandView::SetLogicalSize(width, height)),
    {
        self.submit(Command::SetLogicalSize(width, height));
    }

    fn set_integer_scaling(&mut self, enable: bool)
        ensures
            final(self)@ == old(self)@.push(CommandView::SetIntegerScaling(enable)),
    {
        self.submit(Command::SetIntegerScaling(enable));
    }

    /// Sets the viewport for this canvas, changing how coordinates are used.
    pub fn set_viewport(&mut self, viewport: &Viewport)
        ensures
            final(self)@ == old(self)@ + Self::viewport_commands(*viewport),
    {
        self.set_logical_size(viewport.logical_size.0, viewport.logical_size.1);
        self.set_integer_scaling(matches!(viewport.scaling, ViewportScaling::Integer));
        assert(self@ =~= old(self)@ + Self::viewport_commands(*viewport));
    }

    /// Makes the window visible.
    pub fn show_window(&mut self)
        ensures
            final(self)@ == old(self)@.push(CommandView::ShowWindow),
    {
        self.submit(Command::ShowWindow);
    }

    /// Clears the screen.
    pub fn clear(&mut self, color: Color32)
        ensures
            final(self)@ == old(self)@.push(CommandView::Clear(color_channels(color))),
    {
        let (r, g, b, a) = channels(color);
        self.submit(Command::Clear(r, g, b, a));
    }

    /// Displays the current frame.
    pub fn display(&mut self)
        ensures
            final(self)@ == old(self)@.push(CommandView::Present),
    {
        self.submit(Command::Present);
    }

    /// Draws an object
    pub fn draw<T: Drawable>(&mut self, object: &T, transform: Transform)
        ensures
            object.is_specified() ==> final(self)@ == old(self)@ + object.drawn(transform),
    {
        object.draw(self, transform);
    }

    /// Draws vertices on the screen.
    pub fn draw_geometry(&mut self, texture: &Texture, vertices: &[Vertex], indices: Option<&[i32]>)
        ensures
            final(self)@ == old(self)@.push(
                CommandView::Geometry {
                    texture: texture@.handle,
                    vertices: vertices@.map_values(|v: Vertex| v@),
                    indices: match indices {
                        Some(list) => Some(list@),
                        None => None,
                    },
                },
            ),
    {
        let mut corners: Vec<Vertex> = Vec::new();
        let mut i: usize = 0;
        while i < vertices.len()
            invariant
                0 <= i <= vertices.len(),
                corners@ == vertices@.take(i as int),
            decreases vertices.len() - i,
        {
            corners.push(vertices[i]);
            assert(corners@ =~= vertices@.take(i as int + 1));
            i += 1;
        }
        assert(corners@ =~= vertices@);
        let order = match indices {
            Some(list) => {
                let mut order: Vec<i32> = Vec::new();
                let mut j: usize = 0;
                while j < list.len()
                    invariant
                        0 <= j <= list.len(),
                        order@ == list@.take(j as int),
                    decreases list.len() - j,
                {
                    order.push(list[j]);
                    assert(order@ =~= list@.take(j as int + 1));
                    j += 1;
                }
                assert(order@ =~= list@);
                Some(order)
            },
            None => None,
        };
        self.submit(Command::Geometry { texture: texture.raw(), vertices: corners, indices: order });
    }
}

/// A key-down event that repeats a key already held changes nothing: the
/// key does not count as pressed within the frame again. So after a frame
/// has ended, a held key stays out of the keys pressed within the frame
/// however many repetitions come in.
pub proof fn lemma_repeat_does_not_press(input: InputView, key: KeyCode)
    ensures
        (Event::KeyDown { scancode: key.spec_scancode(), repeat: true }).apply(input) == input,
        !(Event::KeyDown { scancode: key.spec_scancode(), repeat: true }).apply(
            input.press(key).clear(),
        ).just_pressed.contains(key),
        (Event::KeyDown { scancode: key.spec_scancode(), repeat: true }).apply(
            input.press(key).clear(),
        ).pressed.contains(key),
{
}

/// Draining events that are all repetitions of key-down events leaves the
/// input state as it was.
pub proof fn lemma_repeats_leave_input(events: Seq<Event>, input: InputView)
    requires
        forall|i: int|
            0 <= i < events.len() ==> (#[trigger] events[i] matches Event::KeyDown { repeat, .. }
                && repeat),
    ensures
        Event::apply_all(events, input) == input,
    decreases events.len(),
{
    if events.len() > 0 {
        assert(events[0].apply(input) == input);
        assert forall|i: int| 0 <= i < events.drop_first().len() implies (
        #[trigger] events.drop_first()[i] matches Event::KeyDown { repeat, .. } && repeat) by {
            assert(events.drop_first()[i] == events[i + 1]);
        }
        lemma_repeats_leave_input(events.drop_first(), input);
    }
}

/// A fresh key-down event for a key presses it; the key-up event releases
/// it.
pub proof fn lemma_key_events_press_and_release(input: InputView, key: KeyCode)
    ensures
        (Event::KeyDown { scancode: key.spec_scancode(), repeat: false }).apply(input)
            == input.press(key),
        (Event::KeyUp { scancode: key.spec_scancode() }).apply(input) == input.release(key),
{
    KeyCode::lemma_scancode_injective(key);
}

} // verus!
