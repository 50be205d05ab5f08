use vstd::prelude::*;

use crate::error::Error;
use crate::gfx::{Canvas, CanvasError, CommandView, DisplayMode, Event, ScaleMode, Viewport};
use crate::input::{InputState, InputView};

verus! {

/// Framerate limit.
#[derive(Debug, Clone, Copy, PartialEq, Eq, Structural)]
pub enum Framerate {
    /// Sets framerate to a multiple of the current display's refresh rate. The
    /// multiple is the fraction `numer / denom`.
    Multiplier {
        /// Numerator of the multiple.
        numer: u32,
        /// Denominator of the multiple.
        denom: u32,
    },
    /// Sets framerate to an exact value.
    Exact(u32),
    /// No limits. Use this when you are going to implement your own limiting.
    Unlimited,
}

/// How many nanoseconds a second has.
pub const NANOS_PER_SEC: u64 = 1_000_000_000;

/// The refresh rate that is assumed of a display that reports none.
pub const FALLBACK_REFRESH: u32 = 60;

impl Framerate {
    /// The time that one frame may take under this policy on a display with
    /// the given refresh rate, in whole nanoseconds: the inverse of the
    /// multiple times the refresh rate (60 where the display reports 0), the
    /// inverse of the exact rate, or nothing at all without a limit. A policy
    /// whose rate is zero has no frame time.
    pub open spec fn spec_frame_budget(self, refresh: u32) -> Option<u64> {
        match self {
            Framerate::Multiplier { numer, denom } => {
                let base = if refresh > 0 {
                    refresh
                } else {
                    FALLBACK_REFRESH
                };
                if numer == 0 || denom == 0 {
                    None
                } else {
                    Some(((denom * NANOS_PER_SEC) / (numer * base)) as u64)
                }
            },
            Framerate::Exact(fps) => if fps == 0 {
                None
            } else {
                Some((NANOS_PER_SEC / fps as u64) as u64)
            },
            Framerate::Unlimited => Some(0),
        }
    }

    /// The time that one frame may take under this policy on a display with
    /// the given refresh rate, in nanoseconds. `None` for a policy whose rate
    /// is zero.
    pub fn frame_budget(self, refresh: u32) -> (budget: Option<u64>)
        ensures
            budget == self.spec_frame_budget(refresh),
    {
        match self {
            Framerate::Multiplier { numer, denom } => {
                let base = if refresh > 0 {
                    refresh
                } else {
                    FALLBACK_REFRESH
                };
                if numer == 0 || denom == 0 {
                    None
                } else {
                    assert(denom * NANOS_PER_SEC <= 0xffff_ffff * 1_000_000_000 && 0 < numer * base
                        <= 0xffff_ffff * 0xffff_ffff) by (nonlinear_arith)
                        requires
                            0 < numer <= 0xffff_ffff,
                            0 < base <= 0xffff_ffff,
                            denom <= 0xffff_ffff,
                            NANOS_PER_SEC == 1_000_000_000,
                    ;
                    let span: u64 = denom as u64 * NANOS_PER_SEC;
                    let rate: u64 = numer as u64 * base as u64;
                    Some(span / rate)
                }
            },
            Framerate::Exact(fps) => if fps == 0 {
                None
            } else {
                Some(NANOS_PER_SEC / fps as u64)
            },
            Framerate::Unlimited => Some(0),
        }
    }
}

/// Global engine settings.
#[derive(Debug, Clone, Copy)]
pub struct Settings {
    /// Texture scaling mode, may be overriden with [`TextureOptions`][crate::gfx::TextureOptions].
    /// Defaults to [`ScaleMode::Nearest`].
    pub scale_mode: ScaleMode,
    /// Framerate limit for `update` calls. Default 1x the display's refresh rate.
    pub framerate: Framerate,
    /// Enable vertical sync (default off). Reduces tearing at the cost of some latency. You likely
    /// also want to set [framerate][Settings::framerate] if you use this.
    pub vsync: bool,
    /// Viewport. If this is set, it will map coordinates to fit it's size, instead of following
    /// window coordinates.
    pub viewport: Option<Viewport>,
}

impl Settings {
    /// The settings of a game that has changed none.
    pub open spec fn spec_default() -> Settings {
        Settings {
            scale_mode: ScaleMode::Nearest,
            framerate: Framerate::Multiplier { numer: 1, denom: 1 },
            vsync: false,
            viewport: None,
        }
    }
}

impl Default for Settings {
    fn default() -> (settings: Self)
        ensures
            settings == Settings::spec_default(),
    {
        Self {
            scale_mode: ScaleMode::Nearest,
            framerate: Framerate::Multiplier { numer: 1, denom: 1 },
            vsync: false,
            viewport: None,
        }
    }
}

/// Window settings.
#[derive(Debug)]
pub struct WindowSettings {
    /// Window title. Defaults to the name given to [`game`][crate::game] or [`run`][crate::run].
    pub title: Option<String>,
    /// Window size. Defaults to 800x600.
    pub size: (u32, u32),
    /// Allow window to be resized. Defaults to true.
    pub resizable: bool,
}

impl Default for WindowSettings {
    fn default() -> (window: Self)
        ensures
            window.title is None,
            window.size == (800u32, 600u32),
            window.resizable,
    {
        Self { title: None, size: (800, 600), resizable: true }
    }
}

/// A setting that the backend takes by name before any window exists.
#[derive(Debug)]
pub struct Hint {
    /// Name of the setting.
    pub name: String,
    /// Value of the setting.
    pub value: String,
}

/// What has to be arranged with the backend before the canvas is created.
#[derive(Debug)]
pub struct Startup {
    /// The settings to hand to the backend, in this order.
    pub hints: Vec<Hint>,
    /// Whether the window is created hidden. It is shown once the game runs.
    pub hidden: bool,
    /// Whether the user may resize the window.
    pub resizable: bool,
}

/// What a [`Game`] stands for.
pub struct GameView {
    /// Name of the game.
    pub name: Seq<char>,
    /// Engine settings.
    pub settings: Settings,
    /// Title of the window, if one was set.
    pub title: Option<Seq<char>>,
    /// Size of the window.
    pub size: (u32, u32),
    /// Whether the window can be resized.
    pub resizable: bool,
}

/// A game that is being set up: its name, the engine settings and the window
/// settings.
#[derive(Debug)]
pub struct Game {
    name: String,
    settings: Settings,
    window: WindowSettings,
}

impl View for Game {
    type V = GameView;

    closed spec fn view(&self) -> GameView {
        GameView {
            name: self.name@,
            settings: self.settings,
            title: match self.window.title {
                Some(title) => Some(title@),
                None => None,
            },
            size: self.window.size,
            resizable: self.window.resizable,
        }
    }
}

impl GameView {
    /// The title that the window gets: the one that was set, else the name of
    /// the game.
    pub open spec fn window_title(self) -> Seq<char> {
        match self.title {
            Some(title) => title,
            None => self.name,
        }
    }

    /// The value of the hint on scale quality.
    pub open spec fn scale_quality(self) -> Seq<char> {
        match self.settings.scale_mode {
            ScaleMode::Nearest => "0"@,
            ScaleMode::Linear => "1"@,
        }
    }

    /// The names and values of the hints given to the backend before the
    /// canvas is created.
    pub open spec fn hints(self) -> Seq<(Seq<char>, Seq<char>)> {
        seq![
            ("SDL_APP_NAME"@, self.name),
            ("SDL_VIDEO_DOUBLE_BUFFER"@, "1"@),
            ("SDL_RENDER_SCALE_QUALITY"@, self.scale_quality()),
        ]
    }

    /// The requests made of a fresh canvas: the title and the size of the
    /// window, then the viewport if one is set, then vertical sync if it is
    /// wanted.
    pub open spec fn setup_commands(self) -> Seq<CommandView> {
        seq![
            CommandView::SetWindowTitle(self.window_title()),
            CommandView::SetWindowSize(self.size.0, self.size.1),
        ] + match self.settings.viewport {
            Some(viewport) => Canvas::viewport_commands(viewport),
            None => Seq::empty(),
        } + if self.settings.vsync {
            seq![CommandView::SetVsync(true)]
        } else {
            Seq::empty()
        }
    }
}

impl Game {
    /// A game with the given name, default settings and a default window.
    pub fn new(name: String) -> (game: Self)
        ensures
            game@ == (GameView {
                name: name@,
                settings: Settings::spec_default(),
                title: None,
                size: (800u32, 600u32),
                resizable: true,
            }),
    {
        Self { name, settings: Settings::default(), window: WindowSettings::default() }
    }

    /// Replaces the engine settings.
    #[must_use]
    pub fn settings(self, settings: Settings) -> (game: Self)
        ensures
            game@ == (GameView { settings, ..self@ }),
    {
        Self { name: self.name, settings, window: self.window }
    }

    /// Enables vertical sync.
    #[must_use]
    pub fn vsync(self) -> (game: Self)
        ensures
            game@ == (GameView { settings: Settings { vsync: true, ..self@.settings }, ..self@ }),
    {
        let settings = Settings { vsync: true, ..self.settings };
        Self { name: self.name, settings, window: self.window }
    }

    /// Sets the framerate limit.
    #[must_use]
    pub fn framerate(self, framerate: Framerate) -> (game: Self)
        ensures
            game@ == (GameView { settings: Settings { framerate, ..self@.settings }, ..self@ }),
    {
        let settings = Settings { framerate, ..self.settings };
        Self { name: self.name, settings, window: self.window }
    }

    /// Sets the viewport.
    #[must_use]
    pub fn viewport(self, viewport: Viewport) -> (game: Self)
        ensures
            game@ == (GameView {
                settings: Settings { viewport: Some(viewport), ..self@.settings },
                ..self@
            }),
    {
        let settings = Settings { viewport: Some(viewport), ..self.settings };
        Self { name: self.name, settings, window: self.window }
    }

    /// Sets the default texture scaling mode.
    #[must_use]
    pub fn scale_mode(self, scale_mode: ScaleMode) -> (game: Self)
        ensures
            game@ == (GameView { settings: Settings { scale_mode, ..self@.settings }, ..self@ }),
    {
        let settings = Settings { scale_mode, ..self.settings };
        Self { name: self.name, settings, window: self.window }
    }

    /// Replaces the window settings.
    #[must_use]
    pub fn window(self, settings: WindowSettings) -> (game: Self)
        ensures
            game@ == (GameView {
                title: match settings.title {
                    Some(title) => Some(title@),
                    None => None,
                },
                size: settings.size,
                resizable: settings.resizable,
                ..self@
            }),
    {
        Self { name: self.name, settings: self.settings, window: settings }
    }

    /// Sets the window title.
    #[must_use]
    pub fn window_title(self, title: String) -> (game: Self)
        ensures
            game@ == (GameView { title: Some(title@), ..self@ }),
    {
        let window = WindowSettings {
            title: Some(title),
            size: self.window.size,
            resizable: self.window.resizable,
        };
        Self { name: self.name, settings: self.settings, window }
    }

    /// Sets the window size.
    #[must_use]
    pub fn window_size(self, width: u32, height: u32) -> (game: Self)
        ensures
            game@ == (GameView { size: (width, height), ..self@ }),
    {
        let window = WindowSettings {
            title: self.window.title,
            size: (width, height),
            resizable: self.window.resizable,
        };
        Self { name: self.name, settings: self.settings, window }
    }

    /// What has to be arranged with the backend before the canvas is
    /// created: the name of the program, double buffering and the default
    /// scale quality as hints, and a window that starts hidden.
    pub fn startup(&self) -> (plan: Startup)
        ensures
            plan.hints@.map_values(|h: Hint| (h.name@, h.value@)) == self@.hints(),
            plan.hidden,
            plan.resizable == self@.resizable,
    {
        let quality = match self.settings.scale_mode {
            ScaleMode::Nearest => "0",
            ScaleMode::Linear => "1",
        };
        let mut hints: Vec<Hint> = Vec::new();
        hints.push(Hint { name: String::from_str("SDL_APP_NAME"), value: self.name.clone() });
        hints.push(
            Hint { name: String::from_str("SDL_VIDEO_DOUBLE_BUFFER"), value: String::from_str("1") },
        );
        hints.push(
            Hint {
                name: String::from_str("SDL_RENDER_SCALE_QUALITY"),
                value: String::from_str(quality),
            },
        );
        assert(hints@.map_values(|h: Hint| (h.name@, h.value@)) =~= self@.hints());
        Startup { hints, hidden: true, resizable: self.window.resizable }
    }

    /// Asks of a fresh canvas what the game is set up to have: the title and
    /// size of the window, the viewport, vertical sync.
    pub fn configure(&self, canvas: &mut Canvas)
        ensures
            final(canvas)@ == old(canvas)@ + self@.setup_commands(),
    {
        match &self.window.title {
            Some(title) => canvas.set_window_title(title.as_str()),
            None => canvas.set_window_title(self.name.as_str()),
        }
        canvas.set_window_size(self.window.size.0, self.window.size.1);

        if let Some(viewport) = &self.settings.viewport {
            canvas.set_viewport(viewport);
        }
        if self.settings.vsync {
            canvas.set_vsync(true);
        }
        assert(canvas@ =~= old(canvas)@ + self@.setup_commands());
    }

    /// Begins a run of this game: the loop that will drive it, not yet
    /// started.
    pub fn run(self) -> (run: GameLoop)
        ensures
            run@ == LoopView::fresh(self@),
    {
        GameLoop {
            phase: Phase::Uninitialized,
            game: self,
            budget: 0,
            frame_start: 0,
            in_frame: false,
        }
    }
}

/// Where a run of the game stands.
#[derive(Debug, Clone, Copy, PartialEq, Eq, Structural)]
pub enum Phase {
    /// Nothing has happened yet.
    Uninitialized,
    /// The canvas is being created and set up.
    Initializing,
    /// Frames are being produced.
    Running,
    /// The run is over, and stays over.
    Terminated,
}

/// What a [`GameLoop`] stands for.
pub struct LoopView {
    /// Where the run stands.
    pub phase: Phase,
    /// The game that is run.
    pub game: GameView,
    /// The time that one frame may take, in nanoseconds. Set on entering
    /// [`Phase::Running`].
    pub budget: u64,
    /// The reading of the clock at which the latest frame started, in
    /// nanoseconds.
    pub frame_start: u64,
    /// Whether a frame has started and not yet ended.
    pub in_frame: bool,
}

/// The game loop as a state machine. It decides what happens next; whoever
/// owns the window performs it and reports back.
///
/// A run goes from [`Phase::Uninitialized`] through [`Phase::Initializing`] to
/// [`Phase::Running`], and ends in [`Phase::Terminated`]. Each frame of a
/// running game is [`GameLoop::poll`], the update of the game's own state,
/// [`GameLoop::end_frame`], and a sleep of [`GameLoop::pace`]. A request to
/// quit is noticed by `poll` alone: the frame in which it comes is completed,
/// and no other follows.
///
/// Time is read from a clock that never runs backwards and handed in as
/// nanoseconds. A frame starts with the reading given to `poll`, once the
/// sleep of the frame before is over, and `pace` measures from that reading:
/// frames that take less than the frame time start one frame time apart.
#[derive(Debug)]
pub struct GameLoop {
    phase: Phase,
    game: Game,
    budget: u64,
    frame_start: u64,
    in_frame: bool,
}

impl View for GameLoop {
    type V = LoopView;

    closed spec fn view(&self) -> LoopView {
        LoopView {
            phase: self.phase,
            game: self.game@,
            budget: self.budget,
            frame_start: self.frame_start,
            in_frame: self.in_frame,
        }
    }
}

impl LoopView {
    /// The run of `game` before anything has happened.
    pub open spec fn fresh(game: GameView) -> LoopView {
        LoopView {
            phase: Phase::Uninitialized,
            game,
            budget: 0,
            frame_start: 0,
            in_frame: false,
        }
    }

    /// The time that the latest frame has taken when the clock reads `now`.
    /// A reading from before the frame started counts as no time at all.
    pub open spec fn elapsed(self, now: u64) -> u64 {
        if now >= self.frame_start {
            (now - self.frame_start) as u64
        } else {
            0
        }
    }

    /// The time to sleep when the work of the latest frame is done and the
    /// clock reads `now`.
    pub open spec fn sleep_at(self, now: u64) -> Option<u64> {
        self.sleep_time(self.elapsed(now))
    }

    /// The reading of the clock at which the sleep asked for at `now` is
    /// over, if it lasts exactly as long as asked.
    pub open spec fn wake(self, now: u64) -> int {
        match self.sleep_at(now) {
            Some(sleep) => now + sleep,
            None => now as int,
        }
    }

    /// The run as its next frame starts, where the work of the latest frame
    /// took `work` nanoseconds, the sleep after it lasted exactly as long as
    /// asked, and the next frame started at once.
    pub open spec fn next_frame(self, work: u64) -> LoopView {
        LoopView { frame_start: self.wake((self.frame_start + work) as u64) as u64, ..self }
    }

    /// The run after as many frames as `work` has entries, the work of each
    /// taking the time that `work` gives for it.
    pub open spec fn after_frames(self, work: Seq<u64>) -> LoopView
        decreases work.len(),
    {
        if work.len() == 0 {
            self
        } else {
            self.next_frame(work[0]).after_frames(work.drop_first())
        }
    }

    /// The time to sleep at the end of a frame that took `elapsed`
    /// nanoseconds: what is left of the budget, and nothing for a frame that
    /// went over it.
    pub open spec fn sleep_time(self, elapsed: u64) -> Option<u64> {
        if elapsed <= self.budget {
            Some((self.budget - elapsed) as u64)
        } else {
            None
        }
    }
}

impl GameLoop {
    /// Where the run stands.
    pub fn phase(&self) -> (phase: Phase)
        ensures
            phase == self@.phase,
    {
        self.phase
    }

    /// The game that is run.
    pub fn game(&self) -> (game: &Game)
        ensures
            game@ == self@.game,
    {
        &self.game
    }

    /// The time that one frame may take, in nanoseconds.
    pub fn budget(&self) -> (budget: u64)
        ensures
            budget == self@.budget,
    {
        self.budget
    }

    /// Enters the run. A run that has not started begins to initialize, and
    /// says what to arrange with the backend before the canvas is created;
    /// any other run is left as it is.
    pub fn start(&mut self) -> (plan: Option<Startup>)
        ensures
            old(self)@.phase is Uninitialized ==> {
                &&& final(self)@ == (LoopView { phase: Phase::Initializing, ..old(self)@ })
                &&& plan matches Some(p)
                &&& p.hints@.map_values(|h: Hint| (h.name@, h.value@)) == old(self)@.game.hints()
                &&& p.hidden
                &&& p.resizable == old(self)@.game.resizable
            },
            !(old(self)@.phase is Uninitialized) ==> final(self)@ == old(self)@ && plan is None,
    {
        match self.phase {
            Phase::Uninitialized => {
                self.phase = Phase::Initializing;
                Some(self.game.startup())
            },
            _ => None,
        }
    }

    /// The backend failed to create the canvas: a run that is initializing
    /// ends at once. Returns the failure as the error of the run.
    pub fn fail(&mut self, cause: CanvasError) -> (error: Error)
        ensures
            error == Error::Canvas(cause),
            old(self)@.phase is Initializing ==> final(self)@ == (LoopView {
                phase: Phase::Terminated,
                ..old(self)@
            }),
            !(old(self)@.phase is Initializing) ==> final(self)@ == old(self)@,
    {
        if let Phase::Initializing = self.phase {
            self.phase = Phase::Terminated;
        }
        Error::Canvas(cause)
    }

    /// The canvas exists and is set up, and the display has told its mode: a
    /// run that is initializing starts to run, with the frame time that the
    /// framerate policy gives for the display's refresh rate, and shows the
    /// window. Returns whether it did. It does not where the run is not
    /// initializing, or where the policy has a rate of zero.
    pub fn enter(&mut self, canvas: &mut Canvas, mode: &DisplayMode) -> (entered: bool)
        ensures
            entered == (old(self)@.phase is Initializing
                && old(self)@.game.settings.framerate.spec_frame_budget(mode.refresh) is Some),
            entered ==> final(self)@ == (LoopView {
                phase: Phase::Running,
                budget: old(self)@.game.settings.framerate.spec_frame_budget(mode.refresh)->0,
                ..old(self)@
            }) && final(canvas)@ == old(canvas)@.push(CommandView::ShowWindow),
            !entered ==> final(self)@ == old(self)@ && final(canvas)@ == old(canvas)@,
    {
        if let Phase::Initializing = self.phase {
            if let Some(budget) = self.game.settings.framerate.frame_budget(mode.refresh) {
                self.budget = budget;
                self.phase = Phase::Running;
                canvas.show_window();
                return true;
            }
        }
        false
    }

    /// Starts a frame of a running game, `now` being the reading of the
    /// clock, by draining `events`, the pending events of the backend, into
    /// the input state. A quit event among them ends the run; the frame that
    /// has started is still produced, and it is the last. Returns whether a
    /// frame has started: it has not where the run is not running, and then
    /// no event is taken.
    pub fn poll(
        &mut self,
        canvas: &Canvas,
        input: &mut InputState,
        events: &[Event],
        now: u64,
    ) -> (started: bool)
        ensures
            started == old(self)@.phase is Running,
            started ==> final(input)@ == Event::apply_all(events@, old(input)@) && final(self)@
                == (LoopView {
                phase: if Event::has_quit(events@) {
                    Phase::Terminated
                } else {
                    Phase::Running
                },
                frame_start: now,
                in_frame: true,
                ..old(self)@
            }),
            !started ==> final(input)@ == old(input)@ && final(self)@ == old(self)@,
    {
        if let Phase::Running = self.phase {
            let proceed = canvas.process_events(input, events);
            if !proceed {
                self.phase = Phase::Terminated;
            }
            self.frame_start = now;
            self.in_frame = true;
            true
        } else {
            false
        }
    }

    /// Ends the frame that has started, after the game has updated and
    /// drawn: the frame is presented, then the keys pressed within the frame
    /// are forgotten. Returns whether another frame follows, which is as long
    /// as the run is running. Without a frame that has started nothing is
    /// presented, no key is forgotten and no frame follows.
    pub fn end_frame(&mut self, canvas: &mut Canvas, input: &mut InputState) -> (again: bool)
        ensures
            old(self)@.in_frame ==> {
                &&& final(canvas)@ == old(canvas)@.push(CommandView::Present)
                &&& final(input)@ == old(input)@.clear()
                &&& final(self)@ == (LoopView { in_frame: false, ..old(self)@ })
                &&& again == old(self)@.phase is Running
            },
            !old(self)@.in_frame ==> {
                &&& final(canvas)@ == old(canvas)@
                &&& final(input)@ == old(input)@
                &&& final(self)@ == old(self)@
                &&& !again
            },
    {
        if self.in_frame {
            crate::gfx::display(canvas);
            crate::input::clear(input);
            self.in_frame = false;
            matches!(self.phase, Phase::Running)
        } else {
            false
        }
    }

    /// The time to sleep at the end of a frame, in nanoseconds, when the
    /// clock reads `now`: what is left of the frame time, counted from the
    /// reading at which the frame started. `None` for a frame that took
    /// longer: there is no sleep then.
    pub fn pace(&self, now: u64) -> (sleep: Option<u64>)
        ensures
            sleep == self@.sleep_at(now),
    {
        let elapsed = if now >= self.frame_start {
            now - self.frame_start
        } else {
            0
        };
        if elapsed <= self.budget {
            Some(self.budget - elapsed)
        } else {
            None
        }
    }
}

/// A frame that took longer than the frame time is followed by no sleep, and
/// the sleep after any other frame fills the frame time exactly: no sleep is
/// ever negative, and a frame with its sleep never lasts longer than the
/// frame time unless the frame alone did.
pub proof fn lemma_sleep_fills_budget(run: LoopView, elapsed: u64)
    ensures
        elapsed > run.budget <==> run.sleep_time(elapsed) is None,
        run.sleep_time(elapsed) matches Some(sleep) ==> elapsed + sleep == run.budget,
{
}

/// A frame whose work is done within the frame time is followed by a sleep
/// that ends exactly one frame time after the frame started. After a frame
/// that took longer there is no sleep: the next frame starts at once.
pub proof fn lemma_sleep_ends_on_time(run: LoopView, now: u64)
    requires
        run.frame_start <= now,
    ensures
        now - run.frame_start <= run.budget ==> run.wake(now) == run.frame_start + run.budget,
        now - run.frame_start > run.budget ==> run.sleep_at(now) is None && run.wake(now) == now,
{
}

/// Frames are evenly spaced: as long as the work of every frame is done
/// within the frame time and every sleep lasts exactly as long as asked, each
/// frame starts one frame time after the frame before it, however the work
/// varies from frame to frame.
pub proof fn lemma_frames_evenly_spaced(run: LoopView, work: Seq<u64>)
    requires
        forall|i: int| 0 <= i < work.len() ==> #[trigger] work[i] <= run.budget,
        run.frame_start + work.len() * run.budget <= u64::MAX,
    ensures
        run.after_frames(work) == (LoopView {
            frame_start: (run.frame_start + work.len() * run.budget) as u64,
            ..run
        }),
    decreases work.len(),
{
    if work.len() > 0 {
        let rest = work.drop_first();
        let next = run.next_frame(work[0]);
        assert(work.len() * run.budget == run.budget + rest.len() * run.budget && rest.len()
            * run.budget >= 0) by (nonlinear_arith)
            requires
                work.len() == rest.len() + 1,
                run.budget >= 0,
        ;
        lemma_sleep_ends_on_time(run, (run.frame_start + work[0]) as u64);
        assert(next.frame_start == run.frame_start + run.budget);
        assert forall|i: int| 0 <= i < rest.len() implies #[trigger] rest[i] <= next.budget by {
            assert(rest[i] == work[i + 1]);
        }
        lemma_frames_evenly_spaced(next, rest);
    }
}

/// Without a limit on the framerate the frame time is zero, whatever the
/// display: no frame is followed by a sleep of any length.
pub proof fn lemma_unlimited_never_waits(run: LoopView, refresh: u32, elapsed: u64)
    requires
        Framerate::Unlimited.spec_frame_budget(refresh) == Some(run.budget),
    ensures
        run.sleep_time(elapsed) is None || run.sleep_time(elapsed) == Some(0u64),
{
}

/// A display that reports no refresh rate is taken to refresh 60 times a
/// second.
pub proof fn lemma_refresh_fallback(numer: u32, denom: u32)
    ensures
        (Framerate::Multiplier { numer, denom }).spec_frame_budget(0) == (Framerate::Multiplier {
            numer,
            denom,
        }).spec_frame_budget(FALLBACK_REFRESH),
{
}

} // verus!
