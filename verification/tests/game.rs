use baba::gfx::{
    Canvas, CanvasError, Command, DisplayMode, Event, ScaleMode, Viewport, ViewportScaling,
};
use baba::input::{is_key_down, is_key_pressed, InputState, KeyCode};
use baba::{
    game, run, Error, Framerate, Game, Phase, SdlError, Settings, WindowSettings,
    FALLBACK_REFRESH, NANOS_PER_SEC,
};

fn describe(canvas: &Canvas) -> Vec<String> {
    canvas.commands().iter().map(|c: &Command| format!("{:?}", c)).collect()
}

fn mode(refresh: u32) -> DisplayMode {
    DisplayMode { width: 800, height: 600, refresh, renderer: "opengl".to_string() }
}

fn hints(game: &Game) -> Vec<(String, String)> {
    game.startup().hints.into_iter().map(|h| (h.name, h.value)).collect()
}

fn pair(name: &str, value: &str) -> (String, String) {
    (name.to_string(), value.to_string())
}

#[test]
fn exact_framerate_budget() {
    assert_eq!(Framerate::Exact(30).frame_budget(60), Some(33_333_333));
    assert_eq!(Framerate::Exact(60).frame_budget(0), Some(16_666_666));
    assert_eq!(Framerate::Exact(1).frame_budget(144), Some(NANOS_PER_SEC));
    assert_eq!(Framerate::Exact(u32::MAX).frame_budget(60), Some(0));
    assert_eq!(Framerate::Exact(0).frame_budget(60), None);
}

#[test]
fn multiplier_framerate_budget() {
    let once = Framerate::Multiplier { numer: 1, denom: 1 };
    assert_eq!(once.frame_budget(60), Some(16_666_666));
    assert_eq!(once.frame_budget(144), Some(6_944_444));
    assert_eq!(once.frame_budget(0), Some(16_666_666));
    assert_eq!(FALLBACK_REFRESH, 60);
    let half = Framerate::Multiplier { numer: 1, denom: 2 };
    assert_eq!(half.frame_budget(60), Some(33_333_333));
    let double = Framerate::Multiplier { numer: 2, denom: 1 };
    assert_eq!(double.frame_budget(50), Some(10_000_000));
    let big = Framerate::Multiplier { numer: u32::MAX, denom: u32::MAX };
    assert_eq!(big.frame_budget(u32::MAX), Some(0));
    assert_eq!(Framerate::Multiplier { numer: 1, denom: u32::MAX }.frame_budget(1), Some(
        u32::MAX as u64 * NANOS_PER_SEC
    ));
    assert_eq!(Framerate::Multiplier { numer: 0, denom: 1 }.frame_budget(60), None);
    assert_eq!(Framerate::Multiplier { numer: 1, denom: 0 }.frame_budget(60), None);
}

#[test]
fn unlimited_framerate_has_no_budget() {
    assert_eq!(Framerate::Unlimited.frame_budget(60), Some(0));
    assert_eq!(Framerate::Unlimited.frame_budget(0), Some(0));
}

#[test]
fn defaults() {
    let settings = Settings::default();
    assert_eq!(settings.scale_mode, ScaleMode::Nearest);
    assert_eq!(settings.framerate, Framerate::Multiplier { numer: 1, denom: 1 });
    assert!(!settings.vsync);
    assert!(settings.viewport.is_none());
    let window = WindowSettings::default();
    assert_eq!(window.title, None);
    assert_eq!(window.size, (800, 600));
    assert!(window.resizable);
}

#[test]
fn startup_of_a_default_game() {
    let game = Game::new("My game".to_string());
    let plan = game.startup();
    assert!(plan.hidden);
    assert!(plan.resizable);
    assert_eq!(
        hints(&game),
        vec![
            pair("SDL_APP_NAME", "My game"),
            pair("SDL_VIDEO_DOUBLE_BUFFER", "1"),
            pair("SDL_RENDER_SCALE_QUALITY", "0"),
        ]
    );
    let mut canvas = Canvas::new();
    game.configure(&mut canvas);
    assert_eq!(describe(&canvas), vec!["SetWindowTitle(\"My game\")", "SetWindowSize(800, 600)"]);
}

#[test]
fn startup_of_a_configured_game() {
    let game = game("SOKOBAN".to_string())
        .window_title("Hello!".to_string())
        .window_size(320, 200)
        .viewport(Viewport::new(32 * 7, 32 * 7))
        .scale_mode(ScaleMode::Linear)
        .framerate(Framerate::Exact(30))
        .vsync();
    assert_eq!(
        hints(&game),
        vec![
            pair("SDL_APP_NAME", "SOKOBAN"),
            pair("SDL_VIDEO_DOUBLE_BUFFER", "1"),
            pair("SDL_RENDER_SCALE_QUALITY", "1"),
        ]
    );
    let mut canvas = Canvas::new();
    canvas.show_window();
    game.configure(&mut canvas);
    assert_eq!(
        describe(&canvas),
        vec![
            "ShowWindow",
            "SetWindowTitle(\"Hello!\")",
            "SetWindowSize(320, 200)",
            "SetLogicalSize(224, 224)",
            "SetIntegerScaling(true)",
            "SetVsync(true)",
        ]
    );
}

#[test]
fn settings_and_window_replace_what_was_set() {
    let settings = Settings {
        scale_mode: ScaleMode::Linear,
        framerate: Framerate::Unlimited,
        vsync: false,
        viewport: Some(Viewport { logical_size: (10, 20), scaling: ViewportScaling::Fractional }),
    };
    let window = WindowSettings { title: None, size: (1, 2), resizable: false };
    let game = Game::new("n".to_string()).vsync().settings(settings).window(window);
    assert!(!game.startup().resizable);
    let mut canvas = Canvas::new();
    game.configure(&mut canvas);
    assert_eq!(
        describe(&canvas),
        vec![
            "SetWindowTitle(\"n\")",
            "SetWindowSize(1, 2)",
            "SetLogicalSize(10, 20)",
            "SetIntegerScaling(false)",
        ]
    );
    let run = game.run();
    assert_eq!(run.phase(), Phase::Uninitialized);
}

#[test]
fn a_run_goes_through_its_phases() {
    let mut run = Game::new("g".to_string()).framerate(Framerate::Exact(30)).run();
    let mut canvas = Canvas::new();
    let mut input = InputState::new();
    assert_eq!(run.phase(), Phase::Uninitialized);
    // nothing runs before the start
    assert!(!run.poll(&canvas, &mut input, &[Event::KeyDown { scancode: 4, repeat: false }], 5));
    assert!(!is_key_down(&input, KeyCode::A));
    assert!(!run.end_frame(&mut canvas, &mut input));
    assert!(canvas.commands().is_empty());
    assert!(!run.enter(&mut canvas, &mode(60)));
    assert_eq!(run.phase(), Phase::Uninitialized);

    let plan = run.start().unwrap();
    assert!(plan.hidden);
    assert_eq!(plan.hints.len(), 3);
    assert_eq!(run.phase(), Phase::Initializing);
    assert!(run.start().is_none());

    run.game().configure(&mut canvas);
    assert!(run.enter(&mut canvas, &mode(60)));
    assert_eq!(run.phase(), Phase::Running);
    assert_eq!(run.budget(), 33_333_333);
    assert_eq!(
        describe(&canvas),
        vec!["SetWindowTitle(\"g\")", "SetWindowSize(800, 600)", "ShowWindow"]
    );
    canvas.take_commands();

    // nothing is presented before a frame has started
    assert!(!run.end_frame(&mut canvas, &mut input));
    assert!(canvas.commands().is_empty());

    let start = 1_000_000_000;
    let down = [Event::KeyDown { scancode: 4, repeat: false }];
    assert!(run.poll(&canvas, &mut input, &down, start));
    assert!(is_key_pressed(&input, KeyCode::A));
    assert!(run.end_frame(&mut canvas, &mut input));
    assert_eq!(describe(&canvas), vec!["Present"]);
    assert!(!is_key_pressed(&input, KeyCode::A));
    assert!(is_key_down(&input, KeyCode::A));
    assert_eq!(run.pace(start + 3_333_333), Some(30_000_000));
    // a frame is ended once
    assert!(!run.end_frame(&mut canvas, &mut input));
    assert_eq!(describe(&canvas), vec!["Present"]);
    canvas.take_commands();

    // the frame in which the quit comes is completed, and is the last
    assert!(run.poll(&canvas, &mut input, &[Event::KeyUp { scancode: 4 }, Event::Quit], start * 2));
    assert!(!is_key_down(&input, KeyCode::A));
    assert_eq!(run.phase(), Phase::Terminated);
    assert!(!run.end_frame(&mut canvas, &mut input));
    assert_eq!(describe(&canvas), vec!["Present"]);
    assert!(!run.poll(&canvas, &mut input, &down, start * 3));
    assert!(!is_key_down(&input, KeyCode::A));
}

#[test]
fn a_terminated_run_stays_terminated() {
    let mut run = run("g".to_string());
    let mut canvas = Canvas::new();
    let mut input = InputState::new();
    run.start();
    assert!(run.enter(&mut canvas, &mode(0)));
    assert_eq!(run.budget(), 16_666_666);
    assert!(run.poll(&canvas, &mut input, &[Event::Quit], 0));
    assert_eq!(run.phase(), Phase::Terminated);
    assert!(!run.end_frame(&mut canvas, &mut input));
    assert!(run.start().is_none());
    assert!(!run.enter(&mut canvas, &mode(60)));
    assert!(!run.poll(&canvas, &mut input, &[], 1));
    run.fail(CanvasError::Sdl(SdlError::new("late".to_string())));
    assert_eq!(run.phase(), Phase::Terminated);
}

#[test]
fn backend_failure_ends_the_run() {
    let mut run = game("g".to_string()).run();
    run.start();
    let error = run.fail(CanvasError::Sdl(SdlError::new("no display".to_string())));
    assert_eq!(run.phase(), Phase::Terminated);
    match &error {
        Error::Canvas(CanvasError::Sdl(e)) => assert_eq!(e.text(), "no display"),
        other => panic!("unexpected: {:?}", other),
    }
    assert_eq!(error.message(), "Failed to initialise canvas: SDL error: no display");
}

#[test]
fn a_zero_framerate_does_not_enter() {
    let mut run = game("g".to_string()).framerate(Framerate::Exact(0)).run();
    let mut canvas = Canvas::new();
    run.start();
    assert!(!run.enter(&mut canvas, &mode(60)));
    assert_eq!(run.phase(), Phase::Initializing);
    assert!(canvas.commands().is_empty());
}

#[test]
fn no_sleep_after_a_long_frame() {
    let mut run = game("g".to_string()).framerate(Framerate::Exact(30)).run();
    let mut canvas = Canvas::new();
    run.start();
    assert!(run.enter(&mut canvas, &mode(60)));
    let mut input = InputState::new();
    let start = 7_000_000_000;
    assert!(run.poll(&canvas, &mut input, &[], start));
    assert!(run.end_frame(&mut canvas, &mut input));
    assert_eq!(run.pace(start), Some(33_333_333));
    assert_eq!(run.pace(start + 33_333_333), Some(0));
    assert_eq!(run.pace(start + 33_333_334), None);
    assert_eq!(run.pace(u64::MAX), None);
    // a clock reading from before the frame counts as no time
    assert_eq!(run.pace(start - 1), Some(33_333_333));
}

#[test]
fn frames_are_evenly_spaced() {
    const MS: u64 = 1_000_000;
    let mut run = game("g".to_string()).framerate(Framerate::Exact(10)).run();
    let mut canvas = Canvas::new();
    let mut input = InputState::new();
    run.start();
    assert!(run.enter(&mut canvas, &mode(60)));
    assert_eq!(run.budget(), 100 * MS);
    let first = 250 * MS;
    let mut clock = first;
    let mut presented = Vec::new();
    for _ in 0..3 {
        assert!(run.poll(&canvas, &mut input, &[], clock));
        clock += 20 * MS;
        assert!(run.end_frame(&mut canvas, &mut input));
        presented.push(clock);
        let sleep = run.pace(clock);
        assert_eq!(sleep, Some(80 * MS));
        clock += sleep.unwrap();
    }
    assert_eq!(presented, vec![first + 20 * MS, first + 120 * MS, first + 220 * MS]);
    assert_eq!(clock, first + 300 * MS);

    // work that varies leaves the starts one frame time apart
    let mut starts = Vec::new();
    for work in [5 * MS, 99 * MS, 100 * MS, 0] {
        starts.push(clock);
        assert!(run.poll(&canvas, &mut input, &[], clock));
        assert!(run.end_frame(&mut canvas, &mut input));
        clock += work;
        clock += run.pace(clock).unwrap();
    }
    assert_eq!(
        starts,
        vec![first + 300 * MS, first + 400 * MS, first + 500 * MS, first + 600 * MS]
    );

    // a frame that takes too long is followed by no sleep
    assert!(run.poll(&canvas, &mut input, &[], clock));
    assert!(run.end_frame(&mut canvas, &mut input));
    assert_eq!(run.pace(clock + 130 * MS), None);
}

#[test]
fn unlimited_framerate_never_waits() {
    let mut run = game("g".to_string()).framerate(Framerate::Unlimited).run();
    let mut canvas = Canvas::new();
    run.start();
    assert!(run.enter(&mut canvas, &mode(60)));
    assert_eq!(run.budget(), 0);
    let mut input = InputState::new();
    assert!(run.poll(&canvas, &mut input, &[], 40));
    assert_eq!(run.pace(40), Some(0));
    assert_eq!(run.pace(41), None);
}
