use baba::gfx::{Canvas, Event};
use baba::input::{
    clear, get_held_keys, get_pressed_keys, is_key_down, is_key_pressed, press_key, release_key,
    InputState, KeyCode,
};

#[test]
fn press_clear_release() {
    let mut state = InputState::new();
    assert!(!is_key_pressed(&state, KeyCode::A));
    assert!(!is_key_down(&state, KeyCode::A));
    press_key(&mut state, KeyCode::A);
    assert!(is_key_pressed(&state, KeyCode::A));
    assert!(is_key_down(&state, KeyCode::A));
    clear(&mut state);
    assert!(!is_key_pressed(&state, KeyCode::A));
    assert!(is_key_down(&state, KeyCode::A));
    release_key(&mut state, KeyCode::A);
    assert!(!is_key_down(&state, KeyCode::A));
}

#[test]
fn release_keeps_the_key_pressed_this_frame() {
    let mut state = InputState::new();
    press_key(&mut state, KeyCode::Space);
    release_key(&mut state, KeyCode::Space);
    assert!(is_key_pressed(&state, KeyCode::Space));
    assert!(!is_key_down(&state, KeyCode::Space));
}

#[test]
fn keys_are_independent() {
    let mut state = InputState::new();
    press_key(&mut state, KeyCode::W);
    press_key(&mut state, KeyCode::Left);
    release_key(&mut state, KeyCode::W);
    assert!(!is_key_down(&state, KeyCode::W));
    assert!(is_key_down(&state, KeyCode::Left));
    assert!(!is_key_down(&state, KeyCode::Right));
}

#[test]
fn key_lists_hold_each_key_once_in_scancode_order() {
    let mut state = InputState::new();
    press_key(&mut state, KeyCode::Up);
    press_key(&mut state, KeyCode::A);
    press_key(&mut state, KeyCode::A);
    press_key(&mut state, KeyCode::LShift);
    assert_eq!(get_pressed_keys(&state), vec![KeyCode::A, KeyCode::Up, KeyCode::LShift]);
    assert_eq!(get_held_keys(&state), vec![KeyCode::A, KeyCode::Up, KeyCode::LShift]);
    clear(&mut state);
    release_key(&mut state, KeyCode::Up);
    assert_eq!(get_pressed_keys(&state), Vec::<KeyCode>::new());
    assert_eq!(get_held_keys(&state), vec![KeyCode::A, KeyCode::LShift]);
}

#[test]
fn scancodes_round_trip() {
    assert_eq!(KeyCode::A.scancode(), 4);
    assert_eq!(KeyCode::Z.scancode(), 29);
    assert_eq!(KeyCode::Num1.scancode(), 30);
    assert_eq!(KeyCode::Num0.scancode(), 39);
    assert_eq!(KeyCode::Return.scancode(), 40);
    assert_eq!(KeyCode::Space.scancode(), 44);
    assert_eq!(KeyCode::Right.scancode(), 79);
    assert_eq!(KeyCode::Left.scancode(), 80);
    assert_eq!(KeyCode::Down.scancode(), 81);
    assert_eq!(KeyCode::Up.scancode(), 82);
    assert_eq!(KeyCode::F24.scancode(), 115);
    assert_eq!(KeyCode::LCtrl.scancode(), 224);
    assert_eq!(KeyCode::RGui.scancode(), 231);
    let mut keys = 0;
    for code in 0..=1000u32 {
        match KeyCode::from_scancode(code) {
            Some(key) => {
                assert_eq!(key.scancode(), code);
                keys += 1;
            }
            None => assert!(code < 4 || (code > 115 && code < 224) || code > 231),
        }
    }
    assert_eq!(keys, 120);
    assert_eq!(KeyCode::from_scancode(0), None);
    assert_eq!(KeyCode::from_scancode(u32::MAX), None);
}

#[test]
fn key_events_reach_the_input_state() {
    let canvas = Canvas::new();
    let mut state = InputState::new();
    let events = [
        Event::KeyDown { scancode: 4, repeat: false },
        Event::Other,
        Event::KeyDown { scancode: 7, repeat: false },
        Event::KeyUp { scancode: 4 },
    ];
    assert!(canvas.process_events(&mut state, &events));
    assert!(is_key_pressed(&state, KeyCode::A));
    assert!(!is_key_down(&state, KeyCode::A));
    assert!(is_key_pressed(&state, KeyCode::D));
    assert!(is_key_down(&state, KeyCode::D));
}

#[test]
fn repeated_key_down_does_not_press_again() {
    let canvas = Canvas::new();
    let mut state = InputState::new();
    assert!(canvas.process_events(&mut state, &[Event::KeyDown { scancode: 4, repeat: false }]));
    assert!(is_key_pressed(&state, KeyCode::A));
    clear(&mut state);
    let repeats = [Event::KeyDown { scancode: 4, repeat: true }; 5];
    assert!(canvas.process_events(&mut state, &repeats));
    assert!(!is_key_pressed(&state, KeyCode::A));
    assert!(is_key_down(&state, KeyCode::A));
    // a repetition of a key that is not held presses nothing either
    assert!(canvas.process_events(&mut state, &[Event::KeyDown { scancode: 5, repeat: true }]));
    assert!(!is_key_down(&state, KeyCode::B));
    assert!(!is_key_pressed(&state, KeyCode::B));
}

#[test]
fn quit_is_reported_and_the_rest_is_drained() {
    let canvas = Canvas::new();
    let mut state = InputState::new();
    let events = [
        Event::KeyDown { scancode: 4, repeat: false },
        Event::Quit,
        Event::KeyDown { scancode: 5, repeat: false },
    ];
    assert!(!canvas.process_events(&mut state, &events));
    assert!(is_key_down(&state, KeyCode::A));
    assert!(is_key_down(&state, KeyCode::B));
    assert!(canvas.process_events(&mut state, &[]));
    assert!(!canvas.process_events(&mut state, &[Event::Quit]));
}

#[test]
fn unknown_scancodes_are_ignored() {
    let canvas = Canvas::new();
    let mut state = InputState::new();
    let events = [
        Event::KeyDown { scancode: 0, repeat: false },
        Event::KeyDown { scancode: 200, repeat: false },
        Event::KeyUp { scancode: 9999 },
    ];
    assert!(canvas.process_events(&mut state, &events));
    assert_eq!(get_held_keys(&state), Vec::<KeyCode>::new());
    assert_eq!(get_pressed_keys(&state), Vec::<KeyCode>::new());
}

#[test]
fn single_events_dispatch() {
    let mut state = InputState::new();
    assert!(Event::KeyDown { scancode: 44, repeat: false }.dispatch(&mut state));
    assert!(is_key_down(&state, KeyCode::Space));
    assert!(Event::KeyUp { scancode: 44 }.dispatch(&mut state));
    assert!(!is_key_down(&state, KeyCode::Space));
    assert!(Event::Other.dispatch(&mut state));
    assert!(!Event::Quit.dispatch(&mut state));
}
