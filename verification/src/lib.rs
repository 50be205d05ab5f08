//! Baba is an extremely simple engine for game development, inspired by love2d.
//!
//! Its main goal is to provide a robust base for games of any complexity. It is currently built
//! on top of [SDL2], which already has widespread usage and supports a huge variety of systems.
//!
//! [SDL2]: https://libsdl.org/
//!
//! This crate is the engine's core: what is drawn, which keys count as
//! pressed, when a frame ends and how long to sleep after it. It never talks
//! to the backend itself. Drawing adds requests to a [`gfx::Canvas`], the game
//! loop is a state machine, [`GameLoop`], and the program that owns the window
//! performs what they ask for.

use vstd::prelude::*;

mod error;
mod game;
pub mod gfx;
pub mod input;
pub mod math;
pub use error::{Error, SdlError};
pub use game::{
    lemma_frames_evenly_spaced, lemma_refresh_fallback, lemma_sleep_ends_on_time,
    lemma_sleep_fills_budget, lemma_unlimited_never_waits, Framerate, Game, GameLoop, GameView,
    Hint, LoopView, Phase, Settings, Startup, WindowSettings, FALLBACK_REFRESH, NANOS_PER_SEC,
};

verus! {

/// Simple entrypoint function for baba games.
///
/// If you don't currently need to set any engine options, this is simply a shorthand for
/// `baba::game(name).run()`.
///
/// See [`game`][game()] for more!
pub fn run(name: String) -> (run: GameLoop)
    ensures
        run@ == LoopView::fresh(
            GameView {
                name: name@,
                settings: Settings::spec_default(),
                title: None,
                size: (800u32, 600u32),
                resizable: true,
            },
        ),
{
    game(name).run()
}

/// Entrypoint function for baba games.
///
/// This function creates a [`Game`] object, which you can set many options in. To start your game,
/// simply call [`.run()`][Game::run] on it. Check out [`Game`] for the options you can set!
pub fn game(name: String) -> (game: Game)
    ensures
        game@ == (GameView {
            name: name@,
            settings: Settings::spec_default(),
            title: None,
            size: (800u32, 600u32),
            resizable: true,
        }),
{
    Game::new(name)
}

} // verus!
