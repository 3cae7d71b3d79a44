//! The decisions of the game loop: quitting, heading requests between
//! ticks, and when a tick is due. The loop itself, with its clock, input
//! and screen, is run by the caller, which hands each poll's result in.
use vstd::prelude::*;

use crate::game::{game_wf, tick_outcome, Game, GameView};
use crate::input::{is_quit, key_heading, quits, KeyPress};
use crate::snake::request;

verus! {

/// Milliseconds between two ticks.
pub const TICK_MS: u64 = 200;

/// Milliseconds that one input poll may wait for a key.
pub const POLL_MS: u64 = 1;

/// What the caller does after a poll.
#[derive(Clone, Copy, Debug, PartialEq, Eq, Structural)]
pub enum Action {
    /// Control+q: stop at once.
    Quit,
    /// No tick was due: poll again.
    Wait,
    /// A tick ran and the snake lives: draw the board.
    Render,
    /// The snake is dead: draw the final board and stop.
    GameOver,
}

pub struct SessionView {
    pub game: GameView,
    pub running: bool,
    pub last_update_ms: u64,
    pub tick_ms: u64,
}

/// Enough time has passed since the last tick for the next one.
pub open spec fn tick_due(last_ms: u64, now_ms: u64, tick_ms: u64) -> bool {
    now_ms >= last_ms && now_ms - last_ms >= tick_ms
}

/// The game after a key press: an arrow key becomes a heading request.
pub open spec fn after_key(g: GameView, key: Option<KeyPress>) -> GameView {
    match key {
        Some(k) => match key_heading(k.code) {
            Some(h) => GameView { snake: request(g.snake, h), ..g },
            None => g,
        },
        None => g,
    }
}

pub struct Session {
    game: Game,
    running: bool,
    last_update_ms: u64,
    tick_ms: u64,
}

impl View for Session {
    type V = SessionView;

    closed spec fn view(&self) -> SessionView {
        SessionView {
            game: self.game@,
            running: self.running,
            last_update_ms: self.last_update_ms,
            tick_ms: self.tick_ms,
        }
    }
}

impl Session {
    pub open spec fn wf(&self) -> bool {
        game_wf(self@.game)
    }

    /// A running session of `game`, started at `now_ms`, ticking every
    /// `tick_ms` milliseconds.
    pub fn new(game: Game, now_ms: u64, tick_ms: u64) -> (r: Session)
        requires
            game.wf(),
        ensures
            r@ == (SessionView { game: game@, running: true, last_update_ms: now_ms, tick_ms }),
            r.wf(),
    {
        Session { game, running: true, last_update_ms: now_ms, tick_ms }
    }

    pub fn game(&self) -> (r: &Game)
        ensures
            r@ == self@.game,
    {
        &self.game
    }

    /// Handles one poll: `key` is the key pressed during it, if any, and
    /// `now_ms` the clock after it. Control+q quits; an arrow key requests a
    /// heading; when a tick is due the game advances once.
    pub fn step(&mut self, key: Option<KeyPress>, now_ms: u64) -> (r: Action)
        requires
            old(self).wf(),
        ensures
            final(self).wf(),
            final(self)@.tick_ms == old(self)@.tick_ms,
            key matches Some(k) && quits(k) ==> r == Action::Quit && final(self)@ == old(self)@,
            !(key matches Some(k) && quits(k)) && !old(self)@.running ==> r == Action::GameOver
                && final(self)@ == old(self)@,
            !(key matches Some(k) && quits(k)) && old(self)@.running && !tick_due(
                old(self)@.last_update_ms,
                now_ms,
                old(self)@.tick_ms,
            ) ==> r == Action::Wait && final(self)@ == (SessionView {
                game: after_key(old(self)@.game, key),
                ..old(self)@
            }),
            !(key matches Some(k) && quits(k)) && old(self)@.running && tick_due(
                old(self)@.last_update_ms,
                now_ms,
                old(self)@.tick_ms,
            ) ==> (r == Action::Render || r == Action::GameOver) && final(self)@.running == (r
                == Action::Render) && final(self)@.last_update_ms == now_ms && tick_outcome(
                after_key(old(self)@.game, key),
                final(self)@.running,
                final(self)@.game,
            ),
    {
        if let Some(k) = key {
            if is_quit(k) {
                return Action::Quit;
            }
        }
        if !self.running {
            return Action::GameOver;
        }
        if let Some(k) = key {
            self.game.handle_key_event(k.code);
        }
        if now_ms < self.last_update_ms || now_ms - self.last_update_ms < self.tick_ms {
            return Action::Wait;
        }
        let alive = self.game.update_snake();
        self.running = alive;
        self.last_update_ms = now_ms;
        if alive {
            Action::Render
        } else {
            Action::GameOver
        }
    }
}

} // verus!
