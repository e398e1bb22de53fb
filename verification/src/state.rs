use vstd::prelude::*;

use crate::obstacle::{
    size_for_score, width_bound_for_score, Obstacle, GAP_CENTER_MAX, GAP_CENTER_MIN, MIN_WIDTH,
};
use crate::player::{flap_state, gravity_step, Player};
use crate::{SCREEN_HEIGHT, SCREEN_WIDTH, TICK_BUDGET_MICROS};

verus! {

/// Column the player starts in after a restart.
pub const PLAYER_START_X: i32 = 5;

/// Row the player starts on after a restart.
pub const PLAYER_START_Y: i32 = 25;

/// Which of the three screens the game is on.
#[derive(Clone, Copy, Debug, PartialEq, Eq, Structural)]
pub enum GameMode {
    Menu,
    Playing,
    GameOver,
}

/// One frame's key input, as far as the game tells keys apart.
#[derive(Clone, Copy, Debug, PartialEq, Eq, Structural)]
pub enum Key {
    Confirm,
    Quit,
    Flap,
    Other,
}

/// The whole game: the physics body, the one active obstacle, the score, the
/// sub-frame time accumulated toward the next logical tick, and the screen
/// the game is on.
pub struct State {
    pub player: Player,
    pub frame_time_micros: u64,
    pub mode: GameMode,
    pub score: i32,
    pub obstacle: Obstacle,
}

/// Holds of every state a fresh start or a restart produces: the score is
/// cleared, the player is back at the start with no velocity, no sub-frame
/// time is banked, and the obstacle is a fresh one at the score-zero
/// parameter distribution, one screen width ahead.
pub open spec fn reset_round(s: State) -> bool {
    &&& s.player == (Player { x: PLAYER_START_X, y: PLAYER_START_Y, velocity_tenths: 0 })
    &&& s.frame_time_micros == 0
    &&& s.score == 0
    &&& s.obstacle.x == SCREEN_WIDTH
    &&& s.obstacle.size == size_for_score(0)
    &&& MIN_WIDTH <= s.obstacle.width < width_bound_for_score(0)
    &&& GAP_CENTER_MIN <= s.obstacle.gap_y < GAP_CENTER_MAX
}

/// What one frame on the menu or game-over screen does: a confirm key
/// restarts the round and enters play, any other input leaves the state
/// untouched, and only the quit key asks the driver to stop.
pub open spec fn menu_frame_post(pre: State, post: State, key: Option<Key>, quit: bool) -> bool {
    &&& quit == (key == Some(Key::Quit))
    &&& if key == Some(Key::Confirm) {
        reset_round(post) && post.mode is Playing
    } else {
        post == pre
    }
}

/// What one frame of play does, up to the two random draws a replacement
/// obstacle makes. Written over the pre- and post-states:
/// - a logical tick fires exactly when the banked time plus this frame's
///   elapsed time passes the tick budget; the bank is then cleared, else it
///   keeps the sum;
/// - gravity moves the player only on a tick; a flap key acts immediately;
/// - passing the obstacle adds one point and spawns a replacement one screen
///   width ahead, parameterized by the new score;
/// - the frame ends in game over exactly when the player fell below the
///   screen or collides with the obstacle it is level with.
pub open spec fn playing_frame_post(
    pre: State,
    post: State,
    elapsed_micros: int,
    key: Option<Key>,
) -> bool {
    let ticked = pre.frame_time_micros + elapsed_micros > TICK_BUDGET_MICROS;
    let moved = if ticked {
        gravity_step(pre.player)
    } else {
        pre.player
    };
    let p = if key == Some(Key::Flap) {
        flap_state(moved)
    } else {
        moved
    };
    let passed = p.x > pre.obstacle.x;
    let score = if passed {
        pre.score + 1
    } else {
        pre.score as int
    };
    &&& post.player == p
    &&& post.frame_time_micros == if ticked {
        0
    } else {
        pre.frame_time_micros + elapsed_micros
    }
    &&& post.score == score
    &&& if passed {
        &&& post.obstacle.x == p.x + SCREEN_WIDTH
        &&& post.obstacle.size == size_for_score(score)
        &&& MIN_WIDTH <= post.obstacle.width < width_bound_for_score(score)
        &&& GAP_CENTER_MIN <= post.obstacle.gap_y < GAP_CENTER_MAX
    } else {
        post.obstacle == pre.obstacle
    }
    &&& post.mode == if p.y > SCREEN_HEIGHT || post.obstacle.hits(p.x as int, p.y as int) {
        GameMode::GameOver
    } else {
        GameMode::Playing
    }
}

impl State {
    /// Everything the game keeps true between frames: both bodies are
    /// well-formed, the score never goes negative, banked sub-frame time
    /// never exceeds the tick budget, the player has not gone past the
    /// active obstacle, the obstacle sits at least one screen width per
    /// point scored into the world, and during play the player is on screen.
    pub open spec fn wf(self) -> bool {
        &&& self.player.wf()
        &&& self.obstacle.wf()
        &&& 0 <= self.score
        &&& self.frame_time_micros <= TICK_BUDGET_MICROS
        &&& self.player.x <= self.obstacle.x
        &&& SCREEN_WIDTH * self.score <= self.obstacle.x
        &&& self.mode is Playing ==> self.player.y <= SCREEN_HEIGHT
    }

    /// A fresh game: on the menu screen, with a reset round behind it.
    pub fn new() -> (s: State)
        ensures
            s.mode is Menu,
            reset_round(s),
            s.wf(),
    {
        State {
            player: Player::new(PLAYER_START_X, PLAYER_START_Y),
            frame_time_micros: 0,
            mode: GameMode::Menu,
            score: 0,
            obstacle: Obstacle::new(SCREEN_WIDTH, 0),
        }
    }

    /// Resets the round and enters play: whatever the game looked like
    /// before, the score is 0 again and the obstacle is drawn from the
    /// score-zero distribution.
    pub fn restart_game(&mut self)
        ensures
            reset_round(*final(self)),
            final(self).mode is Playing,
            final(self).wf(),
    {
        self.player = Player::new(PLAYER_START_X, PLAYER_START_Y);
        self.frame_time_micros = 0;
        self.mode = GameMode::Playing;
        self.obstacle = Obstacle::new(SCREEN_WIDTH, 0);
        self.score = 0;
    }

    /// One frame on the menu screen: only the confirm and quit keys act.
    pub fn main_menu(&mut self, key: Option<Key>) -> (quit: bool)
        requires
            old(self).wf(),
            old(self).mode is Menu,
        ensures
            menu_frame_post(*old(self), *final(self), key, quit),
            final(self).wf(),
    {
        let mut quit = false;
        if let Some(k) = key {
            match k {
                Key::Confirm => self.restart_game(),
                Key::Quit => quit = true,
                _ => {},
            }
        }
        quit
    }

    /// One frame on the game-over screen: the same keys act as on the menu.
    pub fn game_over(&mut self, key: Option<Key>) -> (quit: bool)
        requires
            old(self).wf(),
            old(self).mode is GameOver,
        ensures
            menu_frame_post(*old(self), *final(self), key, quit),
            final(self).wf(),
    {
        let mut quit = false;
        if let Some(k) = key {
            match k {
                Key::Confirm => self.restart_game(),
                Key::Quit => quit = true,
                _ => {},
            }
        }
        quit
    }

    /// One frame of play: bank the elapsed real time and run at most one
    /// logical physics tick, answer a flap key immediately, score a passed
    /// obstacle and replace it, and fall into game over on a collision or on
    /// leaving the screen.
    pub fn playing(&mut self, elapsed_micros: u64, key: Option<Key>)
        requires
            old(self).wf(),
            old(self).mode is Playing,
            old(self).player.x <= i32::MAX - 81,
            elapsed_micros <= u64::MAX - TICK_BUDGET_MICROS,
        ensures
            playing_frame_post(*old(self), *final(self), elapsed_micros as int, key),
            final(self).wf(),
    {
        self.frame_time_micros = self.frame_time_micros + elapsed_micros;
        if self.frame_time_micros > TICK_BUDGET_MICROS {
            self.frame_time_micros = 0;
            self.player.gravity_and_move();
        }
        if let Some(Key::Flap) = key {
            self.player.flap();
        }
        if self.player.x > self.obstacle.x {
            self.score = self.score + 1;
            self.obstacle = Obstacle::new(self.player.x + SCREEN_WIDTH, self.score);
        }
        if self.player.y > SCREEN_HEIGHT || self.obstacle.hit_test(&self.player) {
            self.mode = GameMode::GameOver;
        }
    }

    /// One frame, whatever screen the game is on: dispatches to the handler
    /// the mode selects, and reports whether the player asked to quit.
    pub fn tick(&mut self, elapsed_micros: u64, key: Option<Key>) -> (quit: bool)
        requires
            old(self).wf(),
            old(self).mode is Playing ==> old(self).player.x <= i32::MAX - 81,
            old(self).mode is Playing ==> elapsed_micros <= u64::MAX - TICK_BUDGET_MICROS,
        ensures
            final(self).wf(),
            old(self).mode is Menu ==> menu_frame_post(*old(self), *final(self), key, quit),
            old(self).mode is GameOver ==> menu_frame_post(*old(self), *final(self), key, quit),
            old(self).mode is Playing ==> playing_frame_post(
                *old(self),
                *final(self),
                elapsed_micros as int,
                key,
            ) && !quit,
    {
        match self.mode {
            GameMode::Menu => self.main_menu(key),
            GameMode::Playing => {
                self.playing(elapsed_micros, key);
                false
            },
            GameMode::GameOver => self.game_over(key),
        }
    }
}

} // verus!
