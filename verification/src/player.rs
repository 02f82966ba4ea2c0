use vstd::prelude::*;
use crate::glyph::{cp437_code, glyph_of};
use crate::screen::{Colour, DrawCommand};

verus! {

/// Velocity is counted in fifths of a row per physics step, so that one pull
/// of gravity, 0.2 rows per step, is one unit.
pub const VELOCITY_SCALE: i32 = 5;

/// What one physics step adds to the velocity: 0.2 rows per step.
pub const GRAVITY: i32 = 1;

/// The velocity at which gravity stops pulling: 2.0 rows per step.
pub const TERMINAL_VELOCITY: i32 = 10;

/// The velocity right after a flap: 2.0 rows per step, upwards.
pub const FLAP_VELOCITY: i32 = -10;

/// The character that stands for the player.
pub const PLAYER_CHAR: char = '@';

/// The whole rows in a velocity: the velocity over the scale, rounded towards zero.
pub open spec fn whole_rows(velocity: int) -> int {
    if velocity >= 0 {
        velocity / (VELOCITY_SCALE as int)
    } else {
        -((-velocity) / (VELOCITY_SCALE as int))
    }
}

/// The player as mathematical integers.
pub struct PlayerView {
    pub x: int,
    pub y: int,
    pub velocity: int,
}

impl PlayerView {
    /// The velocity after one pull of gravity.
    pub open spec fn pulled(self) -> int {
        if self.velocity < TERMINAL_VELOCITY {
            self.velocity + GRAVITY
        } else {
            self.velocity
        }
    }

    /// The player after one physics step: gravity pulls, the player falls or
    /// rises by the whole rows of the new velocity, stops at row 0, and
    /// advances one column.
    pub open spec fn moved(self) -> PlayerView {
        let velocity = self.pulled();
        let y = self.y + whole_rows(velocity);
        PlayerView { x: self.x + 1, y: if y < 0 { 0 } else { y }, velocity }
    }

    /// The player after `n` physics steps in a row.
    pub open spec fn moved_times(self, n: nat) -> PlayerView
        decreases n,
    {
        if n == 0 {
            self
        } else {
            self.moved_times((n - 1) as nat).moved()
        }
    }

    /// The player after a flap.
    pub open spec fn flapped(self) -> PlayerView {
        PlayerView { velocity: FLAP_VELOCITY as int, ..self }
    }

    /// Whether position and velocity are `i32` values.
    pub open spec fn fits(self) -> bool {
        &&& i32::MIN <= self.x <= i32::MAX
        &&& i32::MIN <= self.y <= i32::MAX
        &&& i32::MIN <= self.velocity <= i32::MAX
    }

    /// The cell in which the player is drawn: column 0 of its row.
    pub open spec fn sprite(self, glyph: u16) -> DrawCommand {
        DrawCommand::Plot {
            x: 0,
            y: self.y as i32,
            fg: Colour::Yellow,
            bg: Colour::Black,
            glyph,
        }
    }
}

/// The bird: a column `x` that counts the distance flown, a row `y` that grows
/// downwards, and a vertical velocity in fifths of a row per step.
#[derive(Clone, Copy, Debug, PartialEq, Eq)]
pub struct Player {
    pub x: i32,
    pub y: i32,
    pub velocity: i32,
}

impl View for Player {
    type V = PlayerView;

    open spec fn view(&self) -> PlayerView {
        PlayerView { x: self.x as int, y: self.y as int, velocity: self.velocity as int }
    }
}

impl Player {
    /// A player at rest at the given place.
    pub fn new(x: i32, y: i32) -> (player: Player)
        ensures
            player@ == (PlayerView { x: x as int, y: y as int, velocity: 0 }),
    {
        Player { x, y, velocity: 0 }
    }

    /// One physics step.
    pub fn gravity_and_move(&mut self)
        requires
            old(self)@.moved().fits(),
        ensures
            final(self)@ == old(self)@.moved(),
            final(self).y >= 0,
            old(self).velocity <= TERMINAL_VELOCITY ==> final(self).velocity <= TERMINAL_VELOCITY,
    {
        if self.velocity < TERMINAL_VELOCITY {
            self.velocity += GRAVITY;
        }
        let y: i64 = self.y as i64 + (self.velocity / VELOCITY_SCALE) as i64;
        self.x += 1;
        if y < 0 {
            self.y = 0;
        } else {
            self.y = y as i32;
        }
    }

    /// Sets the velocity to the upward impulse, whatever it was.
    pub fn flap(&mut self)
        ensures
            final(self)@ == old(self)@.flapped(),
            final(self).velocity == FLAP_VELOCITY,
    {
        self.velocity = FLAP_VELOCITY;
    }

    /// The cell that shows the player, drawn with the given glyph.
    pub fn sprite(&self, glyph: u16) -> (cell: DrawCommand)
        ensures
            cell == self@.sprite(glyph),
    {
        DrawCommand::Plot { x: 0, y: self.y, fg: Colour::Yellow, bg: Colour::Black, glyph }
    }

    /// The cell that shows the player.
    pub fn render(&self) -> (cell: DrawCommand)
        ensures
            cell == self@.sprite(cp437_code(PLAYER_CHAR)),
    {
        self.sprite(glyph_of(PLAYER_CHAR))
    }
}

} // verus!
