use vstd::prelude::*;
use crate::glyph::{cp437_code, glyph_of};
use crate::player::{Player, PlayerView};
use crate::random::{draw_between, fresh_generator};
use crate::screen::{Colour, DrawCommand, SCREEN_HEIGHT};

verus! {

/// The lowest row on which a gap may be centred.
pub const GAP_LOW: i32 = 10;

/// The row before which the centre of every gap lies.
pub const GAP_HIGH: i32 = 40;

/// The size of the gap at score 0.
pub const WIDEST_GAP: i32 = 20;

/// The size below which the gap never shrinks.
pub const NARROWEST_GAP: i32 = 2;

/// The character of which the walls are built.
pub const WALL_CHAR: char = '|';

/// The size of the gap at a score: one row less for each point, down to the
/// narrowest gap.
pub open spec fn gap_size(score: int) -> int {
    if WIDEST_GAP - score > NARROWEST_GAP {
        WIDEST_GAP - score
    } else {
        NARROWEST_GAP as int
    }
}

/// A run of wall cells in one column, from row `from` up to but without row `to`.
pub open spec fn wall(column: int, from: int, to: int, glyph: u16) -> Seq<DrawCommand> {
    Seq::new(
        if to > from {
            (to - from) as nat
        } else {
            0
        },
        |i: int|
            DrawCommand::Plot {
                x: column as i32,
                y: (from + i) as i32,
                fg: Colour::Red,
                bg: Colour::Black,
                glyph,
            },
    )
}

/// The obstacle as mathematical integers.
pub struct ObstacleView {
    pub x: int,
    pub gap_y: int,
    pub size: int,
}

impl ObstacleView {
    /// Half the size of the gap, rounded towards zero.
    pub open spec fn half(self) -> int {
        if self.size >= 0 {
            self.size / 2
        } else {
            -((-self.size) / 2)
        }
    }

    /// The row at which the upper wall ends: it fills the rows above this one.
    pub open spec fn top(self) -> int {
        self.gap_y - self.half()
    }

    /// The row at which the lower wall begins.
    pub open spec fn bottom(self) -> int {
        self.gap_y + self.half()
    }

    /// The screen column of the obstacle when the player is at `player_x`.
    pub open spec fn column(self, player_x: int) -> int {
        self.x - player_x
    }

    /// A player hits the obstacle when it is in the obstacle's column and
    /// above or below the gap.
    pub open spec fn hits(self, player: PlayerView) -> bool {
        player.x == self.x && (player.y < self.top() || player.y > self.bottom())
    }

    /// The gap is at least the narrowest gap and centred in the band of rows
    /// in which gaps are made.
    pub open spec fn wf(self) -> bool {
        &&& self.size >= NARROWEST_GAP
        &&& GAP_LOW <= self.gap_y < GAP_HIGH
    }

    /// Whether the column and the two ends of the gap are `i32` values.
    pub open spec fn drawable(self, player_x: int) -> bool {
        &&& i32::MIN <= self.column(player_x) <= i32::MAX
        &&& i32::MIN <= self.top() <= i32::MAX
        &&& i32::MIN <= self.bottom() <= i32::MAX
    }

    /// The cells of the two walls, the upper wall first, each from its top row down.
    pub open spec fn walls(self, player_x: int, glyph: u16) -> Seq<DrawCommand> {
        wall(self.column(player_x), 0, self.top(), glyph) + wall(
            self.column(player_x),
            self.bottom(),
            SCREEN_HEIGHT as int,
            glyph,
        )
    }
}

/// A pair of walls in column `x` of the world, with a gap of `size` rows
/// centred on row `gap_y`.
#[derive(Clone, Copy, Debug, PartialEq, Eq)]
pub struct Obstacle {
    pub x: i32,
    pub gap_y: i32,
    pub size: i32,
}

impl View for Obstacle {
    type V = ObstacleView;

    open spec fn view(&self) -> ObstacleView {
        ObstacleView { x: self.x as int, gap_y: self.gap_y as int, size: self.size as int }
    }
}

impl Obstacle {
    /// An obstacle at `x` for the given score, its gap centred on a row drawn
    /// at random from the band of gap rows.
    pub fn new(x: i32, score: i32) -> (obstacle: Obstacle)
        requires
            gap_size(score as int) <= i32::MAX,
        ensures
            obstacle@.x == x,
            obstacle@.size == gap_size(score as int),
            score >= 18 ==> obstacle.size == 2,
            score < 18 ==> obstacle.size == 20 - score,
            GAP_LOW <= obstacle@.gap_y < GAP_HIGH,
            obstacle@.wf(),
    {
        let mut random = fresh_generator();
        let gap_y = draw_between(&mut random, GAP_LOW, GAP_HIGH);
        Obstacle::with_gap(x, gap_y, score)
    }

    /// An obstacle at `x` for the given score, its gap centred on `gap_y`.
    pub fn with_gap(x: i32, gap_y: i32, score: i32) -> (obstacle: Obstacle)
        requires
            gap_size(score as int) <= i32::MAX,
        ensures
            obstacle@ == (ObstacleView {
                x: x as int,
                gap_y: gap_y as int,
                size: gap_size(score as int),
            }),
            score >= 18 ==> obstacle.size == 2,
            score < 18 ==> obstacle.size == 20 - score,
    {
        let size = if score >= WIDEST_GAP - NARROWEST_GAP {
            NARROWEST_GAP
        } else {
            WIDEST_GAP - score
        };
        Obstacle { x, gap_y, size }
    }

    /// Whether the player has run into one of the walls.
    pub fn hit_obstacle(&self, player: &Player) -> (hit: bool)
        ensures
            hit == self@.hits(player@),
            player.x != self.x ==> !hit,
    {
        let half_size = (self.size / 2) as i64;
        let does_x_match = player.x == self.x;
        let player_above_gap = (player.y as i64) < self.gap_y as i64 - half_size;
        let player_below_gap = (player.y as i64) > self.gap_y as i64 + half_size;
        does_x_match && (player_above_gap || player_below_gap)
    }

    /// The cells of the two walls as seen by a player at `player_x`, drawn
    /// with the given glyph.
    pub fn walls(&self, player_x: i32, glyph: u16) -> (cells: Vec<DrawCommand>)
        requires
            self@.drawable(player_x as int),
        ensures
            cells@ == self@.walls(player_x as int, glyph),
    {
        let screen_x = self.x - player_x;
        let half_size = self.size / 2;
        let top = self.gap_y - half_size;
        let bottom = self.gap_y + half_size;
        let mut cells: Vec<DrawCommand> = Vec::new();
        let mut y: i32 = 0;
        while y < top
            invariant
                0 <= y,
                y <= top || y == 0,
                cells@ == wall(screen_x as int, 0, y as int, glyph),
            decreases top - y,
        {
            cells.push(
                DrawCommand::Plot { x: screen_x, y, fg: Colour::Red, bg: Colour::Black, glyph },
            );
            y += 1;
        }
        let ghost upper = cells@;
        let mut y: i32 = bottom;
        while y < SCREEN_HEIGHT
            invariant
                bottom <= y,
                y <= SCREEN_HEIGHT || y == bottom,
                cells@ == upper + wall(screen_x as int, bottom as int, y as int, glyph),
            decreases SCREEN_HEIGHT - y,
        {
            cells.push(
                DrawCommand::Plot { x: screen_x, y, fg: Colour::Red, bg: Colour::Black, glyph },
            );
            y += 1;
        }
        cells
    }

    /// The cells of the two walls as seen by a player at `player_x`.
    pub fn render(&self, player_x: i32) -> (cells: Vec<DrawCommand>)
        requires
            self@.drawable(player_x as int),
        ensures
            cells@ == self@.walls(player_x as int, cp437_code(WALL_CHAR)),
    {
        self.walls(player_x, glyph_of(WALL_CHAR))
    }
}

} // verus!
