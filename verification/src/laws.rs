use vstd::prelude::*;
use crate::obstacle::{gap_size, wall, ObstacleView, GAP_HIGH, GAP_LOW, NARROWEST_GAP, WIDEST_GAP};
use crate::player::{PlayerView, FLAP_VELOCITY, GRAVITY, TERMINAL_VELOCITY};
use crate::screen::{Colour, DrawCommand, SCREEN_HEIGHT};
use crate::state::{GameMode, Key, StateView};

verus! {

/// From a score of 18 on, the gap is 2 rows.
pub proof fn gap_size_has_a_floor(score: int)
    requires
        score >= 18,
    ensures
        gap_size(score) == 2,
{
}

/// Below a score of 18, the gap is 20 rows less the score.
pub proof fn gap_size_shrinks_with_score(score: int)
    requires
        score < 18,
    ensures
        gap_size(score) == 20 - score,
{
}

/// The gap is never narrower than the narrowest gap, and from score 0 on
/// never wider than the widest.
pub proof fn gap_size_is_bounded(score: int)
    ensures
        gap_size(score) >= NARROWEST_GAP,
        score >= 0 ==> gap_size(score) <= WIDEST_GAP,
{
}

/// A velocity at or below the terminal velocity grows by one pull of gravity
/// with every physics step until it is the terminal velocity, and stays there.
pub proof fn velocity_after_moves(player: PlayerView, n: nat)
    requires
        player.velocity <= TERMINAL_VELOCITY,
    ensures
        player.moved_times(n).velocity == if player.velocity + n * GRAVITY < TERMINAL_VELOCITY {
            player.velocity + n * GRAVITY
        } else {
            TERMINAL_VELOCITY as int
        },
    decreases n,
{
    if n > 0 {
        velocity_after_moves(player, (n - 1) as nat);
    }
}

/// Physics steps from rest, with no flap between them, never take the
/// velocity above the terminal velocity, and each adds exactly one pull of
/// gravity until the terminal velocity is reached.
pub proof fn velocity_from_rest(player: PlayerView, n: nat)
    requires
        player.velocity == 0,
    ensures
        player.moved_times(n).velocity <= TERMINAL_VELOCITY,
        player.moved_times(n).velocity < TERMINAL_VELOCITY ==> player.moved_times(n + 1).velocity
            == player.moved_times(n).velocity + GRAVITY,
        player.moved_times(n).velocity == TERMINAL_VELOCITY ==> player.moved_times(n + 1).velocity
            == TERMINAL_VELOCITY,
        player.moved_times(n).velocity == if n * GRAVITY < TERMINAL_VELOCITY {
            n * GRAVITY
        } else {
            TERMINAL_VELOCITY as int
        },
{
    velocity_after_moves(player, n);
    velocity_after_moves(player, n + 1);
}

/// A flap sets the velocity to the upward impulse, whatever it was, and
/// leaves the position alone.
pub proof fn flap_forgets_velocity(player: PlayerView)
    ensures
        player.flapped().velocity == FLAP_VELOCITY,
        player.flapped().x == player.x,
        player.flapped().y == player.y,
{
}

/// After any number of physics steps, and at least one, the player is on
/// row 0 or below it, wherever it started.
pub proof fn never_above_the_top(player: PlayerView, n: nat)
    requires
        n >= 1,
    ensures
        player.moved_times(n).y >= 0,
{
}

/// A player that starts on row 0 or below it stays there through any number
/// of physics steps.
pub proof fn stays_below_the_top(player: PlayerView, n: nat)
    requires
        player.y >= 0,
    ensures
        player.moved_times(n).y >= 0,
{
}

/// Every physics step takes the player one column on.
pub proof fn column_after_moves(player: PlayerView, n: nat)
    ensures
        player.moved_times(n).x == player.x + n,
    decreases n,
{
    if n > 0 {
        column_after_moves(player, (n - 1) as nat);
    }
}

/// A player in another column than the obstacle does not hit it, on any row.
pub proof fn no_hit_off_the_column(obstacle: ObstacleView, player: PlayerView)
    requires
        player.x != obstacle.x,
    ensures
        !obstacle.hits(player),
{
}

/// In the obstacle's column, a player on the row just above the gap hits the
/// obstacle, and a player on the row of the gap's centre does not.
pub proof fn hit_above_the_gap_not_at_its_centre(obstacle: ObstacleView, player: PlayerView)
    requires
        obstacle.size >= 2,
        player.x == obstacle.x,
    ensures
        player.y == obstacle.gap_y - obstacle.size / 2 - 1 ==> obstacle.hits(player),
        player.y == obstacle.gap_y ==> !obstacle.hits(player),
{
}

/// The cell of a wall in the obstacle's column, on the given row.
pub open spec fn wall_cell(obstacle: ObstacleView, player_x: int, glyph: u16, row: int)
    -> DrawCommand {
    DrawCommand::Plot {
        x: obstacle.column(player_x) as i32,
        y: row as i32,
        fg: Colour::Red,
        bg: Colour::Black,
        glyph,
    }
}

/// On the rows of the screen, the walls fill the obstacle's column above the
/// gap and from the gap's lower end down, and leave the rows between free.
pub proof fn walls_leave_only_the_gap(obstacle: ObstacleView, player_x: int, glyph: u16, row: int)
    requires
        obstacle.drawable(player_x),
        0 <= row < SCREEN_HEIGHT,
    ensures
        obstacle.walls(player_x, glyph).contains(wall_cell(obstacle, player_x, glyph, row)) <==> (row
            < obstacle.top() || row >= obstacle.bottom()),
{
    let column = obstacle.column(player_x);
    let upper = wall(column, 0, obstacle.top(), glyph);
    let lower = wall(column, obstacle.bottom(), SCREEN_HEIGHT as int, glyph);
    let walls = obstacle.walls(player_x, glyph);
    let cell = wall_cell(obstacle, player_x, glyph, row);
    if row < obstacle.top() {
        assert(walls[row] == cell);
    } else if row >= obstacle.bottom() {
        assert(walls[upper.len() + row - obstacle.bottom()] == cell);
    } else if walls.contains(cell) {
        let i = choose|i: int| 0 <= i < walls.len() && walls[i] == cell;
        if i < upper.len() {
            assert(upper[i] == cell);
        } else {
            assert(lower[i - upper.len()] == cell);
        }
    }
}

/// A player on the screen that hits the obstacle is on a cell of its walls.
pub proof fn a_hit_is_on_a_wall(obstacle: ObstacleView, player: PlayerView, glyph: u16)
    requires
        obstacle.drawable(player.x),
        0 <= player.y < SCREEN_HEIGHT,
        obstacle.hits(player),
    ensures
        obstacle.column(player.x) == 0,
        obstacle.walls(player.x, glyph).contains(wall_cell(obstacle, player.x, glyph, player.y)),
{
    walls_leave_only_the_gap(obstacle, player.x, glyph, player.y);
}

/// A tick keeps what holds of the game at every tick.
pub proof fn tick_keeps_the_invariant(state: StateView, key: Option<Key>, elapsed: nat, gap_y: int)
    requires
        state.inv(),
        GAP_LOW <= gap_y < GAP_HIGH,
    ensures
        state.ticked(key, elapsed as int, gap_y).inv(),
{
}

/// The menu and the game-over screen wait: only `P` changes the game there,
/// and it starts a new one.
pub proof fn menu_and_end_wait_for_p(state: StateView, key: Option<Key>, elapsed: nat, gap_y: int)
    requires
        state.mode != GameMode::Playing,
    ensures
        key != Some(Key::P) ==> state.ticked(key, elapsed as int, gap_y) == state,
        key == Some(Key::P) ==> state.ticked(key, elapsed as int, gap_y) == StateView::fresh(
            GameMode::Playing,
            gap_y,
        ),
{
}

/// A tick of play never takes points away, and gives at most one.
pub proof fn score_grows_by_steps(state: StateView, key: Option<Key>, elapsed: nat, gap_y: int)
    requires
        state.mode == GameMode::Playing,
    ensures
        state.score <= state.ticked(key, elapsed as int, gap_y).score <= state.score + 1,
{
}

} // verus!
