use vstd::prelude::*;
use crate::caption::Caption;
use crate::glyph::cp437_code;
use crate::obstacle::{gap_size, Obstacle, ObstacleView, WALL_CHAR};
use crate::player::{Player, PlayerView, PLAYER_CHAR, TERMINAL_VELOCITY};
use crate::screen::{Colour, DrawCommand, Frame, SCREEN_HEIGHT, SCREEN_WIDTH};

verus! {

/// The time, in microseconds, that must have gone by before the next physics step.
pub const FRAME_DURATION: u64 = 20_000;

/// The column in which a game starts.
pub const START_X: i32 = 5;

/// The row in which a game starts.
pub const START_Y: i32 = 25;

/// The screen that the game is on.
#[derive(Clone, Copy, Debug, PartialEq, Eq)]
pub enum GameMode {
    Menu,
    Playing,
    End,
}

/// A key as the game sees it: the three it listens to, and any other.
#[derive(Clone, Copy, Debug, PartialEq, Eq)]
pub enum Key {
    P,
    Q,
    Space,
    Other,
}

/// Whether the key is the one that makes the player flap.
pub open spec fn is_flap(key: Option<Key>) -> bool {
    key == Some(Key::Space)
}

/// The game as mathematical values.
pub struct StateView {
    pub player: PlayerView,
    pub frame_time: int,
    pub obstacle: ObstacleView,
    pub mode: GameMode,
    pub score: int,
}

impl StateView {
    /// The game at its start, on the given screen: the player at rest at the
    /// starting place, no time gathered, no points, and the first obstacle at
    /// the right edge of the screen with its gap centred on `gap_y`.
    pub open spec fn fresh(mode: GameMode, gap_y: int) -> StateView {
        StateView {
            player: PlayerView { x: START_X as int, y: START_Y as int, velocity: 0 },
            frame_time: 0,
            obstacle: ObstacleView { x: SCREEN_WIDTH as int, gap_y, size: gap_size(0) },
            mode,
            score: 0,
        }
    }

    /// What holds of the game at every tick.
    pub open spec fn inv(self) -> bool {
        &&& self.player.velocity <= TERMINAL_VELOCITY
        &&& 0 <= self.player.y <= SCREEN_HEIGHT + 2
        &&& self.mode != GameMode::End ==> self.player.y <= SCREEN_HEIGHT
        &&& self.obstacle.wf()
        &&& self.obstacle.size == gap_size(self.score)
        &&& 0 <= self.frame_time <= FRAME_DURATION
        &&& 0 <= self.score <= self.player.x - START_X
        &&& self.player.x <= self.obstacle.x <= self.player.x + SCREEN_WIDTH
    }

    /// Whether the player can fly one more column and still have the next
    /// obstacle, a screen further on, at an `i32` column.
    pub open spec fn has_room(self) -> bool {
        self.player.x + 1 + SCREEN_WIDTH <= i32::MAX
    }

    /// Whether the game can take a tick: while playing, there must be room.
    pub open spec fn can_tick(self) -> bool {
        self.mode == GameMode::Playing ==> self.has_room()
    }

    /// Whether, with `elapsed` more microseconds, a physics step is due: the
    /// time gathered exceeds the frame duration.
    pub open spec fn step_due(self, elapsed: int) -> bool {
        self.frame_time + elapsed > FRAME_DURATION
    }

    /// The player after the physics step, if one is due, and after the flap,
    /// if there is one.
    pub open spec fn flown(self, flap: bool, elapsed: int) -> PlayerView {
        let player = if self.step_due(elapsed) {
            self.player.moved()
        } else {
            self.player
        };
        if flap {
            player.flapped()
        } else {
            player
        }
    }

    /// Whether the player has passed the obstacle in this tick.
    pub open spec fn passes(self, flap: bool, elapsed: int) -> bool {
        self.flown(flap, elapsed).x > self.obstacle.x
    }

    /// The game after one tick of play. Time is gathered, and set back to
    /// zero when a physics step is due. A player past the obstacle earns a
    /// point and meets a new obstacle one screen ahead, its gap centred on
    /// `gap_y` and sized for the new score. The game ends when the player is
    /// below the screen or has hit the obstacle.
    pub open spec fn played(self, flap: bool, elapsed: int, gap_y: int) -> StateView {
        let player = self.flown(flap, elapsed);
        let passed = self.passes(flap, elapsed);
        let score = if passed {
            self.score + 1
        } else {
            self.score
        };
        let obstacle = if passed {
            ObstacleView { x: player.x + SCREEN_WIDTH, gap_y, size: gap_size(score) }
        } else {
            self.obstacle
        };
        StateView {
            player,
            frame_time: if self.step_due(elapsed) {
                0
            } else {
                self.frame_time + elapsed
            },
            obstacle,
            mode: if player.y > SCREEN_HEIGHT || obstacle.hits(player) {
                GameMode::End
            } else {
                self.mode
            },
            score,
        }
    }

    /// The game after a key on the menu or the game-over screen: `P` starts a
    /// new game, whose first gap is centred on `gap_y`; nothing else changes
    /// the game.
    pub open spec fn chosen(self, key: Option<Key>, gap_y: int) -> StateView {
        if key == Some(Key::P) {
            StateView::fresh(GameMode::Playing, gap_y)
        } else {
            self
        }
    }

    /// The game after one tick: each screen has its own handler.
    pub open spec fn ticked(self, key: Option<Key>, elapsed: int, gap_y: int) -> StateView {
        match self.mode {
            GameMode::Menu => self.chosen(key, gap_y),
            GameMode::Playing => self.played(is_flap(key), elapsed, gap_y),
            GameMode::End => self.chosen(key, gap_y),
        }
    }

    /// Whether a tick asks to end the program: `Q` on the menu or the
    /// game-over screen.
    pub open spec fn quits(self, key: Option<Key>) -> bool {
        self.mode != GameMode::Playing && key == Some(Key::Q)
    }

    /// What the menu draws.
    pub open spec fn menu_frame() -> Seq<DrawCommand> {
        seq![
            DrawCommand::Clear,
            DrawCommand::PrintCentered { y: 5, caption: Caption::Title },
            DrawCommand::PrintCentered { y: 8, caption: Caption::PlayGame },
            DrawCommand::PrintCentered { y: 9, caption: Caption::QuitGame },
        ]
    }

    /// What the game-over screen draws.
    pub open spec fn dead_frame(self) -> Seq<DrawCommand> {
        seq![
            DrawCommand::Clear,
            DrawCommand::PrintCentered { y: 5, caption: Caption::GameOver },
            DrawCommand::PrintCentered { y: 7, caption: Caption::Earned(self.score as i32) },
            DrawCommand::PrintCentered { y: 9, caption: Caption::PlayAgain },
            DrawCommand::PrintCentered { y: 10, caption: Caption::QuitGame },
        ]
    }

    /// What a tick of play draws: the background, the hint, the score as it
    /// was before the tick, the player where the tick has taken it, and the
    /// obstacle that the tick began with, seen from there.
    pub open spec fn play_frame(
        self,
        flap: bool,
        elapsed: int,
        player_glyph: u16,
        wall_glyph: u16,
    ) -> Seq<DrawCommand> {
        let player = self.flown(flap, elapsed);
        seq![
            DrawCommand::ClearBackground { colour: Colour::Navy },
            DrawCommand::Print { x: 0, y: 0, caption: Caption::FlapHint },
            DrawCommand::Print { x: 0, y: 1, caption: Caption::Score(self.score as i32) },
            player.sprite(player_glyph),
        ] + self.obstacle.walls(player.x, wall_glyph)
    }

    /// What a tick draws.
    pub open spec fn tick_frame(
        self,
        key: Option<Key>,
        elapsed: int,
        player_glyph: u16,
        wall_glyph: u16,
    ) -> Seq<DrawCommand> {
        match self.mode {
            GameMode::Menu => StateView::menu_frame(),
            GameMode::Playing => self.play_frame(is_flap(key), elapsed, player_glyph, wall_glyph),
            GameMode::End => self.dead_frame(),
        }
    }
}

/// Everything that lasts from one tick to the next. A game is made by `new`
/// and changed by its own methods only, so that `inv` holds of it throughout.
#[derive(Clone, Copy, Debug, PartialEq, Eq)]
pub struct State {
    player: Player,
    frame_time: u64,
    obstacle: Obstacle,
    mode: GameMode,
    score: i32,
}

impl View for State {
    type V = StateView;

    closed spec fn view(&self) -> StateView {
        StateView {
            player: self.player@,
            frame_time: self.frame_time as int,
            obstacle: self.obstacle@,
            mode: self.mode,
            score: self.score as int,
        }
    }
}

impl State {
    /// The game on its menu, with a first obstacle whose gap is centred on a
    /// row drawn at random.
    pub fn new() -> (state: State)
        ensures
            state@ == StateView::fresh(GameMode::Menu, state@.obstacle.gap_y),
            state@.inv(),
    {
        State {
            player: Player::new(START_X, START_Y),
            frame_time: 0,
            obstacle: Obstacle::new(SCREEN_WIDTH, 0),
            mode: GameMode::Menu,
            score: 0,
        }
    }

    /// The player.
    pub fn player(&self) -> (player: Player)
        ensures
            player@ == self@.player,
    {
        self.player
    }

    /// The obstacle ahead of the player.
    pub fn obstacle(&self) -> (obstacle: Obstacle)
        ensures
            obstacle@ == self@.obstacle,
    {
        self.obstacle
    }

    /// The screen that the game is on.
    pub fn mode(&self) -> (mode: GameMode)
        ensures
            mode == self@.mode,
    {
        self.mode
    }

    /// The obstacles passed in this game.
    pub fn score(&self) -> (score: i32)
        ensures
            score == self@.score,
    {
        self.score
    }

    /// The microseconds gathered since the last physics step.
    pub fn frame_time(&self) -> (frame_time: u64)
        ensures
            frame_time == self@.frame_time,
    {
        self.frame_time
    }

    /// Whether the game can take a tick.
    pub fn can_tick(&self) -> (ready: bool)
        ensures
            ready == self@.can_tick(),
    {
        match self.mode {
            GameMode::Playing => self.player.x < i32::MAX - SCREEN_WIDTH,
            _ => true,
        }
    }

    /// Starts a game over: the player back at the start, no time gathered, no
    /// points, and a new first obstacle.
    pub fn restart(&mut self)
        ensures
            final(self)@ == StateView::fresh(GameMode::Playing, final(self)@.obstacle.gap_y),
            final(self)@.inv(),
    {
        self.player = Player::new(START_X, START_Y);
        self.frame_time = 0;
        self.obstacle = Obstacle::new(SCREEN_WIDTH, 0);
        self.mode = GameMode::Playing;
        self.score = 0;
    }

    /// The menu screen: draws the menu, and on `P` starts a game, on `Q` asks
    /// to end the program.
    pub fn main_menu(&mut self, key: Option<Key>) -> (frame: Frame)
        requires
            old(self)@.inv(),
        ensures
            final(self)@ == old(self)@.chosen(key, final(self)@.obstacle.gap_y),
            final(self)@.inv(),
            frame.commands@ == StateView::menu_frame(),
            frame.quit == (key == Some(Key::Q)),
    {
        let mut commands: Vec<DrawCommand> = Vec::new();
        commands.push(DrawCommand::Clear);
        commands.push(DrawCommand::PrintCentered { y: 5, caption: Caption::Title });
        commands.push(DrawCommand::PrintCentered { y: 8, caption: Caption::PlayGame });
        commands.push(DrawCommand::PrintCentered { y: 9, caption: Caption::QuitGame });
        let mut quit = false;
        match key {
            Some(Key::P) => self.restart(),
            Some(Key::Q) => {
                quit = true;
            },
            _ => {},
        }
        Frame { commands, quit }
    }

    /// The game-over screen: draws the message and the final score, and on
    /// `P` starts a game, on `Q` asks to end the program.
    pub fn dead(&mut self, key: Option<Key>) -> (frame: Frame)
        requires
            old(self)@.inv(),
        ensures
            final(self)@ == old(self)@.chosen(key, final(self)@.obstacle.gap_y),
            final(self)@.inv(),
            frame.commands@ == old(self)@.dead_frame(),
            frame.quit == (key == Some(Key::Q)),
    {
        let mut commands: Vec<DrawCommand> = Vec::new();
        commands.push(DrawCommand::Clear);
        commands.push(DrawCommand::PrintCentered { y: 5, caption: Caption::GameOver });
        commands.push(DrawCommand::PrintCentered { y: 7, caption: Caption::Earned(self.score) });
        commands.push(DrawCommand::PrintCentered { y: 9, caption: Caption::PlayAgain });
        commands.push(DrawCommand::PrintCentered { y: 10, caption: Caption::QuitGame });
        let mut quit = false;
        match key {
            Some(Key::P) => self.restart(),
            Some(Key::Q) => {
                quit = true;
            },
            _ => {},
        }
        Frame { commands, quit }
    }

    /// One tick of play, `elapsed` microseconds after the tick before it:
    /// gathers the time and takes the physics step if one is due, flaps on
    /// `Space`, draws, and then looks at what the player has passed or hit.
    pub fn play(&mut self, key: Option<Key>, elapsed: u64) -> (frame: Frame)
        requires
            old(self)@.inv(),
            old(self)@.mode == GameMode::Playing,
            old(self)@.has_room(),
        ensures
            final(self)@ == old(self)@.played(
                is_flap(key),
                elapsed as int,
                final(self)@.obstacle.gap_y,
            ),
            final(self)@.inv(),
            frame.commands@ == old(self)@.play_frame(
                is_flap(key),
                elapsed as int,
                cp437_code(PLAYER_CHAR),
                cp437_code(WALL_CHAR),
            ),
            !frame.quit,
    {
        let mut commands: Vec<DrawCommand> = Vec::new();
        commands.push(DrawCommand::ClearBackground { colour: Colour::Navy });
        commands.push(DrawCommand::Print { x: 0, y: 0, caption: Caption::FlapHint });
        commands.push(DrawCommand::Print { x: 0, y: 1, caption: Caption::Score(self.score) });

        if elapsed > FRAME_DURATION - self.frame_time {
            self.frame_time = 0;
            self.player.gravity_and_move();
        } else {
            self.frame_time += elapsed;
        }

        match key {
            Some(Key::Space) => self.player.flap(),
            _ => {},
        }
        commands.push(self.player.render());
        let mut walls = self.obstacle.render(self.player.x);
        commands.append(&mut walls);

        if self.player.x > self.obstacle.x {
            self.score += 1;
            self.obstacle = Obstacle::new(self.player.x + SCREEN_WIDTH, self.score);
        }

        if self.player.y > SCREEN_HEIGHT || self.obstacle.hit_obstacle(&self.player) {
            self.mode = GameMode::End;
        }
        Frame { commands, quit: false }
    }

    /// One tick, `elapsed` microseconds after the tick before it: the handler
    /// of the screen that the game is on, and no other.
    pub fn tick(&mut self, key: Option<Key>, elapsed: u64) -> (frame: Frame)
        requires
            old(self)@.inv(),
            old(self)@.can_tick(),
        ensures
            final(self)@ == old(self)@.ticked(key, elapsed as int, final(self)@.obstacle.gap_y),
            final(self)@.inv(),
            frame.commands@ == old(self)@.tick_frame(
                key,
                elapsed as int,
                cp437_code(PLAYER_CHAR),
                cp437_code(WALL_CHAR),
            ),
            frame.quit == old(self)@.quits(key),
    {
        match self.mode {
            GameMode::Menu => self.main_menu(key),
            GameMode::Playing => self.play(key, elapsed),
            GameMode::End => self.dead(key),
        }
    }
}

} // verus!
