use crate::direction::{Direction, KeyCode};
use crate::grid::{GRID_HEIGHT, GRID_WIDTH};
use crate::position::{on_board, Food, GridPosition};
use crate::schedule::{elapsed, should_tick, tick_interval};
use crate::snake::{Ate, Snake};
use vstd::prelude::*;

verus! {

/// The four states of a game.
#[derive(Clone, Copy, Debug, PartialEq, Eq, Structural)]
pub enum GameStates {
    GameOver,
    GameOn,
    Pause,
    Restart,
}

/// The whole game: the snake, the food, the state, the music switch and the
/// time of the last tick in milliseconds.
pub struct GameState {
    pub snake: Snake,
    pub food: Food,
    pub game_states: GameStates,
    pub music_on: bool,
    pub last_update: u64,
}

/// What the host should do after a key press.
#[derive(Clone, Copy, Debug, PartialEq, Eq, Structural)]
pub struct KeyResponse {
    /// Leave the game.
    pub quit: bool,
    /// The music was switched; `music_on` tells which way.
    pub music_toggled: bool,
}

/// What happened on a frame.
#[derive(Clone, Copy, Debug, PartialEq, Eq, Structural)]
pub struct TickReport {
    /// A tick was due and ran.
    pub ticked: bool,
    /// The snake ate the food on it: play the hit sound.
    pub food_eaten: bool,
}

/// The cell where a new snake's head starts: a quarter across, half down.
pub open spec fn start_cell() -> GridPosition {
    GridPosition { x: (GRID_WIDTH / 4) as i16, y: (GRID_HEIGHT / 2) as i16 }
}

/// One more point, staying at the largest score that fits.
pub open spec fn one_more(points: i16) -> i16 {
    if points < i16::MAX {
        (points + 1) as i16
    } else {
        points
    }
}

/// The state after `key` is pressed in state `s`: `P` pauses and resumes a
/// running game, `Y` restarts a game that is over.
pub open spec fn state_after_key(s: GameStates, key: KeyCode) -> GameStates {
    match key {
        KeyCode::P => match s {
            GameStates::Pause => GameStates::GameOn,
            GameStates::GameOn => GameStates::Pause,
            _ => s,
        },
        KeyCode::Y => if s == GameStates::GameOver {
            GameStates::Restart
        } else {
            s
        },
        _ => s,
    }
}

/// Whether `key` in state `s` asks to leave: `Q` and `Escape` always, `N`
/// when the game is over.
pub open spec fn quits(s: GameStates, key: KeyCode) -> bool {
    key == KeyCode::Q || key == KeyCode::Escape || (s == GameStates::GameOver && key == KeyCode::N)
}

impl GameState {
    /// The snake is well formed, the food is on the board and the score is
    /// not negative.
    pub open spec fn wf(&self) -> bool {
        &&& self.snake.wf()
        &&& on_board(self.food.pos)
        &&& self.snake.points >= 0
    }

    /// `after` is this game after one tick, with `food_pos` as the place for
    /// any new food; `eaten` tells whether food was eaten. Only a running
    /// game moves; a restarting one starts afresh and runs again.
    pub open spec fn stepped(&self, after: GameState, food_pos: GridPosition, eaten: bool) -> bool {
        &&& after.music_on == self.music_on
        &&& match self.game_states {
            GameStates::GameOver | GameStates::Pause => {
                &&& after.snake == self.snake
                &&& after.food == self.food
                &&& after.game_states == self.game_states
                &&& !eaten
            },
            GameStates::Restart => {
                &&& after.snake.fresh(start_cell())
                &&& after.food.pos == food_pos
                &&& after.game_states == GameStates::GameOn
                &&& !eaten
            },
            GameStates::GameOn => {
                let outcome = self.snake.tick_outcome(self.food.pos);
                &&& self.snake.ticked(after.snake, self.food.pos)
                &&& eaten == (outcome == Some(Ate::Food))
                &&& after.snake.points == (if eaten {
                    one_more(self.snake.points)
                } else {
                    self.snake.points
                })
                &&& after.food.pos == (if eaten {
                    food_pos
                } else {
                    self.food.pos
                })
                &&& after.game_states == (if outcome == Some(Ate::Itself) {
                    GameStates::GameOver
                } else {
                    GameStates::GameOn
                })
            },
        }
    }

    /// `after` is this game after one tick that placed any new food on some
    /// cell of the board.
    pub open spec fn stepped_somewhere(&self, after: GameState, eaten: bool) -> bool {
        exists|p: GridPosition| on_board(p) && #[trigger] self.stepped(after, p, eaten)
    }

    /// `after` is this game once `key` has been pressed. Arrow keys ask the
    /// snake to turn, except while paused.
    pub open spec fn keyed(&self, after: GameState, key: KeyCode, r: KeyResponse) -> bool {
        &&& match Direction::of_key(key) {
            Some(d) if self.game_states != GameStates::Pause => self.snake.turned(after.snake, d),
            _ => after.snake == self.snake,
        }
        &&& after.food == self.food
        &&& after.last_update == self.last_update
        &&& after.game_states == state_after_key(self.game_states, key)
        &&& after.music_on == (if key == KeyCode::M {
            !self.music_on
        } else {
            self.music_on
        })
        &&& r.music_toggled == (key == KeyCode::M)
        &&& r.quit == quits(self.game_states, key)
    }

    /// The cell where a new snake's head starts.
    pub fn start_position() -> (r: GridPosition)
        ensures
            r == start_cell(),
            on_board(r),
    {
        GridPosition::new(GRID_WIDTH / 4, GRID_HEIGHT / 2)
    }

    /// A running game at time `now`: a fresh snake, food on a pseudo-random
    /// cell, music on.
    pub fn new(now: u64) -> (r: GameState)
        ensures
            r.wf(),
            r.snake.fresh(start_cell()),
            r.game_states == GameStates::GameOn,
            r.music_on,
            r.last_update == now,
    {
        let snake = Snake::new(GameState::start_position());
        let food = Food::new(GridPosition::random(GRID_WIDTH, GRID_HEIGHT));
        GameState { snake, food, game_states: GameStates::GameOn, music_on: true, last_update: now }
    }

    /// Runs one tick with `food_pos` as the place for new food; returns
    /// whether the snake ate.
    pub fn step(&mut self, food_pos: GridPosition) -> (eaten: bool)
        requires
            old(self).wf(),
            on_board(food_pos),
        ensures
            final(self).wf(),
            old(self).stepped(*final(self), food_pos, eaten),
            final(self).last_update == old(self).last_update,
    {
        match self.game_states {
            GameStates::GameOver | GameStates::Pause => false,
            GameStates::Restart => {
                self.snake = Snake::new(GameState::start_position());
                self.food.pos = food_pos;
                self.game_states = GameStates::GameOn;
                false
            },
            GameStates::GameOn => {
                self.snake.update(&self.food);
                match self.snake.ate {
                    Some(Ate::Food) => {
                        if self.snake.points < i16::MAX {
                            self.snake.points = self.snake.points + 1;
                        }
                        self.food.pos = food_pos;
                        true
                    },
                    Some(Ate::Itself) => {
                        self.game_states = GameStates::GameOver;
                        false
                    },
                    None => false,
                }
            },
        }
    }

    /// Called every frame at time `now`: when a tick is due, runs it with a
    /// pseudo-random cell for any new food and records `now` as its time.
    pub fn update(&mut self, now: u64) -> (r: TickReport)
        requires
            old(self).wf(),
        ensures
            final(self).wf(),
            r.ticked == (elapsed(now as int, old(self).last_update as int) >= tick_interval(
                old(self).snake.points as int,
            )),
            !r.ticked ==> *final(self) == *old(self) && !r.food_eaten,
            r.ticked ==> final(self).last_update == now,
            r.ticked ==> old(self).stepped_somewhere(*final(self), r.food_eaten),
    {
        if should_tick(now, self.last_update, self.snake.points) {
            let food_pos = GridPosition::random(GRID_WIDTH, GRID_HEIGHT);
            let ghost before = *self;
            let eaten = self.step(food_pos);
            self.last_update = now;
            assert(on_board(food_pos) && before.stepped(*self, food_pos, eaten));
            TickReport { ticked: true, food_eaten: eaten }
        } else {
            TickReport { ticked: false, food_eaten: false }
        }
    }

    /// Handles a key press: arrow keys ask the snake to turn (not while
    /// paused), `P` pauses or resumes, `M` switches the music, `Q` and
    /// `Escape` quit, and once the game is over `Y` restarts and `N` quits.
    pub fn key_down_event(&mut self, key: KeyCode) -> (r: KeyResponse)
        ensures
            old(self).keyed(*final(self), key, r),
            old(self).wf() ==> final(self).wf(),
    {
        if let Some(dir) = Direction::from_keycode(key) {
            if self.game_states != GameStates::Pause {
                self.snake.request_turn(dir);
            }
        }
        let mut quit = key == KeyCode::Q || key == KeyCode::Escape;
        let mut music_toggled = false;
        match key {
            KeyCode::P => {
                self.game_states = match self.game_states {
                    GameStates::Pause => GameStates::GameOn,
                    GameStates::GameOn => GameStates::Pause,
                    other => other,
                };
            },
            KeyCode::M => {
                self.music_on = !self.music_on;
                music_toggled = true;
            },
            _ => {},
        }
        if self.game_states == GameStates::GameOver {
            match key {
                KeyCode::N => {
                    quit = true;
                },
                KeyCode::Y => {
                    self.game_states = GameStates::Restart;
                },
                _ => {},
            }
        }
        KeyResponse { quit, music_toggled }
    }
}

/// A running game whose next tick runs the snake into itself is over after
/// that tick; `Y` then asks for a restart; and the tick after that starts a
/// fresh snake with no points, puts the food on the cell given for it, and
/// runs again.
pub proof fn lemma_game_over_then_restart(
    g: GameState,
    over: GameState,
    food1: GridPosition,
    eaten1: bool,
    asked: GameState,
    reply: KeyResponse,
    restarted: GameState,
    food2: GridPosition,
    eaten2: bool,
)
    requires
        g.game_states == GameStates::GameOn,
        g.snake.tick_outcome(g.food.pos) == Some(Ate::Itself),
        g.stepped(over, food1, eaten1),
        over.keyed(asked, KeyCode::Y, reply),
        asked.stepped(restarted, food2, eaten2),
    ensures
        over.game_states == GameStates::GameOver,
        asked.game_states == GameStates::Restart,
        restarted.game_states == GameStates::GameOn,
        restarted.snake.fresh(start_cell()),
        restarted.snake.points == 0,
        restarted.food.pos == food2,
{
}

} // verus!
