//! Simulation core of a grid-based snake game: board geometry with
//! wraparound, the snake's per-tick movement with buffered turns, collision
//! detection, the tick-rate schedule and the game-state machine.

mod direction;
mod game;
mod grid;
mod position;
mod schedule;
mod snake;

pub use direction::{lemma_inverse_involutive, Direction, KeyCode};
pub use grid::{lemma_wrap_edges, wrap, wrapped, CELL_SIZE, GRID_HEIGHT, GRID_WIDTH};
pub use position::{
    background_cell, background_cells, cell_to_pixel, wall_cell, wall_cells, moved, on_board, Food, GridPosition, PixelRect, Segment,
};
pub use snake::{collision, lemma_queued_turn_waits, Ate, Snake};
pub use schedule::{elapsed, interval_fits, longest_fitting, should_tick, tick_interval, tick_interval_ms, BASE_INTERVAL_MS};
pub use game::{lemma_game_over_then_restart, one_more, quits, start_cell, state_after_key, GameState, GameStates, KeyResponse, TickReport};
