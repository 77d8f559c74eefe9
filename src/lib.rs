//! A bounded Conway's Game of Life engine: a fixed-size grid of cells, the
//! B3/S23 step function, the mapping between linear cell indices, grid
//! coordinates and pointer positions, and the timing decisions of the host
//! loop.

pub mod board;
pub mod grid;
pub mod lemmas;
pub mod simulation;

pub use board::{rule, Board};
pub use grid::{next_state, Grid};
pub use simulation::{Settings, Simulation, SimulationState, MAX_DELAY, MIN_DELAY};
