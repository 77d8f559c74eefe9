//! The decisions of the host loop: when a step is due, starting and
//! stopping, the step delay, clearing, and editing cells with the pointer.
//! The loop itself feeds in elapsed time and pointer positions.

use crate::board::Board;
use crate::grid::Grid;
use vstd::prelude::*;

verus! {

/// The shortest step delay, in milliseconds.
pub const MIN_DELAY: u64 = 100;

/// The longest step delay, in milliseconds.
pub const MAX_DELAY: u64 = 2000;

pub const NANOS_PER_MILLI: u64 = 1_000_000;

/// The size of the grid and the initial step delay in milliseconds.
pub struct Settings {
    pub width: usize,
    pub height: usize,
    pub delay: u64,
}

/// The state of a simulation, as the contracts see it.
pub struct SimulationState {
    pub board: Board,
    /// Milliseconds between steps.
    pub delay: nat,
    pub active: bool,
    /// Nanoseconds accumulated towards the next step.
    pub elapsed: nat,
}

pub open spec fn clamp_delay(delay: int) -> nat {
    if delay < MIN_DELAY {
        MIN_DELAY as nat
    } else if delay > MAX_DELAY {
        MAX_DELAY as nat
    } else {
        delay as nat
    }
}

/// Adds elapsed time, holding at the largest value rather than wrapping.
pub open spec fn add_elapsed(elapsed: nat, since_last: nat) -> nat {
    if elapsed + since_last > u64::MAX {
        u64::MAX as nat
    } else {
        elapsed + since_last
    }
}

impl SimulationState {
    pub open spec fn wf(self) -> bool {
        &&& self.board.wf()
        &&& MIN_DELAY <= self.delay <= MAX_DELAY
        &&& self.elapsed <= u64::MAX
    }

    /// Whether a step is due after `since_last` more nanoseconds: the
    /// simulation runs and the time added up exceeds the delay.
    pub open spec fn step_due(self, since_last: nat) -> bool {
        self.active && add_elapsed(self.elapsed, since_last) > self.delay * NANOS_PER_MILLI
    }

    /// The state after `since_last` nanoseconds: while running, the time is
    /// added up, and once it exceeds the delay the board steps and the count
    /// starts again from zero.
    pub open spec fn tick(self, since_last: nat) -> SimulationState {
        if !self.active {
            self
        } else {
            let total = add_elapsed(self.elapsed, since_last);
            if self.step_due(since_last) {
                SimulationState { board: self.board.step(), elapsed: 0, ..self }
            } else {
                SimulationState { elapsed: total, ..self }
            }
        }
    }
}

/// A grid together with the controls that drive it.
pub struct Simulation {
    field: Grid,
    delay: u64,
    active: bool,
    elapsed: u64,
}

impl View for Simulation {
    type V = SimulationState;

    closed spec fn view(&self) -> SimulationState {
        SimulationState {
            board: self.field@,
            delay: self.delay as nat,
            active: self.active,
            elapsed: self.elapsed as nat,
        }
    }
}

impl Simulation {
    /// A stopped simulation over an all-dead grid of the configured size,
    /// with the configured delay brought into range.
    pub fn new(settings: Settings) -> (s: Simulation)
        requires
            settings.width > 0,
            settings.height > 0,
            settings.width * settings.height <= usize::MAX,
        ensures
            s@.wf(),
            s@.board == Board::empty(settings.width as nat, settings.height as nat),
            s@.delay == clamp_delay(settings.delay as int),
            !s@.active,
            s@.elapsed == 0,
    {
        let field = Grid::new(settings.width, settings.height);
        Simulation { field, delay: clamp(settings.delay), active: false, elapsed: 0 }
    }

    pub fn field(&self) -> (g: &Grid)
        ensures
            g@ == self@.board,
    {
        &self.field
    }

    pub fn delay(&self) -> (r: u64)
        ensures
            r == self@.delay,
    {
        self.delay
    }

    pub fn is_active(&self) -> (r: bool)
        ensures
            r == self@.active,
    {
        self.active
    }

    /// Nanoseconds accumulated towards the next step.
    pub fn elapsed(&self) -> (r: u64)
        ensures
            r == self@.elapsed,
    {
        self.elapsed
    }

    /// Starts a stopped simulation or stops a running one.
    pub fn toggle_active(&mut self)
        requires
            old(self)@.wf(),
        ensures
            final(self)@ == (SimulationState { active: !old(self)@.active, ..old(self)@ }),
    {
        self.active = !self.active;
    }

    /// Sets the step delay in milliseconds, brought into the allowed range.
    pub fn set_delay(&mut self, delay: u64)
        requires
            old(self)@.wf(),
        ensures
            final(self)@ == (SimulationState { delay: clamp_delay(delay as int), ..old(self)@ }),
    {
        self.delay = clamp(delay);
    }

    /// Makes every cell dead.
    pub fn clear(&mut self)
        requires
            old(self)@.wf(),
        ensures
            final(self)@ == (SimulationState { board: old(self)@.board.cleared(), ..old(self)@ }),
    {
        self.field.clear();
    }

    /// Flips the cell under a pointer released at offset `(px, py)` from the
    /// viewport's origin corner and returns it; a pointer off the grid
    /// changes nothing.
    pub fn release_at(&mut self, px: i64, py: i64, view_width: u64, view_height: u64) -> (r: Option<
        (usize, usize),
    >)
        requires
            old(self)@.wf(),
        ensures
            match old(self)@.board.cell_at(px as int, py as int, view_width as int, view_height as int) {
                Some((x, y)) => {
                    &&& r == Some((x as usize, y as usize))
                    &&& final(self)@ == (SimulationState {
                        board: old(self)@.board.toggled(x, y),
                        ..old(self)@
                    })
                },
                None => r is None && final(self)@ == old(self)@,
            },
    {
        let cell = self.field.cell_at(px, py, view_width, view_height);
        if let Some((x, y)) = cell {
            self.field.toggle(x, y);
        }
        cell
    }

    /// Advances the clock by `since_last` nanoseconds and steps the grid when
    /// the delay has passed; returns whether it stepped.
    pub fn tick(&mut self, since_last: u64) -> (stepped: bool)
        requires
            old(self)@.wf(),
        ensures
            final(self)@ == old(self)@.tick(since_last as nat),
            final(self)@.wf(),
            stepped == old(self)@.step_due(since_last as nat),
    {
        if !self.active {
            return false;
        }
        let total = if self.elapsed <= u64::MAX - since_last {
            self.elapsed + since_last
        } else {
            u64::MAX
        };
        if total > self.delay * NANOS_PER_MILLI {
            self.field = self.field.step();
            self.elapsed = 0;
            true
        } else {
            self.elapsed = total;
            false
        }
    }
}

fn clamp(delay: u64) -> (r: u64)
    ensures
        r == clamp_delay(delay as int),
{
    if delay < MIN_DELAY {
        MIN_DELAY
    } else if delay > MAX_DELAY {
        MAX_DELAY
    } else {
        delay
    }
}

} // verus!
