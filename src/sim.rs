//! The controller: a two-mode state machine that edits the board under the
//! pointer, or advances it at most one generation per frame, paced by ticks.
use vstd::prelude::*;
use crate::config::{GRID_HEIGHT, GRID_SCALE, GRID_WIDTH, NANOS_PER_TICK, SCREEN_HEIGHT, SCREEN_WIDTH};
use crate::grid::{cell_index, lemma_empty_stays_empty, Grid};
use crate::mapping::{px_to_square, square_of};

verus! {

/// Whether the user is drawing on the board or the board is evolving.
#[derive(Clone, Copy, Debug, PartialEq, Eq, Structural)]
pub enum SimulationState {
    Editing,
    Running,
}

/// A command key pressed during a frame.
#[derive(Clone, Copy, Debug, PartialEq, Eq, Structural)]
pub enum Command {
    /// Switch between editing and running.
    ToggleRun,
    /// Empty the board (while editing).
    Clear,
}

/// What the host reports for one frame: the pointer in pixels, which of
/// its two buttons are held, the command key pressed if any, and the tick
/// reached since the game started.
#[derive(Clone, Copy, Debug, PartialEq, Eq, Structural)]
pub struct FrameInput {
    pub pointer_x: i32,
    pub pointer_y: i32,
    pub place: bool,
    pub remove: bool,
    pub command: Option<Command>,
    pub tick: u64,
}

/// The tick reached after `elapsed_nanos` nanoseconds.
pub fn tick_of(elapsed_nanos: u64) -> (r: u64)
    ensures
        r == elapsed_nanos / NANOS_PER_TICK,
{
    elapsed_nanos / NANOS_PER_TICK
}

/// The cells of `s` after the pointer acted on entry `i`: placing makes it
/// alive, then removing makes it dead.
pub open spec fn painted(s: Seq<bool>, i: int, place: bool, remove: bool) -> Seq<bool> {
    let placed = if place { s.update(i, true) } else { s };
    if remove { placed.update(i, false) } else { placed }
}

/// The game: its mode, its board, and the last tick at which it advanced.
pub struct Simulation {
    state: SimulationState,
    grid: Grid,
    current_tick: u64,
}

impl Simulation {
    pub closed spec fn state_spec(&self) -> SimulationState {
        self.state
    }

    pub closed spec fn grid_spec(&self) -> Grid {
        self.grid
    }

    pub closed spec fn tick_spec(&self) -> u64 {
        self.current_tick
    }

    /// The board is well formed and has the configured size.
    pub open spec fn wf(&self) -> bool {
        &&& self.grid_spec().wf()
        &&& self.grid_spec().width_spec() == GRID_WIDTH
        &&& self.grid_spec().height_spec() == GRID_HEIGHT
    }

    /// `after` is this game once the frame `input` has been processed.
    ///
    /// Editing: the pointer's cell is set alive if the place button is held,
    /// then dead if the remove button is; then the toggle command starts
    /// running and the clear command empties the board.
    ///
    /// Running: if a new tick has been reached, the board becomes its next
    /// generation and the game returns to editing when that has no live
    /// cell; then the toggle command returns to editing.
    pub open spec fn steps_to(&self, after: &Simulation, input: FrameInput) -> bool {
        let g = self.grid_spec();
        let a = after.grid_spec();
        let toggled = input.command == Some(Command::ToggleRun);
        &&& a.width_spec() == g.width_spec()
        &&& a.height_spec() == g.height_spec()
        &&& match self.state_spec() {
            SimulationState::Editing => {
                let i = cell_index(
                    g.width_spec() as int,
                    square_of(input.pointer_x as int, SCREEN_WIDTH as int, GRID_SCALE as int),
                    square_of(input.pointer_y as int, SCREEN_HEIGHT as int, GRID_SCALE as int),
                );
                &&& after.tick_spec() == self.tick_spec()
                &&& after.state_spec() == if toggled {
                    SimulationState::Running
                } else {
                    SimulationState::Editing
                }
                &&& if input.command == Some(Command::Clear) {
                    a.all_dead() && a.live_spec() == 0
                } else {
                    a@ == painted(g@, i, input.place, input.remove)
                }
            },
            SimulationState::Running => {
                if input.tick > self.tick_spec() {
                    &&& after.tick_spec() == input.tick
                    &&& g.is_successor(&a)
                    &&& after.state_spec() == if toggled || a.live_spec() == 0 {
                        SimulationState::Editing
                    } else {
                        SimulationState::Running
                    }
                } else {
                    &&& after.tick_spec() == self.tick_spec()
                    &&& a == g
                    &&& after.state_spec() == if toggled {
                        SimulationState::Editing
                    } else {
                        SimulationState::Running
                    }
                }
            },
        }
    }

    /// A new game: editing, on an empty board of the configured size.
    pub fn new() -> (r: Simulation)
        ensures
            r.wf(),
            r.state_spec() == SimulationState::Editing,
            r.grid_spec().all_dead(),
            r.grid_spec().live_spec() == 0,
            r.tick_spec() == 0,
    {
        Simulation {
            state: SimulationState::Editing,
            grid: Grid::new(GRID_WIDTH as usize, GRID_HEIGHT as usize),
            current_tick: 0,
        }
    }

    pub fn state(&self) -> (r: SimulationState)
        ensures
            r == self.state_spec(),
    {
        self.state
    }

    /// The board, for drawing.
    pub fn grid(&self) -> (r: &Grid)
        requires
            self.wf(),
        ensures
            *r == self.grid_spec(),
            r.wf(),
            r.width_spec() == GRID_WIDTH,
            r.height_spec() == GRID_HEIGHT,
    {
        &self.grid
    }

    /// Whether the editing label is to be shown.
    pub fn shows_edit_label(&self) -> (r: bool)
        ensures
            r == (self.state_spec() == SimulationState::Editing),
    {
        match self.state {
            SimulationState::Editing => true,
            SimulationState::Running => false,
        }
    }

    /// Processes one frame of input.
    pub fn frame(&mut self, input: &FrameInput)
        requires
            old(self).wf(),
        ensures
            final(self).wf(),
            old(self).steps_to(final(self), *input),
    {
        let toggled: bool = match input.command {
            Some(Command::ToggleRun) => true,
            _ => false,
        };
        match self.state {
            SimulationState::Editing => {
                let (x, y) = px_to_square(input.pointer_x, input.pointer_y);
                if input.place {
                    self.grid.set_alive(x, y);
                }
                if input.remove {
                    self.grid.set_dead(x, y);
                }
                match input.command {
                    Some(Command::ToggleRun) => {
                        self.state = SimulationState::Running;
                    },
                    Some(Command::Clear) => {
                        self.grid = Grid::new(GRID_WIDTH as usize, GRID_HEIGHT as usize);
                    },
                    None => {},
                }
            },
            SimulationState::Running => {
                if input.tick > self.current_tick {
                    self.current_tick = input.tick;
                    self.grid = self.grid.next_generation();
                    if self.grid.live_count() == 0 {
                        self.state = SimulationState::Editing;
                    }
                }
                if toggled {
                    self.state = SimulationState::Editing;
                }
            },
        }
    }
}

/// A running game whose board has no live cell once a new tick is processed
/// returns to editing in that same frame, without any command.
pub proof fn lemma_running_stops_when_empty(s: &Simulation, after: &Simulation, input: FrameInput)
    requires
        s.state_spec() == SimulationState::Running,
        input.tick > s.tick_spec(),
        s.steps_to(after, input),
        after.grid_spec().live_spec() == 0,
    ensures
        after.state_spec() == SimulationState::Editing,
{
}

/// Starting from editing on an empty board, a frame with the toggle command
/// and no button held starts running; the next frame that reaches a new
/// tick, with no command, finds the next generation empty and is back in
/// editing.
pub proof fn lemma_empty_start_returns_to_editing(
    s0: &Simulation,
    s1: &Simulation,
    s2: &Simulation,
    start: FrameInput,
    next: FrameInput,
)
    requires
        s0.wf(),
        s1.wf(),
        s2.wf(),
        s0.state_spec() == SimulationState::Editing,
        s0.grid_spec().all_dead(),
        start.command == Some(Command::ToggleRun),
        !start.place,
        !start.remove,
        s0.steps_to(s1, start),
        next.command.is_none(),
        next.tick > s1.tick_spec(),
        s1.steps_to(s2, next),
    ensures
        s1.state_spec() == SimulationState::Running,
        s1.grid_spec().all_dead(),
        s2.state_spec() == SimulationState::Editing,
        s2.grid_spec().all_dead(),
        s2.grid_spec().live_spec() == 0,
{
    assert(s1.grid_spec()@ == s0.grid_spec()@);
    lemma_empty_stays_empty(&s1.grid_spec(), &s2.grid_spec());
}

} // verus!
