use game_of_life::config::{Config, Rgba, GRID_HEIGHT, GRID_WIDTH, NANOS_PER_TICK};
use game_of_life::mapping::{px_to_square, square_rect};
use game_of_life::sim::{tick_of, Command, FrameInput, Simulation, SimulationState};

fn idle(tick: u64) -> FrameInput {
    FrameInput { pointer_x: 0, pointer_y: 0, place: false, remove: false, command: None, tick }
}

fn pointer(px: i32, py: i32, place: bool, remove: bool) -> FrameInput {
    FrameInput { pointer_x: px, pointer_y: py, place, remove, command: None, tick: 0 }
}

fn command(c: Command, tick: u64) -> FrameInput {
    FrameInput { command: Some(c), ..idle(tick) }
}

#[test]
fn corner_pixel_maps_to_its_cell() {
    for k in 0..GRID_WIDTH {
        assert_eq!(px_to_square(k * 20, 0), (k as usize, 0));
    }
    assert_eq!(px_to_square(59, 19), (2, 0));
}

#[test]
fn pixels_past_the_edge_clamp_to_last_cell() {
    assert_eq!(px_to_square(800, 0), (39, 0));
    assert_eq!(px_to_square(5000, 5000), (39, 29));
    assert_eq!(px_to_square(799, 599), (39, 29));
    assert_eq!(px_to_square(-30, -1), (0, 0));
    assert_eq!(px_to_square(i32::MAX, i32::MIN), (39, 0));
}

#[test]
fn cell_rect_covers_its_square() {
    assert_eq!(square_rect(0, 0), (0, 0, 20, 20));
    assert_eq!(square_rect(3, 7), (60, 140, 20, 20));
    assert_eq!(square_rect(39, 29), (780, 580, 20, 20));
}

#[test]
fn ticks_follow_elapsed_time() {
    assert_eq!(NANOS_PER_TICK, 100_000_000);
    assert_eq!(tick_of(0), 0);
    assert_eq!(tick_of(99_999_999), 0);
    assert_eq!(tick_of(250_000_000), 2);
}

#[test]
fn standard_config() {
    let c = Config::standard();
    assert_eq!(c.width, 40);
    assert_eq!(c.height, 30);
    assert_eq!(c.cell_scale, 20);
    assert_eq!(c.ticks_per_second, 10);
    assert_eq!(c.grid_line_color, Rgba::new(200, 200, 200, 255));
    assert_eq!(c.live_color, Rgba::new(0, 0, 0, 255));
    assert_eq!(c.dead_color, Rgba::new(255, 255, 255, 255));
    assert_eq!(c.edit_label, "Edit Mode");
}

#[test]
fn new_simulation_is_editing_an_empty_board() {
    let s = Simulation::new();
    assert_eq!(s.state(), SimulationState::Editing);
    assert!(s.shows_edit_label());
    assert_eq!(s.grid().width(), GRID_WIDTH as usize);
    assert_eq!(s.grid().height(), GRID_HEIGHT as usize);
    assert_eq!(s.grid().live_count(), 0);
}

#[test]
fn pointer_places_and_removes_cells() {
    let mut s = Simulation::new();
    s.frame(&pointer(45, 65, true, false));
    assert!(s.grid().is_alive(2, 3));
    assert_eq!(s.grid().live_count(), 1);
    s.frame(&pointer(41, 79, true, false));
    assert_eq!(s.grid().live_count(), 1);
    s.frame(&pointer(45, 65, false, true));
    assert!(!s.grid().is_alive(2, 3));
    assert_eq!(s.grid().live_count(), 0);
    s.frame(&pointer(2000, 2000, true, false));
    assert!(s.grid().is_alive(39, 29));
}

#[test]
fn both_buttons_leave_the_cell_dead() {
    let mut s = Simulation::new();
    s.frame(&pointer(100, 100, true, false));
    assert!(s.grid().is_alive(5, 5));
    s.frame(&pointer(100, 100, true, true));
    assert!(!s.grid().is_alive(5, 5));
    assert_eq!(s.state(), SimulationState::Editing);
}

#[test]
fn clear_empties_the_board() {
    let mut s = Simulation::new();
    s.frame(&pointer(0, 0, true, false));
    s.frame(&pointer(300, 300, true, false));
    assert_eq!(s.grid().live_count(), 2);
    s.frame(&command(Command::Clear, 0));
    assert_eq!(s.grid().live_count(), 0);
    assert_eq!(s.grid().width(), 40);
    assert_eq!(s.state(), SimulationState::Editing);
}

#[test]
fn empty_start_returns_to_editing_on_next_tick() {
    let mut s = Simulation::new();
    s.frame(&command(Command::ToggleRun, 0));
    assert_eq!(s.state(), SimulationState::Running);
    assert!(!s.shows_edit_label());
    s.frame(&idle(0));
    assert_eq!(s.state(), SimulationState::Running);
    s.frame(&idle(1));
    assert_eq!(s.grid().live_count(), 0);
    assert_eq!(s.state(), SimulationState::Editing);
}

#[test]
fn dying_pattern_returns_to_editing_when_count_reaches_zero() {
    let mut s = Simulation::new();
    // Two adjacent cells: each has one neighbour, both die in one step.
    s.frame(&pointer(200, 200, true, false));
    s.frame(&pointer(220, 200, true, false));
    s.frame(&command(Command::ToggleRun, 0));
    assert_eq!(s.state(), SimulationState::Running);
    assert_eq!(s.grid().live_count(), 2);
    s.frame(&idle(3));
    assert_eq!(s.grid().live_count(), 0);
    assert_eq!(s.state(), SimulationState::Editing);
}

#[test]
fn running_advances_once_per_new_tick() {
    let mut s = Simulation::new();
    for px in [200, 220, 240] {
        s.frame(&pointer(px, 200, true, false));
    }
    s.frame(&command(Command::ToggleRun, 0));
    s.frame(&idle(5));
    assert!(s.grid().is_alive(11, 9));
    assert!(!s.grid().is_alive(10, 10));
    // The same tick again: no generation.
    s.frame(&idle(5));
    assert!(s.grid().is_alive(11, 9));
    // Several ticks have passed: still one generation.
    s.frame(&idle(9));
    assert!(s.grid().is_alive(10, 10));
    assert!(!s.grid().is_alive(11, 9));
    assert_eq!(s.state(), SimulationState::Running);
}

#[test]
fn toggle_stops_running_and_clear_is_ignored_while_running() {
    let mut s = Simulation::new();
    for px in [200, 220, 240] {
        s.frame(&pointer(px, 200, true, false));
    }
    s.frame(&command(Command::ToggleRun, 0));
    s.frame(&command(Command::Clear, 0));
    assert_eq!(s.grid().live_count(), 3);
    assert_eq!(s.state(), SimulationState::Running);
    s.frame(&command(Command::ToggleRun, 0));
    assert_eq!(s.state(), SimulationState::Editing);
    assert_eq!(s.grid().live_count(), 3);
}
