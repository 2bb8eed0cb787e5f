use tetris::game::{
    control_movement, falling_movement, place_active_blocks, ControlInput, GameState, Position,
    Size, SPAWN_X, TOTAL_HEIGHT, TOTAL_WIDTH,
};

fn no_keys() -> ControlInput {
    ControlInput { left: false, right: false, down: false }
}

#[test]
fn new_game_spawns_active_at_top_center() {
    let s = GameState::new();
    assert_eq!(s.active_position(), Position { x: SPAWN_X, y: TOTAL_HEIGHT - 1 });
    assert_eq!(s.frozen_count(), 0);
}

#[test]
fn fall_tick_decrements_y() {
    let mut s = GameState::new();
    s.set_active_position(Position { x: 4, y: 9 });
    falling_movement(&mut s);
    assert_eq!(s.active_position(), Position { x: 4, y: 8 });
    assert_eq!(s.frozen_count(), 0);
}

#[test]
fn fall_tick_on_floor_is_noop() {
    let mut s = GameState::new();
    s.set_active_position(Position { x: 4, y: 0 });
    falling_movement(&mut s);
    assert_eq!(s.active_position(), Position { x: 4, y: 0 });
}

#[test]
fn freeze_on_floor_respawns_at_spawn() {
    let mut s = GameState::new();
    s.set_active_position(Position { x: 4, y: 0 });
    let placed = place_active_blocks(&mut s);
    assert!(placed);
    assert_eq!(s.frozen_count(), 1);
    assert_eq!(s.frozen_position(0), Position { x: 4, y: 0 });
    assert_eq!(s.active_position(), Position { x: SPAWN_X, y: TOTAL_HEIGHT - 1 });
}

#[test]
fn freeze_on_stack_respawns_at_spawn() {
    let mut s = GameState::new();
    s.place_normal_block(3, 2);
    s.set_active_position(Position { x: 3, y: 3 });
    let placed = place_active_blocks(&mut s);
    assert!(placed);
    assert_eq!(s.frozen_count(), 2);
    assert_eq!(s.frozen_position(0), Position { x: 3, y: 2 });
    assert_eq!(s.frozen_position(1), Position { x: 3, y: 3 });
    assert_eq!(s.active_position(), Position { x: SPAWN_X, y: TOTAL_HEIGHT - 1 });
}

#[test]
fn no_freeze_in_midair() {
    let mut s = GameState::new();
    s.place_normal_block(3, 2);
    s.set_active_position(Position { x: 3, y: 5 });
    let placed = place_active_blocks(&mut s);
    assert!(!placed);
    assert_eq!(s.frozen_count(), 1);
    assert_eq!(s.active_position(), Position { x: 3, y: 5 });
}

#[test]
fn no_freeze_beside_frozen_cell() {
    let mut s = GameState::new();
    s.place_normal_block(2, 4);
    s.set_active_position(Position { x: 3, y: 5 });
    let placed = place_active_blocks(&mut s);
    assert!(!placed);
    assert_eq!(s.active_position(), Position { x: 3, y: 5 });
}

#[test]
fn left_clamps_at_column_zero() {
    let mut s = GameState::new();
    s.set_active_position(Position { x: 0, y: 7 });
    control_movement(&mut s, ControlInput { left: true, ..no_keys() });
    assert_eq!(s.active_position(), Position { x: 0, y: 7 });
}

#[test]
fn right_clamps_at_last_column() {
    let mut s = GameState::new();
    s.set_active_position(Position { x: TOTAL_WIDTH - 1, y: 7 });
    control_movement(&mut s, ControlInput { right: true, ..no_keys() });
    assert_eq!(s.active_position(), Position { x: TOTAL_WIDTH - 1, y: 7 });
}

#[test]
fn control_moves_left_right_down() {
    let mut s = GameState::new();
    s.set_active_position(Position { x: 4, y: 7 });
    control_movement(&mut s, ControlInput { left: true, ..no_keys() });
    assert_eq!(s.active_position(), Position { x: 3, y: 7 });
    control_movement(&mut s, ControlInput { right: true, ..no_keys() });
    assert_eq!(s.active_position(), Position { x: 4, y: 7 });
    control_movement(&mut s, ControlInput { down: true, ..no_keys() });
    assert_eq!(s.active_position(), Position { x: 4, y: 6 });
}

#[test]
fn down_clamps_at_floor() {
    let mut s = GameState::new();
    s.set_active_position(Position { x: 4, y: 0 });
    control_movement(&mut s, ControlInput { down: true, ..no_keys() });
    assert_eq!(s.active_position(), Position { x: 4, y: 0 });
}

#[test]
fn left_takes_priority_over_right_and_down() {
    let mut s = GameState::new();
    s.set_active_position(Position { x: 4, y: 7 });
    control_movement(&mut s, ControlInput { left: true, right: true, down: true });
    assert_eq!(s.active_position(), Position { x: 3, y: 7 });
}

#[test]
fn right_takes_priority_over_down() {
    let mut s = GameState::new();
    s.set_active_position(Position { x: 4, y: 7 });
    control_movement(&mut s, ControlInput { left: false, right: true, down: true });
    assert_eq!(s.active_position(), Position { x: 5, y: 7 });
}

#[test]
fn no_keys_held_is_noop() {
    let mut s = GameState::new();
    s.set_active_position(Position { x: 4, y: 7 });
    control_movement(&mut s, no_keys());
    assert_eq!(s.active_position(), Position { x: 4, y: 7 });
}

#[test]
fn scenario_fall_until_floor() {
    let mut s = GameState::new();
    s.set_active_position(Position { x: 5, y: TOTAL_HEIGHT - 1 });
    let mut placed = false;
    let mut ticks: i32 = 0;
    while !placed {
        falling_movement(&mut s);
        placed = place_active_blocks(&mut s);
        ticks += 1;
        assert!(ticks <= TOTAL_HEIGHT, "placement must happen within one grid height of ticks");
    }
    assert_eq!(s.frozen_count(), 1);
    assert_eq!(s.frozen_position(0), Position { x: 5, y: 0 });
    assert_eq!(s.active_position(), Position { x: SPAWN_X, y: TOTAL_HEIGHT - 1 });
}

#[test]
fn stack_grows_upward_in_one_column() {
    let mut s = GameState::new();
    for landed in 1usize..=3usize {
        s.set_active_position(Position { x: 2, y: TOTAL_HEIGHT - 1 });
        let mut placed = false;
        while !placed {
            falling_movement(&mut s);
            placed = place_active_blocks(&mut s);
        }
        assert_eq!(s.frozen_count(), landed);
        assert_eq!(s.frozen_position(landed - 1), Position { x: 2, y: landed as i32 - 1 });
    }
}

#[test]
fn size_square_sets_both_axes() {
    let sz = Size::square(1);
    assert_eq!(sz.width, 1);
    assert_eq!(sz.height, 1);
}
