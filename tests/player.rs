use colony::{
    player_controller, spawn_player, Cooldown, Direction, DirectionKeys, GridBounds, Player,
    Point3, GRID_MAX, GRID_MIN, MOVE_COOLDOWN_NANOS,
};

const TICK: u64 = 200_000_000;

fn start() -> Player {
    spawn_player(0, 0, GridBounds { min: GRID_MIN, max: GRID_MAX }, MOVE_COOLDOWN_NANOS)
}

fn keys(up: bool, down: bool, right: bool, left: bool) -> DirectionKeys {
    DirectionKeys { up, down, right, left }
}

#[test]
fn right_three_ticks_reaches_column_three() {
    let mut p = start();
    let mut last = None;
    for _ in 0..3 {
        last = player_controller(&mut p, DirectionKeys::only(Direction::Right), TICK);
        assert!(last.is_some());
    }
    assert_eq!(p.grid_x, 3);
    assert_eq!(p.grid_y, 0);
    assert_eq!(p.facing, Direction::Right);
    assert_eq!(p.facing.quarter_turns(), 2);
    let pose = last.unwrap();
    assert_eq!(pose.position, Point3::new(0, 500, 3000));
    assert_eq!(pose.facing, Direction::Right);
}

#[test]
fn spawned_player_waits_a_full_cooldown() {
    let mut p = start();
    assert_eq!(p.facing, Direction::Left);
    assert_eq!(p.move_cooldown, Cooldown { duration: TICK, remaining: TICK });
    let w = player_controller(&mut p, DirectionKeys::only(Direction::Up), TICK - 1);
    assert_eq!(w, None);
    assert_eq!((p.grid_x, p.grid_y), (0, 0));
    assert_eq!(p.move_cooldown.remaining, 1);
    let w = player_controller(&mut p, DirectionKeys::only(Direction::Up), 1);
    assert_eq!(w.unwrap().position, Point3::new(1000, 500, 0));
    assert_eq!(p.grid_y, 1);
    assert_eq!(p.move_cooldown.remaining, TICK);
}

#[test]
fn held_keys_within_cooldown_change_nothing() {
    let mut p = start();
    player_controller(&mut p, DirectionKeys::only(Direction::Right), TICK).unwrap();
    for _ in 0..19 {
        let w = player_controller(&mut p, keys(true, false, true, false), 10_000_000);
        assert_eq!(w, None);
    }
    assert_eq!((p.grid_x, p.grid_y), (1, 0));
    assert_eq!(p.facing, Direction::Right);
    let w = player_controller(&mut p, keys(true, false, true, false), 10_000_000);
    assert!(w.is_some());
    assert_eq!((p.grid_x, p.grid_y), (2, 1));
}

#[test]
fn no_key_writes_nothing_and_keeps_cooldown_elapsed() {
    let mut p = start();
    let w = player_controller(&mut p, DirectionKeys::none(), 5 * TICK);
    assert_eq!(w, None);
    assert_eq!(p.move_cooldown.remaining, 0);
    let w = player_controller(&mut p, DirectionKeys::only(Direction::Down), 0);
    assert_eq!(w.unwrap().facing, Direction::Down);
    assert_eq!(p.grid_y, -1);
}

#[test]
fn grid_is_held_at_the_bounds() {
    let bounds = GridBounds { min: 0, max: 2 };
    let mut p = spawn_player(2, 0, bounds, TICK);
    let w = player_controller(&mut p, DirectionKeys::only(Direction::Right), TICK);
    assert_eq!(p.grid_x, 2);
    assert_eq!(w.unwrap().position, Point3::new(0, 500, 2000));
    assert_eq!(p.move_cooldown.remaining, TICK);
    let w = player_controller(&mut p, DirectionKeys::only(Direction::Down), TICK);
    assert!(w.is_some());
    assert_eq!(p.grid_y, 0);
    for _ in 0..10 {
        player_controller(&mut p, keys(true, false, true, false), TICK);
        assert!(p.grid_x >= 0 && p.grid_x <= 2 && p.grid_y >= 0 && p.grid_y <= 2);
    }
    assert_eq!((p.grid_x, p.grid_y), (2, 2));
}

#[test]
fn last_direction_in_order_sets_the_facing() {
    let mut p = start();
    player_controller(&mut p, keys(true, true, true, true), TICK).unwrap();
    assert_eq!(p.facing, Direction::Left);
    assert_eq!((p.grid_x, p.grid_y), (0, 0));
    player_controller(&mut p, keys(true, true, true, false), TICK).unwrap();
    assert_eq!(p.facing, Direction::Right);
    assert_eq!((p.grid_x, p.grid_y), (1, 0));
    player_controller(&mut p, keys(true, true, false, false), TICK).unwrap();
    assert_eq!(p.facing, Direction::Down);
    player_controller(&mut p, keys(true, false, false, false), TICK).unwrap();
    assert_eq!(p.facing, Direction::Up);
    assert_eq!((p.grid_x, p.grid_y), (1, 1));
}

#[test]
fn facing_rotations_in_quarter_turns() {
    assert_eq!(Direction::Up.quarter_turns(), -1);
    assert_eq!(Direction::Down.quarter_turns(), 1);
    assert_eq!(Direction::Right.quarter_turns(), 2);
    assert_eq!(Direction::Left.quarter_turns(), 0);
}

#[test]
fn cooldown_never_goes_below_zero() {
    let mut c = Cooldown::new(100);
    c.tick(30);
    assert_eq!(c.remaining, 70);
    assert!(!c.is_finished());
    c.tick(u64::MAX);
    assert_eq!(c.remaining, 0);
    assert!(c.is_finished());
    c.reset();
    assert_eq!(c, Cooldown { duration: 100, remaining: 100 });
}

#[test]
fn world_position_swaps_axes() {
    let p = spawn_player(-4, 7, GridBounds { min: -10, max: 10 }, TICK);
    assert_eq!(p.world_position(), Point3::new(7000, 500, -4000));
}
