use tile_adventure::colors::LockKeyColor;
use tile_adventure::entities::{ColorEntity, Entrance, EntranceEntity, GoalEntity, NextLevel};
use tile_adventure::grid::{GridCoords, Position};
use tile_adventure::player_movement::{Collider, Direction, PlayerFacing, PlayerWantsToMove};
use tile_adventure::systems::{LevelNotLoaded, LevelSize};
use tile_adventure::world::{LevelEvent, LevelScan, LevelState, PlayerState, WorldState};

// Positions are in thousandths of a pixel and times in milliseconds.
const CELL: u32 = 32_000;

fn centre(x: i32, y: i32, z: i64) -> Position {
    Position::new(x as i64 * 32_000 + 16_000, y as i64 * 32_000 + 16_000, z)
}

fn colored(entity: u64, x: i32, y: i32, color: LockKeyColor) -> ColorEntity {
    ColorEntity { entity, cell: GridCoords::new(x, y), color }
}

fn goal(x: i32, y: i32, level: &str, entrance: &str) -> GoalEntity {
    GoalEntity {
        cell: GridCoords::new(x, y),
        next_level: NextLevel { next_level: level.to_string(), entrance: entrance.to_string() },
    }
}

fn entrance(x: i32, y: i32, name: &str) -> EntranceEntity {
    EntranceEntity { cell: GridCoords::new(x, y), entrance: Entrance { name: name.to_string() } }
}

fn empty_level() -> LevelScan {
    LevelScan {
        size: Some(LevelSize { px_wid: 640_000, px_hei: 640_000 }),
        unwalkables: vec![],
        keys: vec![],
        locks: vec![],
        goals: vec![],
        entrances: vec![],
    }
}

fn spawned(level: &str) -> LevelEvent {
    LevelEvent::Spawned(level.to_string())
}

fn player(position: Position, facing: Direction, wants_to_move: bool) -> PlayerState {
    PlayerState {
        position,
        facing: PlayerFacing { facing },
        wants_to_move: PlayerWantsToMove(wants_to_move),
    }
}

fn loaded_world(scan: &LevelScan) -> WorldState {
    let mut world = WorldState::new(CELL);
    world.level_loaded(&spawned("A"), scan, None).unwrap();
    world
}

#[test]
fn a_new_world_has_no_level() {
    let world = WorldState::new(CELL);
    assert_eq!(world.cell_size, CELL);
    assert_eq!(world.level, LevelState::Unloaded);
    assert!(world.colliders.on_collider(&GridCoords::new(0, 0)));
    assert!(!world.carried_keys.contains(&LockKeyColor::Red));
}

#[test]
fn a_step_before_any_level_is_loaded_is_an_error() {
    let mut world = WorldState::new(CELL);
    let report = world.step(
        Some(player(centre(5, 5, 0), Direction::East, true)),
        320,
        &empty_level(),
    );
    assert_eq!(report, Err(LevelNotLoaded));
    assert_eq!(world.level, LevelState::Unloaded);
}

#[test]
fn a_step_without_a_player_does_nothing() {
    let mut scan = empty_level();
    scan.keys = vec![colored(1, 0, 0, LockKeyColor::Red)];
    scan.goals = vec![goal(0, 0, "B", "north_gate")];
    let mut world = loaded_world(&scan);
    let report = world.step(None, 320, &scan).unwrap();
    assert_eq!(report.player, None);
    assert_eq!(report.picked, Vec::<u64>::new());
    assert_eq!(report.opened, Vec::<u64>::new());
    assert_eq!(report.switch_to, None);
    assert_eq!(world.level, LevelState::InLevel("A".to_string()));
    assert!(!world.carried_keys.contains(&LockKeyColor::Red));
}

#[test]
fn the_player_facing_east_stays_when_the_next_cell_is_blocked() {
    let mut scan = empty_level();
    scan.unwalkables = vec![GridCoords::new(6, 5)];
    let mut world = loaded_world(&scan);
    let before = player(centre(5, 5, 0), Direction::East, true);
    let report = world.step(Some(before), 320, &scan).unwrap();
    assert_eq!(report.player, Some(before));
}

#[test]
fn the_player_facing_east_moves_to_the_centre_of_the_next_cell_when_it_is_open() {
    let scan = empty_level();
    let mut world = loaded_world(&scan);
    let before = player(centre(5, 5, 0), Direction::East, true);
    let report = world.step(Some(before), 320, &scan).unwrap();
    assert_eq!(report.player, Some(player(centre(6, 5, 0), Direction::East, true)));
}

#[test]
fn a_player_that_does_not_want_to_move_stays() {
    let scan = empty_level();
    let mut world = loaded_world(&scan);
    let before = player(centre(5, 5, 0), Direction::East, false);
    let report = world.step(Some(before), 320, &scan).unwrap();
    assert_eq!(report.player, Some(before));
}

#[test]
fn stepping_onto_a_goal_leads_to_the_entrance_of_the_next_level() {
    let mut scan = empty_level();
    scan.goals = vec![goal(6, 5, "B", "north_gate")];
    let mut world = loaded_world(&scan);
    let report = world.step(Some(player(centre(5, 5, 4), Direction::East, true)), 320, &scan);
    let report = report.unwrap();
    assert_eq!(report.switch_to, Some("B".to_string()));
    assert_eq!(
        world.level,
        LevelState::Transitioning("B".to_string(), "north_gate".to_string())
    );

    let mut next = empty_level();
    next.entrances = vec![entrance(9, 9, "south_gate"), entrance(2, 2, "north_gate")];
    let arrived = world
        .level_loaded(&spawned("B"), &next, Some(Position::new(7, 7, 4)))
        .unwrap();
    assert_eq!(arrived.player, Some(centre(2, 2, 4)));
    assert_eq!(arrived.missing_entrance, None);
    assert!(!arrived.shared_entrance_name);
    assert_eq!(world.level, LevelState::InLevel("B".to_string()));
}

#[test]
fn without_the_entrance_the_player_is_left_where_the_engine_put_it() {
    let mut scan = empty_level();
    scan.goals = vec![goal(6, 5, "B", "north_gate")];
    let mut world = loaded_world(&scan);
    world.step(Some(player(centre(5, 5, 4), Direction::East, true)), 320, &scan).unwrap();

    let mut next = empty_level();
    next.entrances = vec![entrance(9, 9, "south_gate")];
    let arrived = world
        .level_loaded(&spawned("B"), &next, Some(Position::new(7, 7, 4)))
        .unwrap();
    assert_eq!(arrived.player, Some(Position::new(7, 7, 4)));
    assert_eq!(arrived.missing_entrance, Some("north_gate".to_string()));
    assert_eq!(world.level, LevelState::InLevel("B".to_string()));
}

#[test]
fn the_entrance_is_used_once() {
    let mut scan = empty_level();
    scan.goals = vec![goal(6, 5, "B", "north_gate")];
    let mut world = loaded_world(&scan);
    world.step(Some(player(centre(5, 5, 0), Direction::East, true)), 320, &scan).unwrap();
    let mut next = empty_level();
    next.entrances = vec![entrance(2, 2, "north_gate")];
    world.level_loaded(&spawned("B"), &next, Some(Position::new(7, 7, 0))).unwrap();
    let again = world.level_loaded(&spawned("B"), &next, Some(Position::new(7, 7, 0))).unwrap();
    assert_eq!(again.player, Some(Position::new(7, 7, 0)));
    assert_eq!(again.missing_entrance, None);
}

#[test]
fn while_the_next_level_is_awaited_a_goal_is_not_taken_again() {
    let mut scan = empty_level();
    scan.goals = vec![goal(6, 5, "B", "north_gate"), goal(7, 5, "C", "door")];
    let mut world = loaded_world(&scan);
    world.step(Some(player(centre(5, 5, 0), Direction::East, true)), 320, &scan).unwrap();
    let report =
        world.step(Some(player(centre(6, 5, 0), Direction::East, true)), 320, &scan).unwrap();
    assert_eq!(report.player, Some(player(centre(7, 5, 0), Direction::East, true)));
    assert_eq!(report.switch_to, None);
    assert_eq!(
        world.level,
        LevelState::Transitioning("B".to_string(), "north_gate".to_string())
    );
}

#[test]
fn a_load_rebuilds_every_index_and_keeps_the_keys_carried() {
    let mut first = empty_level();
    first.unwalkables = vec![GridCoords::new(1, 1)];
    first.keys = vec![colored(1, 5, 5, LockKeyColor::Red)];
    first.locks = vec![colored(2, 9, 9, LockKeyColor::Red)];
    first.goals = vec![goal(3, 3, "B", "north_gate")];
    first.entrances = vec![entrance(4, 4, "start")];
    let mut world = loaded_world(&first);
    assert!(world.colliders.contains(&GridCoords::new(1, 1)));
    assert!(world.colliders.contains(&GridCoords::new(9, 9)));
    assert!(world.goals.contains(&GridCoords::new(3, 3)));
    assert_eq!(world.entrances.get("start"), Some(GridCoords::new(4, 4)));
    assert_eq!(world.keys.get(LockKeyColor::Red), Some(GridCoords::new(5, 5)));
    assert_eq!(world.locks.get(LockKeyColor::Red), Some(GridCoords::new(9, 9)));
    world.step(Some(player(centre(5, 5, 0), Direction::East, false)), 16, &first).unwrap();
    assert!(world.carried_keys.contains(&LockKeyColor::Red));

    let mut second = empty_level();
    second.size = Some(LevelSize { px_wid: 320_000, px_hei: 96_000 });
    second.unwalkables = vec![GridCoords::new(2, 2)];
    world.level_loaded(&spawned("B"), &second, None).unwrap();
    assert!(!world.colliders.contains(&GridCoords::new(1, 1)));
    assert!(!world.colliders.contains(&GridCoords::new(9, 9)));
    assert!(world.colliders.contains(&GridCoords::new(2, 2)));
    assert_eq!(world.colliders.level_width(), 10);
    assert_eq!(world.colliders.level_height(), 3);
    assert!(!world.goals.contains(&GridCoords::new(3, 3)));
    assert_eq!(world.entrances.get("start"), None);
    assert_eq!(world.keys.get(LockKeyColor::Red), None);
    assert_eq!(world.locks.get(LockKeyColor::Red), None);
    assert!(world.carried_keys.contains(&LockKeyColor::Red));
    assert_eq!(world.level, LevelState::InLevel("B".to_string()));
}

#[test]
fn a_load_before_the_levels_data_is_there_is_an_error_and_changes_nothing() {
    let mut first = empty_level();
    first.unwalkables = vec![GridCoords::new(1, 1)];
    let mut world = loaded_world(&first);
    let mut unready = empty_level();
    unready.size = None;
    unready.unwalkables = vec![GridCoords::new(2, 2)];
    let report = world.level_loaded(&spawned("B"), &unready, None);
    assert_eq!(report, Err(LevelNotLoaded));
    assert!(world.colliders.contains(&GridCoords::new(1, 1)));
    assert!(!world.colliders.contains(&GridCoords::new(2, 2)));
    assert_eq!(world.level, LevelState::InLevel("A".to_string()));
}

#[test]
fn only_the_event_that_a_level_is_spawned_loads_it() {
    let mut scan = empty_level();
    scan.unwalkables = vec![GridCoords::new(1, 1)];
    for event in [
        LevelEvent::SpawnTriggered("A".to_string()),
        LevelEvent::Transformed("A".to_string()),
        LevelEvent::Despawned("A".to_string()),
    ] {
        let mut world = WorldState::new(CELL);
        let report = world.level_loaded(&event, &scan, Some(Position::new(1, 2, 3))).unwrap();
        assert_eq!(report.player, Some(Position::new(1, 2, 3)));
        assert!(!report.shared_entrance_name);
        assert_eq!(report.missing_entrance, None);
        assert_eq!(world.level, LevelState::Unloaded);
        assert!(!world.colliders.contains(&GridCoords::new(1, 1)));
    }
}

#[test]
fn entrances_that_share_a_name_are_reported() {
    let mut scan = empty_level();
    scan.entrances = vec![entrance(1, 1, "gate"), entrance(2, 2, "gate")];
    let mut world = WorldState::new(CELL);
    let report = world.level_loaded(&spawned("A"), &scan, None).unwrap();
    assert!(report.shared_entrance_name);
    assert_eq!(world.entrances.get("gate"), Some(GridCoords::new(2, 2)));
}

#[test]
fn a_key_is_picked_up_and_its_lock_opened_in_the_same_step_before_the_player_moves() {
    let mut scan = empty_level();
    scan.keys = vec![colored(1, 5, 6, LockKeyColor::Blue)];
    scan.locks = vec![colored(2, 6, 5, LockKeyColor::Blue), colored(3, 5, 4, LockKeyColor::Red)];
    let mut world = loaded_world(&scan);
    assert!(world.colliders.on_collider(&GridCoords::new(6, 5)));
    let report =
        world.step(Some(player(centre(5, 5, 0), Direction::East, true)), 320, &scan).unwrap();
    assert_eq!(report.picked, vec![1]);
    assert_eq!(report.opened, vec![2]);
    assert_eq!(report.player, Some(player(centre(6, 5, 0), Direction::East, true)));
    assert!(world.carried_keys.contains(&LockKeyColor::Blue));
    assert!(!world.colliders.on_collider(&GridCoords::new(6, 5)));
    assert!(world.colliders.on_collider(&GridCoords::new(5, 4)));
}

#[test]
fn a_goal_is_noticed_where_the_player_stands_after_the_move() {
    let mut scan = empty_level();
    scan.goals = vec![goal(5, 5, "B", "north_gate")];
    let mut world = loaded_world(&scan);
    // The player leaves the goal cell in this step.
    let report =
        world.step(Some(player(centre(5, 5, 0), Direction::East, true)), 320, &scan).unwrap();
    assert_eq!(report.switch_to, None);
    assert_eq!(world.level, LevelState::InLevel("A".to_string()));
    // The player stands on it.
    let report =
        world.step(Some(player(centre(5, 5, 0), Direction::East, false)), 320, &scan).unwrap();
    assert_eq!(report.switch_to, Some("B".to_string()));
}
