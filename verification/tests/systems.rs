use tile_adventure::colors::LockKeyColor;
use tile_adventure::entities::{ColorEntity, Entrance, EntranceEntity, GoalEntity, NextLevel};
use tile_adventure::grid::{GridCoords, Position};
use tile_adventure::indices::{CarriedKeys, Colliders, Entrances};
use tile_adventure::player_movement::Collider;
use tile_adventure::systems::{
    cache_collider_location, cache_entrance_location, cache_goal_location, cache_locks_and_keys,
    check_for_goals, is_near_lock, move_player_to_entrance, pickup_key, LevelNotLoaded, LevelSize,
    PICKUP_REACH, UNLOCK_REACH,
};

fn key(entity: u64, x: i32, y: i32, color: LockKeyColor) -> ColorEntity {
    ColorEntity { entity, cell: GridCoords::new(x, y), color }
}

fn goal(x: i32, y: i32, level: &str, entrance: &str) -> GoalEntity {
    GoalEntity {
        cell: GridCoords::new(x, y),
        next_level: NextLevel { next_level: level.to_string(), entrance: entrance.to_string() },
    }
}

fn entrance(x: i32, y: i32, name: &str) -> EntranceEntity {
    EntranceEntity { cell: GridCoords::new(x, y), entrance: Entrance { name: name.to_string() } }
}

fn blocked_cells_of(colliders: &Colliders, width: i32, height: i32) -> Vec<(i32, i32)> {
    let mut cells = Vec::new();
    for x in -2..width + 2 {
        for y in -2..height + 2 {
            if colliders.contains(&GridCoords::new(x, y)) {
                cells.push((x, y));
            }
        }
    }
    cells
}

#[test]
fn the_reaches_are_one_cell_for_a_key_and_three_for_a_lock() {
    assert_eq!(PICKUP_REACH, 1);
    assert_eq!(UNLOCK_REACH, 3);
}

#[test]
fn blocked_cells_are_the_unwalkable_cells_and_the_lock_cells() {
    let unwalkables = vec![GridCoords::new(1, 1), GridCoords::new(2, 1), GridCoords::new(1, 1)];
    let locks = vec![key(1, 4, 4, LockKeyColor::Red), key(2, 2, 1, LockKeyColor::Blue)];
    let size = LevelSize { px_wid: 320, px_hei: 256 };
    let colliders = cache_collider_location(Some(size), &unwalkables, &locks, 32).unwrap();
    assert_eq!(blocked_cells_of(&colliders, 10, 8), vec![(1, 1), (2, 1), (4, 4)]);
    assert_eq!(colliders.level_width(), 10);
    assert_eq!(colliders.level_height(), 8);
}

#[test]
fn a_rebuilt_index_holds_nothing_of_the_level_before() {
    let size = LevelSize { px_wid: 320, px_hei: 256 };
    let first = vec![GridCoords::new(1, 1), GridCoords::new(7, 7)];
    let second = vec![GridCoords::new(3, 3)];
    let mut colliders = cache_collider_location(Some(size), &first, &vec![], 32).unwrap();
    assert!(colliders.contains(&GridCoords::new(7, 7)));
    colliders = cache_collider_location(Some(size), &second, &vec![], 32).unwrap();
    assert_eq!(blocked_cells_of(&colliders, 10, 8), vec![(3, 3)]);
}

#[test]
fn the_bounds_are_the_pixel_size_divided_by_the_cell_size() {
    let size = LevelSize { px_wid: 100, px_hei: 31 };
    let colliders = cache_collider_location(Some(size), &vec![], &vec![], 32).unwrap();
    assert_eq!(colliders.level_width(), 3);
    assert_eq!(colliders.level_height(), 0);
    assert!(colliders.on_collider(&GridCoords::new(2, 0)));
    let wide = cache_collider_location(
        Some(LevelSize { px_wid: u32::MAX, px_hei: 64 }),
        &vec![],
        &vec![],
        1,
    )
    .unwrap();
    assert_eq!(wide.level_width(), u32::MAX);
    assert!(!wide.on_collider(&GridCoords::new(i32::MAX, 63)));
    assert!(wide.on_collider(&GridCoords::new(i32::MAX, 64)));
}

#[test]
fn a_level_whose_data_is_not_loaded_builds_no_index() {
    let built = cache_collider_location(None, &vec![GridCoords::new(1, 1)], &vec![], 32);
    assert!(matches!(built, Err(LevelNotLoaded)));
}

#[test]
fn goal_cells_are_the_cells_of_the_goals() {
    let goals = cache_goal_location(&vec![goal(3, 3, "B", "north_gate"), goal(9, 0, "C", "door")]);
    assert!(goals.contains(&GridCoords::new(3, 3)));
    assert!(goals.contains(&GridCoords::new(9, 0)));
    assert!(!goals.contains(&GridCoords::new(0, 9)));
    assert!(!cache_goal_location(&vec![]).contains(&GridCoords::new(3, 3)));
}

#[test]
fn entrances_are_filed_by_name_and_the_last_of_a_name_wins() {
    let (entrances, shared) =
        cache_entrance_location(&vec![entrance(2, 2, "north_gate"), entrance(5, 9, "south_gate")]);
    assert!(!shared);
    assert_eq!(entrances.get("north_gate"), Some(GridCoords::new(2, 2)));
    assert_eq!(entrances.get("south_gate"), Some(GridCoords::new(5, 9)));
    assert_eq!(entrances.get("west_gate"), None);

    let (entrances, shared) = cache_entrance_location(&vec![
        entrance(2, 2, "north_gate"),
        entrance(5, 9, "south_gate"),
        entrance(7, 7, "north_gate"),
    ]);
    assert!(shared);
    assert_eq!(entrances.get("north_gate"), Some(GridCoords::new(7, 7)));
    assert_eq!(entrances.get("south_gate"), Some(GridCoords::new(5, 9)));
}

#[test]
fn key_and_lock_locations_keep_the_last_of_a_color() {
    let keys = vec![
        key(1, 1, 1, LockKeyColor::Red),
        key(2, 2, 2, LockKeyColor::Blue),
        key(3, 3, 3, LockKeyColor::Red),
    ];
    let locks = vec![key(4, 8, 8, LockKeyColor::Yellow)];
    let (key_locations, lock_locations) = cache_locks_and_keys(&keys, &locks);
    assert_eq!(key_locations.get(LockKeyColor::Red), Some(GridCoords::new(3, 3)));
    assert_eq!(key_locations.get(LockKeyColor::Blue), Some(GridCoords::new(2, 2)));
    assert_eq!(key_locations.get(LockKeyColor::Yellow), None);
    assert_eq!(lock_locations.get(LockKeyColor::Yellow), Some(GridCoords::new(8, 8)));
    assert_eq!(lock_locations.get(LockKeyColor::Red), None);
}

#[test]
fn a_key_one_cell_away_is_picked_up_and_a_key_two_cells_away_is_not() {
    let player = GridCoords::new(5, 5);
    for (dx, dy) in [(1, 0), (0, 1), (-1, -1), (1, -1), (1, 1)] {
        let mut carried = CarriedKeys::new();
        let picked =
            pickup_key(&mut carried, player, &vec![key(9, 5 + dx, 5 + dy, LockKeyColor::Blue)]);
        assert_eq!(picked, vec![9]);
        assert!(carried.contains(&LockKeyColor::Blue));
    }
    for (dx, dy) in [(2, 0), (0, 2), (-2, -1), (1, -2), (2, 2)] {
        let mut carried = CarriedKeys::new();
        let picked =
            pickup_key(&mut carried, player, &vec![key(9, 5 + dx, 5 + dy, LockKeyColor::Blue)]);
        assert_eq!(picked, Vec::<u64>::new());
        assert!(!carried.contains(&LockKeyColor::Blue));
    }
}

#[test]
fn a_key_under_the_player_is_picked_up() {
    let mut carried = CarriedKeys::new();
    let picked =
        pickup_key(&mut carried, GridCoords::new(5, 5), &vec![key(3, 5, 5, LockKeyColor::Brown)]);
    assert_eq!(picked, vec![3]);
    assert!(carried.contains(&LockKeyColor::Brown));
}

#[test]
fn picking_up_never_loses_a_key() {
    let mut carried = CarriedKeys::new();
    carried.insert(LockKeyColor::Red);
    let keys = vec![
        key(1, 6, 5, LockKeyColor::Green),
        key(2, 9, 9, LockKeyColor::Yellow),
        key(3, 4, 4, LockKeyColor::Red),
    ];
    let picked = pickup_key(&mut carried, GridCoords::new(5, 5), &keys);
    assert_eq!(picked, vec![1, 3]);
    assert!(carried.contains(&LockKeyColor::Red));
    assert!(carried.contains(&LockKeyColor::Green));
    assert!(!carried.contains(&LockKeyColor::Yellow));
    // With the picked keys gone from the scan, a second pass changes nothing.
    let picked = pickup_key(&mut carried, GridCoords::new(5, 5), &vec![keys[1]]);
    assert_eq!(picked, Vec::<u64>::new());
    assert!(carried.contains(&LockKeyColor::Red));
    assert!(carried.contains(&LockKeyColor::Green));
    assert!(!carried.contains(&LockKeyColor::Yellow));
}

fn level_with_locks(locks: &Vec<ColorEntity>) -> Colliders {
    let unwalkables = vec![GridCoords::new(0, 0)];
    cache_collider_location(Some(LevelSize { px_wid: 640, px_hei: 640 }), &unwalkables, locks, 32)
        .unwrap()
}

#[test]
fn a_lock_of_another_color_stays_closed() {
    let locks = vec![key(1, 6, 5, LockKeyColor::Red)];
    let mut colliders = level_with_locks(&locks);
    let mut carried = CarriedKeys::new();
    carried.insert(LockKeyColor::Blue);
    let opened = is_near_lock(&carried, GridCoords::new(5, 5), &locks, &mut colliders);
    assert_eq!(opened, Vec::<u64>::new());
    assert_eq!(blocked_cells_of(&colliders, 20, 20), vec![(0, 0), (6, 5)]);
}

#[test]
fn a_lock_of_a_carried_color_opens_and_only_its_cell_is_unblocked() {
    let locks = vec![key(1, 6, 5, LockKeyColor::Red), key(2, 5, 6, LockKeyColor::Blue)];
    let mut colliders = level_with_locks(&locks);
    let mut carried = CarriedKeys::new();
    carried.insert(LockKeyColor::Red);
    let opened = is_near_lock(&carried, GridCoords::new(5, 5), &locks, &mut colliders);
    assert_eq!(opened, vec![1]);
    assert_eq!(blocked_cells_of(&colliders, 20, 20), vec![(0, 0), (5, 6)]);
    assert_eq!(colliders.level_width(), 20);
    assert_eq!(colliders.level_height(), 20);
    // The key is kept.
    assert!(carried.contains(&LockKeyColor::Red));

    // Asking again is a no-op, with the opened lock still in the scan ...
    let opened = is_near_lock(&carried, GridCoords::new(5, 5), &locks, &mut colliders);
    assert_eq!(opened, vec![1]);
    assert_eq!(blocked_cells_of(&colliders, 20, 20), vec![(0, 0), (5, 6)]);
    // ... and with the opened lock gone from it.
    let opened = is_near_lock(&carried, GridCoords::new(5, 5), &vec![locks[1]], &mut colliders);
    assert_eq!(opened, Vec::<u64>::new());
    assert_eq!(blocked_cells_of(&colliders, 20, 20), vec![(0, 0), (5, 6)]);
}

#[test]
fn a_lock_opens_from_three_cells_away_and_not_from_four() {
    let mut carried = CarriedKeys::new();
    carried.insert(LockKeyColor::Green);
    for (x, y, opens) in [(8, 5, true), (5, 2, true), (8, 8, true), (9, 5, false), (5, 1, false)] {
        let locks = vec![key(7, x, y, LockKeyColor::Green)];
        let mut colliders = level_with_locks(&locks);
        let opened = is_near_lock(&carried, GridCoords::new(5, 5), &locks, &mut colliders);
        assert_eq!(opened, if opens { vec![7] } else { vec![] });
        assert_eq!(colliders.contains(&GridCoords::new(x, y)), !opens);
    }
}

#[test]
fn one_key_opens_every_lock_of_its_color() {
    let locks = vec![
        key(1, 6, 5, LockKeyColor::Red),
        key(2, 4, 5, LockKeyColor::Red),
        key(3, 5, 7, LockKeyColor::Yellow),
    ];
    let mut colliders = level_with_locks(&locks);
    let mut carried = CarriedKeys::new();
    carried.insert(LockKeyColor::Red);
    let opened = is_near_lock(&carried, GridCoords::new(5, 5), &locks, &mut colliders);
    assert_eq!(opened, vec![1, 2]);
    assert_eq!(blocked_cells_of(&colliders, 20, 20), vec![(0, 0), (5, 7)]);
}

#[test]
fn opening_a_lock_leaves_an_unwalkable_tile_on_another_cell_blocked() {
    let locks = vec![key(1, 1, 0, LockKeyColor::Red)];
    let mut colliders = level_with_locks(&locks);
    let mut carried = CarriedKeys::new();
    carried.insert(LockKeyColor::Red);
    is_near_lock(&carried, GridCoords::new(2, 2), &locks, &mut colliders);
    assert!(colliders.on_collider(&GridCoords::new(0, 0)));
    assert!(!colliders.on_collider(&GridCoords::new(1, 0)));
}

#[test]
fn the_goal_under_the_player_is_found() {
    let goals = vec![goal(3, 3, "B", "north_gate"), goal(9, 0, "C", "door")];
    assert_eq!(check_for_goals(GridCoords::new(9, 0), &goals), Some(1));
    assert_eq!(check_for_goals(GridCoords::new(3, 3), &goals), Some(0));
    assert_eq!(check_for_goals(GridCoords::new(3, 4), &goals), None);
    assert_eq!(check_for_goals(GridCoords::new(3, 3), &vec![]), None);
}

#[test]
fn of_two_goals_on_one_cell_the_later_one_counts() {
    let goals = vec![goal(3, 3, "B", "north_gate"), goal(3, 3, "C", "door"), goal(1, 1, "D", "d")];
    assert_eq!(check_for_goals(GridCoords::new(3, 3), &goals), Some(1));
}

#[test]
fn the_player_is_set_down_at_the_centre_of_the_entrance() {
    let mut entrances = Entrances::new();
    entrances.insert("north_gate".to_string(), GridCoords::new(2, 2));
    let mut tf = Position::new(500, 400, 3);
    assert!(move_player_to_entrance(&entrances, "north_gate", &mut tf, 32));
    assert_eq!(tf, Position::new(80, 80, 3));
}

#[test]
fn without_the_entrance_the_player_stays() {
    let mut entrances = Entrances::new();
    entrances.insert("south_gate".to_string(), GridCoords::new(2, 2));
    let mut tf = Position::new(500, 400, 3);
    assert!(!move_player_to_entrance(&entrances, "north_gate", &mut tf, 32));
    assert_eq!(tf, Position::new(500, 400, 3));
}
