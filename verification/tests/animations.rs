use tile_adventure::animations::{update_player_idx, AnimationIndex, Animations};
use tile_adventure::player_movement::{Direction, PlayerFacing, PlayerWantsToMove};

fn run(first: usize, last: usize, current: usize) -> AnimationIndex {
    AnimationIndex { first, last, current }
}

#[test]
fn a_run_starts_at_its_first_frame_unless_a_frame_is_given() {
    assert_eq!(AnimationIndex::new(48, 50, None), run(48, 50, 48));
    assert_eq!(AnimationIndex::new(48, 50, Some(49)), run(48, 50, 49));
    assert_eq!(AnimationIndex::default(), run(0, 0, 0));
}

#[test]
fn each_animation_has_its_run_of_frames() {
    assert_eq!(AnimationIndex::from(&Animations::IdleSouth), run(0, 0, 0));
    assert_eq!(AnimationIndex::from(&Animations::IdleNorth), run(16, 16, 16));
    assert_eq!(AnimationIndex::from(&Animations::IdleEast), run(32, 32, 32));
    assert_eq!(AnimationIndex::from(&Animations::WalkSouth), run(48, 50, 48));
    assert_eq!(AnimationIndex::from(&Animations::WalkNorth), run(52, 54, 52));
    assert_eq!(AnimationIndex::from(&Animations::WalkEast), run(64, 66, 64));
}

#[test]
fn facing_west_shows_the_frames_for_facing_east() {
    let west = PlayerFacing { facing: Direction::West };
    let east = PlayerFacing { facing: Direction::East };
    for moving in [PlayerWantsToMove(false), PlayerWantsToMove(true)] {
        assert_eq!(
            AnimationIndex::from_facing(west, moving),
            AnimationIndex::from_facing(east, moving)
        );
    }
    assert_eq!(AnimationIndex::from_facing(west, PlayerWantsToMove(true)), run(64, 66, 64));
    assert_eq!(AnimationIndex::from_facing(west, PlayerWantsToMove(false)), run(32, 32, 32));
}

#[test]
fn the_run_follows_facing_and_motion() {
    let north = PlayerFacing { facing: Direction::North };
    let south = PlayerFacing { facing: Direction::South };
    assert_eq!(AnimationIndex::from_facing(north, PlayerWantsToMove(true)), run(52, 54, 52));
    assert_eq!(AnimationIndex::from_facing(north, PlayerWantsToMove(false)), run(16, 16, 16));
    assert_eq!(AnimationIndex::from_facing(south, PlayerWantsToMove(true)), run(48, 50, 48));
    assert_eq!(AnimationIndex::from_facing(south, PlayerWantsToMove(false)), run(0, 0, 0));
}

#[test]
fn a_walking_player_shows_the_next_frame_when_the_timer_runs_out() {
    let south = PlayerFacing { facing: Direction::South };
    let mut idx = run(48, 50, 48);
    let mut shown = Vec::new();
    for _ in 0..4 {
        update_player_idx(&mut idx, south, PlayerWantsToMove(true), true);
        shown.push(idx.current);
    }
    assert_eq!(shown, vec![49, 50, 48, 49]);

    let north = PlayerFacing { facing: Direction::North };
    let mut idx = run(52, 54, 52);
    let mut shown = Vec::new();
    for _ in 0..4 {
        update_player_idx(&mut idx, north, PlayerWantsToMove(true), true);
        shown.push(idx.current);
    }
    assert_eq!(shown, vec![54, 53, 52, 54]);
}

#[test]
fn the_frame_is_kept_while_the_timer_runs_or_the_player_stands() {
    let east = PlayerFacing { facing: Direction::East };
    let mut idx = run(48, 50, 49);
    update_player_idx(&mut idx, east, PlayerWantsToMove(true), false);
    assert_eq!(idx, run(64, 66, 49));
    update_player_idx(&mut idx, east, PlayerWantsToMove(false), true);
    assert_eq!(idx, run(32, 32, 49));
    update_player_idx(&mut idx, east, PlayerWantsToMove(true), true);
    assert_eq!(idx, run(64, 66, 66));
}
