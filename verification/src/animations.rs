//! The frames of the player's sprite sheet: which run of frames shows the
//! player facing a way, standing or walking, and which frame comes next.

use vstd::prelude::*;
use crate::player_movement::{Direction, PlayerFacing, PlayerWantsToMove};

verus! {

/// A run of frames of the sprite sheet, and the frame that is shown.
#[derive(Clone, Copy, Debug, PartialEq, Eq, Structural)]
pub struct AnimationIndex {
    pub first: usize,
    pub last: usize,
    pub current: usize,
}

/// The animations of the sprite sheet. There is none for facing west: the
/// player then shows the frames for facing east.
#[derive(Clone, Copy, Debug, PartialEq, Eq, Structural, Hash)]
pub enum Animations {
    IdleSouth,
    IdleNorth,
    IdleEast,
    WalkSouth,
    WalkNorth,
    WalkEast,
}

/// The animation that shows the player facing a way, walking or standing.
pub open spec fn animation_for(facing: Direction, moving: bool) -> Animations {
    if moving {
        match facing {
            Direction::North => Animations::WalkNorth,
            Direction::East => Animations::WalkEast,
            Direction::South => Animations::WalkSouth,
            Direction::West => Animations::WalkEast,
        }
    } else {
        match facing {
            Direction::North => Animations::IdleNorth,
            Direction::East => Animations::IdleEast,
            Direction::South => Animations::IdleSouth,
            Direction::West => Animations::IdleEast,
        }
    }
}

/// The frame that follows `current` in a run from `first` to `last`.
pub open spec fn next_frame(first: int, last: int, current: int) -> int {
    ((current + 1) % (last - first + 1)) + first
}

impl Animations {
    /// The first and the last frame of the animation.
    pub open spec fn frames(self) -> (usize, usize) {
        match self {
            Animations::IdleSouth => (0, 0),
            Animations::IdleNorth => (16, 16),
            Animations::IdleEast => (32, 32),
            Animations::WalkSouth => (48, 50),
            Animations::WalkNorth => (52, 54),
            Animations::WalkEast => (64, 66),
        }
    }
}

impl Default for AnimationIndex {
    fn default() -> (idx: AnimationIndex)
        ensures
            idx == (AnimationIndex { first: 0, last: 0, current: 0 }),
    {
        AnimationIndex { first: 0, last: 0, current: 0 }
    }
}

impl AnimationIndex {
    /// Makes the run from `first` to `last`, showing `current`, or `first`
    /// where no frame is given.
    pub fn new(first: usize, last: usize, current: Option<usize>) -> (idx: AnimationIndex)
        ensures
            idx.first == first,
            idx.last == last,
            idx.current == match current {
                Some(c) => c,
                None => first,
            },
    {
        if let Some(current) = current {
            AnimationIndex { first, last, current }
        } else {
            AnimationIndex { first, last, current: first }
        }
    }

    /// Gives the run of an animation, showing its first frame.
    pub fn from(value: &Animations) -> (idx: AnimationIndex)
        ensures
            idx.first == value.frames().0,
            idx.last == value.frames().1,
            idx.current == value.frames().0,
    {
        match value {
            Animations::IdleSouth => AnimationIndex { first: 0, last: 0, current: 0 },
            Animations::IdleNorth => AnimationIndex::new(16, 16, None),
            Animations::IdleEast => AnimationIndex::new(32, 32, None),
            Animations::WalkSouth => AnimationIndex::new(48, 50, None),
            Animations::WalkNorth => AnimationIndex::new(52, 54, None),
            Animations::WalkEast => AnimationIndex::new(64, 66, None),
        }
    }

    /// Gives the run that shows the player facing a way, walking or
    /// standing, at its first frame.
    pub fn from_facing(facing: PlayerFacing, moving: PlayerWantsToMove) -> (idx: AnimationIndex)
        ensures
            idx.first == animation_for(facing.facing, moving.0).frames().0,
            idx.last == animation_for(facing.facing, moving.0).frames().1,
            idx.current == idx.first,
    {
        if moving.0 {
            match facing.facing {
                Direction::North => AnimationIndex::from(&Animations::WalkNorth),
                Direction::East => AnimationIndex::from(&Animations::WalkEast),
                Direction::South => AnimationIndex::from(&Animations::WalkSouth),
                Direction::West => AnimationIndex::from(&Animations::WalkEast),
            }
        } else {
            match facing.facing {
                Direction::North => AnimationIndex::from(&Animations::IdleNorth),
                Direction::East => AnimationIndex::from(&Animations::IdleEast),
                Direction::South => AnimationIndex::from(&Animations::IdleSouth),
                Direction::West => AnimationIndex::from(&Animations::IdleEast),
            }
        }
    }
}

/// Brings the frame index up to date. The run becomes that of the player's
/// facing and motion, and the frame shown is kept; when the player walks and
/// the frame timer has just run out, the frame that follows is shown.
pub fn update_player_idx(
    idx: &mut AnimationIndex,
    facing: PlayerFacing,
    should_move: PlayerWantsToMove,
    timer_just_finished: bool,
)
    requires
        old(idx).current < usize::MAX,
    ensures
        final(idx).first == animation_for(facing.facing, should_move.0).frames().0,
        final(idx).last == animation_for(facing.facing, should_move.0).frames().1,
        final(idx).current == if should_move.0 && timer_just_finished {
            next_frame(final(idx).first as int, final(idx).last as int, old(idx).current as int)
        } else {
            old(idx).current as int
        },
{
    let idx_old = idx.current;
    let mut new_idx = AnimationIndex::from_facing(facing, should_move);
    new_idx.current = idx_old;
    *idx = new_idx;
    if should_move.0 {
        if timer_just_finished {
            let offset = idx.last - idx.first + 1;
            idx.current = ((idx.current + 1) % offset) + idx.first;
        }
    }
}

} // verus!
