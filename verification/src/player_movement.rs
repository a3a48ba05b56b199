//! The player's motion over the grid: a step is taken only into a cell that
//! the collision oracle leaves open.

use vstd::prelude::*;
use crate::grid::{cell_of, to_grid_coords, GridCoords, Position};

verus! {

/// The four ways the player can face.
#[derive(Clone, Copy, Debug, PartialEq, Eq, Structural)]
pub enum Direction {
    North,
    East,
    South,
    West,
}

impl Default for Direction {
    fn default() -> (d: Direction)
        ensures
            d == Direction::South,
    {
        Direction::South
    }
}

/// Whether the player asks to move in this step.
#[derive(Clone, Copy, Debug, PartialEq, Eq, Structural)]
pub struct PlayerWantsToMove(pub bool);

impl Default for PlayerWantsToMove {
    fn default() -> (w: PlayerWantsToMove)
        ensures
            w == PlayerWantsToMove(false),
    {
        PlayerWantsToMove(false)
    }
}

/// The way the player faces.
#[derive(Clone, Copy, Debug, PartialEq, Eq, Structural)]
pub struct PlayerFacing {
    pub facing: Direction,
}

impl Default for PlayerFacing {
    fn default() -> (f: PlayerFacing)
        ensures
            f.facing == Direction::South,
    {
        PlayerFacing { facing: Direction::South }
    }
}

/// The state of the four movement keys: up, left, down and right.
#[derive(Clone, Copy, Debug, PartialEq, Eq, Structural)]
pub struct MovementKeys {
    pub w: bool,
    pub a: bool,
    pub s: bool,
    pub d: bool,
}

/// The way the player faces once the keys that have just gone down are
/// heeded. Of several, down wins over up, up over left, and left over right;
/// without any, the player keeps facing as it did.
pub open spec fn facing_after(facing: Direction, just_pressed: MovementKeys) -> Direction {
    if just_pressed.s {
        Direction::South
    } else if just_pressed.w {
        Direction::North
    } else if just_pressed.a {
        Direction::West
    } else if just_pressed.d {
        Direction::East
    } else {
        facing
    }
}

/// Whether the player's sprite is mirrored once the keys that have just gone
/// down are heeded: it is when the player turns west, and is not when it
/// turns any other way.
pub open spec fn flip_after(flip_x: bool, just_pressed: MovementKeys) -> bool {
    if just_pressed.s || just_pressed.w {
        false
    } else if just_pressed.a {
        true
    } else if just_pressed.d {
        false
    } else {
        flip_x
    }
}

/// Turns the player as the keys that have just gone down ask, and notes
/// whether any movement key is held.
pub fn take_input(
    just_pressed: &MovementKeys,
    pressed: &MovementKeys,
    flip_x: &mut bool,
    facing: &mut PlayerFacing,
    player_wants_to_move: &mut PlayerWantsToMove,
)
    ensures
        final(facing).facing == facing_after(old(facing).facing, *just_pressed),
        *final(flip_x) == flip_after(*old(flip_x), *just_pressed),
        final(player_wants_to_move).0 == (pressed.w || pressed.a || pressed.s || pressed.d),
{
    if just_pressed.d {
        facing.facing = Direction::East;
        *flip_x = false;
    }
    if just_pressed.a {
        facing.facing = Direction::West;
        *flip_x = true;
    }
    if just_pressed.w {
        facing.facing = Direction::North;
        *flip_x = false;
    }
    if just_pressed.s {
        facing.facing = Direction::South;
        *flip_x = false;
    }
    *player_wants_to_move = PlayerWantsToMove(pressed.w || pressed.a || pressed.s || pressed.d);
}

/// A collision oracle: it says of every cell whether the player is kept out
/// of it.
pub trait Collider {
    /// Whether the oracle keeps the player out of `cell`.
    spec fn blocks(&self, cell: GridCoords) -> bool;

    /// Asks the oracle about one cell.
    fn on_collider(&self, other: &GridCoords) -> (blocked: bool)
        ensures
            blocked == self.blocks(*other),
    ;
}

/// World units that the player covers in one unit of time.
pub const SPEED: i64 = 100;

/// The point reached from `from` by going `distance` the way `facing` points:
/// north and south along the y axis, east and west along the x axis.
pub open spec fn advanced(from: Position, facing: Direction, distance: int) -> (int, int) {
    match facing {
        Direction::East => (from.x + distance, from.y as int),
        Direction::West => (from.x - distance, from.y as int),
        Direction::North => (from.x as int, from.y + distance),
        Direction::South => (from.x as int, from.y - distance),
    }
}

/// Whether the point that a step of `elapsed` units of time leads to can be
/// written as a position.
pub open spec fn step_fits(from: Position, facing: Direction, elapsed: u32) -> bool {
    let to = advanced(from, facing, SPEED * elapsed);
    i64::MIN <= to.0 <= i64::MAX && i64::MIN <= to.1 <= i64::MAX
}

/// The position that a step of `elapsed` units of time aims at.
pub open spec fn candidate(from: Position, facing: Direction, elapsed: u32) -> Position {
    let to = advanced(from, facing, SPEED * elapsed);
    Position { x: to.0 as i64, y: to.1 as i64, z: from.z }
}

/// Where the player stands after a step: at the candidate position if its
/// cell is open, and where it stood if the cell is blocked.
pub open spec fn after_step<U: Collider>(
    from: Position,
    facing: Direction,
    elapsed: u32,
    cell_size: u32,
    colliders: &U,
) -> Position {
    let to = candidate(from, facing, elapsed);
    if colliders.blocks(cell_of(to, cell_size)) {
        from
    } else {
        to
    }
}

/// Tells whether a step of `elapsed` units of time leads to a point that can
/// be written as a position.
pub fn can_step(player: &Position, facing: &PlayerFacing, elapsed: u32) -> (fits: bool)
    ensures
        fits == step_fits(*player, facing.facing, elapsed),
{
    let speed: i64 = SPEED * (elapsed as i64);
    match facing.facing {
        Direction::East => player.x.checked_add(speed).is_some(),
        Direction::West => player.x.checked_sub(speed).is_some(),
        Direction::North => player.y.checked_add(speed).is_some(),
        Direction::South => player.y.checked_sub(speed).is_some(),
    }
}

/// Moves the player under the watch of a collision oracle of kind `U`.
pub struct PlayerMover<U: Collider> {
    collider: core::marker::PhantomData<U>,
}

impl<U: Collider> PlayerMover<U> {
    /// Takes one step: the player goes `SPEED * elapsed` world units the way
    /// it faces, unless the cell it would come to is blocked; then it stays.
    pub fn move_player(
        player: &mut Position,
        facing: &PlayerFacing,
        elapsed: u32,
        cell_size: u32,
        colliders: &U,
    )
        requires
            cell_size > 0,
            step_fits(*old(player), facing.facing, elapsed),
        ensures
            *final(player) == after_step(*old(player), facing.facing, elapsed, cell_size, colliders),
    {
        let speed: i64 = SPEED * (elapsed as i64);
        let mut next_position = *player;
        match facing.facing {
            Direction::East => {
                next_position.x = next_position.x + speed;
            },
            Direction::West => {
                next_position.x = next_position.x - speed;
            },
            Direction::North => {
                next_position.y = next_position.y + speed;
            },
            Direction::South => {
                next_position.y = next_position.y - speed;
            },
        }
        let player_grid = to_grid_coords(next_position, cell_size);
        if !colliders.on_collider(&player_grid) {
            *player = next_position;
        }
    }
}

} // verus!
