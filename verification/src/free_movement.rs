//! Motion that is not bound to the grid: the movement that the pressed keys
//! ask for, cut back where a box stands in the way, and then carried out.

use vstd::prelude::*;
use crate::grid::Position;

verus! {

/// A displacement, or a size, in the plane: so many world units along x and
/// along y.
#[derive(Clone, Copy, Debug, PartialEq, Eq, Structural)]
pub struct Offset {
    pub x: i64,
    pub y: i64,
}

/// The box around an entity that others cannot pass: its width and its
/// height, centred on the entity.
#[derive(Clone, Copy, Debug, PartialEq, Eq, Structural)]
pub struct Collider {
    pub size: Offset,
}

/// The side of the other box on which the player's box has run into it.
#[derive(Clone, Copy, Debug, PartialEq, Eq, Structural)]
pub enum Collision {
    Left,
    Right,
    Top,
    Bottom,
    Inside,
}

/// The movement that the player wishes for in this step, and whether it has
/// been carried out.
#[derive(Clone, Copy, Debug, PartialEq, Eq, Structural)]
pub struct PlayerMovement {
    pub player_movement: Offset,
    pub has_moved: bool,
}

impl Default for PlayerMovement {
    fn default() -> (m: PlayerMovement)
        ensures
            m.player_movement == (Offset { x: 0, y: 0 }),
            !m.has_moved,
    {
        PlayerMovement { player_movement: Offset { x: 0, y: 0 }, has_moved: false }
    }
}

/// The player's speed, in world units for each unit of time.
#[derive(Clone, Copy, Debug, PartialEq, Eq, Structural)]
pub struct Speed(pub i32);

impl Default for Speed {
    fn default() -> (s: Speed)
        ensures
            s.0 == 100,
    {
        Speed(100)
    }
}

/// The direction along one axis that two opposed keys ask for. The key that
/// is asked about first wins where both are down.
pub open spec fn axis_sign(first: bool, first_sign: int, second: bool) -> int {
    if first {
        first_sign
    } else if second {
        -first_sign
    } else {
        0
    }
}

/// The movement that is left of `movement` after a collision: the part that
/// leads into the side that was hit is taken away, the rest is kept.
pub open spec fn cut_back(collided: Collision, movement: Offset) -> Offset {
    match collided {
        Collision::Right => if movement.x < 0 {
            Offset { x: 0, y: movement.y }
        } else {
            movement
        },
        Collision::Left => if movement.x > 0 {
            Offset { x: 0, y: movement.y }
        } else {
            movement
        },
        Collision::Bottom => if movement.y > 0 {
            Offset { x: movement.x, y: 0 }
        } else {
            movement
        },
        Collision::Top => if movement.y < 0 {
            Offset { x: movement.x, y: 0 }
        } else {
            movement
        },
        Collision::Inside => movement,
    }
}

/// The movement that is left after a list of collisions, taken in order.
pub open spec fn cut_back_all(collisions: Seq<Collision>, movement: Offset) -> Offset
    decreases collisions.len(),
{
    if collisions.len() == 0 {
        movement
    } else {
        cut_back(collisions.last(), cut_back_all(collisions.drop_last(), movement))
    }
}

/// Works out the movement that the pressed keys ask for: left or right
/// along x, left first; up or down along y, up first; each at the given
/// speed for the time that has passed. The movement is not yet carried out.
pub fn take_input(
    player_movement: &mut PlayerMovement,
    speed: &Speed,
    left: bool,
    right: bool,
    up: bool,
    down: bool,
    elapsed: u32,
)
    ensures
        final(player_movement).player_movement.x == axis_sign(left, -1, right) * speed.0 * elapsed,
        final(player_movement).player_movement.y == axis_sign(up, 1, down) * speed.0 * elapsed,
        !final(player_movement).has_moved,
{
    let step = along(speed.0, elapsed);
    let x_movement: i64 = if left {
        -step
    } else if right {
        step
    } else {
        0
    };
    let y_movement: i64 = if up {
        step
    } else if down {
        -step
    } else {
        0
    };
    proof {
        lemma_signed_product(axis_sign(left, -1, right), speed.0 as int, elapsed as int);
        lemma_signed_product(axis_sign(up, 1, down), speed.0 as int, elapsed as int);
    }
    *player_movement = PlayerMovement {
        player_movement: Offset { x: x_movement, y: y_movement },
        has_moved: false,
    };
}

proof fn lemma_signed_product(sign: int, speed: int, elapsed: int)
    requires
        -1 <= sign <= 1,
    ensures
        sign * speed * elapsed == if sign == 1 {
            speed * elapsed
        } else if sign == 0 {
            0
        } else {
            -(speed * elapsed)
        },
{
    assert(1 * speed * elapsed == speed * elapsed) by (nonlinear_arith);
    assert(0 * speed * elapsed == 0) by (nonlinear_arith);
    assert((-1) * speed * elapsed == -(speed * elapsed)) by (nonlinear_arith);
}

fn along(speed: i32, elapsed: u32) -> (d: i64)
    ensures
        d == speed * elapsed,
        -0x8000_0000 * 0xFFFF_FFFF <= d <= 0x7FFF_FFFF * 0xFFFF_FFFF,
{
    assert(-0x8000_0000 * 0xFFFF_FFFF <= speed * elapsed <= 0x7FFF_FFFF * 0xFFFF_FFFF)
        by (nonlinear_arith)
        requires
            -0x8000_0000 <= speed <= 0x7FFF_FFFF,
            0 <= elapsed <= 0xFFFF_FFFF,
    ;
    (speed as i64) * (elapsed as i64)
}

/// Cuts the wished movement back after one collision.
pub fn deal_with_collision(collided: Collision, player_movement: &mut PlayerMovement)
    ensures
        final(player_movement).player_movement == cut_back(
            collided,
            old(player_movement).player_movement,
        ),
        final(player_movement).has_moved == old(player_movement).has_moved,
{
    match collided {
        Collision::Right => {
            if player_movement.player_movement.x < 0 {
                player_movement.player_movement.x = 0;
            }
        },
        Collision::Left => {
            if player_movement.player_movement.x > 0 {
                player_movement.player_movement.x = 0;
            }
        },
        Collision::Bottom => {
            if player_movement.player_movement.y > 0 {
                player_movement.player_movement.y = 0;
            }
        },
        Collision::Top => {
            if player_movement.player_movement.y < 0 {
                player_movement.player_movement.y = 0;
            }
        },
        _ => {},
    }
}

/// Cuts the wished movement back after each of the collisions that the
/// player's box would run into, in their order. A player without a box
/// collides with nothing, and its movement stays as it was wished.
pub fn check_for_collisions(
    player_collider: Option<&Collider>,
    collisions: &Vec<Collision>,
    player_movement: &mut PlayerMovement,
)
    ensures
        final(player_movement).player_movement == if player_collider is Some {
            cut_back_all(collisions@, old(player_movement).player_movement)
        } else {
            old(player_movement).player_movement
        },
        final(player_movement).has_moved == old(player_movement).has_moved,
{
    if player_collider.is_none() {
        return ;
    }
    let mut i: usize = 0;
    while i < collisions.len()
        invariant
            i <= collisions.len(),
            player_movement.player_movement == cut_back_all(
                collisions@.take(i as int),
                old(player_movement).player_movement,
            ),
            player_movement.has_moved == old(player_movement).has_moved,
        decreases collisions.len() - i,
    {
        deal_with_collision(collisions[i], player_movement);
        assert(collisions@.take(i + 1).drop_last() =~= collisions@.take(i as int));
        i += 1;
    }
    assert(collisions@.take(i as int) =~= collisions@);
}

/// Whether the player, moved by the wished movement, is at a point that can
/// be written as a position.
pub open spec fn movement_fits(player: Position, movement: Offset) -> bool {
    &&& i64::MIN <= player.x + movement.x <= i64::MAX
    &&& i64::MIN <= player.y + movement.y <= i64::MAX
}

/// Tells whether the wished movement can be carried out from where the
/// player stands.
pub fn can_move(player: &Position, player_movement: &PlayerMovement) -> (fits: bool)
    ensures
        fits == movement_fits(*player, player_movement.player_movement),
{
    player.x.checked_add(player_movement.player_movement.x).is_some() && player.y.checked_add(
        player_movement.player_movement.y,
    ).is_some()
}

/// Carries the wished movement out, once: a movement that has been carried
/// out leaves the player where it is.
pub fn move_player(player: &mut Position, player_movement: &mut PlayerMovement)
    requires
        !old(player_movement).has_moved ==> movement_fits(
            *old(player),
            old(player_movement).player_movement,
        ),
    ensures
        final(player_movement).has_moved,
        final(player_movement).player_movement == old(player_movement).player_movement,
        final(player).z == old(player).z,
        old(player_movement).has_moved ==> *final(player) == *old(player),
        !old(player_movement).has_moved ==> final(player).x == old(player).x + old(
            player_movement,
        ).player_movement.x && final(player).y == old(player).y + old(
            player_movement,
        ).player_movement.y,
{
    if !player_movement.has_moved {
        player.x = player.x + player_movement.player_movement.x;
        player.y = player.y + player_movement.player_movement.y;
        player_movement.has_moved = true;
    }
}

} // verus!
