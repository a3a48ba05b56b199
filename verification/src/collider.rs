//! Box colliders: rectangles given by their centre and their size, and the
//! test whether two of them overlap.

use vstd::prelude::*;

verus! {

/// The shape of a collider.
#[derive(Clone, Copy, Debug, PartialEq, Eq, Structural)]
pub enum ColliderType {
    Rectangle,
}

/// A collider of some shape.
#[derive(Clone, Copy, Debug, PartialEq, Eq, Structural)]
pub struct Collider {
    pub collider_type: ColliderType,
}

impl Default for Collider {
    fn default() -> (c: Collider)
        ensures
            c.collider_type == ColliderType::Rectangle,
    {
        Collider { collider_type: ColliderType::Rectangle }
    }
}

/// The width and the height of a box, in world units.
#[derive(Clone, Copy, Debug, PartialEq, Eq, Structural)]
pub struct ColliderSize {
    pub width: i64,
    pub height: i64,
}

impl Default for ColliderSize {
    fn default() -> (s: ColliderSize)
        ensures
            s.width == 1,
            s.height == 1,
    {
        ColliderSize { width: 1, height: 1 }
    }
}

/// The centre of a box, in world units.
#[derive(Clone, Copy, Debug, PartialEq, Eq, Structural)]
pub struct ColliderPosition {
    pub x: i64,
    pub y: i64,
}

impl Default for ColliderPosition {
    fn default() -> (p: ColliderPosition)
        ensures
            p.x == 0,
            p.y == 0,
    {
        ColliderPosition { x: 0, y: 0 }
    }
}

/// A box collider: a shape, a size and a centre.
#[derive(Clone, Copy, Debug, PartialEq, Eq, Structural)]
pub struct ColliderBundle {
    pub collider: Collider,
    pub collider_size: ColliderSize,
    pub collider_position: ColliderPosition,
}

impl ColliderBundle {
    /// Twice the coordinate of the box's left edge. The edges lie half a
    /// size from the centre; doubled, they are whole numbers.
    pub open spec fn left2(&self) -> int {
        2 * self.collider_position.x - self.collider_size.width
    }

    /// Twice the coordinate of the box's right edge.
    pub open spec fn right2(&self) -> int {
        2 * self.collider_position.x + self.collider_size.width
    }

    /// Twice the coordinate of the box's top edge.
    pub open spec fn top2(&self) -> int {
        2 * self.collider_position.y + self.collider_size.height
    }

    /// Twice the coordinate of the box's bottom edge.
    pub open spec fn bottom2(&self) -> int {
        2 * self.collider_position.y - self.collider_size.height
    }

    /// Whether the two boxes overlap: each reaches strictly past the facing
    /// edge of the other, on both axes. Boxes whose edges only touch do not
    /// overlap.
    pub open spec fn overlaps(&self, other: &ColliderBundle) -> bool {
        &&& self.left2() < other.right2()
        &&& self.right2() > other.left2()
        &&& self.top2() > other.bottom2()
        &&& self.bottom2() < other.top2()
    }

    /// Tells whether this box and another overlap.
    pub fn is_collide(&self, other: &ColliderBundle) -> (hit: bool)
        ensures
            hit == self.overlaps(other),
    {
        let self_x: i128 = self.collider_position.x as i128;
        let self_y: i128 = self.collider_position.y as i128;
        let self_width: i128 = self.collider_size.width as i128;
        let self_height: i128 = self.collider_size.height as i128;

        let other_x: i128 = other.collider_position.x as i128;
        let other_y: i128 = other.collider_position.y as i128;
        let other_width: i128 = other.collider_size.width as i128;
        let other_height: i128 = other.collider_size.height as i128;

        let self_left: i128 = 2 * self_x - self_width;
        let self_right: i128 = 2 * self_x + self_width;
        let self_top: i128 = 2 * self_y + self_height;
        let self_bottom: i128 = 2 * self_y - self_height;

        let other_left: i128 = 2 * other_x - other_width;
        let other_right: i128 = 2 * other_x + other_width;
        let other_top: i128 = 2 * other_y + other_height;
        let other_bottom: i128 = 2 * other_y - other_height;

        self_left < other_right && self_right > other_left && self_top > other_bottom
            && self_bottom < other_top
    }
}

/// Overlap does not depend on which of the two boxes is asked.
pub proof fn lemma_overlap_is_mutual(a: ColliderBundle, b: ColliderBundle)
    ensures
        a.overlaps(&b) == b.overlaps(&a),
{
}

} // verus!
