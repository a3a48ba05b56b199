//! The spatial indices of a loaded level: blocked cells and level bounds,
//! goal cells, named entrances, key and lock locations, and the keys that the
//! player carries.

use vstd::prelude::*;
use crate::colors::LockKeyColor;
use crate::grid::GridCoords;
use crate::player_movement::Collider;
use crate::tables::{
    cell_table_contains, cell_table_contents, cell_table_insert, cell_table_new,
    cell_table_remove, color_set_contains, color_set_contents, color_set_insert, color_set_new,
    color_table_contents, color_table_get, color_table_insert, color_table_new,
    name_table_contents, name_table_get, name_table_insert, name_table_new, CellTable, ColorSet,
    ColorTable, NameTable,
};

verus! {

/// The cells that occur in a list.
pub open spec fn cells_of(cells: Seq<GridCoords>) -> Set<GridCoords> {
    cells.to_set()
}

/// The map that is left when the entries are written in their order, a later
/// entry replacing an earlier one of the same key.
pub open spec fn last_seen<K, V>(entries: Seq<(K, V)>) -> Map<K, V>
    decreases entries.len(),
{
    if entries.len() == 0 {
        Map::empty()
    } else {
        last_seen(entries.drop_last()).insert(entries.last().0, entries.last().1)
    }
}

/// The blocked cells of a level, and the level's width and height in cells.
pub struct Colliders {
    collider_locations: CellTable,
    level_width: u32,
    level_height: u32,
}

impl Colliders {
    /// The cells that obstacles and closed locks take up.
    pub closed spec fn blocked_cells(&self) -> Set<GridCoords> {
        Set::new(|c: GridCoords| cell_table_contents(self.collider_locations).contains(c.pair()))
    }

    /// The level's width, in cells.
    pub closed spec fn width(&self) -> int {
        self.level_width as int
    }

    /// The level's height, in cells.
    pub closed spec fn height(&self) -> int {
        self.level_height as int
    }

    /// Whether a cell lies inside the level.
    pub open spec fn in_bounds(&self, c: GridCoords) -> bool {
        0 <= c.x < self.width() && 0 <= c.y < self.height()
    }

    /// Whether the player is kept out of a cell: it lies outside the level,
    /// or it is one of the blocked cells.
    pub open spec fn is_blocked(&self, c: GridCoords) -> bool {
        !self.in_bounds(c) || self.blocked_cells().contains(c)
    }

    /// Makes the index of a level that is `width` by `height` cells and has
    /// no blocked cell.
    pub fn new(width: u32, height: u32) -> (colliders: Colliders)
        ensures
            colliders.blocked_cells() == Set::<GridCoords>::empty(),
            colliders.width() == width,
            colliders.height() == height,
    {
        let colliders = Colliders {
            collider_locations: cell_table_new(),
            level_width: width,
            level_height: height,
        };
        assert(colliders.blocked_cells() =~= Set::<GridCoords>::empty());
        colliders
    }

    /// Gives the level's width, in cells.
    pub fn level_width(&self) -> (w: u32)
        ensures
            w == self.width(),
    {
        self.level_width
    }

    /// Gives the level's height, in cells.
    pub fn level_height(&self) -> (h: u32)
        ensures
            h == self.height(),
    {
        self.level_height
    }

    /// Tells whether a cell is one of the blocked cells, whatever the bounds.
    pub fn contains(&self, cell: &GridCoords) -> (found: bool)
        ensures
            found == self.blocked_cells().contains(*cell),
    {
        cell_table_contains(&self.collider_locations, cell.to_pair())
    }

    /// Blocks a cell, and tells whether it was open before.
    pub fn insert(&mut self, cell: GridCoords) -> (fresh: bool)
        ensures
            final(self).blocked_cells() == old(self).blocked_cells().insert(cell),
            final(self).width() == old(self).width(),
            final(self).height() == old(self).height(),
            fresh == !old(self).blocked_cells().contains(cell),
    {
        let fresh = cell_table_insert(&mut self.collider_locations, cell.to_pair());
        proof {
            lemma_pair_is_one_to_one();
            assert(self.blocked_cells() =~= old(self).blocked_cells().insert(cell));
        }
        fresh
    }

    /// Opens a cell, and tells whether it was blocked before. Every other
    /// cell stays as it was.
    pub fn remove(&mut self, cell: &GridCoords) -> (found: bool)
        ensures
            final(self).blocked_cells() == old(self).blocked_cells().remove(*cell),
            final(self).width() == old(self).width(),
            final(self).height() == old(self).height(),
            found == old(self).blocked_cells().contains(*cell),
    {
        let found = cell_table_remove(&mut self.collider_locations, cell.to_pair());
        proof {
            lemma_pair_is_one_to_one();
            assert(self.blocked_cells() =~= old(self).blocked_cells().remove(*cell));
        }
        found
    }
}

impl Default for Colliders {
    /// The index before any level is loaded: no width, no height, no blocked
    /// cell, so that every cell lies out of bounds.
    fn default() -> (colliders: Colliders)
        ensures
            colliders.blocked_cells() == Set::<GridCoords>::empty(),
            colliders.width() == 0,
            colliders.height() == 0,
    {
        Colliders::new(0, 0)
    }
}

impl Collider for Colliders {
    open spec fn blocks(&self, cell: GridCoords) -> bool {
        self.is_blocked(cell)
    }

    /// Tells whether the player is kept out of a cell. The bounds are looked
    /// at first: a cell outside the level is blocked whatever the index holds.
    fn on_collider(&self, grid_coords: &GridCoords) -> (blocked: bool) {
        grid_coords.x < 0 || grid_coords.y < 0 || grid_coords.x as i64 >= self.level_width as i64
            || grid_coords.y as i64 >= self.level_height as i64 || cell_table_contains(
            &self.collider_locations,
            grid_coords.to_pair(),
        )
    }
}

/// The goal cells of a level: stepping onto one leads to another level.
pub struct NextLevels {
    locations: CellTable,
}

impl NextLevels {
    /// The goal cells.
    pub closed spec fn view(&self) -> Set<GridCoords> {
        Set::new(|c: GridCoords| cell_table_contents(self.locations).contains(c.pair()))
    }

    /// Makes an index without a goal cell.
    pub fn new() -> (goals: NextLevels)
        ensures
            goals@ == Set::<GridCoords>::empty(),
    {
        let goals = NextLevels { locations: cell_table_new() };
        assert(goals@ =~= Set::<GridCoords>::empty());
        goals
    }

    /// Marks a cell as a goal, and tells whether it was none before.
    pub fn insert(&mut self, cell: GridCoords) -> (fresh: bool)
        ensures
            final(self)@ == old(self)@.insert(cell),
            fresh == !old(self)@.contains(cell),
    {
        let fresh = cell_table_insert(&mut self.locations, cell.to_pair());
        proof {
            lemma_pair_is_one_to_one();
            assert(self@ =~= old(self)@.insert(cell));
        }
        fresh
    }

    /// Tells whether a cell is a goal.
    pub fn contains(&self, cell: &GridCoords) -> (found: bool)
        ensures
            found == self@.contains(*cell),
    {
        cell_table_contains(&self.locations, cell.to_pair())
    }
}

impl Default for NextLevels {
    fn default() -> (goals: NextLevels)
        ensures
            goals@ == Set::<GridCoords>::empty(),
    {
        NextLevels::new()
    }
}

/// The entrances of a level: the cell at which each named entrance lies.
pub struct Entrances {
    locations: NameTable,
}

impl Entrances {
    /// The cell of each entrance, by the characters of its name.
    pub closed spec fn view(&self) -> Map<Seq<char>, GridCoords> {
        Map::new(
            |name: Seq<char>| name_table_contents(self.locations).dom().contains(name),
            |name: Seq<char>|
                GridCoords {
                    x: name_table_contents(self.locations)[name].0,
                    y: name_table_contents(self.locations)[name].1,
                },
        )
    }

    /// Makes an index without an entrance.
    pub fn new() -> (entrances: Entrances)
        ensures
            entrances@ == Map::<Seq<char>, GridCoords>::empty(),
    {
        let entrances = Entrances { locations: name_table_new() };
        assert(entrances@ =~= Map::<Seq<char>, GridCoords>::empty());
        entrances
    }

    /// Files an entrance under its name, in place of any entrance that had
    /// the name before, and tells whether there was one.
    pub fn insert(&mut self, name: String, cell: GridCoords) -> (replaced: bool)
        ensures
            final(self)@ == old(self)@.insert(name@, cell),
            replaced == old(self)@.dom().contains(name@),
    {
        let ghost key = name@;
        let prev = name_table_insert(&mut self.locations, name, cell.to_pair());
        assert(self@ =~= old(self)@.insert(key, cell));
        prev.is_some()
    }

    /// Looks an entrance up by its name.
    pub fn get(&self, name: &str) -> (cell: Option<GridCoords>)
        ensures
            cell == if self@.dom().contains(name@) {
                Some(self@[name@])
            } else {
                None
            },
    {
        match name_table_get(&self.locations, name) {
            Some(pair) => Some(GridCoords::from_pair(pair)),
            None => None,
        }
    }
}

impl Default for Entrances {
    fn default() -> (entrances: Entrances)
        ensures
            entrances@ == Map::<Seq<char>, GridCoords>::empty(),
    {
        Entrances::new()
    }
}

/// The cell at which the key, or the lock, of each colour lies. A level that
/// holds several of one colour is known by the one that was seen last.
pub struct ColorLocations {
    color_location_pairing: ColorTable,
}

impl ColorLocations {
    /// The cell recorded for each colour.
    pub closed spec fn view(&self) -> Map<LockKeyColor, GridCoords> {
        Map::new(
            |color: LockKeyColor|
                color_table_contents(self.color_location_pairing).dom().contains(color.code()),
            |color: LockKeyColor|
                GridCoords {
                    x: color_table_contents(self.color_location_pairing)[color.code()].0,
                    y: color_table_contents(self.color_location_pairing)[color.code()].1,
                },
        )
    }

    /// Makes an index without a colour.
    pub fn new() -> (locations: ColorLocations)
        ensures
            locations@ == Map::<LockKeyColor, GridCoords>::empty(),
    {
        let locations = ColorLocations { color_location_pairing: color_table_new() };
        assert(locations@ =~= Map::<LockKeyColor, GridCoords>::empty());
        locations
    }

    /// Records the cell of a colour, in place of any cell recorded for it
    /// before, and tells whether there was one.
    pub fn insert(&mut self, color: LockKeyColor, cell: GridCoords) -> (replaced: bool)
        ensures
            final(self)@ == old(self)@.insert(color, cell),
            replaced == old(self)@.dom().contains(color),
    {
        let prev = color_table_insert(
            &mut self.color_location_pairing,
            color.to_code(),
            cell.to_pair(),
        );
        proof {
            lemma_code_is_one_to_one();
            assert(self@ =~= old(self)@.insert(color, cell));
        }
        prev.is_some()
    }

    /// Looks up the cell recorded for a colour.
    pub fn get(&self, color: LockKeyColor) -> (cell: Option<GridCoords>)
        ensures
            cell == if self@.dom().contains(color) {
                Some(self@[color])
            } else {
                None
            },
    {
        match color_table_get(&self.color_location_pairing, color.to_code()) {
            Some(pair) => Some(GridCoords::from_pair(pair)),
            None => None,
        }
    }
}

impl Default for ColorLocations {
    fn default() -> (locations: ColorLocations)
        ensures
            locations@ == Map::<LockKeyColor, GridCoords>::empty(),
    {
        ColorLocations::new()
    }
}

/// The colours of the keys that the player carries.
pub struct CarriedKeys {
    keys: ColorSet,
}

impl CarriedKeys {
    /// The colours carried.
    pub closed spec fn view(&self) -> Set<LockKeyColor> {
        Set::new(|color: LockKeyColor| color_set_contents(self.keys).contains(color.code()))
    }

    /// Makes the key ring of a player who carries nothing.
    pub fn new() -> (carried: CarriedKeys)
        ensures
            carried@ == Set::<LockKeyColor>::empty(),
    {
        let carried = CarriedKeys { keys: color_set_new() };
        assert(carried@ =~= Set::<LockKeyColor>::empty());
        carried
    }

    /// Adds a colour to the keys carried, and tells whether it is new.
    pub fn insert(&mut self, color: LockKeyColor) -> (fresh: bool)
        ensures
            final(self)@ == old(self)@.insert(color),
            fresh == !old(self)@.contains(color),
    {
        let fresh = color_set_insert(&mut self.keys, color.to_code());
        proof {
            lemma_code_is_one_to_one();
            assert(self@ =~= old(self)@.insert(color));
        }
        fresh
    }

    /// Tells whether a key of the colour is carried.
    pub fn contains(&self, color: &LockKeyColor) -> (found: bool)
        ensures
            found == self@.contains(*color),
    {
        color_set_contains(&self.keys, color.to_code())
    }
}

impl Default for CarriedKeys {
    fn default() -> (carried: CarriedKeys)
        ensures
            carried@ == Set::<LockKeyColor>::empty(),
    {
        CarriedKeys::new()
    }
}

/// Two colours filed under the same number are the same colour.
pub proof fn lemma_code_is_one_to_one()
    ensures
        forall|a: LockKeyColor, b: LockKeyColor| #[trigger] a.code() == #[trigger] b.code() ==> a == b,
{
}

/// Two cells with the same pair are the same cell.
pub proof fn lemma_pair_is_one_to_one()
    ensures
        forall|a: GridCoords, b: GridCoords| #[trigger] a.pair() == #[trigger] b.pair() ==> a == b,
{
}

/// A cell outside the level is blocked, whatever the blocked cells are.
pub proof fn lemma_bounds_dominate(colliders: Colliders, c: GridCoords)
    requires
        c.x < 0 || c.y < 0 || c.x >= colliders.width() || c.y >= colliders.height(),
    ensures
        colliders.is_blocked(c),
        colliders.blocks(c),
{
}

} // verus!
