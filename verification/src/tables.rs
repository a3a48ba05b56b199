//! The hashed sets and maps that the level indices are kept in.
//!
//! The tables are `bevy::utils::HashSet` and `bevy::utils::HashMap`, which
//! are the sets and maps of the `hashbrown` crate with a fixed hasher. Their
//! items are integers, pairs of integers and strings, which hash and compare
//! by value. Nothing in this file is proved: each function holds one call,
//! and states what hashbrown's documentation says of the method it calls,
//! over the contents that the `*_contents` functions name.

use vstd::prelude::*;
use bevy::utils::{HashMap, HashSet};

verus! {

/// A hashed set of grid cells, each written as its `(x, y)` pair: a
/// `bevy::utils::HashSet`, which Verus takes on trust.
#[verifier::external_body]
pub struct CellTable {
    cells: HashSet<(i32, i32)>,
}

/// The cells that a table holds.
pub uninterp spec fn cell_table_contents(t: CellTable) -> Set<(i32, i32)>;

/// Calls hashbrown's `HashSet::new`: the new table holds nothing.
#[verifier::external_body]
pub(crate) fn cell_table_new() -> (t: CellTable)
    ensures
        cell_table_contents(t) == Set::<(i32, i32)>::empty(),
{
    CellTable { cells: HashSet::new() }
}

/// Calls hashbrown's `HashSet::insert`: the cell joins what the table held, and the
/// result tells whether it was absent before.
#[verifier::external_body]
pub(crate) fn cell_table_insert(t: &mut CellTable, cell: (i32, i32)) -> (fresh: bool)
    ensures
        cell_table_contents(*final(t)) == cell_table_contents(*old(t)).insert(cell),
        fresh == !cell_table_contents(*old(t)).contains(cell),
{
    t.cells.insert(cell)
}

/// Calls hashbrown's `HashSet::contains`: whether the table holds the cell.
#[verifier::external_body]
pub(crate) fn cell_table_contains(t: &CellTable, cell: (i32, i32)) -> (found: bool)
    ensures
        found == cell_table_contents(*t).contains(cell),
{
    t.cells.contains(&cell)
}

/// Calls hashbrown's `HashSet::remove`: the cell leaves the table, every other cell
/// stays, and the result tells whether it was present before.
#[verifier::external_body]
pub(crate) fn cell_table_remove(t: &mut CellTable, cell: (i32, i32)) -> (found: bool)
    ensures
        cell_table_contents(*final(t)) == cell_table_contents(*old(t)).remove(cell),
        found == cell_table_contents(*old(t)).contains(cell),
{
    t.cells.remove(&cell)
}

/// A hashed map from a name to a grid cell: a `bevy::utils::HashMap`, which
/// Verus takes on trust.
#[verifier::external_body]
pub struct NameTable {
    cells: HashMap<String, (i32, i32)>,
}

/// The entries that a table holds, each name as its characters.
pub uninterp spec fn name_table_contents(t: NameTable) -> Map<Seq<char>, (i32, i32)>;

/// Calls hashbrown's `HashMap::new`: the new table holds nothing.
#[verifier::external_body]
pub(crate) fn name_table_new() -> (t: NameTable)
    ensures
        name_table_contents(t).dom() == Set::<Seq<char>>::empty(),
{
    NameTable { cells: HashMap::new() }
}

/// Calls hashbrown's `HashMap::insert`: the name now leads to the cell, every other
/// entry stays, and the result is the cell that the name led to before.
#[verifier::external_body]
pub(crate) fn name_table_insert(t: &mut NameTable, name: String, cell: (i32, i32)) -> (prev: Option<
    (i32, i32),
>)
    ensures
        name_table_contents(*final(t)) == name_table_contents(*old(t)).insert(name@, cell),
        prev == if name_table_contents(*old(t)).dom().contains(name@) {
            Some(name_table_contents(*old(t))[name@])
        } else {
            None
        },
{
    t.cells.insert(name, cell)
}

/// Calls hashbrown's `HashMap::get`: the cell that the name leads to, if the table has
/// the name.
#[verifier::external_body]
pub(crate) fn name_table_get(t: &NameTable, name: &str) -> (cell: Option<(i32, i32)>)
    ensures
        cell == if name_table_contents(*t).dom().contains(name@) {
            Some(name_table_contents(*t)[name@])
        } else {
            None
        },
{
    t.cells.get(name).copied()
}

/// A hashed map from a colour's number to a grid cell: a
/// `bevy::utils::HashMap`, which Verus takes on trust.
#[verifier::external_body]
pub struct ColorTable {
    cells: HashMap<u8, (i32, i32)>,
}

/// The entries that a table holds.
pub uninterp spec fn color_table_contents(t: ColorTable) -> Map<u8, (i32, i32)>;

/// Calls hashbrown's `HashMap::new`: the new table holds nothing.
#[verifier::external_body]
pub(crate) fn color_table_new() -> (t: ColorTable)
    ensures
        color_table_contents(t).dom() == Set::<u8>::empty(),
{
    ColorTable { cells: HashMap::new() }
}

/// Calls hashbrown's `HashMap::insert`: the number now leads to the cell, every other
/// entry stays, and the result is the cell that the number led to before.
#[verifier::external_body]
pub(crate) fn color_table_insert(t: &mut ColorTable, color: u8, cell: (i32, i32)) -> (prev: Option<
    (i32, i32),
>)
    ensures
        color_table_contents(*final(t)) == color_table_contents(*old(t)).insert(color, cell),
        prev == if color_table_contents(*old(t)).dom().contains(color) {
            Some(color_table_contents(*old(t))[color])
        } else {
            None
        },
{
    t.cells.insert(color, cell)
}

/// Calls hashbrown's `HashMap::get`: the cell that the number leads to, if the table has
/// the number.
#[verifier::external_body]
pub(crate) fn color_table_get(t: &ColorTable, color: u8) -> (cell: Option<(i32, i32)>)
    ensures
        cell == if color_table_contents(*t).dom().contains(color) {
            Some(color_table_contents(*t)[color])
        } else {
            None
        },
{
    t.cells.get(&color).copied()
}

/// A hashed set of colour numbers: a `bevy::utils::HashSet`, which Verus
/// takes on trust.
#[verifier::external_body]
pub struct ColorSet {
    colors: HashSet<u8>,
}

/// The numbers that a set holds.
pub uninterp spec fn color_set_contents(s: ColorSet) -> Set<u8>;

/// Calls hashbrown's `HashSet::new`: the new set holds nothing.
#[verifier::external_body]
pub(crate) fn color_set_new() -> (s: ColorSet)
    ensures
        color_set_contents(s) == Set::<u8>::empty(),
{
    ColorSet { colors: HashSet::new() }
}

/// Calls hashbrown's `HashSet::insert`: the number joins what the set held, and the
/// result tells whether it was absent before.
#[verifier::external_body]
pub(crate) fn color_set_insert(s: &mut ColorSet, color: u8) -> (fresh: bool)
    ensures
        color_set_contents(*final(s)) == color_set_contents(*old(s)).insert(color),
        fresh == !color_set_contents(*old(s)).contains(color),
{
    s.colors.insert(color)
}

/// Calls hashbrown's `HashSet::contains`: whether the set holds the number.
#[verifier::external_body]
pub(crate) fn color_set_contains(s: &ColorSet, color: u8) -> (found: bool)
    ensures
        found == color_set_contents(*s).contains(color),
{
    s.colors.contains(&color)
}

} // verus!
