//! The rules that run on a level-loaded event and on every step: the indices
//! are rebuilt, keys are picked up, locks are opened, goals are noticed, and
//! the player is set down at an entrance.

use vstd::prelude::*;
use crate::colors::LockKeyColor;
use crate::entities::{ColorEntity, EntranceEntity, GoalEntity};
use crate::grid::{centre_of, chebyshev, grid_distance, to_translation, GridCoords, Position};
use crate::indices::{
    cells_of, last_seen, CarriedKeys, Colliders, ColorLocations, Entrances, NextLevels,
};

verus! {

/// How far, in cells, the player reaches for a key.
pub const PICKUP_REACH: u32 = 1;

/// How far, in cells, the player reaches for a lock.
pub const UNLOCK_REACH: u32 = 3;

/// The size of a level as the level data declares it, in the world units
/// that positions and the cell size are in.
#[derive(Clone, Copy, Debug, PartialEq, Eq, Structural)]
pub struct LevelSize {
    pub px_wid: u32,
    pub px_hei: u32,
}

/// The step or the load that was asked for needs a loaded level, and there
/// is none.
#[derive(Clone, Copy, Debug, PartialEq, Eq, Structural)]
pub struct LevelNotLoaded;

/// The cells of a list of keys or locks.
pub open spec fn entity_cells(entities: Seq<ColorEntity>) -> Seq<GridCoords> {
    entities.map_values(|e: ColorEntity| e.cell)
}

/// The colour and the cell of each key or lock of a list.
pub open spec fn color_cells(entities: Seq<ColorEntity>) -> Seq<(LockKeyColor, GridCoords)> {
    entities.map_values(|e: ColorEntity| (e.color, e.cell))
}

/// The cells of a list of goals.
pub open spec fn goal_cells(goals: Seq<GoalEntity>) -> Seq<GridCoords> {
    goals.map_values(|g: GoalEntity| g.cell)
}

/// The name and the cell of each entrance of a list.
pub open spec fn named_cells(entrances: Seq<EntranceEntity>) -> Seq<(Seq<char>, GridCoords)> {
    entrances.map_values(|e: EntranceEntity| (e.entrance.name@, e.cell))
}

/// Whether two entrances of a list share a name.
pub open spec fn shares_a_name(entrances: Seq<EntranceEntity>) -> bool {
    exists|i: int, j: int|
        0 <= i < j < entrances.len() && #[trigger] entrances[i].entrance.name@
            == #[trigger] entrances[j].entrance.name@
}

/// Rebuilds the key and the lock locations from the keys and locks of a
/// level. Of several keys, or locks, of one colour the last one is kept.
pub fn cache_locks_and_keys(key_query: &Vec<ColorEntity>, lock_query: &Vec<ColorEntity>) -> (out: (
    ColorLocations,
    ColorLocations,
))
    ensures
        out.0@ == last_seen(color_cells(key_query@)),
        out.1@ == last_seen(color_cells(lock_query@)),
{
    (color_locations_of(key_query), color_locations_of(lock_query))
}

fn color_locations_of(query: &Vec<ColorEntity>) -> (locations: ColorLocations)
    ensures
        locations@ == last_seen(color_cells(query@)),
{
    let mut color_location_pairing = ColorLocations::new();
    let mut i: usize = 0;
    while i < query.len()
        invariant
            i <= query.len(),
            color_location_pairing@ == last_seen(color_cells(query@).take(i as int)),
        decreases query.len() - i,
    {
        let e = query[i];
        color_location_pairing.insert(e.color, e.cell);
        proof {
            let all = color_cells(query@);
            assert(all.take(i + 1).drop_last() =~= all.take(i as int));
        }
        i += 1;
    }
    assert(color_cells(query@).take(i as int) =~= color_cells(query@));
    color_location_pairing
}

/// Rebuilds the blocked cells and the bounds of a level. The blocked cells
/// are those of the unwalkable tiles and those of the locks, and no other;
/// the width and the height are the level's pixel size divided by the cell
/// size. Without the level's size, which is there once the level's data is
/// loaded, nothing is built.
pub fn cache_collider_location(
    level: Option<LevelSize>,
    unwalkables: &Vec<GridCoords>,
    locks: &Vec<ColorEntity>,
    cell_size: u32,
) -> (colliders: Result<Colliders, LevelNotLoaded>)
    requires
        cell_size > 0,
    ensures
        level is None <==> colliders is Err,
        colliders matches Ok(c) ==> {
            &&& c.blocked_cells() == cells_of(unwalkables@).union(cells_of(entity_cells(locks@)))
            &&& c.width() == level->Some_0.px_wid / cell_size
            &&& c.height() == level->Some_0.px_hei / cell_size
        },
{
    let size = match level {
        Some(size) => size,
        None => {
            return Err(LevelNotLoaded);
        },
    };
    let mut collider_locations = Colliders::new(size.px_wid / cell_size, size.px_hei / cell_size);
    let mut i: usize = 0;
    while i < unwalkables.len()
        invariant
            i <= unwalkables.len(),
            collider_locations.blocked_cells() == cells_of(unwalkables@.take(i as int)),
            collider_locations.width() == size.px_wid / cell_size,
            collider_locations.height() == size.px_hei / cell_size,
        decreases unwalkables.len() - i,
    {
        collider_locations.insert(unwalkables[i]);
        proof {
            let upto = unwalkables@.take(i as int);
            assert(unwalkables@.take(i + 1) =~= upto.push(unwalkables@[i as int]));
            upto.lemma_push_to_set_commute(unwalkables@[i as int]);
        }
        i += 1;
    }
    assert(unwalkables@.take(i as int) =~= unwalkables@);
    let mut j: usize = 0;
    while j < locks.len()
        invariant
            j <= locks.len(),
            collider_locations.blocked_cells() == cells_of(unwalkables@).union(
                cells_of(entity_cells(locks@).take(j as int)),
            ),
            collider_locations.width() == size.px_wid / cell_size,
            collider_locations.height() == size.px_hei / cell_size,
        decreases locks.len() - j,
    {
        collider_locations.insert(locks[j].cell);
        proof {
            let cells = entity_cells(locks@);
            let upto = cells.take(j as int);
            assert(cells.take(j + 1) =~= upto.push(cells[j as int]));
            upto.lemma_push_to_set_commute(cells[j as int]);
            assert(collider_locations.blocked_cells() =~= cells_of(unwalkables@).union(
                cells_of(cells.take(j + 1)),
            ));
        }
        j += 1;
    }
    assert(entity_cells(locks@).take(j as int) =~= entity_cells(locks@));
    Ok(collider_locations)
}

/// Rebuilds the goal cells of a level: the cells of its goals, and no other.
pub fn cache_goal_location(next_level_query: &Vec<GoalEntity>) -> (goals: NextLevels)
    ensures
        goals@ == cells_of(goal_cells(next_level_query@)),
{
    let mut locations = NextLevels::new();
    let mut i: usize = 0;
    while i < next_level_query.len()
        invariant
            i <= next_level_query.len(),
            locations@ == cells_of(goal_cells(next_level_query@).take(i as int)),
        decreases next_level_query.len() - i,
    {
        locations.insert(next_level_query[i].cell);
        proof {
            let cells = goal_cells(next_level_query@);
            let upto = cells.take(i as int);
            assert(cells.take(i + 1) =~= upto.push(cells[i as int]));
            upto.lemma_push_to_set_commute(cells[i as int]);
        }
        i += 1;
    }
    assert(goal_cells(next_level_query@).take(i as int) =~= goal_cells(next_level_query@));
    locations
}

/// Rebuilds the entrances of a level, each under its name. Of several
/// entrances of one name the last one is kept; the second result tells
/// whether that happened, for the driver to report.
pub fn cache_entrance_location(entrance_query: &Vec<EntranceEntity>) -> (out: (Entrances, bool))
    ensures
        out.0@ == last_seen(named_cells(entrance_query@)),
        out.1 == shares_a_name(entrance_query@),
{
    let mut locations = Entrances::new();
    let mut shared = false;
    let mut i: usize = 0;
    while i < entrance_query.len()
        invariant
            i <= entrance_query.len(),
            locations@ == last_seen(named_cells(entrance_query@).take(i as int)),
            shared == shares_a_name(entrance_query@.take(i as int)),
        decreases entrance_query.len() - i,
    {
        let entr = &entrance_query[i];
        proof {
            lemma_last_seen_domain(named_cells(entrance_query@).take(i as int));
        }
        let replaced = locations.insert(entr.entrance.name.clone(), entr.cell);
        proof {
            let all = named_cells(entrance_query@);
            assert(all.take(i + 1).drop_last() =~= all.take(i as int));
            let before = entrance_query@.take(i as int);
            let now = entrance_query@.take(i + 1);
            if replaced {
                let k = choose|k: int|
                    0 <= k < i && (#[trigger] all.take(i as int)[k]).0 == entr.entrance.name@;
                assert(now[k].entrance.name@ == now[i as int].entrance.name@);
            }
            if shares_a_name(before) {
                let (a, b) = choose|a: int, b: int|
                    0 <= a < b < before.len() && #[trigger] before[a].entrance.name@
                        == #[trigger] before[b].entrance.name@;
                assert(now[a].entrance.name@ == now[b].entrance.name@);
            }
            if shares_a_name(now) && !replaced {
                let (a, b) = choose|a: int, b: int|
                    0 <= a < b < now.len() && #[trigger] now[a].entrance.name@
                        == #[trigger] now[b].entrance.name@;
                if b < i {
                    assert(before[a].entrance.name@ == before[b].entrance.name@);
                } else {
                    assert(all.take(i as int)[a].0 == entr.entrance.name@);
                }
            }
        }
        shared = shared || replaced;
        i += 1;
    }
    assert(named_cells(entrance_query@).take(i as int) =~= named_cells(entrance_query@));
    assert(entrance_query@.take(i as int) =~= entrance_query@);
    (locations, shared)
}

/// The test that a key lies within the player's reach.
pub open spec fn key_in_reach(player: GridCoords) -> spec_fn(ColorEntity) -> bool {
    |e: ColorEntity| grid_distance(player, e.cell) <= PICKUP_REACH
}

/// The test that a lock opens: it lies within the player's reach, and a key
/// of its colour is carried.
pub open spec fn lock_opens(player: GridCoords, carried: Set<LockKeyColor>) -> spec_fn(
    ColorEntity,
) -> bool {
    |e: ColorEntity| grid_distance(player, e.cell) <= UNLOCK_REACH && carried.contains(e.color)
}

/// The engine's handles of a list of keys or locks, in the list's order.
pub open spec fn handles(entities: Seq<ColorEntity>) -> Seq<u64> {
    entities.map_values(|e: ColorEntity| e.entity)
}

/// The colours that occur in a list of keys or locks.
pub open spec fn colors_of(entities: Seq<ColorEntity>) -> Set<LockKeyColor> {
    entities.map_values(|e: ColorEntity| e.color).to_set()
}

/// The keys of a list that lie within the player's reach.
pub open spec fn keys_near(player: GridCoords, keys: Seq<ColorEntity>) -> Seq<ColorEntity> {
    keys.filter(key_in_reach(player))
}

/// The keys carried once the keys within reach are picked up.
pub open spec fn carried_after(
    carried: Set<LockKeyColor>,
    player: GridCoords,
    keys: Seq<ColorEntity>,
) -> Set<LockKeyColor> {
    carried.union(colors_of(keys_near(player, keys)))
}

/// The locks of a list that open.
pub open spec fn locks_opened(
    player: GridCoords,
    carried: Set<LockKeyColor>,
    locks: Seq<ColorEntity>,
) -> Seq<ColorEntity> {
    locks.filter(lock_opens(player, carried))
}

/// The locks of a list that stay closed.
pub open spec fn locks_left(
    player: GridCoords,
    carried: Set<LockKeyColor>,
    locks: Seq<ColorEntity>,
) -> Seq<ColorEntity> {
    locks.filter(|e: ColorEntity| !lock_opens(player, carried)(e))
}

/// The blocked cells once the locks that open are opened.
pub open spec fn blocked_after(
    blocked: Set<GridCoords>,
    player: GridCoords,
    carried: Set<LockKeyColor>,
    locks: Seq<ColorEntity>,
) -> Set<GridCoords> {
    blocked.difference(cells_of(entity_cells(locks_opened(player, carried, locks))))
}

/// Whether a goal is the one that the player has stepped onto: it lies at
/// the player's cell, and no later goal of the list does.
pub open spec fn is_goal_hit(goals: Seq<GoalEntity>, player: GridCoords, k: int) -> bool {
    &&& 0 <= k < goals.len()
    &&& goals[k].cell == player
    &&& forall|j: int| k < j < goals.len() ==> (#[trigger] goals[j]).cell != player
}

/// Looks for a goal at the player's cell. The result is the place in the
/// list of the goal that was stepped onto; of several at one cell, the last.
pub fn check_for_goals(player: GridCoords, goals: &Vec<GoalEntity>) -> (hit: Option<usize>)
    ensures
        hit is None <==> forall|i: int| 0 <= i < goals.len() ==> (#[trigger] goals[i]).cell != player,
        hit matches Some(k) ==> is_goal_hit(goals@, player, k as int),
{
    let mut hit: Option<usize> = None;
    let mut i: usize = 0;
    while i < goals.len()
        invariant
            i <= goals.len(),
            hit is None <==> forall|j: int| 0 <= j < i ==> (#[trigger] goals[j]).cell != player,
            hit matches Some(k) ==> k < i && goals[k as int].cell == player && forall|j: int|
                k < j < i ==> (#[trigger] goals[j]).cell != player,
        decreases goals.len() - i,
    {
        let goal = &goals[i];
        if goal.cell.x == player.x && goal.cell.y == player.y {
            hit = Some(i);
        }
        i += 1;
    }
    hit
}

/// Sets the player down at the centre of the entrance that it came for, at
/// the depth it had. Where the level has no entrance of that name, the
/// player stays where it is and the result is `false`, for the driver to
/// report.
pub fn move_player_to_entrance(
    entrances: &Entrances,
    came_from: &str,
    tf: &mut Position,
    cell_size: u32,
) -> (found: bool)
    ensures
        found == entrances@.dom().contains(came_from@),
        found ==> *final(tf) == centre_of(entrances@[came_from@], cell_size, old(tf).z),
        !found ==> *final(tf) == *old(tf),
{
    match entrances.get(came_from) {
        Some(gc) => {
            *tf = to_translation(gc, cell_size, tf.z);
            true
        },
        None => false,
    }
}

/// Picks up every key within one cell of the player, in any direction. The
/// colours of those keys join the keys carried, and none leaves; the result
/// lists the keys picked up, for the driver to take out of the world.
pub fn pickup_key(
    carried_keys: &mut CarriedKeys,
    player: GridCoords,
    keys: &Vec<ColorEntity>,
) -> (picked: Vec<u64>)
    ensures
        picked@ == handles(keys_near(player, keys@)),
        final(carried_keys)@ == carried_after(old(carried_keys)@, player, keys@),
{
    let mut picked: Vec<u64> = Vec::new();
    let mut i: usize = 0;
    assert(keys@.take(0).filter(key_in_reach(player)) =~= Seq::<ColorEntity>::empty()) by {
        reveal(Seq::filter);
    }
    assert(carried_keys@ =~= old(carried_keys)@.union(colors_of(Seq::<ColorEntity>::empty())));
    while i < keys.len()
        invariant
            i <= keys.len(),
            picked@ == handles(keys@.take(i as int).filter(key_in_reach(player))),
            carried_keys@ == old(carried_keys)@.union(
                colors_of(keys@.take(i as int).filter(key_in_reach(player))),
            ),
        decreases keys.len() - i,
    {
        let key = keys[i];
        let ghost upto = keys@.take(i as int);
        let ghost near = upto.filter(key_in_reach(player));
        proof {
            assert(keys@.take(i + 1) =~= upto.push(key));
            upto.lemma_filter_push(key, key_in_reach(player));
        }
        if chebyshev(player, key.cell) <= PICKUP_REACH {
            carried_keys.insert(key.color);
            picked.push(key.entity);
            proof {
                assert(handles(near.push(key)) =~= handles(near).push(key.entity));
                let colors = near.map_values(|e: ColorEntity| e.color);
                assert(near.push(key).map_values(|e: ColorEntity| e.color) =~= colors.push(
                    key.color,
                ));
                colors.lemma_push_to_set_commute(key.color);
                assert(carried_keys@ =~= old(carried_keys)@.union(colors_of(near.push(key))));
            }
        }
        i += 1;
    }
    assert(keys@.take(i as int) =~= keys@);
    picked
}

/// Opens every lock that lies within three cells of the player, in any
/// direction, and whose colour is among the keys carried. The cell of each
/// such lock is taken out of the blocked cells and every other cell stays;
/// the keys stay with the player. The result lists the locks opened, for the
/// driver to take out of the world.
pub fn is_near_lock(
    carried_keys: &CarriedKeys,
    player: GridCoords,
    locks: &Vec<ColorEntity>,
    level_colliders: &mut Colliders,
) -> (opened: Vec<u64>)
    ensures
        opened@ == handles(locks_opened(player, carried_keys@, locks@)),
        final(level_colliders).blocked_cells() == blocked_after(
            old(level_colliders).blocked_cells(),
            player,
            carried_keys@,
            locks@,
        ),
        final(level_colliders).width() == old(level_colliders).width(),
        final(level_colliders).height() == old(level_colliders).height(),
{
    let mut opened: Vec<u64> = Vec::new();
    let mut i: usize = 0;
    let ghost opens = lock_opens(player, carried_keys@);
    assert(locks@.take(0).filter(opens) =~= Seq::<ColorEntity>::empty()) by {
        reveal(Seq::filter);
    }
    assert(level_colliders.blocked_cells() =~= old(level_colliders).blocked_cells().difference(
        cells_of(entity_cells(Seq::<ColorEntity>::empty())),
    ));
    while i < locks.len()
        invariant
            i <= locks.len(),
            opens == lock_opens(player, carried_keys@),
            opened@ == handles(locks@.take(i as int).filter(opens)),
            level_colliders.blocked_cells() == old(level_colliders).blocked_cells().difference(
                cells_of(entity_cells(locks@.take(i as int).filter(opens))),
            ),
            level_colliders.width() == old(level_colliders).width(),
            level_colliders.height() == old(level_colliders).height(),
        decreases locks.len() - i,
    {
        let lock = locks[i];
        let ghost upto = locks@.take(i as int);
        let ghost open = upto.filter(opens);
        proof {
            assert(locks@.take(i + 1) =~= upto.push(lock));
            upto.lemma_filter_push(lock, opens);
        }
        if chebyshev(player, lock.cell) <= UNLOCK_REACH {
            if carried_keys.contains(&lock.color) {
                level_colliders.remove(&lock.cell);
                opened.push(lock.entity);
                proof {
                    assert(handles(open.push(lock)) =~= handles(open).push(lock.entity));
                    assert(entity_cells(open.push(lock)) =~= entity_cells(open).push(lock.cell));
                    entity_cells(open).lemma_push_to_set_commute(lock.cell);
                    assert(level_colliders.blocked_cells() =~= old(
                        level_colliders,
                    ).blocked_cells().difference(cells_of(entity_cells(open.push(lock)))));
                }
            }
        }
        i += 1;
    }
    assert(locks@.take(i as int) =~= locks@);
    opened
}

/// Picking up only adds to the keys carried, and a colour is carried
/// afterwards just when it was carried before or a key of that colour lies
/// within one cell of the player. Every key within one cell is picked up,
/// and no key further off.
pub proof fn lemma_pickup_gains(
    carried: Set<LockKeyColor>,
    player: GridCoords,
    keys: Seq<ColorEntity>,
)
    ensures
        carried.subset_of(carried_after(carried, player, keys)),
        forall|c: LockKeyColor|
            carried_after(carried, player, keys).contains(c) <==> carried.contains(c) || exists|
                i: int,
            |
                0 <= i < keys.len() && (#[trigger] keys[i]).color == c && grid_distance(
                    player,
                    keys[i].cell,
                ) <= 1,
        forall|i: int|
            0 <= i < keys.len() ==> (keys_near(player, keys).contains(#[trigger] keys[i])
                <==> grid_distance(player, keys[i].cell) <= 1),
{
    let near = keys_near(player, keys);
    let pred = key_in_reach(player);
    let colors = near.map_values(|e: ColorEntity| e.color);
    assert forall|i: int| 0 <= i < keys.len() implies (near.contains(#[trigger] keys[i])
        <==> grid_distance(player, keys[i].cell) <= 1) by {
        if pred(keys[i]) {
            keys.lemma_filter_contains(pred, i);
        }
        if near.contains(keys[i]) {
            let j = choose|j: int| 0 <= j < near.len() && near[j] == keys[i];
            keys.lemma_filter_pred(pred, j);
        }
    }
    assert forall|c: LockKeyColor|
        carried_after(carried, player, keys).contains(c) <==> carried.contains(c) || exists|
            i: int,
        |
            0 <= i < keys.len() && (#[trigger] keys[i]).color == c && grid_distance(
                player,
                keys[i].cell,
            ) <= 1 by {
        if colors.to_set().contains(c) {
            let j = choose|j: int| 0 <= j < colors.len() && colors[j] == c;
            keys.lemma_filter_pred(pred, j);
            assert(near.contains(near[j]));
            keys.lemma_filter_contains_rev(pred, near[j]);
            let i = choose|i: int| 0 <= i < keys.len() && keys[i] == near[j];
            assert(keys[i].color == c && grid_distance(player, keys[i].cell) <= 1);
        }
        if exists|i: int|
            0 <= i < keys.len() && (#[trigger] keys[i]).color == c && grid_distance(
                player,
                keys[i].cell,
            ) <= 1 {
            let i = choose|i: int|
                0 <= i < keys.len() && (#[trigger] keys[i]).color == c && grid_distance(
                    player,
                    keys[i].cell,
                ) <= 1;
            keys.lemma_filter_contains(pred, i);
            let j = choose|j: int| 0 <= j < near.len() && near[j] == keys[i];
            assert(colors[j] == c);
            assert(colors.to_set().contains(c));
        }
    }
}

/// A key one cell away is picked up, and a key two cells away is not.
pub proof fn lemma_pickup_at_distance(
    carried: Set<LockKeyColor>,
    player: GridCoords,
    key: ColorEntity,
)
    ensures
        grid_distance(player, key.cell) == 1 ==> {
            &&& carried_after(carried, player, seq![key]) == carried.insert(key.color)
            &&& handles(keys_near(player, seq![key])) == seq![key.entity]
        },
        grid_distance(player, key.cell) == 2 ==> {
            &&& carried_after(carried, player, seq![key]) == carried
            &&& handles(keys_near(player, seq![key])) == Seq::<u64>::empty()
        },
{
    let keys = seq![key];
    let pred = key_in_reach(player);
    assert(keys =~= Seq::<ColorEntity>::empty().push(key));
    assert(Seq::<ColorEntity>::empty().filter(pred) =~= Seq::<ColorEntity>::empty()) by {
        reveal(Seq::filter);
    }
    Seq::<ColorEntity>::empty().lemma_filter_push(key, pred);
    let near = keys_near(player, keys);
    if pred(key) {
        assert(near =~= seq![key]);
        let colors = near.map_values(|e: ColorEntity| e.color);
        assert(colors =~= seq![key.color]);
        assert(colors[0] == key.color);
        assert(colors.to_set() =~= set![key.color]);
        assert(carried_after(carried, player, keys) =~= carried.insert(key.color));
        assert(handles(near) =~= seq![key.entity]);
    } else {
        assert(near =~= Seq::<ColorEntity>::empty());
        assert(colors_of(near) =~= Set::<LockKeyColor>::empty());
        assert(carried_after(carried, player, keys) =~= carried);
        assert(handles(near) =~= Seq::<u64>::empty());
    }
}

/// A lock whose colour is not carried stays closed and the blocked cells
/// stay as they are, however near the player is. A lock within reach whose
/// colour is carried opens, and its cell is the one cell that leaves the
/// blocked cells.
pub proof fn lemma_unlock_one(
    blocked: Set<GridCoords>,
    carried: Set<LockKeyColor>,
    player: GridCoords,
    lock: ColorEntity,
)
    ensures
        !carried.contains(lock.color) ==> {
            &&& blocked_after(blocked, player, carried, seq![lock]) == blocked
            &&& handles(locks_opened(player, carried, seq![lock])) == Seq::<u64>::empty()
        },
        carried.contains(lock.color) && grid_distance(player, lock.cell) <= 3 ==> {
            &&& blocked_after(blocked, player, carried, seq![lock]) == blocked.remove(lock.cell)
            &&& handles(locks_opened(player, carried, seq![lock])) == seq![lock.entity]
        },
{
    let locks = seq![lock];
    let pred = lock_opens(player, carried);
    assert(locks =~= Seq::<ColorEntity>::empty().push(lock));
    assert(Seq::<ColorEntity>::empty().filter(pred) =~= Seq::<ColorEntity>::empty()) by {
        reveal(Seq::filter);
    }
    Seq::<ColorEntity>::empty().lemma_filter_push(lock, pred);
    let open = locks_opened(player, carried, locks);
    if pred(lock) {
        assert(open =~= seq![lock]);
        assert(entity_cells(open) =~= seq![lock.cell]);
        assert(entity_cells(open)[0] == lock.cell);
        assert(cells_of(entity_cells(open)) =~= set![lock.cell]);
        assert(blocked_after(blocked, player, carried, locks) =~= blocked.remove(lock.cell));
        assert(handles(open) =~= seq![lock.entity]);
    } else {
        assert(open =~= Seq::<ColorEntity>::empty());
        assert(cells_of(entity_cells(open)) =~= Set::<GridCoords>::empty());
        assert(blocked_after(blocked, player, carried, locks) =~= blocked);
        assert(handles(open) =~= Seq::<u64>::empty());
    }
}

/// Opening the locks a second time changes nothing: neither when the
/// opened locks are still in the list, nor when they have left it.
pub proof fn lemma_unlock_is_idempotent(
    blocked: Set<GridCoords>,
    carried: Set<LockKeyColor>,
    player: GridCoords,
    locks: Seq<ColorEntity>,
)
    ensures
        blocked_after(
            blocked_after(blocked, player, carried, locks),
            player,
            carried,
            locks,
        ) == blocked_after(blocked, player, carried, locks),
        locks_opened(player, carried, locks_left(player, carried, locks)) == Seq::<
            ColorEntity,
        >::empty(),
        blocked_after(
            blocked_after(blocked, player, carried, locks),
            player,
            carried,
            locks_left(player, carried, locks),
        ) == blocked_after(blocked, player, carried, locks),
{
    let once = blocked_after(blocked, player, carried, locks);
    assert(blocked_after(once, player, carried, locks) =~= once);
    let pred = lock_opens(player, carried);
    let left = locks_left(player, carried, locks);
    assert(left.all(|x: ColorEntity| !pred(x))) by {
        assert forall|i: int| 0 <= i < left.len() implies !pred(#[trigger] left[i]) by {
            locks.lemma_filter_pred(|e: ColorEntity| !lock_opens(player, carried)(e), i);
        }
    }
    left.lemma_all_neg_filter_empty(pred);
    assert(locks_opened(player, carried, left) =~= Seq::<ColorEntity>::empty());
    assert(cells_of(entity_cells(Seq::<ColorEntity>::empty())) =~= Set::<GridCoords>::empty());
    assert(blocked_after(once, player, carried, left) =~= once);
}

/// The keys of `last_seen` are the keys of the entries.
pub proof fn lemma_last_seen_domain<K, V>(entries: Seq<(K, V)>)
    ensures
        forall|k: K|
            last_seen(entries).dom().contains(k) <==> exists|i: int|
                0 <= i < entries.len() && (#[trigger] entries[i]).0 == k,
    decreases entries.len(),
{
    if entries.len() > 0 {
        let rest = entries.drop_last();
        lemma_last_seen_domain(rest);
        assert(last_seen(entries) == last_seen(rest).insert(entries.last().0, entries.last().1));
        assert forall|k: K|
            last_seen(entries).dom().contains(k) <==> exists|i: int|
                0 <= i < entries.len() && (#[trigger] entries[i]).0 == k by {
            if last_seen(entries).dom().contains(k) {
                if entries.last().0 == k {
                    assert(entries[entries.len() - 1].0 == k);
                } else {
                    assert(last_seen(rest).dom().contains(k));
                    let i = choose|i: int| 0 <= i < rest.len() && (#[trigger] rest[i]).0 == k;
                    assert(entries[i].0 == k);
                }
            }
            if exists|i: int| 0 <= i < entries.len() && (#[trigger] entries[i]).0 == k {
                let i = choose|i: int| 0 <= i < entries.len() && (#[trigger] entries[i]).0 == k;
                if i < rest.len() {
                    assert(rest[i].0 == k);
                    assert(last_seen(rest).dom().contains(k));
                }
            }
        }
    }
}

/// The value that `last_seen` holds for a key is that of the key's last
/// entry.
pub proof fn lemma_last_seen_value<K, V>(entries: Seq<(K, V)>, i: int)
    requires
        0 <= i < entries.len(),
        forall|j: int| i < j < entries.len() ==> (#[trigger] entries[j]).0 != entries[i].0,
    ensures
        last_seen(entries).dom().contains(entries[i].0),
        last_seen(entries)[entries[i].0] == entries[i].1,
    decreases entries.len(),
{
    if i < entries.len() - 1 {
        let rest = entries.drop_last();
        assert(entries[entries.len() - 1].0 != entries[i].0);
        assert forall|j: int| i < j < rest.len() implies (#[trigger] rest[j]).0 != rest[i].0 by {
            assert(entries[j].0 != entries[i].0);
        }
        lemma_last_seen_value(rest, i);
    }
}

} // verus!
