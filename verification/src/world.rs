//! The state of the game world and the two things that change it: a level
//! has been loaded, and a step of the simulation is taken.

use vstd::prelude::*;
use crate::entities::{ColorEntity, EntranceEntity, GoalEntity};
use crate::grid::{cell_of, centre_of, to_grid_coords, GridCoords, Position};
use crate::indices::{
    cells_of, last_seen, CarriedKeys, Colliders, ColorLocations, Entrances, NextLevels,
};
use crate::player_movement::{
    after_step, step_fits, Collider, PlayerFacing, PlayerMover, PlayerWantsToMove,
};
use crate::systems::{
    blocked_after, cache_collider_location, cache_entrance_location, cache_goal_location,
    cache_locks_and_keys, carried_after, check_for_goals, color_cells, entity_cells, goal_cells,
    handles, is_goal_hit, is_near_lock, keys_near, locks_opened, move_player_to_entrance,
    named_cells, pickup_key, shares_a_name, LevelNotLoaded, LevelSize,
};

verus! {

/// What the level loader tells about a level, by the level's id.
#[derive(Clone, Debug, PartialEq, Eq)]
pub enum LevelEvent {
    /// The level is about to be spawned.
    SpawnTriggered(String),
    /// The level's entities are all there and can be asked for.
    Spawned(String),
    /// The level's entities have been put in their places.
    Transformed(String),
    /// The level is gone.
    Despawned(String),
}

/// Where the game stands between levels.
#[derive(Clone, Debug, PartialEq, Eq)]
pub enum LevelState {
    /// No level has been loaded yet.
    Unloaded,
    /// The player is in the level of this id.
    InLevel(String),
    /// The player has stepped onto a goal: the level of the first name has
    /// been asked for, and the player is to be set down at its entrance of
    /// the second name once it is loaded.
    Transitioning(String, String),
}

/// A level state, with each name as its characters.
pub enum LevelPhase {
    Unloaded,
    InLevel(Seq<char>),
    Transitioning(Seq<char>, Seq<char>),
}

impl View for LevelState {
    type V = LevelPhase;

    open spec fn view(&self) -> LevelPhase {
        match *self {
            LevelState::Unloaded => LevelPhase::Unloaded,
            LevelState::InLevel(level) => LevelPhase::InLevel(level@),
            LevelState::Transitioning(level, entrance) => LevelPhase::Transitioning(
                level@,
                entrance@,
            ),
        }
    }
}

impl LevelEvent {
    /// The id of the level that has been loaded, if that is what the event
    /// tells.
    pub open spec fn loaded(&self) -> Option<Seq<char>> {
        match *self {
            LevelEvent::Spawned(level) => Some(level@),
            _ => None,
        }
    }
}

/// What the level loader yields for a level: its pixel size, once its data
/// is loaded, and what is placed on its grid.
#[derive(Clone, Debug, PartialEq, Eq)]
pub struct LevelScan {
    pub size: Option<LevelSize>,
    pub unwalkables: Vec<GridCoords>,
    pub keys: Vec<ColorEntity>,
    pub locks: Vec<ColorEntity>,
    pub goals: Vec<GoalEntity>,
    pub entrances: Vec<EntranceEntity>,
}

/// The player: where it is, how it faces, and whether it wants to move.
#[derive(Clone, Copy, Debug, PartialEq, Eq, Structural)]
pub struct PlayerState {
    pub position: Position,
    pub facing: PlayerFacing,
    pub wants_to_move: PlayerWantsToMove,
}

/// What a level-loaded event has led to.
#[derive(Clone, Debug, PartialEq, Eq)]
pub struct LoadReport {
    /// Where the player is after the event, if there is a player.
    pub player: Option<Position>,
    /// Whether two entrances of the level share a name.
    pub shared_entrance_name: bool,
    /// The entrance that the player was to be set down at and that the level
    /// does not have.
    pub missing_entrance: Option<String>,
}

/// What a step has led to.
#[derive(Clone, Debug, PartialEq, Eq)]
pub struct StepReport {
    /// The player after the step, if there is a player.
    pub player: Option<PlayerState>,
    /// The keys that were picked up and are to leave the world.
    pub picked: Vec<u64>,
    /// The locks that were opened and are to leave the world.
    pub opened: Vec<u64>,
    /// The level that is to be made the active one.
    pub switch_to: Option<String>,
}

/// The state that the simulation driver owns: the indices of the loaded
/// level, the keys carried, and where the game stands between levels.
pub struct WorldState {
    /// The side of a grid cell, in world units.
    pub cell_size: u32,
    pub colliders: Colliders,
    pub goals: NextLevels,
    pub entrances: Entrances,
    pub keys: ColorLocations,
    pub locks: ColorLocations,
    pub carried_keys: CarriedKeys,
    pub level: LevelState,
}

/// The player after the keys and locks have been seen to and it has moved.
pub open spec fn moved(
    player: PlayerState,
    elapsed: u32,
    cell_size: u32,
    colliders: &Colliders,
) -> PlayerState {
    if player.wants_to_move.0 {
        PlayerState {
            position: after_step(
                player.position,
                player.facing.facing,
                elapsed,
                cell_size,
                colliders,
            ),
            ..player
        }
    } else {
        player
    }
}

impl WorldState {
    /// Whether the state is a valid one: a cell has a size.
    pub open spec fn wf(&self) -> bool {
        self.cell_size > 0
    }

    /// Makes the state of a world in which no level has been loaded and the
    /// player carries no key.
    pub fn new(cell_size: u32) -> (world: WorldState)
        requires
            cell_size > 0,
        ensures
            world.wf(),
            world.cell_size == cell_size,
            world.colliders.blocked_cells() == Set::<GridCoords>::empty(),
            world.colliders.width() == 0,
            world.colliders.height() == 0,
            world.goals@ == Set::<GridCoords>::empty(),
            world.entrances@ == Map::<Seq<char>, GridCoords>::empty(),
            world.keys@ == Map::<crate::colors::LockKeyColor, GridCoords>::empty(),
            world.locks@ == Map::<crate::colors::LockKeyColor, GridCoords>::empty(),
            world.carried_keys@ == Set::<crate::colors::LockKeyColor>::empty(),
            world.level@ == LevelPhase::Unloaded,
    {
        WorldState {
            cell_size,
            colliders: Colliders::new(0, 0),
            goals: NextLevels::new(),
            entrances: Entrances::new(),
            keys: ColorLocations::new(),
            locks: ColorLocations::new(),
            carried_keys: CarriedKeys::new(),
            level: LevelState::Unloaded,
        }
    }

    /// Takes a level event in. Only the event that a level has been loaded
    /// changes anything. Then every index is rebuilt from the scan and holds
    /// nothing of the level before; the keys carried stay. A player that is
    /// on its way to an entrance is set down at the centre of that entrance,
    /// at the depth it had; where the level has no entrance of that name the
    /// player stays and the report names the entrance. The game is then in
    /// the level. Where the scan has no size, the level's data is not there
    /// yet: that is an error, and nothing changes.
    pub fn level_loaded(
        &mut self,
        event: &LevelEvent,
        scan: &LevelScan,
        player: Option<Position>,
    ) -> (report: Result<LoadReport, LevelNotLoaded>)
        requires
            old(self).wf(),
        ensures
            final(self).wf(),
            final(self).cell_size == old(self).cell_size,
            final(self).carried_keys == old(self).carried_keys,
            report is Err <==> event.loaded() is Some && scan.size is None,
            report is Err || event.loaded() is None ==> *final(self) == *old(self),
            event.loaded() is None ==> report is Ok && report->Ok_0.player == player
                && !report->Ok_0.shared_entrance_name && report->Ok_0.missing_entrance is None,
            event.loaded() is Some && report is Ok ==> {
                &&& final(self).colliders.blocked_cells() == cells_of(scan.unwalkables@).union(
                    cells_of(entity_cells(scan.locks@)),
                )
                &&& final(self).colliders.width() == scan.size->Some_0.px_wid / old(self).cell_size
                &&& final(self).colliders.height() == scan.size->Some_0.px_hei / old(self).cell_size
                &&& final(self).goals@ == cells_of(goal_cells(scan.goals@))
                &&& final(self).entrances@ == last_seen(named_cells(scan.entrances@))
                &&& final(self).keys@ == last_seen(color_cells(scan.keys@))
                &&& final(self).locks@ == last_seen(color_cells(scan.locks@))
                &&& report->Ok_0.shared_entrance_name == shares_a_name(scan.entrances@)
            },
            event.loaded() is Some && report is Ok ==> match old(self).level@ {
                LevelPhase::Transitioning(level, entrance) => {
                    &&& final(self).level@ == LevelPhase::InLevel(level)
                    &&& if final(self).entrances@.dom().contains(entrance) {
                        &&& report->Ok_0.missing_entrance is None
                        &&& report->Ok_0.player == match player {
                            Some(p) => Some(
                                centre_of(
                                    final(self).entrances@[entrance],
                                    old(self).cell_size,
                                    p.z,
                                ),
                            ),
                            None => None,
                        }
                    } else {
                        &&& report->Ok_0.missing_entrance is Some
                        &&& report->Ok_0.missing_entrance->Some_0@ == entrance
                        &&& report->Ok_0.player == player
                    }
                },
                _ => {
                    &&& final(self).level@ == LevelPhase::InLevel(event.loaded()->Some_0)
                    &&& report->Ok_0.missing_entrance is None
                    &&& report->Ok_0.player == player
                },
            },
    {
        let loaded = match event {
            LevelEvent::Spawned(level) => level,
            _ => {
                return Ok(
                    LoadReport { player, shared_entrance_name: false, missing_entrance: None },
                );
            },
        };
        let colliders = match cache_collider_location(
            scan.size,
            &scan.unwalkables,
            &scan.locks,
            self.cell_size,
        ) {
            Ok(colliders) => colliders,
            Err(e) => {
                return Err(e);
            },
        };
        let goals = cache_goal_location(&scan.goals);
        let (entrances, shared_entrance_name) = cache_entrance_location(&scan.entrances);
        let (keys, locks) = cache_locks_and_keys(&scan.keys, &scan.locks);
        self.colliders = colliders;
        self.goals = goals;
        self.entrances = entrances;
        self.keys = keys;
        self.locks = locks;
        let mut after = player;
        let mut missing_entrance: Option<String> = None;
        let next = match &self.level {
            LevelState::Transitioning(level, entrance) => {
                let mut found = self.entrances.get(entrance.as_str()).is_some();
                if let Some(mut tf) = player {
                    found = move_player_to_entrance(
                        &self.entrances,
                        entrance.as_str(),
                        &mut tf,
                        self.cell_size,
                    );
                    after = Some(tf);
                }
                if !found {
                    missing_entrance = Some(entrance.clone());
                }
                LevelState::InLevel(level.clone())
            },
            _ => LevelState::InLevel(loaded.clone()),
        };
        self.level = next;
        Ok(LoadReport { player: after, shared_entrance_name, missing_entrance })
    }

    /// Takes one step of the simulation, in this order: keys within reach
    /// are picked up; locks within reach whose colour is carried are opened
    /// and their cells unblocked; the player, if it wants to move, goes to
    /// the candidate position unless that lies in a blocked cell; and, while
    /// the game is in a level, a goal under the player starts the transition
    /// to the level that the goal leads to. Before any level is loaded a
    /// step is an error, and nothing changes. Without a player the step does
    /// nothing.
    pub fn step(
        &mut self,
        player: Option<PlayerState>,
        elapsed: u32,
        entities: &LevelScan,
    ) -> (report: Result<StepReport, LevelNotLoaded>)
        requires
            old(self).wf(),
            player matches Some(p) ==> p.wants_to_move.0 ==> step_fits(
                p.position,
                p.facing.facing,
                elapsed,
            ),
        ensures
            final(self).wf(),
            final(self).cell_size == old(self).cell_size,
            final(self).goals == old(self).goals,
            final(self).entrances == old(self).entrances,
            final(self).keys == old(self).keys,
            final(self).locks == old(self).locks,
            final(self).colliders.width() == old(self).colliders.width(),
            final(self).colliders.height() == old(self).colliders.height(),
            report is Err <==> old(self).level@ is Unloaded,
            report is Err ==> *final(self) == *old(self),
            report is Ok && player is None ==> {
                &&& *final(self) == *old(self)
                &&& report->Ok_0.player is None
                &&& report->Ok_0.picked@.len() == 0
                &&& report->Ok_0.opened@.len() == 0
                &&& report->Ok_0.switch_to is None
            },
            report is Ok && player is Some ==> ({
                let p = player->Some_0;
                let at = cell_of(p.position, old(self).cell_size);
                let out = report->Ok_0;
                &&& final(self).carried_keys@ == carried_after(
                    old(self).carried_keys@,
                    at,
                    entities.keys@,
                )
                &&& out.picked@ == handles(keys_near(at, entities.keys@))
                &&& final(self).colliders.blocked_cells() == blocked_after(
                    old(self).colliders.blocked_cells(),
                    at,
                    final(self).carried_keys@,
                    entities.locks@,
                )
                &&& out.opened@ == handles(
                    locks_opened(at, final(self).carried_keys@, entities.locks@),
                )
                &&& out.player == Some(
                    moved(p, elapsed, old(self).cell_size, &final(self).colliders),
                )
            }),
            report is Ok && player is Some ==> ({
                let after = report->Ok_0.player->Some_0.position;
                let at = cell_of(after, old(self).cell_size);
                let goals = entities.goals@;
                if old(self).level@ is InLevel && exists|k: int| is_goal_hit(goals, at, k) {
                    forall|k: int| #[trigger]
                        is_goal_hit(goals, at, k) ==> {
                            &&& final(self).level@ == LevelPhase::Transitioning(
                                goals[k].next_level.next_level@,
                                goals[k].next_level.entrance@,
                            )
                            &&& report->Ok_0.switch_to is Some
                            &&& report->Ok_0.switch_to->Some_0@ == goals[k].next_level.next_level@
                        }
                } else {
                    &&& final(self).level@ == old(self).level@
                    &&& report->Ok_0.switch_to is None
                }
            }),
    {
        if let LevelState::Unloaded = &self.level {
            return Err(LevelNotLoaded);
        }
        let mut p = match player {
            Some(p) => p,
            None => {
                return Ok(
                    StepReport {
                        player: None,
                        picked: Vec::new(),
                        opened: Vec::new(),
                        switch_to: None,
                    },
                );
            },
        };
        let at = to_grid_coords(p.position, self.cell_size);
        let picked = pickup_key(&mut self.carried_keys, at, &entities.keys);
        let opened = is_near_lock(&self.carried_keys, at, &entities.locks, &mut self.colliders);
        if p.wants_to_move.0 {
            PlayerMover::<Colliders>::move_player(
                &mut p.position,
                &p.facing,
                elapsed,
                self.cell_size,
                &self.colliders,
            );
        }
        let mut switch_to: Option<String> = None;
        let in_level = match &self.level {
            LevelState::InLevel(_) => true,
            _ => false,
        };
        if in_level {
            let now_at = to_grid_coords(p.position, self.cell_size);
            if let Some(k) = check_for_goals(now_at, &entities.goals) {
                let goal = &entities.goals[k];
                switch_to = Some(goal.next_level.next_level.clone());
                self.level = LevelState::Transitioning(
                    goal.next_level.next_level.clone(),
                    goal.next_level.entrance.clone(),
                );
                assert(is_goal_hit(entities.goals@, now_at, k as int));
                assert forall|j: int| #[trigger]
                    is_goal_hit(entities.goals@, now_at, j) implies j == k by {
                    if j < k {
                        assert(entities.goals@[k as int].cell == now_at);
                    } else if j > k {
                        assert(entities.goals@[j].cell == now_at);
                    }
                }
            } else {
                assert forall|j: int| !#[trigger] is_goal_hit(entities.goals@, now_at, j) by {
                    if 0 <= j < entities.goals@.len() {
                        assert(entities.goals[j].cell != now_at);
                    }
                }
            }
        }
        Ok(StepReport { player: Some(p), picked, opened, switch_to })
    }
}

} // verus!
