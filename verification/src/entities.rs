//! What a level places on the grid, as the level data gives it: keys, locks,
//! goals and entrances, and the fields that are read from them.

use vstd::prelude::*;
use vstd::string::StringExecFns;
use crate::colors::{color_named, LockKeyColor};
use crate::grid::GridCoords;

verus! {

/// A field that the level data must give for an entity.
#[derive(Clone, Copy, Debug, PartialEq, Eq, Structural)]
pub enum Field {
    /// The name of an entrance.
    Name,
    /// The level that a goal leads to.
    ToLevel,
    /// The entrance, in that level, that a goal leads to.
    Entrance,
    /// The colour of a key or of a lock.
    LockColor,
}

/// What is wrong with the data of an entity.
#[derive(Clone, Copy, Debug, PartialEq, Eq, Structural)]
pub enum LevelDataError {
    /// A field that the entity must have is not there.
    MissingField(Field),
    /// The colour field names no colour.
    UnknownColor,
}

/// What is wrong with the data of a level, and with which entity.
#[derive(Clone, Copy, Debug, PartialEq, Eq, Structural)]
pub struct EntityError {
    /// The engine's handle of the entity.
    pub entity: u64,
    pub error: LevelDataError,
}

impl Field {
    /// The field's name in the level data.
    pub open spec fn name(self) -> Seq<char> {
        match self {
            Field::Name => "name"@,
            Field::ToLevel => "to_level"@,
            Field::Entrance => "entrance"@,
            Field::LockColor => "LockColor"@,
        }
    }

    /// Gives the field's name in the level data.
    pub fn to_string(&self) -> (s: String)
        ensures
            s@ == self.name(),
    {
        match self {
            Field::Name => String::from_str("name"),
            Field::ToLevel => String::from_str("to_level"),
            Field::Entrance => String::from_str("entrance"),
            Field::LockColor => String::from_str("LockColor"),
        }
    }
}

impl LevelDataError {
    /// The field that the error is about.
    pub fn field(&self) -> (f: Field)
        ensures
            f == match *self {
                LevelDataError::MissingField(field) => field,
                LevelDataError::UnknownColor => Field::LockColor,
            },
    {
        match self {
            LevelDataError::MissingField(field) => *field,
            LevelDataError::UnknownColor => Field::LockColor,
        }
    }
}

/// A named entrance.
#[derive(Clone, Debug, PartialEq, Eq)]
pub struct Entrance {
    pub name: String,
}

/// Where a goal leads: a level, and an entrance of that level.
#[derive(Clone, Debug, PartialEq, Eq)]
pub struct NextLevel {
    pub next_level: String,
    pub entrance: String,
}

/// A key or a lock on the grid.
#[derive(Clone, Copy, Debug, PartialEq, Eq, Structural)]
pub struct ColorEntity {
    /// The engine's handle of the entity.
    pub entity: u64,
    pub cell: GridCoords,
    pub color: LockKeyColor,
}

/// A goal on the grid.
#[derive(Clone, Debug, PartialEq, Eq)]
pub struct GoalEntity {
    pub cell: GridCoords,
    pub next_level: NextLevel,
}

/// An entrance on the grid.
#[derive(Clone, Debug, PartialEq, Eq)]
pub struct EntranceEntity {
    pub cell: GridCoords,
    pub entrance: Entrance,
}

impl Entrance {
    /// Reads an entrance from its `name` field. The field must be there.
    pub fn bundle_entity(name: Option<&str>) -> (entrance: Result<Entrance, LevelDataError>)
        ensures
            name is None ==> entrance == Err::<Entrance, LevelDataError>(
                LevelDataError::MissingField(Field::Name),
            ),
            name is Some ==> entrance is Ok && entrance->Ok_0.name@ == name->Some_0@,
    {
        match name {
            Some(n) => Ok(Entrance { name: String::from_str(n) }),
            None => Err(LevelDataError::MissingField(Field::Name)),
        }
    }
}

impl NextLevel {
    /// Reads where a goal leads from its `to_level` and `entrance` fields.
    /// Both must be there; where both are missing, `to_level` is reported.
    pub fn bundle_entity(to_level: Option<&str>, entrance: Option<&str>) -> (next: Result<
        NextLevel,
        LevelDataError,
    >)
        ensures
            to_level is None ==> next == Err::<NextLevel, LevelDataError>(
                LevelDataError::MissingField(Field::ToLevel),
            ),
            to_level is Some && entrance is None ==> next == Err::<NextLevel, LevelDataError>(
                LevelDataError::MissingField(Field::Entrance),
            ),
            to_level is Some && entrance is Some ==> next is Ok && next->Ok_0.next_level@
                == to_level->Some_0@ && next->Ok_0.entrance@ == entrance->Some_0@,
    {
        match to_level {
            None => Err(LevelDataError::MissingField(Field::ToLevel)),
            Some(level) => match entrance {
                None => Err(LevelDataError::MissingField(Field::Entrance)),
                Some(e) => Ok(
                    NextLevel { next_level: String::from_str(level), entrance: String::from_str(e) },
                ),
            },
        }
    }
}

impl EntranceEntity {
    /// Reads an entrance that the level places at `cell`. The error names
    /// the entity, so that the level data can be mended.
    pub fn read(entity: u64, cell: GridCoords, name: Option<&str>) -> (out: Result<
        EntranceEntity,
        EntityError,
    >)
        ensures
            name is None ==> out == Err::<EntranceEntity, EntityError>(
                EntityError { entity, error: LevelDataError::MissingField(Field::Name) },
            ),
            name is Some ==> out is Ok && out->Ok_0.cell == cell && out->Ok_0.entrance.name@
                == name->Some_0@,
    {
        match Entrance::bundle_entity(name) {
            Ok(entrance) => Ok(EntranceEntity { cell, entrance }),
            Err(error) => Err(EntityError { entity, error }),
        }
    }
}

impl GoalEntity {
    /// Reads a goal that the level places at `cell`. The error names the
    /// entity, so that the level data can be mended.
    pub fn read(
        entity: u64,
        cell: GridCoords,
        to_level: Option<&str>,
        entrance: Option<&str>,
    ) -> (out: Result<GoalEntity, EntityError>)
        ensures
            to_level is None ==> out == Err::<GoalEntity, EntityError>(
                EntityError { entity, error: LevelDataError::MissingField(Field::ToLevel) },
            ),
            to_level is Some && entrance is None ==> out == Err::<GoalEntity, EntityError>(
                EntityError { entity, error: LevelDataError::MissingField(Field::Entrance) },
            ),
            to_level is Some && entrance is Some ==> out is Ok && out->Ok_0.cell == cell
                && out->Ok_0.next_level.next_level@ == to_level->Some_0@
                && out->Ok_0.next_level.entrance@ == entrance->Some_0@,
    {
        match NextLevel::bundle_entity(to_level, entrance) {
            Ok(next_level) => Ok(GoalEntity { cell, next_level }),
            Err(error) => Err(EntityError { entity, error }),
        }
    }
}

impl ColorEntity {
    /// Reads a key or a lock that the level places at `cell`. The error
    /// names the entity, so that the level data can be mended.
    pub fn read(entity: u64, cell: GridCoords, lock_color: Option<&str>) -> (out: Result<
        ColorEntity,
        EntityError,
    >)
        ensures
            out == match color_field(
                match lock_color {
                    Some(name) => Some(name@),
                    None => None,
                },
            ) {
                Ok(color) => Ok(ColorEntity { entity, cell, color }),
                Err(error) => Err(EntityError { entity, error }),
            },
    {
        match LockKeyColor::bundle_entity(lock_color) {
            Ok(color) => Ok(ColorEntity { entity, cell, color }),
            Err(error) => Err(EntityError { entity, error }),
        }
    }
}

/// What the `LockColor` field of a key or a lock is read as.
pub open spec fn color_field(lock_color: Option<Seq<char>>) -> Result<LockKeyColor, LevelDataError> {
    match lock_color {
        None => Err(LevelDataError::MissingField(Field::LockColor)),
        Some(name) => match color_named(name) {
            Some(color) => Ok(color),
            None => Err(LevelDataError::UnknownColor),
        },
    }
}

impl LockKeyColor {
    /// Reads the colour of a key or a lock from its `LockColor` field. The
    /// field must be there and name a colour, in any letter case.
    pub fn bundle_entity(lock_color: Option<&str>) -> (color: Result<LockKeyColor, LevelDataError>)
        ensures
            color == color_field(
                match lock_color {
                    Some(name) => Some(name@),
                    None => None,
                },
            ),
    {
        match lock_color {
            None => Err(LevelDataError::MissingField(Field::LockColor)),
            Some(name) => match LockKeyColor::from_name(name) {
                Some(color) => Ok(color),
                None => Err(LevelDataError::UnknownColor),
            },
        }
    }
}

} // verus!
