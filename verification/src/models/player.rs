//! The player: who they are, and the rows they are stored as.
use crate::clock::{now_local, Timestamp};
use crate::models::gender::{db_name, from_db_spec, lemma_db_round_trip, Gender};
use crate::ident::{is_v4, new_v4, parse_uuid, spec_parse_uuid, uuid_text, uuid_to_string};
use vstd::prelude::*;

verus! {

#[derive(Debug, Clone)]
pub struct Player {
    /// The database's row id; 0 until the player is stored.
    pub id: i32,
    pub uuid: u128,
    pub name: String,
    pub gender: Gender,
    pub created_at: Timestamp,
    pub updated_at: Timestamp,
}

/// The values a new player is inserted with.
#[derive(Debug, Clone)]
pub struct NewPlayerRow {
    pub uuid: String,
    pub name: String,
    pub gender: String,
    pub created_at: Timestamp,
    pub updated_at: Timestamp,
}

/// A stored player as read back.
#[derive(Debug, Clone)]
pub struct PlayerRow {
    pub id: i32,
    pub uuid: String,
    pub name: String,
    pub gender: String,
    pub created_at: Timestamp,
    pub updated_at: Timestamp,
}

/// The values a player's record is updated with, found by name.
#[derive(Debug, Clone)]
pub struct PlayerUpdate {
    pub gender: String,
    pub updated_at: Timestamp,
    pub name: String,
}

/// Why an update was refused.
#[derive(Debug, Clone, Copy, PartialEq, Eq, Structural)]
pub enum UpdateError {
    /// No stored player has the name.
    NoPlayerFound,
}

/// `row` holds what `create` stores for `p`.
pub open spec fn stored_as(p: &Player, row: &NewPlayerRow) -> bool {
    &&& row.uuid@ == uuid_text(p.uuid)
    &&& row.name@ == p.name@
    &&& row.gender@ == db_name(p.gender)
    &&& row.created_at == p.created_at
    &&& row.updated_at == p.created_at
}

/// `p` is what the stored `row` reads back as.
pub open spec fn read_from(p: &Player, row: &PlayerRow) -> bool {
    &&& p.id == row.id
    &&& p.uuid == spec_parse_uuid(row.uuid@)->0
    &&& forall|v: u128| #[trigger] uuid_text(v) == row.uuid@ ==> p.uuid == v
    &&& p.name@ == row.name@
    &&& p.gender == from_db_spec(row.gender@)
    &&& p.created_at == row.created_at
    &&& p.updated_at == row.updated_at
}

/// A player stored by `create` and read back is the same player: same id
/// text, name and gender, with its creation time as its update time; only
/// the row id is the database's.
pub proof fn lemma_player_round_trip(p: &Player, stored: &NewPlayerRow, row: &PlayerRow, loaded: &Player)
    requires
        stored_as(p, stored),
        row.uuid@ == stored.uuid@,
        row.name@ == stored.name@,
        row.gender@ == stored.gender@,
        row.created_at == stored.created_at,
        row.updated_at == stored.updated_at,
        read_from(loaded, row),
    ensures
        loaded.uuid == p.uuid,
        loaded.name@ == p.name@,
        loaded.gender == p.gender,
        loaded.created_at == p.created_at,
        loaded.updated_at == p.created_at,
        loaded.id == row.id,
{
    lemma_db_round_trip(p.gender);
}

impl Player {
    /// A new player with a fresh random id, created and updated now (the
    /// clock is read once for each).
    pub fn new(name: String, gender: Gender) -> (p: Player)
        ensures
            p.id == 0,
            is_v4(p.uuid),
            p.name@ == name@,
            p.gender == gender,
            p.created_at.wf(),
            p.updated_at.wf(),
    {
        let uuid = new_v4();
        let created_at = now_local();
        let updated_at = now_local();
        Player { id: 0, uuid, name, gender, created_at, updated_at }
    }

    /// What `create` stores: the id as text, the name, the gender's stored
    /// spelling, and the creation time twice, as created and as updated.
    pub fn insert_row(&self) -> (r: NewPlayerRow)
        ensures
            stored_as(self, &r),
    {
        NewPlayerRow {
            uuid: uuid_to_string(self.uuid),
            name: self.name.clone(),
            gender: self.gender.to_db_string().to_owned(),
            created_at: self.created_at,
            updated_at: self.created_at,
        }
    }

    /// What `update` stores: the gender's stored spelling and the time now,
    /// for the player of this name.
    pub fn update_row(&self) -> (r: PlayerUpdate)
        ensures
            r.gender@ == db_name(self.gender),
            r.updated_at.wf(),
            r.name@ == self.name@,
    {
        PlayerUpdate {
            gender: self.gender.to_db_string().to_owned(),
            updated_at: now_local(),
            name: self.name.clone(),
        }
    }

    /// An update that changed no row found no player of that name.
    pub fn update_outcome(rows_updated: usize) -> (r: Result<(), UpdateError>)
        ensures
            r is Ok <==> rows_updated > 0,
            r is Err ==> r == Err::<(), UpdateError>(UpdateError::NoPlayerFound),
    {
        if rows_updated == 0 {
            Err(UpdateError::NoPlayerFound)
        } else {
            Ok(())
        }
    }

    /// The player a stored row holds. The row's id text must be one the
    /// uuid crate reads.
    pub fn from_row(row: &PlayerRow) -> (p: Player)
        requires
            spec_parse_uuid(row.uuid@) is Some,
        ensures
            read_from(&p, row),
    {
        let uuid = match parse_uuid(row.uuid.as_str()) {
            Some(u) => u,
            None => 0,
        };
        Player {
            id: row.id,
            uuid,
            name: row.name.clone(),
            gender: Gender::from_db_string(row.gender.as_str()),
            created_at: row.created_at,
            updated_at: row.updated_at,
        }
    }

    /// The player a stored row holds, or `None` if its id text is not one
    /// the uuid crate reads. A row stored from a player by `insert_row`
    /// gives back that player: same id, name and gender, and its creation
    /// time as both times.
    pub fn try_from_row(row: &PlayerRow) -> (r: Option<Player>)
        ensures
            r is Some <==> spec_parse_uuid(row.uuid@) is Some,
            r matches Some(p) ==> read_from(&p, row),
            forall|v: u128| #[trigger] uuid_text(v) == row.uuid@ ==> r is Some,
    {
        match parse_uuid(row.uuid.as_str()) {
            Some(_) => Some(Player::from_row(row)),
            None => None,
        }
    }
}

} // verus!
