//! Where a player is in the story and on the map, and the rows it is
//! stored as.
use crate::clock::{now_local, Timestamp};
use crate::text::{concat, i32_to_string, int_decimal};
use vstd::prelude::*;

verus! {

broadcast use vstd::string::group_string_axioms;

#[derive(Debug, Clone)]
pub struct GameState {
    /// The player this state belongs to.
    pub player_id: i32,
    /// The larger story arc the player is in.
    pub current_epic: String,
    /// The stage within that arc.
    pub current_stage: String,
    pub x: i32,
    pub y: i32,
    pub created_at: Timestamp,
    pub updated_at: Timestamp,
}

/// The stored form of a game state, as inserted and as read back.
#[derive(Debug, Clone)]
pub struct GameStateRow {
    pub player_id: i32,
    pub current_epic: String,
    pub current_stage: String,
    pub x: i32,
    pub y: i32,
    pub created_at: Timestamp,
    pub updated_at: Timestamp,
}

/// The summary `to_string` gives.
pub open spec fn summary(
    epic: Seq<char>,
    stage: Seq<char>,
    x: int,
    y: int,
) -> Seq<char> {
    "current_epic:"@ + epic + ", current_stage:"@ + stage + " -- x:"@ + int_decimal(x) + ", y:"@
        + int_decimal(y)
}

/// `row` holds what `create` stores for `s`.
pub open spec fn stored_as(s: &GameState, row: &GameStateRow) -> bool {
    &&& row.player_id == s.player_id
    &&& row.current_epic@ == s.current_epic@
    &&& row.current_stage@ == s.current_stage@
    &&& row.x == s.x && row.y == s.y
    &&& row.created_at == s.created_at
    &&& row.updated_at == s.created_at
}

/// `s` is what `row`, looked up for `player_id`, reads back as.
pub open spec fn read_from(s: &GameState, player_id: i32, row: &GameStateRow) -> bool {
    &&& s.player_id == player_id
    &&& s.current_epic@ == row.current_epic@
    &&& s.current_stage@ == row.current_stage@
    &&& s.x == row.x && s.y == row.y
    &&& s.created_at == row.created_at
    &&& s.updated_at == row.updated_at
}

/// A stored game state, looked up for its player, reads back as itself,
/// with its creation time as its update time.
pub proof fn lemma_game_state_round_trip(s: &GameState, row: &GameStateRow, loaded: &GameState)
    requires
        stored_as(s, row),
        read_from(loaded, s.player_id, row),
    ensures
        loaded.player_id == s.player_id,
        loaded.current_epic@ == s.current_epic@,
        loaded.current_stage@ == s.current_stage@,
        loaded.x == s.x && loaded.y == s.y,
        loaded.created_at == s.created_at,
        loaded.updated_at == s.created_at,
{
}

impl GameState {
    /// The state a new player starts in: the intro epic, at character
    /// creation, at the origin; created and updated now (the clock is read
    /// once for each).
    pub fn new(player_id: i32) -> (s: GameState)
        ensures
            s.player_id == player_id,
            s.current_epic@ == "intro"@,
            s.current_stage@ == "character_creation"@,
            s.x == 0 && s.y == 0,
            s.created_at.wf(),
            s.updated_at.wf(),
    {
        GameState {
            current_epic: "intro".to_owned(),
            current_stage: "character_creation".to_owned(),
            player_id,
            x: 0,
            y: 0,
            created_at: now_local(),
            updated_at: now_local(),
        }
    }

    /// A one-line summary: epic, stage and position.
    pub fn to_string(&self) -> (r: String)
        ensures
            r@ == summary(self.current_epic@, self.current_stage@, self.x as int, self.y as int),
    {
        let r = concat("current_epic:", self.current_epic.as_str());
        let r = concat(r.as_str(), ", current_stage:");
        let r = concat(r.as_str(), self.current_stage.as_str());
        let r = concat(r.as_str(), " -- x:");
        let r = concat(r.as_str(), i32_to_string(self.x).as_str());
        let r = concat(r.as_str(), ", y:");
        let r = concat(r.as_str(), i32_to_string(self.y).as_str());
        assert(r@ =~= summary(self.current_epic@, self.current_stage@, self.x as int, self.y as int));
        r
    }

    /// What `create` stores: every field, with the creation time also as
    /// the update time.
    pub fn insert_row(&self) -> (r: GameStateRow)
        ensures
            stored_as(self, &r),
    {
        GameStateRow {
            player_id: self.player_id,
            current_epic: self.current_epic.clone(),
            current_stage: self.current_stage.clone(),
            x: self.x,
            y: self.y,
            created_at: self.created_at,
            updated_at: self.created_at,
        }
    }

    /// What `update` stores for the player's state: the epic, stage and
    /// position, updated now. The creation time is not touched.
    pub fn update_row(&self) -> (r: GameStateRow)
        ensures
            r.player_id == self.player_id,
            r.current_epic@ == self.current_epic@,
            r.current_stage@ == self.current_stage@,
            r.x == self.x && r.y == self.y,
            r.created_at == self.created_at,
            r.updated_at.wf(),
    {
        GameStateRow {
            player_id: self.player_id,
            current_epic: self.current_epic.clone(),
            current_stage: self.current_stage.clone(),
            x: self.x,
            y: self.y,
            created_at: self.created_at,
            updated_at: now_local(),
        }
    }

    /// The game state a stored row holds, for the player it was looked up
    /// by.
    pub fn from_row(player_id: i32, row: &GameStateRow) -> (s: GameState)
        ensures
            read_from(&s, player_id, row),
    {
        GameState {
            current_epic: row.current_epic.clone(),
            current_stage: row.current_stage.clone(),
            player_id,
            x: row.x,
            y: row.y,
            created_at: row.created_at,
            updated_at: row.updated_at,
        }
    }
}

} // verus!
