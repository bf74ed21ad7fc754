//! The save databases.
use vstd::prelude::*;

pub mod save;

verus! {

/// The directory that holds the save databases.
pub const SAVE_DIR: &'static str = "saves";

/// The save database used when none is named.
pub const DEFAULT_DB: &'static str = "tbg.db";

/// The table of players.
pub const PLAYER_TABLE: &'static str = "players";

/// The table of game states.
pub const GAME_STATE_TABLE: &'static str = "game_state";

} // verus!
