pub mod game_state;
pub mod gender;
pub mod menu;
pub mod player;
