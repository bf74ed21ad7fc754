pub mod manager;
pub mod music_player;
