//! The Book Game: a text adventure in the terminal. This crate holds the
//! game's rules and data, each with its contract; the terminal, the audio
//! device and the save database are driven from outside it.
pub mod args;
pub mod clock;
pub mod db;
pub mod game_engine;
pub mod ident;
pub mod input;
pub mod models;
pub mod music;
pub mod text;
pub mod thread_demo;

pub use game_engine::game_event::GameEvent;
pub use models::game_state::GameState;
pub use models::gender::Gender;
pub use models::player::Player;
