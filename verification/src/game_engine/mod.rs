pub mod flow;
pub mod game_event;
