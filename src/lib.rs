pub mod corpse;
pub mod game;
pub mod level_data;
pub mod levels;
pub mod player;
pub mod spiny;
pub mod state;
pub mod types;
