pub mod game;
pub mod laws;
pub mod utils;
