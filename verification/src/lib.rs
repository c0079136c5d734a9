pub mod constants;
pub mod grid;
pub mod piece;
pub mod position;
pub mod state;
pub mod types;
