pub mod bet;
pub mod config;
mod edges;
pub mod elo;
pub mod expected;
pub mod feed;
pub mod game;
pub mod player;
pub mod state;
pub mod stream;
pub mod text;
