//! Closed-economy core of a resource-trading board game: resource pools,
//! development cards, the bank with its trade registry, and the trade
//! settlement performed by the game state.

pub mod error;
pub mod resources;
pub mod building;
mod chance;
pub mod development_cards;
pub mod player;
pub mod trade;
pub mod bank;
pub mod game;
pub mod laws;

pub use game::Game;
pub use player::Player;
