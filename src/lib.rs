//! Genetic crossover and progression engine for breedable creatures.
//!
//! Given two parents' gene segments, generation levels, rarity tiers and a
//! caller-supplied entropy block, the library computes an offspring gene
//! buffer, its evolution marker trace, the next generation level and the next
//! rarity tier. Every function is pure and total.

pub mod binary;
pub mod breeding;
pub mod claim_state;
pub mod game_config;
pub mod generation;

pub use binary::Binary;
pub use breeding::{BreedType, Breeding};
pub use claim_state::ClaimState;
pub use game_config::{GameConfig, GameConfigType};
pub use generation::{Generation, RarityType};
