//! A wager-backed pet dueling game: stat decay, damage rolls, the duel state
//! machine and the settlement arithmetic, with their contracts.
pub mod admin_actions;
pub mod damage;
pub mod duel_actions;
pub mod error;
pub mod game_config;
pub mod key;
pub mod pet_duel;
pub mod pet_stats;
pub mod player_actions;
pub mod program;
pub mod signature;
