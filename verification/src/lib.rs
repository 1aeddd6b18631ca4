//! A turn-based Pokemon battle engine: type chart, stat and damage formulas,
//! move effects, battle commands and turn resolution.
pub mod moves;
pub mod schema;
pub mod species;
pub mod pokemon;
pub mod battle;
pub mod player;
pub mod text;
