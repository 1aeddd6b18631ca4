//! Battle mechanics: conditions, state, commands and turn resolution.
pub mod action_stack;
pub mod ai;
pub mod calculators;
pub mod catch;
pub mod commands;
pub mod conditions;
pub mod engine;
pub mod event_text;
pub mod move_effects;
pub mod progression;
pub mod runner;
pub mod state;
pub mod stats;
