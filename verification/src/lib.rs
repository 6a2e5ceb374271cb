//! Simulation core for a turn-based crafting mini-game: a player repeatedly
//! casts named actions against a mutable crafting state, spending durability
//! and craft points to advance progress and quality under transient buffs and
//! per-turn condition multipliers.
//!
//! The resolution engine is fully specified: every transition of the state is
//! pinned down by a spec-level model, the legality checker returns each
//! refusal reason exactly when its rule fires, and the state invariants
//! (durability, craft points, progress and quality inside their caps) are
//! proved to be preserved by every action.

pub mod actions;
pub mod buffs;
pub mod cond_iter;
pub mod condition;
pub mod engine;
pub mod laws;
pub mod names;
pub mod recipe;
pub mod rng;
pub mod simulate;
pub mod status;
pub mod strcmp;

pub use actions::Actions;
pub use actions::UnknownSkillErr;
pub use buffs::Buffs;
pub use cond_iter::ConditionIterator;
pub use condition::Condition;
pub use engine::CastActionError;
pub use recipe::Attributes;
pub use recipe::Caches;
pub use recipe::Recipe;
pub use recipe::RecipeLevel;
pub use status::Status;
pub use status::StatusV;
