//! Weapons described by scripts, and the entities they become.
//!
//! A script builds weapon values through a small fluent interface; the values
//! it returns are turned into entities that carry one attribute record for each
//! attribute the script set, and nothing else.

pub mod driver;
pub mod entities;
pub mod laws;
pub mod rune_context;
pub mod weapons;

pub use rune_context::{RuneContext, ScriptError};
