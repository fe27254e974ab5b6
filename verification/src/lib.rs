//! A bump-arena allocation planner with verified placement arithmetic.

pub mod align;
pub mod constants;
pub mod error;
pub mod chunk;
pub mod sizing;
pub mod retired;
pub mod arena;
pub mod laws;
pub mod refcount;
pub mod stats;
pub mod builder;
pub mod handle;
pub mod utf16;
