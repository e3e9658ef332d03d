//! Rewrite rules of a source-to-source minifier, stated over a plain model of
//! the program tree and proved against their contracts.

pub mod ast;
pub mod maps;
pub mod state;
pub mod side_effects;
pub mod iife;
pub mod unused;
pub mod hoist;
pub mod visit;
pub mod occurrences;
pub mod walk_laws;
pub mod replace;
pub mod props;
