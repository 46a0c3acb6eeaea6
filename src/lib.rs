//! An in-memory document model for biological reaction networks, built from
//! a stream of markup events, and the rewrites that express every species
//! quantity in its embedded mathematics as an amount.
pub mod attributes;
pub mod bindings;
pub mod literal;
pub mod math;
pub mod model;
pub mod parser;
pub mod rewrite;
pub mod tag;
pub mod transform;
