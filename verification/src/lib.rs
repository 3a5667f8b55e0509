//! A schema-driven factory engine for test entities.
//!
//! A factory declaration describes, field by field, how a domain entity is
//! assembled for tests: primary keys take defaults, foreign-key fields are
//! resolved against collaborating factories (auto-creating missing
//! dependencies on demand), and scalar fields are set through fluent setters.
//! The crate parses such declarations into a validated schema, classifies the
//! fields into disjoint categories, synthesizes the builder and resolution
//! plans, and executes them against plain runtime values.

pub mod categorize;
pub mod emit;
pub mod engine;
pub mod resolve;
pub mod schema;
pub mod shape;
pub mod synth;
pub mod text;
