//! Translation of Rust type declarations into TypeScript declarations.
//!
//! The library works on a small, closed model of declarations ([`model`]),
//! renders type expressions ([`types`]) and whole declarations ([`items`]),
//! emits the fixed block of aliases for std's containers ([`prelude`]) and
//! puts a file's output together ([`translate`]). [`laws`] states and proves
//! properties that hold across calls. Every rendering function is
//! proved to produce exactly the text that the spec functions of its module
//! describe.

pub mod items;
pub mod laws;
pub mod model;
pub mod prelude;
pub mod text;
pub mod translate;
pub mod types;
