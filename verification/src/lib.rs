//! Rust builder for Google OR-Tools CP-SAT models.
//!
//! Variables, linear expressions and constraints are built here, and the
//! solver's answer is read here; the model is kept as plain message values
//! that mirror `cp_model.proto`.
pub mod expressions;
pub mod model;
pub mod params;
pub mod prelude;
pub mod proto;
pub mod solver;
pub mod vars;
