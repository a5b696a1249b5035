//! Prelude for convenient imports.
pub use crate::expressions::{BoundedLinearExpr, LinearExpr};
pub use crate::model::CpModel;
pub use crate::params::SatParameters;
pub use crate::proto::CpSolverStatus;
pub use crate::solver::SolveResponse;
pub use crate::vars::{BoolVar, IntVar, IntervalVar};
