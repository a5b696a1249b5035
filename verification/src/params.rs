//! Solver parameters builder.
//!
//! `SatParameters` holds integer and Boolean parameters of
//! `sat_parameters.proto`; an unset field (`None`) leaves the solver's default.
use vstd::prelude::*;

verus! {

/// Solver parameters.
#[derive(Debug, Clone, Copy, PartialEq, Eq, Structural)]
pub struct SatParameters {
    pub num_workers: Option<i32>,
    pub log_search_progress: Option<bool>,
    pub random_seed: Option<i32>,
    pub enumerate_all_solutions: Option<bool>,
    pub max_number_of_conflicts: Option<i64>,
    pub num_search_workers: Option<i32>,
    pub cp_model_presolve: Option<bool>,
    pub stop_after_first_solution: Option<bool>,
}

impl Default for SatParameters {
    /// No parameter set.
    fn default() -> (r: Self)
        ensures
            r.num_workers is None,
            r.log_search_progress is None,
            r.random_seed is None,
            r.enumerate_all_solutions is None,
            r.max_number_of_conflicts is None,
            r.num_search_workers is None,
            r.cp_model_presolve is None,
            r.stop_after_first_solution is None,
    {
        SatParameters {
            num_workers: None,
            log_search_progress: None,
            random_seed: None,
            enumerate_all_solutions: None,
            max_number_of_conflicts: None,
            num_search_workers: None,
            cp_model_presolve: None,
            stop_after_first_solution: None,
        }
    }
}

impl SatParameters {
    /// Set the number of parallel workers.
    pub fn with_num_workers(self, n: i32) -> (r: Self)
        ensures
            r == (SatParameters { num_workers: Some(n), ..self }),
    {
        SatParameters { num_workers: Some(n), ..self }
    }

    /// Enable or disable search progress logging to stderr.
    pub fn with_log_search_progress(self, enable: bool) -> (r: Self)
        ensures
            r == (SatParameters { log_search_progress: Some(enable), ..self }),
    {
        SatParameters { log_search_progress: Some(enable), ..self }
    }

    /// Set the random seed for reproducibility.
    pub fn with_random_seed(self, seed: i32) -> (r: Self)
        ensures
            r == (SatParameters { random_seed: Some(seed), ..self }),
    {
        SatParameters { random_seed: Some(seed), ..self }
    }

    /// Enable enumeration of all solutions.
    pub fn with_enumerate_all_solutions(self, enable: bool) -> (r: Self)
        ensures
            r == (SatParameters { enumerate_all_solutions: Some(enable), ..self }),
    {
        SatParameters { enumerate_all_solutions: Some(enable), ..self }
    }
}

} // verus!
