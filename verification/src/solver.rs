//! The solver's response and what it says of a solution.
use crate::proto::{status_of, CpSolverResponse, CpSolverStatus};
use crate::vars::{literal_holds, literal_variable, BoolVar, IntVar};
use vstd::prelude::*;

verus! {

/// Response from the solver, containing status and solution values.
pub struct SolveResponse {
    pub proto: CpSolverResponse,
}

/// A status that comes with a solution: optimal or feasible.
pub open spec fn has_solution(s: CpSolverStatus) -> bool {
    s == CpSolverStatus::Optimal || s == CpSolverStatus::Feasible
}

impl SolveResponse {
    /// The solution as an assignment: the variable at index `i` has value `solution[i]`.
    pub open spec fn assignment(&self) -> spec_fn(int) -> int {
        |i: int| self.proto.solution@[i] as int
    }

    /// Solver status (Optimal, Feasible, Infeasible, Unknown, ModelInvalid).
    /// A status number that names no status reads as `Unknown`.
    pub fn status(&self) -> (r: CpSolverStatus)
        ensures
            r == status_of(self.proto.status),
    {
        match self.proto.status {
            1 => CpSolverStatus::ModelInvalid,
            2 => CpSolverStatus::Feasible,
            3 => CpSolverStatus::Infeasible,
            4 => CpSolverStatus::Optimal,
            _ => CpSolverStatus::Unknown,
        }
    }

    /// Whether the solver found and proved an optimal solution.
    pub fn is_optimal(&self) -> (r: bool)
        ensures
            r == (status_of(self.proto.status) == CpSolverStatus::Optimal),
    {
        self.status() == CpSolverStatus::Optimal
    }

    /// Whether the solver found a feasible solution (optimal or not).
    pub fn is_feasible(&self) -> (r: bool)
        ensures
            r == has_solution(status_of(self.proto.status)),
    {
        match self.status() {
            CpSolverStatus::Optimal | CpSolverStatus::Feasible => true,
            _ => false,
        }
    }

    /// Get the value of an integer variable in the solution.
    /// The variable must have a value in the solution.
    pub fn value(&self, var: IntVar) -> (r: i64)
        requires
            0 <= var.0 < self.proto.solution@.len(),
        ensures
            r == self.proto.solution@[var.0 as int],
            r == (self.assignment())(var.0 as int),
    {
        self.proto.solution[var.0 as usize]
    }

    /// Get the value of a Boolean variable (a literal) in the solution:
    /// a positive literal is true when its variable is non-zero, a negated one
    /// when its variable is zero. The variable must have a value in the solution.
    pub fn bool_value(&self, var: BoolVar) -> (r: bool)
        requires
            literal_variable(var.0) < self.proto.solution@.len(),
        ensures
            r == literal_holds(var.0, self.assignment()),
    {
        let idx = var.index();
        if idx >= 0 {
            self.proto.solution[idx as usize] != 0
        } else {
            let neg = var.negated().index();
            self.proto.solution[neg as usize] == 0
        }
    }

    /// Assumptions sufficient for infeasibility (when status is Infeasible
    /// and assumptions were provided).
    pub fn sufficient_assumptions_for_infeasibility(&self) -> (r: &[i32])
        ensures
            r@ == self.proto.sufficient_assumptions_for_infeasibility@,
    {
        self.proto.sufficient_assumptions_for_infeasibility.as_slice()
    }

    /// Access the raw response proto.
    pub fn raw_proto(&self) -> (r: &CpSolverResponse)
        ensures
            *r == self.proto,
    {
        &self.proto
    }
}

/// The status numbers: 1 model invalid, 2 feasible, 3 infeasible, 4 optimal;
/// any other number reads as unknown.
pub proof fn law_status_numbers(n: i32)
    ensures
        n == 1 <==> status_of(n) == CpSolverStatus::ModelInvalid,
        n == 2 <==> status_of(n) == CpSolverStatus::Feasible,
        n == 3 <==> status_of(n) == CpSolverStatus::Infeasible,
        n == 4 <==> status_of(n) == CpSolverStatus::Optimal,
        !(1 <= n <= 4) <==> status_of(n) == CpSolverStatus::Unknown,
        has_solution(status_of(n)) <==> (n == 2 || n == 4),
{
}

/// A response that is optimal is feasible.
pub proof fn law_optimal_is_feasible(resp: SolveResponse)
    ensures
        status_of(resp.proto.status) == CpSolverStatus::Optimal ==> has_solution(
            status_of(resp.proto.status),
        ),
{
}

/// In a solution, a negated Boolean variable reads as the opposite of the variable.
pub proof fn law_negated_bool_value(resp: SolveResponse, b: BoolVar)
    ensures
        literal_holds(crate::vars::complement(b.0) as i32, resp.assignment()) == !literal_holds(
            b.0,
            resp.assignment(),
        ),
{
    crate::vars::law_negation_flips_truth(b, resp.assignment());
}

} // verus!
