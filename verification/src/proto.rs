//! The model and response messages, as plain values that mirror the
//! messages of `cp_model.proto` field for field (the fields this crate
//! writes or reads).
//!
//! Besides the data, this module states what the solver reads a message to
//! mean: the value of a linear expression, when a linear or Boolean
//! constraint holds, and the value of an objective, for an assignment `a` that
//! gives the variable at index `i` the value `a(i)`.
use crate::vars::literal_holds;
use vstd::prelude::*;

verus! {

/// An integer variable: its name and its domain, a flat list of `[lb, ub]` pairs.
#[derive(Debug, Clone, PartialEq, Default)]
pub struct IntegerVariableProto {
    pub name: String,
    pub domain: Vec<i64>,
}

/// `sum(coeffs[i] * vars[i]) + offset`.
#[derive(Debug, Clone, PartialEq, Default)]
pub struct LinearExpressionProto {
    pub vars: Vec<i32>,
    pub coeffs: Vec<i64>,
    pub offset: i64,
}

/// A list of literals.
#[derive(Debug, Clone, PartialEq, Default)]
pub struct BoolArgumentProto {
    pub literals: Vec<i32>,
}

/// `target` and a list of expressions (used by `lin_max`).
#[derive(Debug, Clone, PartialEq, Default)]
pub struct LinearArgumentProto {
    pub target: Option<LinearExpressionProto>,
    pub exprs: Vec<LinearExpressionProto>,
}

/// All expressions take different values.
#[derive(Debug, Clone, PartialEq, Default)]
pub struct AllDifferentConstraintProto {
    pub exprs: Vec<LinearExpressionProto>,
}

/// `sum(coeffs[i] * vars[i])` lies in `domain` (flat `[lb, ub]` pairs).
#[derive(Debug, Clone, PartialEq, Default)]
pub struct LinearConstraintProto {
    pub vars: Vec<i32>,
    pub coeffs: Vec<i64>,
    pub domain: Vec<i64>,
}

/// `vars[index] == target`.
#[derive(Debug, Clone, PartialEq, Default)]
pub struct ElementConstraintProto {
    pub index: i32,
    pub target: i32,
    pub vars: Vec<i32>,
    pub linear_index: Option<LinearExpressionProto>,
    pub linear_target: Option<LinearExpressionProto>,
    pub exprs: Vec<LinearExpressionProto>,
}

/// An interval `[start, end)` with `start + size == end`.
#[derive(Debug, Clone, PartialEq, Default)]
pub struct IntervalConstraintProto {
    pub start: Option<LinearExpressionProto>,
    pub end: Option<LinearExpressionProto>,
    pub size: Option<LinearExpressionProto>,
}

/// The intervals (constraint indices) do not overlap.
#[derive(Debug, Clone, PartialEq, Default)]
pub struct NoOverlapConstraintProto {
    pub intervals: Vec<i32>,
}

/// The rectangles `x_intervals[i] x y_intervals[i]` do not overlap.
#[derive(Debug, Clone, PartialEq, Default)]
pub struct NoOverlap2DConstraintProto {
    pub x_intervals: Vec<i32>,
    pub y_intervals: Vec<i32>,
}

/// At each time, the demands of the active intervals sum to at most `capacity`.
#[derive(Debug, Clone, PartialEq, Default)]
pub struct CumulativeConstraintProto {
    pub capacity: Option<LinearExpressionProto>,
    pub intervals: Vec<i32>,
    pub demands: Vec<LinearExpressionProto>,
}

/// The arcs `tails[i] -> heads[i]` whose literal is true form a Hamiltonian circuit.
#[derive(Debug, Clone, PartialEq, Default)]
pub struct CircuitConstraintProto {
    pub tails: Vec<i32>,
    pub heads: Vec<i32>,
    pub literals: Vec<i32>,
}

/// The values of `vars` form one of the tuples in `values` (flattened), or
/// none of them when `negated`.
#[derive(Debug, Clone, PartialEq, Default)]
pub struct TableConstraintProto {
    pub vars: Vec<i32>,
    pub values: Vec<i64>,
    pub exprs: Vec<LinearExpressionProto>,
    pub negated: bool,
}

/// The values of `vars` are a word accepted by the automaton.
#[derive(Debug, Clone, PartialEq, Default)]
pub struct AutomatonConstraintProto {
    pub starting_state: i64,
    pub final_states: Vec<i64>,
    pub transition_tail: Vec<i64>,
    pub transition_head: Vec<i64>,
    pub transition_label: Vec<i64>,
    pub vars: Vec<i32>,
    pub exprs: Vec<LinearExpressionProto>,
}

/// Expressions attached to each node of a routes constraint.
#[derive(Debug, Clone, PartialEq, Default)]
pub struct NodeExpressions {
    pub exprs: Vec<LinearExpressionProto>,
}

/// The arcs `tails[i] -> heads[i]` whose literal is true form routes from node 0.
#[derive(Debug, Clone, PartialEq, Default)]
pub struct RoutesConstraintProto {
    pub tails: Vec<i32>,
    pub heads: Vec<i32>,
    pub literals: Vec<i32>,
    pub demands: Vec<i32>,
    pub capacity: i64,
    pub dimensions: Vec<NodeExpressions>,
}

/// `f_direct` and `f_inverse` are inverse permutations.
#[derive(Debug, Clone, PartialEq, Default)]
pub struct InverseConstraintProto {
    pub f_direct: Vec<i32>,
    pub f_inverse: Vec<i32>,
}

/// The level, changed at each time by the active level changes, stays in
/// `[min_level, max_level]`.
#[derive(Debug, Clone, PartialEq, Default)]
pub struct ReservoirConstraintProto {
    pub min_level: i64,
    pub max_level: i64,
    pub time_exprs: Vec<LinearExpressionProto>,
    pub level_changes: Vec<LinearExpressionProto>,
    pub active_literals: Vec<i32>,
}

/// A list of variables.
#[derive(Debug, Clone, PartialEq, Default)]
pub struct ListOfVariablesProto {
    pub vars: Vec<i32>,
}

/// The kind of a constraint, with its arguments.
#[derive(Debug, Clone, PartialEq)]
pub enum Constraint {
    BoolOr(BoolArgumentProto),
    BoolAnd(BoolArgumentProto),
    AtMostOne(BoolArgumentProto),
    ExactlyOne(BoolArgumentProto),
    BoolXor(BoolArgumentProto),
    IntDiv(LinearArgumentProto),
    IntMod(LinearArgumentProto),
    IntProd(LinearArgumentProto),
    LinMax(LinearArgumentProto),
    Linear(LinearConstraintProto),
    AllDiff(AllDifferentConstraintProto),
    Element(ElementConstraintProto),
    Circuit(CircuitConstraintProto),
    Routes(RoutesConstraintProto),
    Table(TableConstraintProto),
    Automaton(AutomatonConstraintProto),
    Inverse(InverseConstraintProto),
    Reservoir(ReservoirConstraintProto),
    Interval(IntervalConstraintProto),
    NoOverlap(NoOverlapConstraintProto),
    NoOverlap2d(NoOverlap2DConstraintProto),
    Cumulative(CumulativeConstraintProto),
    DummyConstraint(ListOfVariablesProto),
}

/// A constraint, enforced only when all of `enforcement_literal` are true.
#[derive(Debug, Clone, PartialEq, Default)]
pub struct ConstraintProto {
    pub name: String,
    pub enforcement_literal: Vec<i32>,
    pub constraint: Option<Constraint>,
}

/// A linear objective. The solver minimizes `sum(coeffs[i] * vars[i]) + offset`
/// and reports that value times `scaling_factor` (a factor of 0 stands for 1).
/// Both `offset` and `scaling_factor` are doubles on the wire; the values this
/// crate writes are integers, kept here exactly. `domain` restricts the
/// objective's value; the `integer_*` fields and `scaling_was_exact` are filled
/// in by the solver.
#[derive(Debug, Clone, PartialEq, Default)]
pub struct CpObjectiveProto {
    pub vars: Vec<i32>,
    pub coeffs: Vec<i64>,
    pub offset: i128,
    pub scaling_factor: i64,
    pub domain: Vec<i64>,
    pub scaling_was_exact: bool,
    pub integer_before_offset: i64,
    pub integer_after_offset: i64,
    pub integer_scaling_factor: i64,
}

/// A partial assignment: `vars[i]` takes `values[i]`.
#[derive(Debug, Clone, PartialEq, Default)]
pub struct PartialVariableAssignment {
    pub vars: Vec<i32>,
    pub values: Vec<i64>,
}

/// A search strategy over some variables or expressions. The two strategies are
/// the numbers of `cp_model.proto`'s enums.
#[derive(Debug, Clone, PartialEq, Default)]
pub struct DecisionStrategyProto {
    pub variables: Vec<i32>,
    pub exprs: Vec<LinearExpressionProto>,
    pub variable_selection_strategy: i32,
    pub domain_reduction_strategy: i32,
}

/// A permutation in cycle notation over `support`.
#[derive(Debug, Clone, PartialEq, Default)]
pub struct SparsePermutationProto {
    pub support: Vec<i32>,
    pub cycle_sizes: Vec<i32>,
}

/// A matrix of variable indices, row by row.
#[derive(Debug, Clone, PartialEq, Default)]
pub struct DenseMatrixProto {
    pub num_rows: i32,
    pub num_cols: i32,
    pub entries: Vec<i32>,
}

/// Symmetries of a model.
#[derive(Debug, Clone, PartialEq, Default)]
pub struct SymmetryProto {
    pub permutations: Vec<SparsePermutationProto>,
    pub orbitopes: Vec<DenseMatrixProto>,
}

/// A whole model. (The floating-point objective of `cp_model.proto`, whose
/// coefficients are doubles, is not held.)
#[derive(Debug, Clone, PartialEq, Default)]
pub struct CpModelProto {
    pub name: String,
    pub variables: Vec<IntegerVariableProto>,
    pub constraints: Vec<ConstraintProto>,
    pub objective: Option<CpObjectiveProto>,
    pub search_strategy: Vec<DecisionStrategyProto>,
    pub solution_hint: Option<PartialVariableAssignment>,
    pub assumptions: Vec<i32>,
    pub symmetry: Option<SymmetryProto>,
}

/// The status of a solve.
#[derive(Debug, Clone, Copy, PartialEq, Eq, Hash, Structural)]
pub enum CpSolverStatus {
    Unknown,
    ModelInvalid,
    Feasible,
    Infeasible,
    Optimal,
}

/// One more solution found by the solver.
#[derive(Debug, Clone, PartialEq, Default)]
pub struct CpSolverSolution {
    pub values: Vec<i64>,
}

/// The solver's answer: all its fields but those that are doubles on the wire
/// (objective value and bound, times, gap integral). `status` is the number of
/// a `CpSolverStatus`.
#[derive(Debug, Clone, PartialEq, Default)]
pub struct CpSolverResponse {
    pub status: i32,
    pub solution: Vec<i64>,
    pub additional_solutions: Vec<CpSolverSolution>,
    pub tightened_variables: Vec<IntegerVariableProto>,
    pub sufficient_assumptions_for_infeasibility: Vec<i32>,
    pub integer_objective: Option<CpObjectiveProto>,
    pub inner_objective_lower_bound: i64,
    pub num_integers: i64,
    pub num_booleans: i64,
    pub num_fixed_booleans: i64,
    pub num_conflicts: i64,
    pub num_branches: i64,
    pub num_binary_propagations: i64,
    pub num_integer_propagations: i64,
    pub num_restarts: i64,
    pub num_lp_iterations: i64,
    pub solution_info: String,
    pub solve_log: String,
}

/// The status that a status number stands for; a number that names no status
/// reads as `Unknown`.
pub open spec fn status_of(n: i32) -> CpSolverStatus {
    if n == 1 {
        CpSolverStatus::ModelInvalid
    } else if n == 2 {
        CpSolverStatus::Feasible
    } else if n == 3 {
        CpSolverStatus::Infeasible
    } else if n == 4 {
        CpSolverStatus::Optimal
    } else {
        CpSolverStatus::Unknown
    }
}

/// `sum(coeffs[i] * a(vars[i]))` over the first `n` positions.
pub open spec fn linear_sum_prefix(vars: Seq<i32>, coeffs: Seq<i64>, n: int, a: spec_fn(int) -> int) -> int
    decreases n,
{
    if n <= 0 {
        0
    } else {
        linear_sum_prefix(vars, coeffs, n - 1, a) + coeffs[n - 1] * a(vars[n - 1] as int)
    }
}

/// `sum(coeffs[i] * a(vars[i]))` over all positions of `vars`.
pub open spec fn linear_sum(vars: Seq<i32>, coeffs: Seq<i64>, a: spec_fn(int) -> int) -> int {
    linear_sum_prefix(vars, coeffs, vars.len() as int, a)
}

/// Whether `v` lies in one of the intervals `[d[2i], d[2i + 1]]` of a flat domain.
pub open spec fn in_domain(d: Seq<i64>, v: int) -> bool {
    exists|i: int| 0 <= i && 2 * i + 1 < d.len() && #[trigger] d[2 * i] <= v <= d[2 * i + 1]
}

/// The largest of a non-empty list of integers.
pub open spec fn seq_max(s: Seq<int>) -> int
    decreases s.len(),
{
    if s.len() <= 1 {
        s[0]
    } else {
        let m = seq_max(s.drop_last());
        if s.last() > m { s.last() } else { m }
    }
}

/// The smallest of a non-empty list of integers.
pub open spec fn seq_min(s: Seq<int>) -> int
    decreases s.len(),
{
    if s.len() <= 1 {
        s[0]
    } else {
        let m = seq_min(s.drop_last());
        if s.last() < m { s.last() } else { m }
    }
}

impl LinearExpressionProto {
    /// The value of the expression.
    pub open spec fn value(&self, a: spec_fn(int) -> int) -> int {
        linear_sum(self.vars@, self.coeffs@, a) + self.offset
    }
}

impl LinearConstraintProto {
    /// The constraint holds: the weighted sum lies in the domain.
    pub open spec fn holds(&self, a: spec_fn(int) -> int) -> bool {
        in_domain(self.domain@, linear_sum(self.vars@, self.coeffs@, a))
    }
}

impl BoolArgumentProto {
    /// All literals are true (`bool_and`).
    pub open spec fn all_hold(&self, a: spec_fn(int) -> int) -> bool {
        forall|i: int| 0 <= i < self.literals@.len() ==> literal_holds(#[trigger] self.literals@[i], a)
    }

    /// Some literal is true (`bool_or`).
    pub open spec fn some_holds(&self, a: spec_fn(int) -> int) -> bool {
        exists|i: int| 0 <= i < self.literals@.len() && literal_holds(#[trigger] self.literals@[i], a)
    }
}

impl LinearArgumentProto {
    /// The values of the expressions.
    pub open spec fn expr_values(&self, a: spec_fn(int) -> int) -> Seq<int> {
        self.exprs@.map_values(|e: LinearExpressionProto| e.value(a))
    }

    /// `lin_max` holds: the target equals the largest of the expressions.
    pub open spec fn lin_max_holds(&self, a: spec_fn(int) -> int) -> bool {
        &&& self.target is Some
        &&& self.target.unwrap().value(a) == seq_max(self.expr_values(a))
    }
}

impl ConstraintProto {
    /// All enforcement literals are true, so the constraint applies.
    pub open spec fn enforced(&self, a: spec_fn(int) -> int) -> bool {
        forall|i: int|
            0 <= i < self.enforcement_literal@.len() ==> literal_holds(
                #[trigger] self.enforcement_literal@[i],
                a,
            )
    }
}

impl CpObjectiveProto {
    /// The value that the solver minimizes.
    pub open spec fn internal_value(&self, a: spec_fn(int) -> int) -> int {
        linear_sum(self.vars@, self.coeffs@, a) + self.offset
    }

    /// The value that the solver reports.
    pub open spec fn reported_value(&self, a: spec_fn(int) -> int) -> int {
        if self.scaling_factor == 0 {
            self.internal_value(a)
        } else {
            self.scaling_factor * self.internal_value(a)
        }
    }
}

} // verus!
