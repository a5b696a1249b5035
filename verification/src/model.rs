//! CpModel builder — the main entry point for constructing optimization models.
//!
//! Each builder call appends to the model's message (`CpModelProto`); its
//! contract says which message was appended and that nothing else changed.
use crate::expressions::{
    fits_i64, linear_view, negatable, negate_terms, term_coeffs, term_sum, term_vars,
    BoundedLinearExpr, IntoLinearExpr, LinearExpr,
};
use crate::proto::{
    in_domain, linear_sum, seq_max, seq_min, AllDifferentConstraintProto, AutomatonConstraintProto,
    BoolArgumentProto, CircuitConstraintProto, Constraint, ConstraintProto, CpModelProto,
    CpObjectiveProto, CumulativeConstraintProto, ElementConstraintProto, IntegerVariableProto,
    IntervalConstraintProto, LinearArgumentProto, LinearConstraintProto, LinearExpressionProto,
    NoOverlap2DConstraintProto, NoOverlapConstraintProto, PartialVariableAssignment,
    TableConstraintProto,
};
use crate::vars::{literal_holds, BoolVar, IntVar, IntervalVar};
use vstd::prelude::*;

verus! {

/// `core::ops::RangeInclusive::into_inner` hands back the range's two bounds;
/// this states that they are the start and end that the range was made with
/// (as `RangeInclusive::new` records them in vstd).
pub assume_specification<Idx>[ core::ops::RangeInclusive::<Idx>::into_inner ](
    r: core::ops::RangeInclusive<Idx>,
) -> (ret: (Idx, Idx))
    ensures
        ret.0 == r@.start,
        ret.1 == r@.end,
;

/// Domain specification for integer variables.
pub trait IntoDomain: Sized {
    /// Whether the value can be turned into a domain.
    spec fn is_convertible(&self) -> bool;

    /// The flat domain that the value stands for.
    spec fn domain_spec(&self) -> Seq<i64>;

    /// Convert to the flat domain representation used by CP-SAT proto.
    /// Format: pairs of [lb, ub] intervals, flattened into a single Vec.
    fn into_domain(self) -> (d: Vec<i64>)
        requires
            self.is_convertible(),
        ensures
            d@ == self.domain_spec(),
    ;
}

impl IntoDomain for (i64, i64) {
    open spec fn is_convertible(&self) -> bool {
        true
    }

    open spec fn domain_spec(&self) -> Seq<i64> {
        seq![self.0, self.1]
    }

    fn into_domain(self) -> (d: Vec<i64>) {
        vec![self.0, self.1]
    }
}

impl IntoDomain for core::ops::RangeInclusive<i64> {
    open spec fn is_convertible(&self) -> bool {
        true
    }

    open spec fn domain_spec(&self) -> Seq<i64> {
        seq![self@.start, self@.end]
    }

    fn into_domain(self) -> (d: Vec<i64>) {
        let (start, end) = self.into_inner();
        vec![start, end]
    }
}

impl IntoDomain for core::ops::Range<i64> {
    /// The half-open range needs an end above `i64::MIN`.
    open spec fn is_convertible(&self) -> bool {
        self.end != i64::MIN
    }

    open spec fn domain_spec(&self) -> Seq<i64> {
        seq![self.start, (self.end - 1) as i64]
    }

    fn into_domain(self) -> (d: Vec<i64>) {
        vec![self.start, self.end - 1]
    }
}

impl IntoDomain for i64 {
    open spec fn is_convertible(&self) -> bool {
        true
    }

    open spec fn domain_spec(&self) -> Seq<i64> {
        seq![*self, *self]
    }

    fn into_domain(self) -> (d: Vec<i64>) {
        vec![self, self]
    }
}

/// The pairs `(a, b)` laid out as `a, b, a, b, ...`.
pub open spec fn flatten_pairs(pairs: Seq<(i64, i64)>) -> Seq<i64> {
    Seq::new(2 * pairs.len(), |i: int| if i % 2 == 0 { pairs[i / 2].0 } else { pairs[i / 2].1 })
}

impl IntoDomain for Vec<(i64, i64)> {
    open spec fn is_convertible(&self) -> bool {
        true
    }

    open spec fn domain_spec(&self) -> Seq<i64> {
        flatten_pairs(self@)
    }

    fn into_domain(self) -> (d: Vec<i64>) {
        let mut d: Vec<i64> = Vec::new();
        let mut i: usize = 0;
        while i < self.len()
            invariant
                i <= self.len(),
                d@.len() == 2 * i,
                forall|j: int| 0 <= j < 2 * i ==> d@[j] == flatten_pairs(self@)[j],
            decreases self.len() - i,
        {
            let (a, b) = self[i];
            d.push(a);
            d.push(b);
            assert(flatten_pairs(self@)[2 * i as int] == a);
            assert(flatten_pairs(self@)[2 * i as int + 1] == b);
            i = i + 1;
        }
        assert(d@ =~= flatten_pairs(self@));
        d
    }
}

impl IntoDomain for core::ops::RangeInclusive<i32> {
    open spec fn is_convertible(&self) -> bool {
        true
    }

    open spec fn domain_spec(&self) -> Seq<i64> {
        seq![self@.start as i64, self@.end as i64]
    }

    fn into_domain(self) -> (d: Vec<i64>) {
        let (start, end) = self.into_inner();
        vec![start as i64, end as i64]
    }
}


/// The literal of each Boolean variable.
pub open spec fn literal_indices(lits: Seq<BoolVar>) -> Seq<i32> {
    lits.map_values(|b: BoolVar| b.0)
}

/// The index of each integer variable.
pub open spec fn var_indices(vars: Seq<IntVar>) -> Seq<i32> {
    vars.map_values(|v: IntVar| v.0)
}

/// The constraint index of each interval variable.
pub open spec fn interval_indices(ivs: Seq<IntervalVar>) -> Seq<i32> {
    ivs.map_values(|v: IntervalVar| v.0)
}

/// `p` is the expression `coeff * var`.
pub open spec fn is_var_expr(p: LinearExpressionProto, var: i32, coeff: i64) -> bool {
    p.vars@ == seq![var] && p.coeffs@ == seq![coeff] && p.offset == 0
}

/// `p` is the message form of the expression with terms `v.0` and constant `v.1`.
pub open spec fn is_expr_proto_of(p: LinearExpressionProto, v: (Seq<(IntVar, i64)>, i64)) -> bool {
    p.vars@ == term_vars(v.0) && p.coeffs@ == term_coeffs(v.0) && p.offset == v.1
}

/// `p` is the message form of `e`.
pub open spec fn is_expr_proto(p: LinearExpressionProto, e: LinearExpr) -> bool {
    is_expr_proto_of(p, (e.terms@, e.constant))
}

/// `o` holds the message form of the expression with terms `v.0` and constant `v.1`.
pub open spec fn holds_expr_proto(o: Option<LinearExpressionProto>, v: (Seq<(IntVar, i64)>, i64)) -> bool {
    o matches Some(p) && is_expr_proto_of(p, v)
}

/// `ps` is `coeff * vars[i]` for each `i`.
pub open spec fn are_var_exprs(ps: Seq<LinearExpressionProto>, vars: Seq<IntVar>, coeff: i64) -> bool {
    ps.len() == vars.len() && forall|i: int| 0 <= i < ps.len() ==> is_var_expr(#[trigger] ps[i], vars[i].0, coeff)
}

/// A constraint without a name or enforcement literals.
pub open spec fn is_plain(c: ConstraintProto) -> bool {
    c.name@ == Seq::<char>::empty() && c.enforcement_literal@ == Seq::<i32>::empty()
}

/// `c` is the interval `start + size == end` named `name`, enforced by `enforcement`.
pub open spec fn is_interval(
    c: ConstraintProto,
    start: (Seq<(IntVar, i64)>, i64),
    size: (Seq<(IntVar, i64)>, i64),
    end: (Seq<(IntVar, i64)>, i64),
    name: Seq<char>,
    enforcement: Seq<i32>,
) -> bool {
    &&& c.name@ == name
    &&& c.enforcement_literal@ == enforcement
    &&& c.constraint matches Some(Constraint::Interval(iv))
        && holds_expr_proto(iv.start, start)
        && holds_expr_proto(iv.size, size)
        && holds_expr_proto(iv.end, end)
}

/// The lower bound that `add` posts for the terms of an expression with constant `k`:
/// `i64::MIN` stays unbounded, any other bound moves by `-k`.
pub open spec fn shifted_lower(lb: i64, k: i64) -> int {
    if lb == i64::MIN { i64::MIN as int } else { lb - k }
}

/// The upper bound that `add` posts: `i64::MAX` stays unbounded, any other moves by `-k`.
pub open spec fn shifted_upper(ub: i64, k: i64) -> int {
    if ub == i64::MAX { i64::MAX as int } else { ub - k }
}

/// `lc` is the linear constraint that `add` posts for `b`: the terms of the
/// expression, with the constant moved to the bounds.
pub open spec fn is_linear_for(lc: LinearConstraintProto, b: BoundedLinearExpr) -> bool {
    &&& lc.vars@ == term_vars(b.expr.terms@)
    &&& lc.coeffs@ == term_coeffs(b.expr.terms@)
    &&& lc.domain@.len() == 2
    &&& lc.domain@[0] == shifted_lower(b.lb, b.expr.constant)
    &&& lc.domain@[1] == shifted_upper(b.ub, b.expr.constant)
}

/// `add` can move the constant to the bounds within `i64`.
pub open spec fn shiftable(b: BoundedLinearExpr) -> bool {
    &&& (b.lb == i64::MIN || fits_i64(b.lb - b.expr.constant))
    &&& (b.ub == i64::MAX || fits_i64(b.ub - b.expr.constant))
}

/// `c` is the implication `a => b`: enforced by `a`, it requires `b`.
pub open spec fn is_implication(c: ConstraintProto, a: i32, b: i32) -> bool {
    &&& c.name@ == Seq::<char>::empty()
    &&& c.enforcement_literal@ == seq![a]
    &&& c.constraint matches Some(Constraint::BoolAnd(arg)) && arg.literals@ == seq![b]
}

/// `arg` is the `lin_max` form of `target == max(vars)` (with `coeff == 1`) or of
/// `-target == max(-vars)`, i.e. `target == min(vars)` (with `coeff == -1`).
pub open spec fn is_lin_max_of(arg: LinearArgumentProto, target: IntVar, vars: Seq<IntVar>, coeff: i64) -> bool {
    &&& arg.target matches Some(t) && is_var_expr(t, target.0, coeff)
    &&& are_var_exprs(arg.exprs@, vars, coeff)
}

/// The tuples laid end to end.
pub open spec fn flatten_tuples(tuples: Seq<Vec<i64>>) -> Seq<i64> {
    tuples.map_values(|t: Vec<i64>| t@).flatten()
}

fn literals_of(lits: &[BoolVar]) -> (r: Vec<i32>)
    ensures
        r@ == literal_indices(lits@),
{
    let mut r: Vec<i32> = Vec::new();
    let mut i: usize = 0;
    while i < lits.len()
        invariant
            i <= lits.len(),
            r@ == literal_indices(lits@.take(i as int)),
        decreases lits.len() - i,
    {
        r.push(lits[i].index());
        assert(lits@.take(i as int + 1) =~= lits@.take(i as int).push(lits@[i as int]));
        i = i + 1;
    }
    assert(lits@.take(lits.len() as int) =~= lits@);
    r
}

fn indices_of(vars: &[IntVar]) -> (r: Vec<i32>)
    ensures
        r@ == var_indices(vars@),
{
    let mut r: Vec<i32> = Vec::new();
    let mut i: usize = 0;
    while i < vars.len()
        invariant
            i <= vars.len(),
            r@ == var_indices(vars@.take(i as int)),
        decreases vars.len() - i,
    {
        r.push(vars[i].0);
        assert(vars@.take(i as int + 1) =~= vars@.take(i as int).push(vars@[i as int]));
        i = i + 1;
    }
    assert(vars@.take(vars.len() as int) =~= vars@);
    r
}

fn intervals_of(ivs: &[IntervalVar]) -> (r: Vec<i32>)
    ensures
        r@ == interval_indices(ivs@),
{
    let mut r: Vec<i32> = Vec::new();
    let mut i: usize = 0;
    while i < ivs.len()
        invariant
            i <= ivs.len(),
            r@ == interval_indices(ivs@.take(i as int)),
        decreases ivs.len() - i,
    {
        r.push(ivs[i].0);
        assert(ivs@.take(i as int + 1) =~= ivs@.take(i as int).push(ivs@[i as int]));
        i = i + 1;
    }
    assert(ivs@.take(ivs.len() as int) =~= ivs@);
    r
}

fn var_expr(var: IntVar, coeff: i64) -> (r: LinearExpressionProto)
    ensures
        is_var_expr(r, var.0, coeff),
{
    let r = LinearExpressionProto { vars: vec![var.0], coeffs: vec![coeff], offset: 0 };
    assert(r.vars@ =~= seq![var.0]);
    assert(r.coeffs@ =~= seq![coeff]);
    r
}

fn var_exprs(vars: &[IntVar], coeff: i64) -> (r: Vec<LinearExpressionProto>)
    ensures
        are_var_exprs(r@, vars@, coeff),
{
    let mut r: Vec<LinearExpressionProto> = Vec::new();
    let mut i: usize = 0;
    while i < vars.len()
        invariant
            i <= vars.len(),
            r@.len() == i,
            forall|j: int| 0 <= j < i ==> is_var_expr(#[trigger] r@[j], vars@[j].0, coeff),
        decreases vars.len() - i,
    {
        r.push(var_expr(vars[i], coeff));
        i = i + 1;
    }
    r
}

fn expr_protos(exprs: &[LinearExpr]) -> (r: Vec<LinearExpressionProto>)
    ensures
        r@.len() == exprs@.len(),
        forall|i: int| 0 <= i < r@.len() ==> is_expr_proto(#[trigger] r@[i], exprs@[i]),
{
    let mut r: Vec<LinearExpressionProto> = Vec::new();
    let mut i: usize = 0;
    while i < exprs.len()
        invariant
            i <= exprs.len(),
            r@.len() == i,
            forall|j: int| 0 <= j < i ==> is_expr_proto(#[trigger] r@[j], exprs@[j]),
        decreases exprs.len() - i,
    {
        r.push(exprs[i].to_proto());
        i = i + 1;
    }
    r
}


/// `obj` minimizes the expression with terms `e.0` and constant `e.1`: its
/// terms, its constant as offset, no scaling.
pub open spec fn is_minimize_of(obj: CpObjectiveProto, e: (Seq<(IntVar, i64)>, i64)) -> bool {
    &&& obj.vars@ == term_vars(e.0)
    &&& obj.coeffs@ == term_coeffs(e.0)
    &&& obj.offset == e.1
    &&& obj.scaling_factor == 0
    &&& has_no_solver_fields(obj)
}

/// `obj` maximizes the expression with terms `e.0` and constant `e.1` by
/// minimizing its negation and reporting with a factor of `-1`.
pub open spec fn is_maximize_of(obj: CpObjectiveProto, e: (Seq<(IntVar, i64)>, i64)) -> bool {
    &&& obj.vars@ == term_vars(e.0)
    &&& obj.coeffs@ == term_coeffs(negate_terms(e.0))
    &&& obj.offset == -e.1
    &&& obj.scaling_factor == -1
    &&& has_no_solver_fields(obj)
}

/// The objective has no domain, and the fields that the solver fills in are unset.
pub open spec fn has_no_solver_fields(obj: CpObjectiveProto) -> bool {
    &&& obj.domain@ == Seq::<i64>::empty()
    &&& !obj.scaling_was_exact
    &&& obj.integer_before_offset == 0
    &&& obj.integer_after_offset == 0
    &&& obj.integer_scaling_factor == 0
}

/// The search strategy, assumptions and symmetries are the same in both models.
pub open spec fn same_search_settings(old: CpModelProto, new: CpModelProto) -> bool {
    &&& new.search_strategy == old.search_strategy
    &&& new.assumptions == old.assumptions
    &&& new.symmetry == old.symmetry
}

/// `new` is `old` with its objective replaced, and nothing else changed.
pub open spec fn sets_objective(old: CpModelProto, new: CpModelProto) -> bool {
    &&& new.variables == old.variables
    &&& new.constraints == old.constraints
    &&& new.solution_hint == old.solution_hint
    &&& new.name == old.name
    &&& same_search_settings(old, new)
}

/// The hinted variables of a model (none without a hint).
pub open spec fn hint_vars(p: CpModelProto) -> Seq<i32> {
    match p.solution_hint {
        Some(h) => h.vars@,
        None => Seq::empty(),
    }
}

/// The hinted values of a model (none without a hint).
pub open spec fn hint_values(p: CpModelProto) -> Seq<i64> {
    match p.solution_hint {
        Some(h) => h.values@,
        None => Seq::empty(),
    }
}

/// Values that can name a variable or an interval: string slices and strings.
pub trait IntoName: Sized {
    /// The name that the value stands for.
    spec fn name_spec(&self) -> Seq<char>;

    /// The name as an owned string.
    fn into_name(self) -> (s: String)
        ensures
            s@ == self.name_spec(),
    ;
}

impl<'a> IntoName for &'a str {
    open spec fn name_spec(&self) -> Seq<char> {
        (*self)@
    }

    fn into_name(self) -> (s: String) {
        self.to_owned()
    }
}

impl IntoName for String {
    open spec fn name_spec(&self) -> Seq<char> {
        self@
    }

    fn into_name(self) -> (s: String) {
        self
    }
}

impl<'a> IntoName for &'a String {
    open spec fn name_spec(&self) -> Seq<char> {
        (*self)@
    }

    fn into_name(self) -> (s: String) {
        self.clone()
    }
}

/// A CP-SAT model builder.
///
/// Construct variables, add constraints, set an objective, then solve.
pub struct CpModel {
    pub proto: CpModelProto,
}

/// `new` is `old` with one more variable at the end, and nothing else changed.
pub open spec fn adds_variable(old: CpModelProto, new: CpModelProto) -> bool {
    &&& new.variables@.len() == old.variables@.len() + 1
    &&& new.variables@.drop_last() == old.variables@
    &&& new.constraints == old.constraints
    &&& new.objective == old.objective
    &&& new.solution_hint == old.solution_hint
    &&& new.name == old.name
    &&& same_search_settings(old, new)
}

/// `new` is `old` with one more constraint at the end, and nothing else changed.
pub open spec fn adds_constraint(old: CpModelProto, new: CpModelProto) -> bool {
    &&& new.constraints@.len() == old.constraints@.len() + 1
    &&& new.constraints@.drop_last() == old.constraints@
    &&& new.variables == old.variables
    &&& new.objective == old.objective
    &&& new.solution_hint == old.solution_hint
    &&& new.name == old.name
    &&& same_search_settings(old, new)
}

/// A variable with the given name and flat domain.
pub open spec fn is_variable(v: IntegerVariableProto, name: Seq<char>, domain: Seq<i64>) -> bool {
    v.name@ == name && v.domain@ == domain
}

impl CpModel {
    /// The model has no name, variables, constraints, objective, hint, search
    /// strategy, assumptions or symmetries.
    pub open spec fn is_empty(&self) -> bool {
        &&& self.proto.name@ == Seq::<char>::empty()
        &&& self.proto.variables@ == Seq::<IntegerVariableProto>::empty()
        &&& self.proto.constraints@ == Seq::<ConstraintProto>::empty()
        &&& self.proto.objective is None
        &&& self.proto.solution_hint is None
        &&& self.proto.search_strategy@ == Seq::<crate::proto::DecisionStrategyProto>::empty()
        &&& self.proto.assumptions@ == Seq::<i32>::empty()
        &&& self.proto.symmetry is None
    }

    /// The most recently added variable.
    pub open spec fn last_variable(&self) -> IntegerVariableProto {
        self.proto.variables@.last()
    }

    /// The most recently added constraint.
    pub open spec fn last_constraint(&self) -> ConstraintProto {
        self.proto.constraints@.last()
    }

    /// Create a new empty model.
    pub fn new() -> (r: Self)
        ensures
            r.is_empty(),
    {
        CpModel {
            proto: CpModelProto {
                name: String::new(),
                variables: Vec::new(),
                constraints: Vec::new(),
                objective: None,
                search_strategy: Vec::new(),
                solution_hint: None,
                assumptions: Vec::new(),
                symmetry: None,
            },
        }
    }

    fn push_variable(&mut self, name: String, domain: Vec<i64>) -> (idx: i32)
        ensures
            idx == old(self).proto.variables@.len() as i32,
            adds_variable(old(self).proto, final(self).proto),
            is_variable(final(self).last_variable(), name@, domain@),
    {
        let idx = #[verifier::truncate] (self.proto.variables.len() as i32);
        self.proto.variables.push(IntegerVariableProto { name, domain });
        assert(self.proto.variables@.drop_last() =~= old(self).proto.variables@);
        idx
    }

    // ───── Variable creation ─────

    /// Add an integer variable with the given domain.
    pub fn new_int_var(&mut self, domain: impl IntoDomain, name: impl IntoName) -> (v: IntVar)
        requires
            domain.is_convertible(),
        ensures
            v.0 == old(self).proto.variables@.len() as i32,
            old(self).proto.variables@.len() <= i32::MAX ==> v.0 == old(self).proto.variables@.len(),
            adds_variable(old(self).proto, final(self).proto),
            is_variable(final(self).last_variable(), name.name_spec(), domain.domain_spec()),
    {
        let d = domain.into_domain();
        IntVar(self.push_variable(name.into_name(), d))
    }

    /// Add a Boolean variable (domain [0, 1]).
    pub fn new_bool_var(&mut self, name: impl IntoName) -> (v: BoolVar)
        ensures
            v.0 == old(self).proto.variables@.len() as i32,
            old(self).proto.variables@.len() <= i32::MAX ==> v.0 == old(self).proto.variables@.len(),
            adds_variable(old(self).proto, final(self).proto),
            is_variable(final(self).last_variable(), name.name_spec(), seq![0i64, 1]),
    {
        BoolVar(self.push_variable(name.into_name(), vec![0, 1]))
    }

    /// Add a constant variable.
    pub fn new_constant(&mut self, value: i64) -> (v: IntVar)
        ensures
            v.0 == old(self).proto.variables@.len() as i32,
            old(self).proto.variables@.len() <= i32::MAX ==> v.0 == old(self).proto.variables@.len(),
            adds_variable(old(self).proto, final(self).proto),
            is_variable(final(self).last_variable(), Seq::<char>::empty(), seq![value, value]),
    {
        IntVar(self.push_variable(String::new(), vec![value, value]))
    }


    fn push_constraint(&mut self, name: String, enforcement: Vec<i32>, c: Constraint)
        ensures
            adds_constraint(old(self).proto, final(self).proto),
            final(self).last_constraint().name@ == name@,
            final(self).last_constraint().enforcement_literal@ == enforcement@,
            final(self).last_constraint().constraint == Some(c),
    {
        self.proto.constraints.push(
            ConstraintProto { name, enforcement_literal: enforcement, constraint: Some(c) },
        );
        assert(self.proto.constraints@.drop_last() =~= old(self).proto.constraints@);
    }

    /// Add an interval variable defined by start, size, and end expressions.
    /// Implicitly enforces start + size == end.
    pub fn new_interval_var(
        &mut self,
        start: impl IntoLinearExpr,
        size: impl IntoLinearExpr,
        end: impl IntoLinearExpr,
        name: impl IntoName,
    ) -> (v: IntervalVar)
        ensures
            v.0 == old(self).proto.constraints@.len() as i32,
            old(self).proto.constraints@.len() <= i32::MAX ==> v.0 == old(self).proto.constraints@.len(),
            adds_constraint(old(self).proto, final(self).proto),
            is_interval(
                final(self).last_constraint(),
                linear_view(start),
                linear_view(size),
                linear_view(end),
                name.name_spec(),
                Seq::empty(),
            ),
    {
        let c = Constraint::Interval(IntervalConstraintProto {
            start: Some(start.into_linear_expr().to_proto()),
            size: Some(size.into_linear_expr().to_proto()),
            end: Some(end.into_linear_expr().to_proto()),
        });
        let idx = #[verifier::truncate] (self.proto.constraints.len() as i32);
        self.push_constraint(name.into_name(), Vec::new(), c);
        IntervalVar(idx)
    }

    /// Add an optional interval variable, active only when `is_present` is true.
    pub fn new_optional_interval_var(
        &mut self,
        start: impl IntoLinearExpr,
        size: impl IntoLinearExpr,
        end: impl IntoLinearExpr,
        is_present: BoolVar,
        name: impl IntoName,
    ) -> (v: IntervalVar)
        ensures
            v.0 == old(self).proto.constraints@.len() as i32,
            old(self).proto.constraints@.len() <= i32::MAX ==> v.0 == old(self).proto.constraints@.len(),
            adds_constraint(old(self).proto, final(self).proto),
            is_interval(
                final(self).last_constraint(),
                linear_view(start),
                linear_view(size),
                linear_view(end),
                name.name_spec(),
                seq![is_present.0],
            ),
    {
        let c = Constraint::Interval(IntervalConstraintProto {
            start: Some(start.into_linear_expr().to_proto()),
            size: Some(size.into_linear_expr().to_proto()),
            end: Some(end.into_linear_expr().to_proto()),
        });
        let enforcement = vec![is_present.index()];
        assert(enforcement@ =~= seq![is_present.0]);
        let idx = #[verifier::truncate] (self.proto.constraints.len() as i32);
        self.push_constraint(name.into_name(), enforcement, c);
        IntervalVar(idx)
    }

    // ───── Constraints ─────

    /// Add a bounded linear constraint: lb <= expr <= ub.
    /// The expression's constant is moved to the bounds.
    pub fn add(&mut self, bounded: BoundedLinearExpr) -> (r: &mut Self)
        requires
            shiftable(bounded),
        ensures
            adds_constraint(old(self).proto, r.proto),
            is_plain(r.last_constraint()),
            r.last_constraint().constraint matches Some(Constraint::Linear(lc)) && is_linear_for(lc, bounded),
            *final(self) == *final(r),
    {
        let expr = bounded.expr;
        let adj_lb = if bounded.lb == i64::MIN { i64::MIN } else { bounded.lb - expr.constant };
        let adj_ub = if bounded.ub == i64::MAX { i64::MAX } else { bounded.ub - expr.constant };
        let p = expr.to_proto();
        let c = Constraint::Linear(LinearConstraintProto {
            vars: p.vars,
            coeffs: p.coeffs,
            domain: vec![adj_lb, adj_ub],
        });
        self.push_constraint(String::new(), Vec::new(), c);
        self
    }

    /// All variables must take different values.
    pub fn add_all_different(&mut self, vars: &[IntVar]) -> (r: &mut Self)
        ensures
            adds_constraint(old(self).proto, r.proto),
            is_plain(r.last_constraint()),
            r.last_constraint().constraint matches Some(Constraint::AllDiff(ad)) && are_var_exprs(ad.exprs@, vars@, 1),
            *final(self) == *final(r),
    {
        let c = Constraint::AllDiff(AllDifferentConstraintProto { exprs: var_exprs(vars, 1) });
        self.push_constraint(String::new(), Vec::new(), c);
        self
    }

    /// Intervals must not overlap in time (disjunctive constraint).
    pub fn add_no_overlap(&mut self, intervals: &[IntervalVar]) -> (r: &mut Self)
        ensures
            adds_constraint(old(self).proto, r.proto),
            is_plain(r.last_constraint()),
            r.last_constraint().constraint matches Some(Constraint::NoOverlap(no))
                && no.intervals@ == interval_indices(intervals@),
            *final(self) == *final(r),
    {
        let c = Constraint::NoOverlap(NoOverlapConstraintProto { intervals: intervals_of(intervals) });
        self.push_constraint(String::new(), Vec::new(), c);
        self
    }

    /// 2D no-overlap: x_intervals[i] and y_intervals[i] define rectangles
    /// that must not overlap.
    pub fn add_no_overlap_2d(&mut self, x_intervals: &[IntervalVar], y_intervals: &[IntervalVar]) -> (r: &mut Self)
        ensures
            adds_constraint(old(self).proto, r.proto),
            is_plain(r.last_constraint()),
            r.last_constraint().constraint matches Some(Constraint::NoOverlap2d(no))
                && no.x_intervals@ == interval_indices(x_intervals@)
                && no.y_intervals@ == interval_indices(y_intervals@),
            *final(self) == *final(r),
    {
        let c = Constraint::NoOverlap2d(NoOverlap2DConstraintProto {
            x_intervals: intervals_of(x_intervals),
            y_intervals: intervals_of(y_intervals),
        });
        self.push_constraint(String::new(), Vec::new(), c);
        self
    }

    /// Cumulative constraint: at any point in time, the sum of demands
    /// of active intervals must not exceed capacity.
    pub fn add_cumulative(
        &mut self,
        intervals: &[IntervalVar],
        demands: &[LinearExpr],
        capacity: impl IntoLinearExpr,
    ) -> (r: &mut Self)
        ensures
            adds_constraint(old(self).proto, r.proto),
            is_plain(r.last_constraint()),
            r.last_constraint().constraint matches Some(Constraint::Cumulative(cu))
                && cu.intervals@ == interval_indices(intervals@)
                && cu.demands@.len() == demands@.len()
                && (forall|i: int| 0 <= i < demands@.len() ==> is_expr_proto(#[trigger] cu.demands@[i], demands@[i]))
                && holds_expr_proto(cu.capacity, linear_view(capacity)),
            *final(self) == *final(r),
    {
        let c = Constraint::Cumulative(CumulativeConstraintProto {
            intervals: intervals_of(intervals),
            demands: expr_protos(demands),
            capacity: Some(capacity.into_linear_expr().to_proto()),
        });
        self.push_constraint(String::new(), Vec::new(), c);
        self
    }

    /// Circuit constraint: find a Hamiltonian circuit.
    /// Each arc is (tail_node, head_node, literal).
    pub fn add_circuit(&mut self, arcs: &[(i32, i32, BoolVar)]) -> (r: &mut Self)
        ensures
            adds_constraint(old(self).proto, r.proto),
            is_plain(r.last_constraint()),
            r.last_constraint().constraint matches Some(Constraint::Circuit(ci))
                && ci.tails@ == arcs@.map_values(|arc: (i32, i32, BoolVar)| arc.0)
                && ci.heads@ == arcs@.map_values(|arc: (i32, i32, BoolVar)| arc.1)
                && ci.literals@ == arcs@.map_values(|arc: (i32, i32, BoolVar)| arc.2.0),
            *final(self) == *final(r),
    {
        let mut tails: Vec<i32> = Vec::new();
        let mut heads: Vec<i32> = Vec::new();
        let mut literals: Vec<i32> = Vec::new();
        let mut i: usize = 0;
        while i < arcs.len()
            invariant
                i <= arcs.len(),
                tails@ == arcs@.take(i as int).map_values(|arc: (i32, i32, BoolVar)| arc.0),
                heads@ == arcs@.take(i as int).map_values(|arc: (i32, i32, BoolVar)| arc.1),
                literals@ == arcs@.take(i as int).map_values(|arc: (i32, i32, BoolVar)| arc.2.0),
            decreases arcs.len() - i,
        {
            let (t, h, l) = arcs[i];
            tails.push(t);
            heads.push(h);
            literals.push(l.index());
            assert(arcs@.take(i as int + 1) =~= arcs@.take(i as int).push(arcs@[i as int]));
            i = i + 1;
        }
        assert(arcs@.take(arcs.len() as int) =~= arcs@);
        let c = Constraint::Circuit(CircuitConstraintProto { tails, heads, literals });
        self.push_constraint(String::new(), Vec::new(), c);
        self
    }

    /// Table constraint: vars must take one of the allowed tuples.
    pub fn add_table(&mut self, vars: &[IntVar], tuples: &[Vec<i64>], negated: bool) -> (r: &mut Self)
        ensures
            adds_constraint(old(self).proto, r.proto),
            is_plain(r.last_constraint()),
            r.last_constraint().constraint matches Some(Constraint::Table(ta))
                && ta.vars@ == var_indices(vars@)
                && ta.values@ == flatten_tuples(tuples@)
                && ta.negated == negated
                && ta.exprs@.len() == 0,
            *final(self) == *final(r),
    {
        let mut values: Vec<i64> = Vec::new();
        let mut i: usize = 0;
        while i < tuples.len()
            invariant
                i <= tuples.len(),
                values@ == flatten_tuples(tuples@.take(i as int)),
            decreases tuples.len() - i,
        {
            let t = &tuples[i];
            let ghost before = values@;
            let mut j: usize = 0;
            while j < t.len()
                invariant
                    j <= t.len(),
                    values@ == before + t@.take(j as int),
                decreases t.len() - j,
            {
                values.push(t[j]);
                assert(t@.take(j as int + 1) =~= t@.take(j as int).push(t@[j as int]));
                j = j + 1;
            }
            assert(t@.take(t.len() as int) =~= t@);
            proof {
                let s = tuples@.take(i as int).map_values(|t: Vec<i64>| t@);
                assert(tuples@.take(i as int + 1).map_values(|t: Vec<i64>| t@) =~= s.push(t@));
                s.lemma_flatten_push(t@);
            }
            i = i + 1;
        }
        assert(tuples@.take(tuples.len() as int) =~= tuples@);
        let c = Constraint::Table(TableConstraintProto {
            vars: indices_of(vars),
            values,
            negated,
            exprs: Vec::new(),
        });
        self.push_constraint(String::new(), Vec::new(), c);
        self
    }

    /// Automaton constraint. Each transition is (tail, label, head).
    pub fn add_automaton(
        &mut self,
        vars: &[IntVar],
        starting_state: i64,
        final_states: &[i64],
        transitions: &[(i64, i64, i64)],
    ) -> (r: &mut Self)
        ensures
            adds_constraint(old(self).proto, r.proto),
            is_plain(r.last_constraint()),
            r.last_constraint().constraint matches Some(Constraint::Automaton(au))
                && au.vars@ == var_indices(vars@)
                && au.starting_state == starting_state
                && au.final_states@ == final_states@
                && au.transition_tail@ == transitions@.map_values(|t: (i64, i64, i64)| t.0)
                && au.transition_label@ == transitions@.map_values(|t: (i64, i64, i64)| t.1)
                && au.transition_head@ == transitions@.map_values(|t: (i64, i64, i64)| t.2)
                && au.exprs@.len() == 0,
            *final(self) == *final(r),
    {
        let mut tails: Vec<i64> = Vec::new();
        let mut heads: Vec<i64> = Vec::new();
        let mut labels: Vec<i64> = Vec::new();
        let mut i: usize = 0;
        while i < transitions.len()
            invariant
                i <= transitions.len(),
                tails@ == transitions@.take(i as int).map_values(|t: (i64, i64, i64)| t.0),
                labels@ == transitions@.take(i as int).map_values(|t: (i64, i64, i64)| t.1),
                heads@ == transitions@.take(i as int).map_values(|t: (i64, i64, i64)| t.2),
            decreases transitions.len() - i,
        {
            let (t, l, h) = transitions[i];
            tails.push(t);
            heads.push(h);
            labels.push(l);
            assert(transitions@.take(i as int + 1) =~= transitions@.take(i as int).push(transitions@[i as int]));
            i = i + 1;
        }
        assert(transitions@.take(transitions.len() as int) =~= transitions@);
        let mut finals: Vec<i64> = Vec::new();
        let mut k: usize = 0;
        while k < final_states.len()
            invariant
                k <= final_states.len(),
                finals@ == final_states@.take(k as int),
            decreases final_states.len() - k,
        {
            finals.push(final_states[k]);
            assert(final_states@.take(k as int + 1) =~= final_states@.take(k as int).push(final_states@[k as int]));
            k = k + 1;
        }
        assert(final_states@.take(final_states.len() as int) =~= final_states@);
        let c = Constraint::Automaton(AutomatonConstraintProto {
            vars: indices_of(vars),
            starting_state,
            final_states: finals,
            transition_tail: tails,
            transition_head: heads,
            transition_label: labels,
            exprs: Vec::new(),
        });
        self.push_constraint(String::new(), Vec::new(), c);
        self
    }

    /// Element constraint: target == array[index].
    pub fn add_element(&mut self, index: IntVar, array: &[IntVar], target: IntVar) -> (r: &mut Self)
        ensures
            adds_constraint(old(self).proto, r.proto),
            is_plain(r.last_constraint()),
            r.last_constraint().constraint matches Some(Constraint::Element(el))
                && el.index == index.0
                && el.target == target.0
                && el.vars@ == var_indices(array@)
                && el.linear_index is None
                && el.linear_target is None
                && el.exprs@.len() == 0,
            *final(self) == *final(r),
    {
        let c = Constraint::Element(ElementConstraintProto {
            index: index.0,
            target: target.0,
            vars: indices_of(array),
            linear_index: None,
            linear_target: None,
            exprs: Vec::new(),
        });
        self.push_constraint(String::new(), Vec::new(), c);
        self
    }

    /// At least one literal must be true.
    pub fn add_bool_or(&mut self, literals: &[BoolVar]) -> (r: &mut Self)
        ensures
            adds_constraint(old(self).proto, r.proto),
            is_plain(r.last_constraint()),
            r.last_constraint().constraint matches Some(Constraint::BoolOr(arg))
                && arg.literals@ == literal_indices(literals@),
            *final(self) == *final(r),
    {
        let c = Constraint::BoolOr(BoolArgumentProto { literals: literals_of(literals) });
        self.push_constraint(String::new(), Vec::new(), c);
        self
    }

    /// All literals must be true.
    pub fn add_bool_and(&mut self, literals: &[BoolVar]) -> (r: &mut Self)
        ensures
            adds_constraint(old(self).proto, r.proto),
            is_plain(r.last_constraint()),
            r.last_constraint().constraint matches Some(Constraint::BoolAnd(arg))
                && arg.literals@ == literal_indices(literals@),
            *final(self) == *final(r),
    {
        let c = Constraint::BoolAnd(BoolArgumentProto { literals: literals_of(literals) });
        self.push_constraint(String::new(), Vec::new(), c);
        self
    }

    /// Exactly one literal must be true.
    pub fn add_exactly_one(&mut self, literals: &[BoolVar]) -> (r: &mut Self)
        ensures
            adds_constraint(old(self).proto, r.proto),
            is_plain(r.last_constraint()),
            r.last_constraint().constraint matches Some(Constraint::ExactlyOne(arg))
                && arg.literals@ == literal_indices(literals@),
            *final(self) == *final(r),
    {
        let c = Constraint::ExactlyOne(BoolArgumentProto { literals: literals_of(literals) });
        self.push_constraint(String::new(), Vec::new(), c);
        self
    }

    /// At most one literal can be true.
    pub fn add_at_most_one(&mut self, literals: &[BoolVar]) -> (r: &mut Self)
        ensures
            adds_constraint(old(self).proto, r.proto),
            is_plain(r.last_constraint()),
            r.last_constraint().constraint matches Some(Constraint::AtMostOne(arg))
                && arg.literals@ == literal_indices(literals@),
            *final(self) == *final(r),
    {
        let c = Constraint::AtMostOne(BoolArgumentProto { literals: literals_of(literals) });
        self.push_constraint(String::new(), Vec::new(), c);
        self
    }

    /// Implication: if a is true then b must be true.
    /// Encoded as a `bool_and` of `[b]` enforced by `a`.
    pub fn add_implication(&mut self, a: BoolVar, b: BoolVar) -> (r: &mut Self)
        ensures
            adds_constraint(old(self).proto, r.proto),
            is_implication(r.last_constraint(), a.0, b.0),
            *final(self) == *final(r),
    {
        let literals = vec![b.index()];
        assert(literals@ =~= seq![b.0]);
        let enforcement = vec![a.index()];
        assert(enforcement@ =~= seq![a.0]);
        let c = Constraint::BoolAnd(BoolArgumentProto { literals });
        self.push_constraint(String::new(), enforcement, c);
        self
    }

    /// Max constraint: target == max(vars).
    pub fn add_max_equality(&mut self, target: IntVar, vars: &[IntVar]) -> (r: &mut Self)
        ensures
            adds_constraint(old(self).proto, r.proto),
            is_plain(r.last_constraint()),
            r.last_constraint().constraint matches Some(Constraint::LinMax(arg))
                && is_lin_max_of(arg, target, vars@, 1),
            *final(self) == *final(r),
    {
        let c = Constraint::LinMax(LinearArgumentProto {
            target: Some(var_expr(target, 1)),
            exprs: var_exprs(vars, 1),
        });
        self.push_constraint(String::new(), Vec::new(), c);
        self
    }

    /// Min constraint: target == min(vars), posted as -target == max(-vars).
    pub fn add_min_equality(&mut self, target: IntVar, vars: &[IntVar]) -> (r: &mut Self)
        ensures
            adds_constraint(old(self).proto, r.proto),
            is_plain(r.last_constraint()),
            r.last_constraint().constraint matches Some(Constraint::LinMax(arg))
                && is_lin_max_of(arg, target, vars@, -1i64),
            *final(self) == *final(r),
    {
        let c = Constraint::LinMax(LinearArgumentProto {
            target: Some(var_expr(target, -1)),
            exprs: var_exprs(vars, -1),
        });
        self.push_constraint(String::new(), Vec::new(), c);
        self
    }


    // ───── Objective ─────

    /// Minimize the given expression.
    pub fn minimize(&mut self, expr: impl IntoLinearExpr)
        ensures
            sets_objective(old(self).proto, final(self).proto),
            final(self).proto.objective matches Some(obj) && is_minimize_of(obj, linear_view(expr)),
    {
        let expr = expr.into_linear_expr();
        let p = expr.to_proto();
        self.proto.objective = Some(CpObjectiveProto {
            vars: p.vars,
            coeffs: p.coeffs,
            offset: expr.constant as i128,
            scaling_factor: 0,
            domain: Vec::new(),
            scaling_was_exact: false,
            integer_before_offset: 0,
            integer_after_offset: 0,
            integer_scaling_factor: 0,
        });
    }

    /// Maximize the given expression: maximize f(x) = minimize -f(x),
    /// reported with a scaling factor of -1.
    pub fn maximize(&mut self, expr: impl IntoLinearExpr)
        requires
            negatable(expr.terms_spec()),
        ensures
            sets_objective(old(self).proto, final(self).proto),
            final(self).proto.objective matches Some(obj) && is_maximize_of(obj, linear_view(expr)),
    {
        let expr = expr.into_linear_expr();
        let p = expr.to_proto();
        let mut coeffs: Vec<i64> = Vec::new();
        let mut i: usize = 0;
        while i < expr.terms.len()
            invariant
                i <= expr.terms.len(),
                negatable(expr.terms@),
                coeffs@ == term_coeffs(negate_terms(expr.terms@.take(i as int))),
            decreases expr.terms.len() - i,
        {
            let c = expr.terms[i].1;
            assert(expr.terms@[i as int].1 != i64::MIN);
            coeffs.push(-c);
            assert(negate_terms(expr.terms@.take(i as int + 1)) =~= negate_terms(
                expr.terms@.take(i as int),
            ).push((expr.terms@[i as int].0, (-c) as i64)));
            i = i + 1;
        }
        assert(expr.terms@.take(expr.terms.len() as int) =~= expr.terms@);
        self.proto.objective = Some(CpObjectiveProto {
            vars: p.vars,
            coeffs,
            offset: -(expr.constant as i128),
            scaling_factor: -1,
            domain: Vec::new(),
            scaling_was_exact: false,
            integer_before_offset: 0,
            integer_after_offset: 0,
            integer_scaling_factor: 0,
        });
    }

    // ───── Hints ─────

    /// Provide a solution hint for a variable.
    pub fn add_hint(&mut self, var: IntVar, value: i64)
        ensures
            final(self).proto.solution_hint is Some,
            hint_vars(final(self).proto) == hint_vars(old(self).proto).push(var.0),
            hint_values(final(self).proto) == hint_values(old(self).proto).push(value),
            final(self).proto.variables == old(self).proto.variables,
            final(self).proto.constraints == old(self).proto.constraints,
            final(self).proto.objective == old(self).proto.objective,
            final(self).proto.name == old(self).proto.name,
            same_search_settings(old(self).proto, final(self).proto),
    {
        let mut hint = match self.proto.solution_hint.take() {
            Some(h) => h,
            None => PartialVariableAssignment { vars: Vec::new(), values: Vec::new() },
        };
        hint.vars.push(var.0);
        hint.values.push(value);
        self.proto.solution_hint = Some(hint);
    }

    // ───── Serialization ─────

    /// Get a reference to the underlying proto.
    pub fn to_proto(&self) -> (r: &CpModelProto)
        ensures
            *r == self.proto,
    {
        &self.proto
    }

    /// Get a mutable reference to the underlying proto (escape hatch).
    pub fn raw_proto_mut(&mut self) -> (r: &mut CpModelProto)
        ensures
            *r == old(self).proto,
            final(self).proto == *final(r),
    {
        &mut self.proto
    }
}

impl Default for CpModel {
    fn default() -> (r: Self)
        ensures
            r.is_empty(),
    {
        Self::new()
    }
}

/// Trait for creating bounded expressions from comparisons.
pub trait Le<Rhs> {
    /// Create a `<= rhs` bounded expression.
    fn le(self, rhs: Rhs) -> BoundedLinearExpr;
}

/// Trait for creating bounded expressions from comparisons.
pub trait Ge<Rhs> {
    /// Create a `>= rhs` bounded expression.
    fn ge(self, rhs: Rhs) -> BoundedLinearExpr;
}

impl Le<i64> for IntVar {
    fn le(self, rhs: i64) -> (r: BoundedLinearExpr)
        ensures
            r.expr.terms@ == seq![(self, 1i64)],
            r.expr.constant == 0,
            r.lb == i64::MIN,
            r.ub == rhs,
    {
        LinearExpr::from(self).le(rhs)
    }
}

impl Ge<i64> for IntVar {
    fn ge(self, rhs: i64) -> (r: BoundedLinearExpr)
        ensures
            r.expr.terms@ == seq![(self, 1i64)],
            r.expr.constant == 0,
            r.lb == rhs,
            r.ub == i64::MAX,
    {
        LinearExpr::from(self).ge(rhs)
    }
}

impl Le<i64> for LinearExpr {
    fn le(self, rhs: i64) -> (r: BoundedLinearExpr)
        ensures
            r.expr == self,
            r.lb == i64::MIN,
            r.ub == rhs,
    {
        LinearExpr::le(self, rhs)
    }
}

impl Ge<i64> for LinearExpr {
    fn ge(self, rhs: i64) -> (r: BoundedLinearExpr)
        ensures
            r.expr == self,
            r.lb == rhs,
            r.ub == i64::MAX,
    {
        LinearExpr::ge(self, rhs)
    }
}

/// The values of some variables under an assignment.
pub open spec fn var_values(vars: Seq<IntVar>, a: spec_fn(int) -> int) -> Seq<int> {
    vars.map_values(|v: IntVar| a(v.0 as int))
}

/// The expression `coeff * var` has value `coeff * a(var)`.
pub proof fn lemma_var_expr_value(p: LinearExpressionProto, var: i32, coeff: i64, a: spec_fn(int) -> int)
    requires
        is_var_expr(p, var, coeff),
    ensures
        p.value(a) == coeff * a(var as int),
{
    reveal_with_fuel(crate::proto::linear_sum_prefix, 2);
}

/// The largest of the negated values is the negated smallest value.
pub proof fn lemma_max_of_negated(s: Seq<int>)
    requires
        s.len() > 0,
    ensures
        seq_max(s.map_values(|x: int| -x)) == -seq_min(s),
    decreases s.len(),
{
    if s.len() > 1 {
        lemma_max_of_negated(s.drop_last());
        assert(s.map_values(|x: int| -x).drop_last() =~= s.drop_last().map_values(|x: int| -x));
    }
}

/// A flat domain of one interval `[lo, hi]` holds exactly the values from `lo` to `hi`.
pub proof fn lemma_one_interval_domain(lo: i64, hi: i64, v: int)
    ensures
        in_domain(seq![lo, hi], v) <==> lo <= v <= hi,
{
    let d = seq![lo, hi];
    if lo <= v <= hi {
        assert(d[2 * 0int] <= v <= d[2 * 0int + 1]);
    }
}

/// The domain of an inclusive range `start..=end` is `[start, end]`: it holds
/// exactly the values from the range's start to its end, whatever their signs.
pub proof fn law_range_inclusive_domain(r: core::ops::RangeInclusive<i64>, v: int)
    ensures
        r.is_convertible(),
        r.domain_spec() == seq![r@.start, r@.end],
        in_domain(r.domain_spec(), v) <==> r@.start <= v <= r@.end,
{
    lemma_one_interval_domain(r@.start, r@.end, v);
}

/// The domain of an inclusive `i32` range is `[start, end]`, widened to `i64`.
pub proof fn law_range_inclusive_i32_domain(r: core::ops::RangeInclusive<i32>, v: int)
    ensures
        r.is_convertible(),
        r.domain_spec() == seq![r@.start as i64, r@.end as i64],
        in_domain(r.domain_spec(), v) <==> r@.start <= v <= r@.end,
{
    lemma_one_interval_domain(r@.start as i64, r@.end as i64, v);
}

/// The domain of a half-open range `start..end` (with an end above `i64::MIN`)
/// holds exactly the values `start <= v < end`.
pub proof fn law_range_domain(r: core::ops::Range<i64>, v: int)
    requires
        r.end != i64::MIN,
    ensures
        r.is_convertible(),
        r.domain_spec() == seq![r.start, (r.end - 1) as i64],
        in_domain(r.domain_spec(), v) <==> r.start <= v < r.end,
{
    lemma_one_interval_domain(r.start, (r.end - 1) as i64, v);
}

/// The domain of a pair `(lb, ub)` holds exactly the values from `lb` to `ub`.
pub proof fn law_pair_domain(p: (i64, i64), v: int)
    ensures
        p.is_convertible(),
        p.domain_spec() == seq![p.0, p.1],
        in_domain(p.domain_spec(), v) <==> p.0 <= v <= p.1,
{
    lemma_one_interval_domain(p.0, p.1, v);
}

/// The domain of a single value holds that value alone.
pub proof fn law_value_domain(x: i64, v: int)
    ensures
        x.is_convertible(),
        x.domain_spec() == seq![x, x],
        in_domain(x.domain_spec(), v) <==> v == x,
{
    lemma_one_interval_domain(x, x, v);
}

/// The domain of a list of intervals lays out every pair in order, two entries
/// per pair, and holds exactly the values that lie in one of the intervals.
pub proof fn law_intervals_domain(ps: Vec<(i64, i64)>, v: int)
    ensures
        ps.is_convertible(),
        ps.domain_spec().len() == 2 * ps@.len(),
        forall|i: int|
            0 <= i < ps@.len() ==> #[trigger] ps.domain_spec()[2 * i] == ps@[i].0
                && ps.domain_spec()[2 * i + 1] == ps@[i].1,
        in_domain(ps.domain_spec(), v) <==> exists|i: int|
            0 <= i < ps@.len() && (#[trigger] ps@[i]).0 <= v <= ps@[i].1,
{
    let d = ps.domain_spec();
    assert forall|i: int| 0 <= i < ps@.len() implies #[trigger] d[2 * i] == ps@[i].0 && d[2 * i
        + 1] == ps@[i].1 by {
        assert((2 * i) % 2 == 0 && (2 * i) / 2 == i);
        assert((2 * i + 1) % 2 == 1 && (2 * i + 1) / 2 == i);
    }
    if in_domain(d, v) {
        let i = choose|i: int| 0 <= i && 2 * i + 1 < d.len() && #[trigger] d[2 * i] <= v <= d[2 * i + 1];
        assert(d[2 * i] == ps@[i].0);
        assert(ps@[i].0 <= v <= ps@[i].1);
    }
    if exists|i: int| 0 <= i < ps@.len() && (#[trigger] ps@[i]).0 <= v <= ps@[i].1 {
        let i = choose|i: int| 0 <= i < ps@.len() && (#[trigger] ps@[i]).0 <= v <= ps@[i].1;
        assert(d[2 * i] == ps@[i].0);
        assert(d[2 * i] <= v <= d[2 * i + 1]);
    }
}

/// A string slice names what it holds.
pub proof fn law_str_name<'a>(s: &'a str)
    ensures
        s.name_spec() == s@,
{
}

/// A string names what it holds.
pub proof fn law_string_name(s: String)
    ensures
        s.name_spec() == s@,
{
}

/// A borrowed string names what it holds.
pub proof fn law_string_ref_name<'a>(s: &'a String)
    ensures
        s.name_spec() == (*s)@,
{
}

/// The handle lists that the constraints take: the literal of each Boolean
/// variable, the index of each integer variable and of each interval, in order.
pub proof fn law_index_lists(lits: Seq<BoolVar>, vars: Seq<IntVar>, ivs: Seq<IntervalVar>)
    ensures
        literal_indices(lits).len() == lits.len(),
        forall|i: int| 0 <= i < lits.len() ==> #[trigger] literal_indices(lits)[i] == lits[i].0,
        var_indices(vars).len() == vars.len(),
        forall|i: int| 0 <= i < vars.len() ==> #[trigger] var_indices(vars)[i] == vars[i].0,
        interval_indices(ivs).len() == ivs.len(),
        forall|i: int| 0 <= i < ivs.len() ==> #[trigger] interval_indices(ivs)[i] == ivs[i].0,
{
}

/// The values of a table: each tuple laid after the ones before it.
pub proof fn law_flatten_tuples(tuples: Seq<Vec<i64>>, t: Vec<i64>)
    ensures
        flatten_tuples(Seq::empty()) == Seq::<i64>::empty(),
        flatten_tuples(tuples.push(t)) == flatten_tuples(tuples) + t@,
{
    let s = tuples.map_values(|x: Vec<i64>| x@);
    assert(tuples.push(t).map_values(|x: Vec<i64>| x@) =~= s.push(t@));
    s.lemma_flatten_push(t@);
    assert(Seq::<Vec<i64>>::empty().map_values(|x: Vec<i64>| x@) =~= Seq::<Seq<i64>>::empty());
}

/// A bounded expression posted with `add` keeps its meaning: for every
/// assignment under which the sum of its terms fits in an `i64` (as the solver
/// requires), the posted linear constraint holds exactly when the bounds do.
pub proof fn law_add_keeps_meaning(b: BoundedLinearExpr, lc: LinearConstraintProto, a: spec_fn(int) -> int)
    requires
        is_linear_for(lc, b),
        fits_i64(term_sum(b.expr.terms@, a)),
    ensures
        lc.holds(a) <==> b.holds(a),
{
    crate::expressions::lemma_term_sum_as_lists(b.expr.terms@, a);
    let s = term_sum(b.expr.terms@, a);
    let d = lc.domain@;
    if d[0] <= s <= d[1] {
        assert(d[2 * 0int] <= s <= d[2 * 0int + 1]);
    }
}

/// `add_implication(x, y)` posts a constraint that holds exactly when `x` implies `y`.
pub proof fn law_implication(c: ConstraintProto, x: BoolVar, y: BoolVar, a: spec_fn(int) -> int)
    requires
        is_implication(c, x.0, y.0),
    ensures
        c.constraint matches Some(Constraint::BoolAnd(arg)) && ((c.enforced(a) ==> arg.all_hold(a))
            <==> (literal_holds(x.0, a) ==> literal_holds(y.0, a))),
{
    if let Some(Constraint::BoolAnd(arg)) = c.constraint {
        assert(c.enforcement_literal@[0] == x.0);
        assert(arg.literals@[0] == y.0);
    }
}

/// `add_max_equality(target, vars)` posts a constraint that holds exactly when
/// the target equals the largest of the (non-empty) variables.
pub proof fn law_max_equality(arg: LinearArgumentProto, target: IntVar, vars: Seq<IntVar>, a: spec_fn(int) -> int)
    requires
        is_lin_max_of(arg, target, vars, 1),
        vars.len() > 0,
    ensures
        arg.lin_max_holds(a) <==> a(target.0 as int) == seq_max(var_values(vars, a)),
{
    lemma_var_expr_value(arg.target.unwrap(), target.0, 1, a);
    assert forall|i: int| 0 <= i < vars.len() implies #[trigger] arg.expr_values(a)[i] == var_values(vars, a)[i] by {
        lemma_var_expr_value(arg.exprs@[i], vars[i].0, 1, a);
    }
    assert(arg.expr_values(a) =~= var_values(vars, a));
}

/// `add_min_equality(target, vars)` posts `-target == max(-vars)`, which holds
/// exactly when the target equals the smallest of the (non-empty) variables.
pub proof fn law_min_equality(arg: LinearArgumentProto, target: IntVar, vars: Seq<IntVar>, a: spec_fn(int) -> int)
    requires
        is_lin_max_of(arg, target, vars, -1i64),
        vars.len() > 0,
    ensures
        arg.lin_max_holds(a) <==> a(target.0 as int) == seq_min(var_values(vars, a)),
{
    lemma_var_expr_value(arg.target.unwrap(), target.0, -1i64, a);
    let vals = var_values(vars, a);
    assert forall|i: int| 0 <= i < vars.len() implies #[trigger] arg.expr_values(a)[i] == vals.map_values(|x: int| -x)[i] by {
        lemma_var_expr_value(arg.exprs@[i], vars[i].0, -1i64, a);
    }
    assert(arg.expr_values(a) =~= vals.map_values(|x: int| -x));
    lemma_max_of_negated(vals);
}

/// `minimize(e)` sets an objective whose minimized and reported value is the
/// value of `e` (with terms `e.0` and constant `e.1`).
pub proof fn law_minimize(obj: CpObjectiveProto, e: (Seq<(IntVar, i64)>, i64), a: spec_fn(int) -> int)
    requires
        is_minimize_of(obj, e),
    ensures
        obj.internal_value(a) == term_sum(e.0, a) + e.1,
        obj.reported_value(a) == term_sum(e.0, a) + e.1,
{
    crate::expressions::lemma_term_sum_as_lists(e.0, a);
}

/// `maximize(e)` sets an objective that the solver minimizes as `-e` and reports
/// as `e` (with terms `e.0` and constant `e.1`).
pub proof fn law_maximize(obj: CpObjectiveProto, e: (Seq<(IntVar, i64)>, i64), a: spec_fn(int) -> int)
    requires
        is_maximize_of(obj, e),
        negatable(e.0),
    ensures
        obj.internal_value(a) == -(term_sum(e.0, a) + e.1),
        obj.reported_value(a) == term_sum(e.0, a) + e.1,
{
    let n = negate_terms(e.0);
    assert(term_vars(n) =~= term_vars(e.0));
    crate::expressions::lemma_term_sum_as_lists(n, a);
    crate::expressions::lemma_term_sum_negate(e.0, a);
}

} // verus!
