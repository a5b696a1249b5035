//! Linear expressions and bounded linear expressions for constraints.
//!
//! A `LinearExpr` is `sum(coeff_i * var_i) + constant`. Its value under an
//! assignment `a` (the variable at index `i` has value `a(i)`) is
//! `LinearExpr::value`; each arithmetic operator is stated both on the terms
//! it builds and on that value.
//!
//! The operator traits' own specifications (`AddSpecImpl` and the like) give
//! the result as one value; a result that holds a `Vec` cannot be pinned down
//! that way, so each such impl sets `obeys_*_spec` to false and its method
//! states the result in its own `ensures`.
use crate::proto::{linear_sum, linear_sum_prefix, LinearExpressionProto};
use crate::vars::{BoolVar, IntVar};
use vstd::prelude::*;

verus! {

/// Whether an integer fits in an `i64`.
pub open spec fn fits_i64(x: int) -> bool {
    i64::MIN <= x <= i64::MAX
}

/// `sum(coeff * a(var))` over a list of terms.
pub open spec fn term_sum(terms: Seq<(IntVar, i64)>, a: spec_fn(int) -> int) -> int
    decreases terms.len(),
{
    if terms.len() == 0 {
        0
    } else {
        term_sum(terms.drop_last(), a) + terms.last().1 * a(terms.last().0.0 as int)
    }
}

/// The terms with every coefficient negated.
pub open spec fn negate_terms(terms: Seq<(IntVar, i64)>) -> Seq<(IntVar, i64)> {
    terms.map_values(|t: (IntVar, i64)| (t.0, (-t.1) as i64))
}

/// The terms with every coefficient multiplied by `k`.
pub open spec fn scale_terms(terms: Seq<(IntVar, i64)>, k: i64) -> Seq<(IntVar, i64)> {
    terms.map_values(|t: (IntVar, i64)| (t.0, (t.1 * k) as i64))
}

/// Every coefficient can be negated within `i64`.
pub open spec fn negatable(terms: Seq<(IntVar, i64)>) -> bool {
    forall|i: int| 0 <= i < terms.len() ==> (#[trigger] terms[i]).1 != i64::MIN
}

/// Every coefficient can be multiplied by `k` within `i64`.
pub open spec fn scalable(terms: Seq<(IntVar, i64)>, k: i64) -> bool {
    forall|i: int| 0 <= i < terms.len() ==> fits_i64((#[trigger] terms[i]).1 * k)
}

/// One term of coefficient 1 per variable.
pub open spec fn unit_terms(vars: Seq<IntVar>) -> Seq<(IntVar, i64)> {
    vars.map_values(|v: IntVar| (v, 1i64))
}

/// `(vars[i], coeffs[i])` for each position present in both lists.
pub open spec fn zip_terms(vars: Seq<IntVar>, coeffs: Seq<i64>) -> Seq<(IntVar, i64)> {
    let n = if vars.len() <= coeffs.len() { vars.len() } else { coeffs.len() };
    Seq::new(n, |i: int| (vars[i], coeffs[i]))
}

/// The variable indices of a list of terms.
pub open spec fn term_vars(terms: Seq<(IntVar, i64)>) -> Seq<i32> {
    terms.map_values(|t: (IntVar, i64)| t.0.0)
}

/// The coefficients of a list of terms.
pub open spec fn term_coeffs(terms: Seq<(IntVar, i64)>) -> Seq<i64> {
    terms.map_values(|t: (IntVar, i64)| t.1)
}

/// The value of a concatenation is the sum of the values.
pub proof fn lemma_term_sum_concat(x: Seq<(IntVar, i64)>, y: Seq<(IntVar, i64)>, a: spec_fn(int) -> int)
    ensures
        term_sum(x + y, a) == term_sum(x, a) + term_sum(y, a),
    decreases y.len(),
{
    if y.len() == 0 {
        assert(x + y =~= x);
    } else {
        lemma_term_sum_concat(x, y.drop_last(), a);
        assert((x + y).drop_last() =~= x + y.drop_last());
    }
}

/// Appending one term adds its product.
pub proof fn lemma_term_sum_push(x: Seq<(IntVar, i64)>, t: (IntVar, i64), a: spec_fn(int) -> int)
    ensures
        term_sum(x.push(t), a) == term_sum(x, a) + t.1 * a(t.0.0 as int),
{
    assert(x.push(t).drop_last() =~= x);
}

/// Negating every coefficient negates the value.
pub proof fn lemma_term_sum_negate(x: Seq<(IntVar, i64)>, a: spec_fn(int) -> int)
    requires
        negatable(x),
    ensures
        term_sum(negate_terms(x), a) == -term_sum(x, a),
    decreases x.len(),
{
    if x.len() > 0 {
        let y = x.drop_last();
        assert(negatable(y)) by {
            assert forall|i: int| 0 <= i < y.len() implies (#[trigger] y[i]).1 != i64::MIN by {
                assert(y[i] == x[i]);
            }
        }
        lemma_term_sum_negate(y, a);
        assert(negate_terms(x).drop_last() =~= negate_terms(y));
        let c = x.last().1 as int;
        let v = a(x.last().0.0 as int);
        assert(x[x.len() - 1] == x.last());
        assert((-c) * v == -(c * v)) by (nonlinear_arith);
    }
}

/// Multiplying every coefficient by `k` multiplies the value by `k`.
pub proof fn lemma_term_sum_scale(x: Seq<(IntVar, i64)>, k: i64, a: spec_fn(int) -> int)
    requires
        scalable(x, k),
    ensures
        term_sum(scale_terms(x, k), a) == k * term_sum(x, a),
    decreases x.len(),
{
    if x.len() > 0 {
        let y = x.drop_last();
        assert(scalable(y, k)) by {
            assert forall|i: int| 0 <= i < y.len() implies fits_i64((#[trigger] y[i]).1 * k) by {
                assert(y[i] == x[i]);
            }
        }
        lemma_term_sum_scale(y, k, a);
        assert(scale_terms(x, k).drop_last() =~= scale_terms(y, k));
        let c = x.last().1 as int;
        let v = a(x.last().0.0 as int);
        let s = term_sum(y, a);
        assert(x[x.len() - 1] == x.last());
        assert((c * k) * v == k * (c * v)) by (nonlinear_arith);
        assert(k * s + k * (c * v) == k * (s + c * v)) by (nonlinear_arith);
    }
}

/// The value of the terms, read as parallel lists of variables and coefficients.
pub proof fn lemma_term_sum_as_lists(x: Seq<(IntVar, i64)>, a: spec_fn(int) -> int)
    ensures
        linear_sum(term_vars(x), term_coeffs(x), a) == term_sum(x, a),
    decreases x.len(),
{
    if x.len() > 0 {
        let y = x.drop_last();
        lemma_term_sum_as_lists(y, a);
        lemma_prefix_unchanged(term_vars(x), term_coeffs(x), term_vars(y), term_coeffs(y), y.len() as int, a);
    }
}

/// A prefix sum depends only on the first `n` positions of the lists.
proof fn lemma_prefix_unchanged(
    v1: Seq<i32>,
    c1: Seq<i64>,
    v2: Seq<i32>,
    c2: Seq<i64>,
    n: int,
    a: spec_fn(int) -> int,
)
    requires
        0 <= n <= v1.len(),
        n <= c1.len(),
        n <= v2.len(),
        n <= c2.len(),
        forall|i: int| 0 <= i < n ==> v1[i] == v2[i] && c1[i] == c2[i],
    ensures
        linear_sum_prefix(v1, c1, n, a) == linear_sum_prefix(v2, c2, n, a),
    decreases n,
{
    if n > 0 {
        lemma_prefix_unchanged(v1, c1, v2, c2, n - 1, a);
    }
}

/// A linear expression: `sum(coeff_i * var_i) + constant`.
#[derive(Debug, Clone)]
pub struct LinearExpr {
    pub terms: Vec<(IntVar, i64)>,
    pub constant: i64,
}

/// A bounded linear expression: `lb <= expr <= ub`.
/// Created by calling `.le()`, `.ge()`, `.eq()`, or `.between()` on a `LinearExpr`.
/// A lower bound of `i64::MIN` or an upper bound of `i64::MAX` stands for no bound.
pub struct BoundedLinearExpr {
    pub expr: LinearExpr,
    pub lb: i64,
    pub ub: i64,
}

impl BoundedLinearExpr {
    /// The bounds hold for the expression's value.
    pub open spec fn holds(&self, a: spec_fn(int) -> int) -> bool {
        let v = self.expr.value(a);
        &&& (self.lb == i64::MIN || self.lb <= v)
        &&& (self.ub == i64::MAX || v <= self.ub)
    }
}

impl LinearExpr {
    /// The value of the expression under the assignment `a`.
    pub open spec fn value(&self, a: spec_fn(int) -> int) -> int {
        term_sum(self.terms@, a) + self.constant
    }

    /// Create an expression equal to a constant.
    pub fn constant(val: i64) -> (r: Self)
        ensures
            r.terms@ == Seq::<(IntVar, i64)>::empty(),
            r.constant == val,
    {
        LinearExpr { terms: Vec::new(), constant: val }
    }

    /// Create a sum of variables with equal coefficients of 1.
    pub fn sum(vars: &[IntVar]) -> (r: Self)
        ensures
            r.terms@ == unit_terms(vars@),
            r.constant == 0,
    {
        let mut terms: Vec<(IntVar, i64)> = Vec::new();
        let mut i: usize = 0;
        while i < vars.len()
            invariant
                i <= vars.len(),
                terms@ == unit_terms(vars@.take(i as int)),
            decreases vars.len() - i,
        {
            terms.push((vars[i], 1i64));
            assert(vars@.take(i as int + 1) =~= vars@.take(i as int).push(vars@[i as int]));
            i = i + 1;
        }
        assert(vars@.take(vars.len() as int) =~= vars@);
        LinearExpr { terms, constant: 0 }
    }

    /// Create a weighted sum of variables. Positions beyond the shorter of the
    /// two lists are ignored.
    pub fn weighted_sum(vars: &[IntVar], coeffs: &[i64]) -> (r: Self)
        ensures
            r.terms@ == zip_terms(vars@, coeffs@),
            r.constant == 0,
    {
        let n: usize = if vars.len() <= coeffs.len() { vars.len() } else { coeffs.len() };
        let mut terms: Vec<(IntVar, i64)> = Vec::new();
        let mut i: usize = 0;
        while i < n
            invariant
                i <= n,
                n == (if vars.len() <= coeffs.len() { vars.len() } else { coeffs.len() }),
                terms@.len() == i,
                forall|j: int| 0 <= j < i ==> terms@[j] == (vars@[j], coeffs@[j]),
            decreases n - i,
        {
            terms.push((vars[i], coeffs[i]));
            i = i + 1;
        }
        assert(terms@ =~= zip_terms(vars@, coeffs@));
        LinearExpr { terms, constant: 0 }
    }

    /// Add a term to this expression.
    pub fn add_term(&mut self, var: IntVar, coeff: i64)
        ensures
            final(self).terms@ == old(self).terms@.push((var, coeff)),
            final(self).constant == old(self).constant,
            forall|a: spec_fn(int) -> int| #[trigger] final(self).value(a) == old(self).value(a) + coeff * a(var.0 as int),
    {
        self.terms.push((var, coeff));
        proof {
            assert forall|a: spec_fn(int) -> int| #[trigger] self.value(a) == old(self).value(a) + coeff * a(var.0 as int) by {
                lemma_term_sum_push(old(self).terms@, (var, coeff), a);
            }
        }
    }

    /// Constrain this expression to be <= upper_bound.
    pub fn le(self, ub: i64) -> (r: BoundedLinearExpr)
        ensures
            r.expr == self,
            r.lb == i64::MIN,
            r.ub == ub,
    {
        BoundedLinearExpr { expr: self, lb: i64::MIN, ub }
    }

    /// Constrain this expression to be >= lower_bound.
    pub fn ge(self, lb: i64) -> (r: BoundedLinearExpr)
        ensures
            r.expr == self,
            r.lb == lb,
            r.ub == i64::MAX,
    {
        BoundedLinearExpr { expr: self, lb, ub: i64::MAX }
    }

    /// Constrain this expression to be == value.
    pub fn eq(self, val: i64) -> (r: BoundedLinearExpr)
        ensures
            r.expr == self,
            r.lb == val,
            r.ub == val,
    {
        BoundedLinearExpr { expr: self, lb: val, ub: val }
    }

    /// Constrain this expression to be in [lb, ub].
    pub fn between(self, lb: i64, ub: i64) -> (r: BoundedLinearExpr)
        ensures
            r.expr == self,
            r.lb == lb,
            r.ub == ub,
    {
        BoundedLinearExpr { expr: self, lb, ub }
    }

    /// Convert to the proto representation.
    pub fn to_proto(&self) -> (r: LinearExpressionProto)
        ensures
            r.vars@ == term_vars(self.terms@),
            r.coeffs@ == term_coeffs(self.terms@),
            r.offset == self.constant,
            forall|a: spec_fn(int) -> int| #[trigger] r.value(a) == self.value(a),
    {
        let mut vars: Vec<i32> = Vec::new();
        let mut coeffs: Vec<i64> = Vec::new();
        let mut i: usize = 0;
        while i < self.terms.len()
            invariant
                i <= self.terms.len(),
                vars@ == term_vars(self.terms@.take(i as int)),
                coeffs@ == term_coeffs(self.terms@.take(i as int)),
            decreases self.terms.len() - i,
        {
            let (v, c) = self.terms[i];
            vars.push(v.0);
            coeffs.push(c);
            assert(self.terms@.take(i as int + 1) =~= self.terms@.take(i as int).push(self.terms@[i as int]));
            i = i + 1;
        }
        assert(self.terms@.take(self.terms.len() as int) =~= self.terms@);
        let r = LinearExpressionProto { vars, coeffs, offset: self.constant };
        proof {
            assert forall|a: spec_fn(int) -> int| #[trigger] r.value(a) == self.value(a) by {
                lemma_term_sum_as_lists(self.terms@, a);
            }
        }
        r
    }
}

impl Default for LinearExpr {
    fn default() -> (r: Self)
        ensures
            r.terms@ == Seq::<(IntVar, i64)>::empty(),
            r.constant == 0,
    {
        LinearExpr { terms: Vec::new(), constant: 0 }
    }
}

impl core::convert::From<IntVar> for LinearExpr {
    fn from(v: IntVar) -> (r: Self)
        ensures
            r.terms@ == seq![(v, 1i64)],
            r.constant == 0,
    {
        LinearExpr { terms: vec![(v, 1i64)], constant: 0 }
    }
}

impl vstd::std_specs::convert::FromSpecImpl<IntVar> for LinearExpr {
    open spec fn obeys_from_spec() -> bool {
        false
    }

    open spec fn from_spec(v: IntVar) -> LinearExpr {
        choose|r: LinearExpr| r.terms@ == seq![(v, 1i64)] && r.constant == 0
    }
}

impl core::convert::From<BoolVar> for LinearExpr {
    fn from(b: BoolVar) -> (r: Self)
        ensures
            r.terms@ == seq![(IntVar(b.0), 1i64)],
            r.constant == 0,
    {
        Self::from(b.as_int_var())
    }
}

impl vstd::std_specs::convert::FromSpecImpl<BoolVar> for LinearExpr {
    open spec fn obeys_from_spec() -> bool {
        false
    }

    open spec fn from_spec(b: BoolVar) -> LinearExpr {
        choose|r: LinearExpr| r.terms@ == seq![(IntVar(b.0), 1i64)] && r.constant == 0
    }
}

impl core::convert::From<i64> for LinearExpr {
    fn from(val: i64) -> (r: Self)
        ensures
            r.terms@ == Seq::<(IntVar, i64)>::empty(),
            r.constant == val,
    {
        Self::constant(val)
    }
}

impl vstd::std_specs::convert::FromSpecImpl<i64> for LinearExpr {
    open spec fn obeys_from_spec() -> bool {
        false
    }

    open spec fn from_spec(val: i64) -> LinearExpr {
        choose|r: LinearExpr| r.terms@ == Seq::<(IntVar, i64)>::empty() && r.constant == val
    }
}

impl core::convert::From<i32> for LinearExpr {
    fn from(val: i32) -> (r: Self)
        ensures
            r.terms@ == Seq::<(IntVar, i64)>::empty(),
            r.constant == val,
    {
        Self::constant(val as i64)
    }
}

impl vstd::std_specs::convert::FromSpecImpl<i32> for LinearExpr {
    open spec fn obeys_from_spec() -> bool {
        false
    }

    open spec fn from_spec(val: i32) -> LinearExpr {
        choose|r: LinearExpr| r.terms@ == Seq::<(IntVar, i64)>::empty() && r.constant == val
    }
}

impl core::ops::Add for LinearExpr {
    type Output = LinearExpr;

    fn add(self, rhs: LinearExpr) -> (r: LinearExpr)
        ensures
            r.terms@ == self.terms@ + rhs.terms@,
            r.constant == self.constant + rhs.constant,
            forall|a: spec_fn(int) -> int| #[trigger] r.value(a) == self.value(a) + rhs.value(a),
    {
        let mut e = self;
        let mut more = rhs.terms;
        e.terms.append(&mut more);
        e.constant = e.constant + rhs.constant;
        proof {
            assert forall|a: spec_fn(int) -> int| #[trigger] e.value(a) == self.value(a) + rhs.value(a) by {
                lemma_term_sum_concat(self.terms@, rhs.terms@, a);
            }
        }
        e
    }
}

impl vstd::std_specs::ops::AddSpecImpl for LinearExpr {
    open spec fn obeys_add_spec() -> bool {
        false
    }

    open spec fn add_req(self, rhs: LinearExpr) -> bool {
        fits_i64(self.constant + rhs.constant)
    }

    open spec fn add_spec(self, rhs: LinearExpr) -> LinearExpr {
        choose|r: LinearExpr|
            r.terms@ == self.terms@ + rhs.terms@ && r.constant == self.constant + rhs.constant
    }
}

impl core::ops::Add<IntVar> for LinearExpr {
    type Output = LinearExpr;

    fn add(self, rhs: IntVar) -> (r: LinearExpr)
        ensures
            r.terms@ == self.terms@.push((rhs, 1i64)),
            r.constant == self.constant,
            forall|a: spec_fn(int) -> int| #[trigger] r.value(a) == self.value(a) + a(rhs.0 as int),
    {
        let mut e = self;
        e.add_term(rhs, 1);
        e
    }
}

impl vstd::std_specs::ops::AddSpecImpl<IntVar> for LinearExpr {
    open spec fn obeys_add_spec() -> bool {
        false
    }

    open spec fn add_req(self, rhs: IntVar) -> bool {
        true
    }

    open spec fn add_spec(self, rhs: IntVar) -> LinearExpr {
        choose|r: LinearExpr| r.terms@ == self.terms@.push((rhs, 1i64)) && r.constant == self.constant
    }
}

impl core::ops::Add<i64> for LinearExpr {
    type Output = LinearExpr;

    fn add(self, rhs: i64) -> (r: LinearExpr)
        ensures
            r.terms@ == self.terms@,
            r.constant == self.constant + rhs,
            forall|a: spec_fn(int) -> int| #[trigger] r.value(a) == self.value(a) + rhs,
    {
        let mut e = self;
        e.constant = e.constant + rhs;
        e
    }
}

impl vstd::std_specs::ops::AddSpecImpl<i64> for LinearExpr {
    open spec fn obeys_add_spec() -> bool {
        false
    }

    open spec fn add_req(self, rhs: i64) -> bool {
        fits_i64(self.constant + rhs)
    }

    open spec fn add_spec(self, rhs: i64) -> LinearExpr {
        choose|r: LinearExpr| r.terms@ == self.terms@ && r.constant == self.constant + rhs
    }
}

impl core::ops::Sub for LinearExpr {
    type Output = LinearExpr;

    fn sub(self, rhs: LinearExpr) -> (r: LinearExpr)
        ensures
            r.terms@ == self.terms@ + negate_terms(rhs.terms@),
            r.constant == self.constant - rhs.constant,
            forall|a: spec_fn(int) -> int| #[trigger] r.value(a) == self.value(a) - rhs.value(a),
    {
        let mut e = self;
        let mut i: usize = 0;
        while i < rhs.terms.len()
            invariant
                i <= rhs.terms.len(),
                negatable(rhs.terms@),
                e.constant == self.constant,
                e.terms@ == self.terms@ + negate_terms(rhs.terms@.take(i as int)),
            decreases rhs.terms.len() - i,
        {
            let (v, c) = rhs.terms[i];
            assert(rhs.terms@[i as int].1 != i64::MIN);
            e.terms.push((v, -c));
            assert(negate_terms(rhs.terms@.take(i as int + 1)) =~= negate_terms(
                rhs.terms@.take(i as int),
            ).push((v, (-c) as i64)));
            i = i + 1;
        }
        assert(rhs.terms@.take(rhs.terms.len() as int) =~= rhs.terms@);
        e.constant = e.constant - rhs.constant;
        proof {
            assert forall|a: spec_fn(int) -> int| #[trigger] e.value(a) == self.value(a) - rhs.value(a) by {
                lemma_term_sum_concat(self.terms@, negate_terms(rhs.terms@), a);
                lemma_term_sum_negate(rhs.terms@, a);
            }
        }
        e
    }
}

impl vstd::std_specs::ops::SubSpecImpl for LinearExpr {
    open spec fn obeys_sub_spec() -> bool {
        false
    }

    open spec fn sub_req(self, rhs: LinearExpr) -> bool {
        negatable(rhs.terms@) && fits_i64(self.constant - rhs.constant)
    }

    open spec fn sub_spec(self, rhs: LinearExpr) -> LinearExpr {
        choose|r: LinearExpr|
            r.terms@ == self.terms@ + negate_terms(rhs.terms@) && r.constant == self.constant
                - rhs.constant
    }
}

impl core::ops::Sub<IntVar> for LinearExpr {
    type Output = LinearExpr;

    fn sub(self, rhs: IntVar) -> (r: LinearExpr)
        ensures
            r.terms@ == self.terms@.push((rhs, -1i64)),
            r.constant == self.constant,
            forall|a: spec_fn(int) -> int| #[trigger] r.value(a) == self.value(a) - a(rhs.0 as int),
    {
        let mut e = self;
        e.add_term(rhs, -1);
        e
    }
}

impl vstd::std_specs::ops::SubSpecImpl<IntVar> for LinearExpr {
    open spec fn obeys_sub_spec() -> bool {
        false
    }

    open spec fn sub_req(self, rhs: IntVar) -> bool {
        true
    }

    open spec fn sub_spec(self, rhs: IntVar) -> LinearExpr {
        choose|r: LinearExpr| r.terms@ == self.terms@.push((rhs, -1i64)) && r.constant == self.constant
    }
}

impl core::ops::Sub<i64> for LinearExpr {
    type Output = LinearExpr;

    fn sub(self, rhs: i64) -> (r: LinearExpr)
        ensures
            r.terms@ == self.terms@,
            r.constant == self.constant - rhs,
            forall|a: spec_fn(int) -> int| #[trigger] r.value(a) == self.value(a) - rhs,
    {
        let mut e = self;
        e.constant = e.constant - rhs;
        e
    }
}

impl vstd::std_specs::ops::SubSpecImpl<i64> for LinearExpr {
    open spec fn obeys_sub_spec() -> bool {
        false
    }

    open spec fn sub_req(self, rhs: i64) -> bool {
        fits_i64(self.constant - rhs)
    }

    open spec fn sub_spec(self, rhs: i64) -> LinearExpr {
        choose|r: LinearExpr| r.terms@ == self.terms@ && r.constant == self.constant - rhs
    }
}

impl core::ops::Neg for LinearExpr {
    type Output = LinearExpr;

    fn neg(self) -> (r: LinearExpr)
        ensures
            r.terms@ == negate_terms(self.terms@),
            r.constant == -self.constant,
            forall|a: spec_fn(int) -> int| #[trigger] r.value(a) == -self.value(a),
    {
        let mut terms: Vec<(IntVar, i64)> = Vec::new();
        let mut i: usize = 0;
        while i < self.terms.len()
            invariant
                i <= self.terms.len(),
                negatable(self.terms@),
                terms@ == negate_terms(self.terms@.take(i as int)),
            decreases self.terms.len() - i,
        {
            let (v, c) = self.terms[i];
            assert(self.terms@[i as int].1 != i64::MIN);
            terms.push((v, -c));
            assert(negate_terms(self.terms@.take(i as int + 1)) =~= negate_terms(
                self.terms@.take(i as int),
            ).push((v, (-c) as i64)));
            i = i + 1;
        }
        assert(self.terms@.take(self.terms.len() as int) =~= self.terms@);
        let e = LinearExpr { terms, constant: -self.constant };
        proof {
            assert forall|a: spec_fn(int) -> int| #[trigger] e.value(a) == -self.value(a) by {
                lemma_term_sum_negate(self.terms@, a);
            }
        }
        e
    }
}

impl vstd::std_specs::ops::NegSpecImpl for LinearExpr {
    open spec fn obeys_neg_spec() -> bool {
        false
    }

    open spec fn neg_req(self) -> bool {
        negatable(self.terms@) && self.constant != i64::MIN
    }

    open spec fn neg_spec(self) -> LinearExpr {
        choose|r: LinearExpr| r.terms@ == negate_terms(self.terms@) && r.constant == -self.constant
    }
}

impl core::ops::Mul<i64> for LinearExpr {
    type Output = LinearExpr;

    fn mul(self, rhs: i64) -> (r: LinearExpr)
        ensures
            r.terms@ == scale_terms(self.terms@, rhs),
            r.constant == self.constant * rhs,
            forall|a: spec_fn(int) -> int| #[trigger] r.value(a) == rhs * self.value(a),
    {
        let mut terms: Vec<(IntVar, i64)> = Vec::new();
        let mut i: usize = 0;
        while i < self.terms.len()
            invariant
                i <= self.terms.len(),
                scalable(self.terms@, rhs),
                terms@ == scale_terms(self.terms@.take(i as int), rhs),
            decreases self.terms.len() - i,
        {
            let (v, c) = self.terms[i];
            assert(fits_i64(self.terms@[i as int].1 * rhs));
            terms.push((v, c * rhs));
            assert(scale_terms(self.terms@.take(i as int + 1), rhs) =~= scale_terms(
                self.terms@.take(i as int),
                rhs,
            ).push((v, (c * rhs) as i64)));
            i = i + 1;
        }
        assert(self.terms@.take(self.terms.len() as int) =~= self.terms@);
        let e = LinearExpr { terms, constant: self.constant * rhs };
        proof {
            assert forall|a: spec_fn(int) -> int| #[trigger] e.value(a) == rhs * self.value(a) by {
                lemma_term_sum_scale(self.terms@, rhs, a);
                let s = term_sum(self.terms@, a);
                let k = self.constant as int;
                assert(rhs * s + k * rhs == rhs * (s + k)) by (nonlinear_arith);
            }
        }
        e
    }
}

impl vstd::std_specs::ops::MulSpecImpl<i64> for LinearExpr {
    open spec fn obeys_mul_spec() -> bool {
        false
    }

    open spec fn mul_req(self, rhs: i64) -> bool {
        scalable(self.terms@, rhs) && fits_i64(self.constant * rhs)
    }

    open spec fn mul_spec(self, rhs: i64) -> LinearExpr {
        choose|r: LinearExpr|
            r.terms@ == scale_terms(self.terms@, rhs) && r.constant == self.constant * rhs
    }
}

/// `coeff * IntVar`
impl core::ops::Mul<IntVar> for i64 {
    type Output = LinearExpr;

    fn mul(self, rhs: IntVar) -> (r: LinearExpr)
        ensures
            r.terms@ == seq![(rhs, self)],
            r.constant == 0,
    {
        LinearExpr { terms: vec![(rhs, self)], constant: 0 }
    }
}

impl vstd::std_specs::ops::MulSpecImpl<IntVar> for i64 {
    open spec fn obeys_mul_spec() -> bool {
        false
    }

    open spec fn mul_req(self, rhs: IntVar) -> bool {
        true
    }

    open spec fn mul_spec(self, rhs: IntVar) -> LinearExpr {
        choose|r: LinearExpr| r.terms@ == seq![(rhs, self)] && r.constant == 0
    }
}

/// `IntVar + IntVar`
impl core::ops::Add for IntVar {
    type Output = LinearExpr;

    fn add(self, rhs: IntVar) -> (r: LinearExpr)
        ensures
            r.terms@ == seq![(self, 1i64), (rhs, 1i64)],
            r.constant == 0,
    {
        LinearExpr { terms: vec![(self, 1i64), (rhs, 1i64)], constant: 0 }
    }
}

impl vstd::std_specs::ops::AddSpecImpl for IntVar {
    open spec fn obeys_add_spec() -> bool {
        false
    }

    open spec fn add_req(self, rhs: IntVar) -> bool {
        true
    }

    open spec fn add_spec(self, rhs: IntVar) -> LinearExpr {
        choose|r: LinearExpr| r.terms@ == seq![(self, 1i64), (rhs, 1i64)] && r.constant == 0
    }
}

/// `IntVar + i64`
impl core::ops::Add<i64> for IntVar {
    type Output = LinearExpr;

    fn add(self, rhs: i64) -> (r: LinearExpr)
        ensures
            r.terms@ == seq![(self, 1i64)],
            r.constant == rhs,
    {
        LinearExpr { terms: vec![(self, 1i64)], constant: rhs }
    }
}

impl vstd::std_specs::ops::AddSpecImpl<i64> for IntVar {
    open spec fn obeys_add_spec() -> bool {
        false
    }

    open spec fn add_req(self, rhs: i64) -> bool {
        true
    }

    open spec fn add_spec(self, rhs: i64) -> LinearExpr {
        choose|r: LinearExpr| r.terms@ == seq![(self, 1i64)] && r.constant == rhs
    }
}

/// `IntVar - IntVar`
impl core::ops::Sub for IntVar {
    type Output = LinearExpr;

    fn sub(self, rhs: IntVar) -> (r: LinearExpr)
        ensures
            r.terms@ == seq![(self, 1i64), (rhs, -1i64)],
            r.constant == 0,
    {
        LinearExpr { terms: vec![(self, 1i64), (rhs, -1i64)], constant: 0 }
    }
}

impl vstd::std_specs::ops::SubSpecImpl for IntVar {
    open spec fn obeys_sub_spec() -> bool {
        false
    }

    open spec fn sub_req(self, rhs: IntVar) -> bool {
        true
    }

    open spec fn sub_spec(self, rhs: IntVar) -> LinearExpr {
        choose|r: LinearExpr| r.terms@ == seq![(self, 1i64), (rhs, -1i64)] && r.constant == 0
    }
}

/// `IntVar * i64`
impl core::ops::Mul<i64> for IntVar {
    type Output = LinearExpr;

    fn mul(self, rhs: i64) -> (r: LinearExpr)
        ensures
            r.terms@ == seq![(self, rhs)],
            r.constant == 0,
    {
        LinearExpr { terms: vec![(self, rhs)], constant: 0 }
    }
}

impl vstd::std_specs::ops::MulSpecImpl<i64> for IntVar {
    open spec fn obeys_mul_spec() -> bool {
        false
    }

    open spec fn mul_req(self, rhs: i64) -> bool {
        true
    }

    open spec fn mul_spec(self, rhs: i64) -> LinearExpr {
        choose|r: LinearExpr| r.terms@ == seq![(self, rhs)] && r.constant == 0
    }
}

/// Values that stand for a linear expression: expressions, variables and constants.
pub trait IntoLinearExpr: Sized {
    /// The terms of the expression that the value stands for.
    spec fn terms_spec(&self) -> Seq<(IntVar, i64)>;

    /// The constant of the expression that the value stands for.
    spec fn constant_spec(&self) -> i64;

    /// Convert to a linear expression.
    fn into_linear_expr(self) -> (e: LinearExpr)
        ensures
            e.terms@ == self.terms_spec(),
            e.constant == self.constant_spec(),
    ;
}

/// The terms and constant of the expression that a value stands for.
pub open spec fn linear_view<T: IntoLinearExpr>(t: T) -> (Seq<(IntVar, i64)>, i64) {
    (t.terms_spec(), t.constant_spec())
}

impl IntoLinearExpr for LinearExpr {
    open spec fn terms_spec(&self) -> Seq<(IntVar, i64)> {
        self.terms@
    }

    open spec fn constant_spec(&self) -> i64 {
        self.constant
    }

    fn into_linear_expr(self) -> (e: LinearExpr) {
        self
    }
}

impl IntoLinearExpr for IntVar {
    open spec fn terms_spec(&self) -> Seq<(IntVar, i64)> {
        seq![(*self, 1i64)]
    }

    open spec fn constant_spec(&self) -> i64 {
        0
    }

    fn into_linear_expr(self) -> (e: LinearExpr) {
        LinearExpr::from(self)
    }
}

impl IntoLinearExpr for BoolVar {
    open spec fn terms_spec(&self) -> Seq<(IntVar, i64)> {
        seq![(IntVar(self.0), 1i64)]
    }

    open spec fn constant_spec(&self) -> i64 {
        0
    }

    fn into_linear_expr(self) -> (e: LinearExpr) {
        LinearExpr::from(self)
    }
}

impl IntoLinearExpr for i64 {
    open spec fn terms_spec(&self) -> Seq<(IntVar, i64)> {
        Seq::empty()
    }

    open spec fn constant_spec(&self) -> i64 {
        *self
    }

    fn into_linear_expr(self) -> (e: LinearExpr) {
        LinearExpr::constant(self)
    }
}

impl IntoLinearExpr for i32 {
    open spec fn terms_spec(&self) -> Seq<(IntVar, i64)> {
        Seq::empty()
    }

    open spec fn constant_spec(&self) -> i64 {
        *self as i64
    }

    fn into_linear_expr(self) -> (e: LinearExpr) {
        LinearExpr::constant(self as i64)
    }
}

/// The value of a single term.
proof fn lemma_term_sum_single(t: (IntVar, i64), a: spec_fn(int) -> int)
    ensures
        term_sum(seq![t], a) == t.1 * a(t.0.0 as int),
{
    lemma_term_sum_push(Seq::empty(), t, a);
    assert(Seq::<(IntVar, i64)>::empty().push(t) =~= seq![t]);
}

/// A linear expression stands for itself: converting it keeps its terms and
/// constant, so its value under every assignment.
pub proof fn law_expr_stands_for_itself(e: LinearExpr, a: spec_fn(int) -> int)
    ensures
        e.terms_spec() == e.terms@,
        e.constant_spec() == e.constant,
        term_sum(e.terms_spec(), a) + e.constant_spec() == e.value(a),
{
}

/// An integer variable stands for the expression `1 * v`, whose value is the variable's value.
pub proof fn law_int_var_stands_for_itself(v: IntVar, a: spec_fn(int) -> int)
    ensures
        v.terms_spec() == seq![(v, 1i64)],
        v.constant_spec() == 0,
        term_sum(v.terms_spec(), a) + v.constant_spec() == a(v.0 as int),
{
    lemma_term_sum_single((v, 1i64), a);
}

/// A Boolean variable stands for `1 * b` over its index, as `LinearExpr::from(b)`
/// builds it: its value is the value of the variable at that index.
pub proof fn law_bool_var_stands_for_itself(b: BoolVar, a: spec_fn(int) -> int)
    ensures
        b.terms_spec() == seq![(IntVar(b.0), 1i64)],
        b.constant_spec() == 0,
        term_sum(b.terms_spec(), a) + b.constant_spec() == a(b.0 as int),
{
    lemma_term_sum_single((IntVar(b.0), 1i64), a);
}

/// A constant stands for the expression with no terms: its value is the constant.
pub proof fn law_i64_stands_for_itself(c: i64, a: spec_fn(int) -> int)
    ensures
        c.terms_spec() == Seq::<(IntVar, i64)>::empty(),
        c.constant_spec() == c,
        term_sum(c.terms_spec(), a) + c.constant_spec() == c,
{
}

/// An `i32` constant stands for the expression with no terms and that constant.
pub proof fn law_i32_stands_for_itself(c: i32, a: spec_fn(int) -> int)
    ensures
        c.terms_spec() == Seq::<(IntVar, i64)>::empty(),
        c.constant_spec() == c,
        term_sum(c.terms_spec(), a) + c.constant_spec() == c,
{
}

/// `sum` gives each variable, in order, a coefficient of 1.
pub proof fn law_unit_terms(vars: Seq<IntVar>)
    ensures
        unit_terms(vars).len() == vars.len(),
        forall|i: int| 0 <= i < vars.len() ==> #[trigger] unit_terms(vars)[i] == (vars[i], 1i64),
{
}

/// `weighted_sum` pairs the variables and coefficients position by position,
/// up to the shorter list.
pub proof fn law_zip_terms(vars: Seq<IntVar>, coeffs: Seq<i64>)
    ensures
        zip_terms(vars, coeffs).len() == if vars.len() <= coeffs.len() { vars.len() } else { coeffs.len() },
        forall|i: int|
            0 <= i < zip_terms(vars, coeffs).len() ==> #[trigger] zip_terms(vars, coeffs)[i] == (vars[i], coeffs[i]),
{
}

/// Negating the terms keeps each variable and negates its coefficient.
pub proof fn law_negate_terms(terms: Seq<(IntVar, i64)>)
    requires
        negatable(terms),
    ensures
        negate_terms(terms).len() == terms.len(),
        forall|i: int|
            0 <= i < terms.len() ==> (#[trigger] negate_terms(terms)[i]).0 == terms[i].0
                && negate_terms(terms)[i].1 == -terms[i].1,
{
    assert forall|i: int| 0 <= i < terms.len() implies (#[trigger] negate_terms(terms)[i]).0 == terms[i].0
        && negate_terms(terms)[i].1 == -terms[i].1 by {
        assert(terms[i].1 != i64::MIN);
    }
}

/// Scaling the terms by `k` keeps each variable and multiplies its coefficient by `k`.
pub proof fn law_scale_terms(terms: Seq<(IntVar, i64)>, k: i64)
    requires
        scalable(terms, k),
    ensures
        scale_terms(terms, k).len() == terms.len(),
        forall|i: int|
            0 <= i < terms.len() ==> (#[trigger] scale_terms(terms, k)[i]).0 == terms[i].0
                && scale_terms(terms, k)[i].1 == terms[i].1 * k,
{
    assert forall|i: int| 0 <= i < terms.len() implies (#[trigger] scale_terms(terms, k)[i]).0 == terms[i].0
        && scale_terms(terms, k)[i].1 == terms[i].1 * k by {
        assert(fits_i64(terms[i].1 * k));
    }
}

/// The variable and coefficient lists of the terms, position by position.
pub proof fn law_term_lists(terms: Seq<(IntVar, i64)>)
    ensures
        term_vars(terms).len() == terms.len(),
        term_coeffs(terms).len() == terms.len(),
        forall|i: int|
            0 <= i < terms.len() ==> #[trigger] term_vars(terms)[i] == terms[i].0.0 && term_coeffs(terms)[i]
                == terms[i].1,
{
}

/// The value of the terms, read one term at a time: appending a term adds its
/// coefficient times the variable's value, and no terms have value 0.
pub proof fn law_term_sum_steps(terms: Seq<(IntVar, i64)>, t: (IntVar, i64), a: spec_fn(int) -> int)
    ensures
        term_sum(Seq::empty(), a) == 0,
        term_sum(terms.push(t), a) == term_sum(terms, a) + t.1 * a(t.0.0 as int),
{
    lemma_term_sum_push(terms, t, a);
}

/// Create a bounded expression: var <= ub.
pub fn leq(var: impl IntoLinearExpr, ub: i64) -> (r: BoundedLinearExpr)
    ensures
        r.expr.terms@ == var.terms_spec(),
        r.expr.constant == var.constant_spec(),
        r.lb == i64::MIN,
        r.ub == ub,
{
    var.into_linear_expr().le(ub)
}

/// Create a bounded expression: var >= lb.
pub fn geq(var: impl IntoLinearExpr, lb: i64) -> (r: BoundedLinearExpr)
    ensures
        r.expr.terms@ == var.terms_spec(),
        r.expr.constant == var.constant_spec(),
        r.lb == lb,
        r.ub == i64::MAX,
{
    var.into_linear_expr().ge(lb)
}

/// Create a bounded expression: expr == val.
pub fn eq(var: impl IntoLinearExpr, val: i64) -> (r: BoundedLinearExpr)
    ensures
        r.expr.terms@ == var.terms_spec(),
        r.expr.constant == var.constant_spec(),
        r.lb == val,
        r.ub == val,
{
    var.into_linear_expr().eq(val)
}

} // verus!
