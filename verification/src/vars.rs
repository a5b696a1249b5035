//! Variable handle types.
//!
//! These are `Copy` index newtypes, not borrows. They can be freely
//! stored in `Vec`, `HashMap`, passed to functions, etc. Using a handle
//! from one model in another model is a logic error.
use vstd::prelude::*;

verus! {

/// Handle to an integer variable in a `CpModel`.
/// Inner value is the index into `CpModelProto.variables`.
#[derive(Debug, Clone, Copy, PartialEq, Eq, Hash, Structural)]
pub struct IntVar(pub i32);

/// Handle to a Boolean variable in a `CpModel`.
/// A `BoolVar` is an `IntVar` with domain `[0, 1]`.
///
/// The inner value is a literal: a non-negative value `i` stands for the
/// variable at index `i`, a negative value `l` for the negation of the
/// variable at index `-l - 1` (its bitwise complement).
#[derive(Debug, Clone, Copy, PartialEq, Eq, Hash, Structural)]
pub struct BoolVar(pub i32);

/// Handle to an interval variable in a `CpModel`.
/// Inner value is the index into `CpModelProto.constraints`
/// (the constraint that defines the interval).
#[derive(Debug, Clone, Copy, PartialEq, Eq, Hash, Structural)]
pub struct IntervalVar(pub i32);

/// The bitwise complement of a literal, as an integer: `!l == -l - 1`.
pub open spec fn complement(l: i32) -> int {
    -l - 1
}

/// The index of the model variable that a literal refers to.
pub open spec fn literal_variable(l: i32) -> int {
    if l >= 0 {
        l as int
    } else {
        complement(l)
    }
}

/// Whether a literal is true when the variable at index `i` has value `a(i)`:
/// a positive literal is true when its variable is non-zero, a negated one when
/// its variable is zero.
pub open spec fn literal_holds(l: i32, a: spec_fn(int) -> int) -> bool {
    if l >= 0 {
        a(l as int) != 0
    } else {
        a(complement(l)) == 0
    }
}

fn complement_exec(l: i32) -> (r: i32)
    ensures
        r == complement(l),
{
    proof {
        assert(!l == -l - 1) by (bit_vector);
    }
    !l
}

impl BoolVar {
    /// Get the negation of this Boolean variable.
    /// In CP-SAT, negation is encoded as the bitwise NOT of the variable index.
    pub fn negated(self) -> (r: Self)
        ensures
            r.0 == complement(self.0),
            r.0 >= 0 <==> self.0 < 0,
            literal_variable(r.0) == literal_variable(self.0),
    {
        BoolVar(complement_exec(self.0))
    }

    /// Convert to the underlying integer variable.
    pub fn as_int_var(self) -> (r: IntVar)
        ensures
            r.0 == self.0,
    {
        IntVar(self.0)
    }

    /// Get the raw literal index (may be negative for negated literals).
    pub fn index(self) -> (r: i32)
        ensures
            r == self.0,
    {
        self.0
    }
}

/// Negating a literal twice gives the literal back.
pub proof fn law_double_negation(b: BoolVar)
    ensures
        complement(complement(b.0) as i32) == b.0,
{
}

/// A negated literal holds exactly when the literal does not.
pub proof fn law_negation_flips_truth(b: BoolVar, a: spec_fn(int) -> int)
    ensures
        literal_holds(complement(b.0) as i32, a) == !literal_holds(b.0, a),
{
}

impl core::ops::Not for BoolVar {
    type Output = Self;

    fn not(self) -> (r: Self)
        ensures
            r.0 == complement(self.0),
    {
        self.negated()
    }
}

impl vstd::std_specs::ops::NotSpecImpl for BoolVar {
    open spec fn obeys_not_spec() -> bool {
        true
    }

    open spec fn not_req(self) -> bool {
        true
    }

    open spec fn not_spec(self) -> BoolVar {
        BoolVar(complement(self.0) as i32)
    }
}

impl core::convert::From<BoolVar> for IntVar {
    fn from(b: BoolVar) -> (r: IntVar)
        ensures
            r.0 == b.0,
    {
        IntVar(b.0)
    }
}

impl vstd::std_specs::convert::FromSpecImpl<BoolVar> for IntVar {
    open spec fn obeys_from_spec() -> bool {
        true
    }

    open spec fn from_spec(b: BoolVar) -> IntVar {
        IntVar(b.0)
    }
}

} // verus!
