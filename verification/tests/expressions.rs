use cpsat_rs::expressions::{eq, geq, leq, BoundedLinearExpr, LinearExpr};
use cpsat_rs::model::{Ge, Le};
use cpsat_rs::vars::{BoolVar, IntVar};

fn value(e: &LinearExpr, a: &[i64]) -> i64 {
    e.terms.iter().map(|(v, c)| c * a[v.0 as usize]).sum::<i64>() + e.constant
}

fn holds(b: &BoundedLinearExpr, a: &[i64]) -> bool {
    let v = value(&b.expr, a);
    (b.lb == i64::MIN || b.lb <= v) && (b.ub == i64::MAX || v <= b.ub)
}

#[test]
fn constant_has_no_terms() {
    let e = LinearExpr::constant(7);
    assert!(e.terms.is_empty());
    assert_eq!(e.constant, 7);
    let d = LinearExpr::default();
    assert!(d.terms.is_empty());
    assert_eq!(d.constant, 0);
}

#[test]
fn sum_gives_unit_coefficients() {
    let vars = [IntVar(0), IntVar(3), IntVar(5)];
    let e = LinearExpr::sum(&vars);
    assert_eq!(e.terms, vec![(IntVar(0), 1), (IntVar(3), 1), (IntVar(5), 1)]);
    assert_eq!(e.constant, 0);
    assert_eq!(value(&e, &[1, 0, 0, 4, 0, 6]), 11);
}

#[test]
fn weighted_sum_stops_at_shorter_list() {
    let e = LinearExpr::weighted_sum(&[IntVar(0), IntVar(1), IntVar(2)], &[2, -3]);
    assert_eq!(e.terms, vec![(IntVar(0), 2), (IntVar(1), -3)]);
    let f = LinearExpr::weighted_sum(&[IntVar(0)], &[4, 5, 6]);
    assert_eq!(f.terms, vec![(IntVar(0), 4)]);
}

#[test]
fn add_term_appends() {
    let mut e = LinearExpr::constant(1);
    e.add_term(IntVar(2), 9);
    assert_eq!(e.terms, vec![(IntVar(2), 9)]);
    assert_eq!(e.constant, 1);
}

#[test]
fn bounds_of_le_ge_eq_between() {
    let x = IntVar(0);
    let le = LinearExpr::from(x).le(15);
    assert_eq!((le.lb, le.ub), (i64::MIN, 15));
    let ge = LinearExpr::from(x).ge(-3);
    assert_eq!((ge.lb, ge.ub), (-3, i64::MAX));
    let e = LinearExpr::from(x).eq(4);
    assert_eq!((e.lb, e.ub), (4, 4));
    let b = LinearExpr::from(x).between(1, 2);
    assert_eq!((b.lb, b.ub), (1, 2));
    assert!(holds(&b, &[1]));
    assert!(!holds(&b, &[3]));
    assert!(holds(&le, &[-1_000_000]));
}

#[test]
fn free_comparison_functions() {
    let x = IntVar(1);
    let a = leq(x, 10);
    assert_eq!((a.lb, a.ub), (i64::MIN, 10));
    assert_eq!(a.expr.terms, vec![(x, 1)]);
    let b = geq(BoolVar(1), 2);
    assert_eq!((b.lb, b.ub), (2, i64::MAX));
    let c = eq(5i64, 5);
    assert_eq!((c.lb, c.ub), (5, 5));
    assert_eq!(c.expr.constant, 5);
    let d = leq(x + 2, 4);
    assert_eq!(d.expr.terms, vec![(x, 1)]);
    assert_eq!(d.expr.constant, 2);
}

#[test]
fn comparison_traits() {
    let x = IntVar(4);
    let a = Le::le(x, 3);
    assert_eq!(a.expr.terms, vec![(x, 1)]);
    assert_eq!((a.lb, a.ub), (i64::MIN, 3));
    let b = Ge::ge(x, 8);
    assert_eq!((b.lb, b.ub), (8, i64::MAX));
    let c = Le::le(x + 1, 6);
    assert_eq!(c.expr.constant, 1);
    assert_eq!(c.ub, 6);
}

#[test]
fn conversions() {
    let e: LinearExpr = IntVar(3).into();
    assert_eq!(e.terms, vec![(IntVar(3), 1)]);
    let b: LinearExpr = BoolVar(2).into();
    assert_eq!(b.terms, vec![(IntVar(2), 1)]);
    let c: LinearExpr = 5i64.into();
    assert!(c.terms.is_empty());
    assert_eq!(c.constant, 5);
    let d: LinearExpr = 6i32.into();
    assert_eq!(d.constant, 6);
    let i: IntVar = BoolVar(9).into();
    assert_eq!(i, IntVar(9));
}

#[test]
fn operators_build_terms() {
    let x = IntVar(0);
    let y = IntVar(1);
    let e = x + y;
    assert_eq!(e.terms, vec![(x, 1), (y, 1)]);
    let f = x - y;
    assert_eq!(f.terms, vec![(x, 1), (y, -1)]);
    let g = x + 4;
    assert_eq!(g.terms, vec![(x, 1)]);
    assert_eq!(g.constant, 4);
    let h = x * 3;
    assert_eq!(h.terms, vec![(x, 3)]);
    let k = 2_i64 * y;
    assert_eq!(k.terms, vec![(y, 2)]);
    let s = (x + y) + 5 - 2;
    assert_eq!(s.constant, 3);
    let t = (x + 1) + y - x;
    assert_eq!(t.terms, vec![(x, 1), (y, 1), (x, -1)]);
}

#[test]
fn operators_respect_values() {
    let x = IntVar(0);
    let y = IntVar(1);
    let a = [5, -2];
    let e = (x * 3 + 7) + (y - x);
    assert_eq!(value(&e, &a), 3 * 5 + 7 + (-2 - 5));
    let n = -((y * 2 + x) + 1);
    assert_eq!(n.terms, vec![(y, -2), (x, -1)]);
    assert_eq!(n.constant, -1);
    assert_eq!(value(&n, &a), -(5 - 4 + 1));
    let m = (x - y + 3) * -4;
    assert_eq!(m.terms, vec![(x, -4), (y, 4)]);
    assert_eq!(m.constant, -12);
    assert_eq!(value(&m, &a), -4 * (5 + 2 + 3));
    let d = (x + y) - (x * 2 - 6);
    assert_eq!(d.terms, vec![(x, 1), (y, 1), (x, -2)]);
    assert_eq!(d.constant, 6);
    assert_eq!(value(&d, &a), (5 - 2) - (10 - 6));
}

#[test]
fn expression_to_proto() {
    let e = IntVar(2) * 5 + IntVar(7) + 11;
    let p = e.to_proto();
    assert_eq!(p.vars, vec![2, 7]);
    assert_eq!(p.coeffs, vec![5, 1]);
    assert_eq!(p.offset, 11);
}
