use cpsat_rs::expressions::LinearExpr;
use cpsat_rs::model::{CpModel, IntoDomain};
use cpsat_rs::proto::{Constraint, LinearExpressionProto};
use cpsat_rs::vars::{BoolVar, IntVar, IntervalVar};

fn var_expr(v: i32, c: i64) -> LinearExpressionProto {
    LinearExpressionProto { vars: vec![v], coeffs: vec![c], offset: 0 }
}

#[test]
fn new_model_is_empty() {
    let m = CpModel::new();
    let p = m.to_proto();
    assert!(p.variables.is_empty());
    assert!(p.constraints.is_empty());
    assert!(p.objective.is_none());
    assert!(p.solution_hint.is_none());
    let d = CpModel::default();
    assert!(d.to_proto().variables.is_empty());
}

#[test]
fn domains() {
    assert_eq!((3i64, 9i64).into_domain(), vec![3, 9]);
    assert_eq!((0i64..=10).into_domain(), vec![0, 10]);
    assert_eq!((0i64..10).into_domain(), vec![0, 9]);
    assert_eq!(5i64.into_domain(), vec![5, 5]);
    assert_eq!(vec![(1i64, 2i64), (5, 8)].into_domain(), vec![1, 2, 5, 8]);
    assert_eq!((-2i32..=4).into_domain(), vec![-2, 4]);
}

#[test]
fn variables_get_consecutive_handles() {
    let mut m = CpModel::new();
    let x = m.new_int_var(0..=10, "x");
    let b = m.new_bool_var("b");
    let c = m.new_constant(42);
    let y = m.new_int_var(vec![(0, 1), (4, 6)], "y");
    assert_eq!(x, IntVar(0));
    assert_eq!(b, BoolVar(1));
    assert_eq!(c, IntVar(2));
    assert_eq!(y, IntVar(3));
    let p = m.to_proto();
    assert_eq!(p.variables[0].name, "x");
    assert_eq!(p.variables[0].domain, vec![0, 10]);
    assert_eq!(p.variables[1].domain, vec![0, 1]);
    assert_eq!(p.variables[2].name, "");
    assert_eq!(p.variables[2].domain, vec![42, 42]);
    assert_eq!(p.variables[3].domain, vec![0, 1, 4, 6]);
    assert!(b.index() >= 0);
}

#[test]
fn add_moves_constant_to_bounds() {
    let mut m = CpModel::new();
    let x = m.new_int_var(0..=10, "x");
    let y = m.new_int_var(0..=10, "y");
    m.add((x + y + 3).le(15));
    m.add((x * 2 - 4).between(0, 8));
    m.add(LinearExpr::from(x).ge(1));
    let p = m.to_proto();
    assert_eq!(p.constraints.len(), 3);
    match &p.constraints[0].constraint {
        Some(Constraint::Linear(lc)) => {
            assert_eq!(lc.vars, vec![0, 1]);
            assert_eq!(lc.coeffs, vec![1, 1]);
            assert_eq!(lc.domain, vec![i64::MIN, 12]);
        }
        _ => panic!("expected a linear constraint"),
    }
    match &p.constraints[1].constraint {
        Some(Constraint::Linear(lc)) => {
            assert_eq!(lc.coeffs, vec![2]);
            assert_eq!(lc.domain, vec![4, 12]);
        }
        _ => panic!("expected a linear constraint"),
    }
    match &p.constraints[2].constraint {
        Some(Constraint::Linear(lc)) => assert_eq!(lc.domain, vec![1, i64::MAX]),
        _ => panic!("expected a linear constraint"),
    }
    assert!(p.constraints.iter().all(|c| c.name.is_empty() && c.enforcement_literal.is_empty()));
}

#[test]
fn added_linear_constraint_keeps_meaning() {
    // x + 2y + 5 in [7, 20]  <=>  x + 2y in [2, 15]
    let mut m = CpModel::new();
    let x = m.new_int_var(0..=10, "x");
    let y = m.new_int_var(0..=10, "y");
    let b = (y * 2 + x + 5).between(7, 20);
    let holds_b = |xv: i64, yv: i64| (7..=20).contains(&(xv + 2 * yv + 5));
    m.add(b);
    let lc = match &m.to_proto().constraints[0].constraint {
        Some(Constraint::Linear(lc)) => lc.clone(),
        _ => panic!("expected a linear constraint"),
    };
    for xv in -3..12 {
        for yv in -3..12 {
            let s = lc.coeffs[0] * yv + lc.coeffs[1] * xv;
            let holds_lc = lc.domain[0] <= s && s <= lc.domain[1];
            assert_eq!(holds_lc, holds_b(xv, yv));
        }
    }
}

#[test]
fn add_chains() {
    let mut m = CpModel::new();
    let x = m.new_int_var(0..=10, "x");
    m.add(LinearExpr::from(x).le(5)).add(LinearExpr::from(x).ge(2));
    assert_eq!(m.to_proto().constraints.len(), 2);
}

#[test]
fn intervals() {
    let mut m = CpModel::new();
    let s = m.new_int_var(0..=100, "s");
    let e = m.new_int_var(0..=100, "e");
    let p = m.new_bool_var("p");
    let i0 = m.new_interval_var(s, 10, e, "task");
    let i1 = m.new_optional_interval_var(s, LinearExpr::constant(5), e + 1, p, String::from("opt"));
    assert_eq!(i0, IntervalVar(0));
    assert_eq!(i1, IntervalVar(1));
    let c0 = &m.to_proto().constraints[0];
    assert_eq!(c0.name, "task");
    assert!(c0.enforcement_literal.is_empty());
    match &c0.constraint {
        Some(Constraint::Interval(iv)) => {
            assert_eq!(iv.start, Some(var_expr(0, 1)));
            assert_eq!(iv.size, Some(LinearExpressionProto { vars: vec![], coeffs: vec![], offset: 10 }));
            assert_eq!(iv.end, Some(var_expr(1, 1)));
        }
        _ => panic!("expected an interval"),
    }
    let c1 = &m.to_proto().constraints[1];
    assert_eq!(c1.enforcement_literal, vec![2]);
    match &c1.constraint {
        Some(Constraint::Interval(iv)) => {
            assert_eq!(iv.end, Some(LinearExpressionProto { vars: vec![1], coeffs: vec![1], offset: 1 }));
        }
        _ => panic!("expected an interval"),
    }
}

#[test]
fn scheduling_constraints() {
    let mut m = CpModel::new();
    let s = m.new_int_var(0..=10, "s");
    let e = m.new_int_var(0..=10, "e");
    let a = m.new_interval_var(s, 2i64, e, "a");
    let b = m.new_interval_var(e, 3i64, s, "b");
    m.add_no_overlap(&[a, b]);
    m.add_no_overlap_2d(&[a], &[b]);
    m.add_cumulative(&[a, b], &[LinearExpr::constant(1), s.into()], 2i64);
    let p = m.to_proto();
    match &p.constraints[2].constraint {
        Some(Constraint::NoOverlap(no)) => assert_eq!(no.intervals, vec![0, 1]),
        _ => panic!("expected no_overlap"),
    }
    match &p.constraints[3].constraint {
        Some(Constraint::NoOverlap2d(no)) => {
            assert_eq!(no.x_intervals, vec![0]);
            assert_eq!(no.y_intervals, vec![1]);
        }
        _ => panic!("expected no_overlap_2d"),
    }
    match &p.constraints[4].constraint {
        Some(Constraint::Cumulative(cu)) => {
            assert_eq!(cu.intervals, vec![0, 1]);
            assert_eq!(cu.demands.len(), 2);
            assert_eq!(cu.demands[1], var_expr(0, 1));
            assert_eq!(cu.capacity.as_ref().map(|c| c.offset), Some(2));
        }
        _ => panic!("expected cumulative"),
    }
}

#[test]
fn combinatorial_constraints() {
    let mut m = CpModel::new();
    let xs: Vec<IntVar> = (0..3).map(|i| m.new_int_var(1..=3, &format!("x{}", i))).collect();
    let l = m.new_bool_var("l");
    m.add_all_different(&xs);
    m.add_circuit(&[(0, 1, l), (1, 0, l.negated())]);
    m.add_table(&xs, &[vec![1, 2, 3], vec![3, 2, 1]], true);
    m.add_automaton(&xs, 0, &[2], &[(0, 7, 1), (1, 8, 2)]);
    m.add_element(xs[0], &[xs[1], xs[2]], xs[1]);
    let p = m.to_proto();
    match &p.constraints[0].constraint {
        Some(Constraint::AllDiff(ad)) => {
            assert_eq!(ad.exprs, vec![var_expr(0, 1), var_expr(1, 1), var_expr(2, 1)])
        }
        _ => panic!("expected all_diff"),
    }
    match &p.constraints[1].constraint {
        Some(Constraint::Circuit(ci)) => {
            assert_eq!(ci.tails, vec![0, 1]);
            assert_eq!(ci.heads, vec![1, 0]);
            assert_eq!(ci.literals, vec![3, -4]);
        }
        _ => panic!("expected circuit"),
    }
    match &p.constraints[2].constraint {
        Some(Constraint::Table(ta)) => {
            assert_eq!(ta.vars, vec![0, 1, 2]);
            assert_eq!(ta.values, vec![1, 2, 3, 3, 2, 1]);
            assert!(ta.negated);
            assert!(ta.exprs.is_empty());
        }
        _ => panic!("expected table"),
    }
    match &p.constraints[3].constraint {
        Some(Constraint::Automaton(au)) => {
            assert_eq!(au.starting_state, 0);
            assert_eq!(au.final_states, vec![2]);
            assert_eq!(au.transition_tail, vec![0, 1]);
            assert_eq!(au.transition_label, vec![7, 8]);
            assert_eq!(au.transition_head, vec![1, 2]);
            assert_eq!(au.vars, vec![0, 1, 2]);
        }
        _ => panic!("expected automaton"),
    }
    match &p.constraints[4].constraint {
        Some(Constraint::Element(el)) => {
            assert_eq!((el.index, el.target), (0, 1));
            assert_eq!(el.vars, vec![1, 2]);
            assert!(el.linear_index.is_none() && el.linear_target.is_none());
        }
        _ => panic!("expected element"),
    }
}

#[test]
fn boolean_constraints() {
    let mut m = CpModel::new();
    let a = m.new_bool_var("a");
    let b = m.new_bool_var("b");
    m.add_bool_or(&[a, !b]);
    m.add_bool_and(&[a]);
    m.add_exactly_one(&[a, b]);
    m.add_at_most_one(&[!a, b]);
    m.add_implication(a, b);
    let p = m.to_proto();
    let lits = |i: usize| match &p.constraints[i].constraint {
        Some(Constraint::BoolOr(x))
        | Some(Constraint::BoolAnd(x))
        | Some(Constraint::ExactlyOne(x))
        | Some(Constraint::AtMostOne(x)) => x.literals.clone(),
        _ => panic!("expected a Boolean constraint"),
    };
    assert!(matches!(p.constraints[0].constraint, Some(Constraint::BoolOr(_))));
    assert_eq!(lits(0), vec![0, -2]);
    assert!(matches!(p.constraints[1].constraint, Some(Constraint::BoolAnd(_))));
    assert_eq!(lits(1), vec![0]);
    assert!(matches!(p.constraints[2].constraint, Some(Constraint::ExactlyOne(_))));
    assert_eq!(lits(2), vec![0, 1]);
    assert!(matches!(p.constraints[3].constraint, Some(Constraint::AtMostOne(_))));
    assert_eq!(lits(3), vec![-1, 1]);
    // a => b is a bool_and of [b] enforced by a
    assert_eq!(p.constraints[4].enforcement_literal, vec![0]);
    assert!(matches!(p.constraints[4].constraint, Some(Constraint::BoolAnd(_))));
    assert_eq!(lits(4), vec![1]);
}

#[test]
fn max_and_min_equality() {
    let mut m = CpModel::new();
    let t = m.new_int_var(0..=9, "t");
    let x = m.new_int_var(0..=9, "x");
    let y = m.new_int_var(0..=9, "y");
    m.add_max_equality(t, &[x, y]);
    m.add_min_equality(t, &[x, y]);
    let p = m.to_proto();
    match &p.constraints[0].constraint {
        Some(Constraint::LinMax(lm)) => {
            assert_eq!(lm.target, Some(var_expr(0, 1)));
            assert_eq!(lm.exprs, vec![var_expr(1, 1), var_expr(2, 1)]);
        }
        _ => panic!("expected lin_max"),
    }
    match &p.constraints[1].constraint {
        Some(Constraint::LinMax(lm)) => {
            assert_eq!(lm.target, Some(var_expr(0, -1)));
            assert_eq!(lm.exprs, vec![var_expr(1, -1), var_expr(2, -1)]);
            // -t == max(-x, -y) holds exactly when t == min(x, y)
            let (xv, yv) = (4i64, 7i64);
            let max_neg = lm.exprs.iter().map(|e| e.coeffs[0] * if e.vars[0] == 1 { xv } else { yv }).max().unwrap();
            assert_eq!(-max_neg, xv.min(yv));
        }
        _ => panic!("expected lin_max"),
    }
}

#[test]
fn objectives() {
    let mut m = CpModel::new();
    let x = m.new_int_var(0..=10, "x");
    let y = m.new_int_var(0..=10, "y");
    m.minimize(x + y + 4);
    let o = m.to_proto().objective.clone().unwrap();
    assert_eq!(o.vars, vec![0, 1]);
    assert_eq!(o.coeffs, vec![1, 1]);
    assert_eq!(o.offset, 4);
    assert_eq!(o.scaling_factor, 0);
    m.maximize(2_i64 * x + 3_i64 * y - 1);
    let o = m.to_proto().objective.clone().unwrap();
    assert_eq!(o.vars, vec![0, 1]);
    assert_eq!(o.coeffs, vec![-2, -3]);
    assert_eq!(o.offset, 1);
    assert_eq!(o.scaling_factor, -1);
    // reported value = -1 * (internal value) = 2x + 3y - 1
    let (xv, yv) = (5i128, 10i128);
    let internal = o.coeffs[0] as i128 * xv + o.coeffs[1] as i128 * yv + o.offset;
    assert_eq!(o.scaling_factor as i128 * internal, 2 * xv + 3 * yv - 1);
    assert_eq!(m.to_proto().constraints.len(), 0);
}

#[test]
fn maximize_min_constant() {
    let mut m = CpModel::new();
    m.maximize(LinearExpr::constant(i64::MIN));
    let o = m.to_proto().objective.clone().unwrap();
    assert_eq!(o.offset, -(i64::MIN as i128));
}

#[test]
fn hints() {
    let mut m = CpModel::new();
    let x = m.new_int_var(0..=10, "x");
    let y = m.new_int_var(0..=10, "y");
    m.add_hint(x, 3);
    m.add_hint(y, 7);
    let h = m.to_proto().solution_hint.clone().unwrap();
    assert_eq!(h.vars, vec![0, 1]);
    assert_eq!(h.values, vec![3, 7]);
}

#[test]
fn raw_proto_mut_edits_the_model() {
    let mut m = CpModel::new();
    m.raw_proto_mut().name = "named".to_string();
    m.raw_proto_mut().assumptions = vec![0, -2];
    assert_eq!(m.to_proto().name, "named");
    let b = m.new_bool_var("b");
    m.add_bool_or(&[b]);
    m.minimize(b);
    assert_eq!(m.to_proto().assumptions, vec![0, -2]);
}

#[test]
fn minimize_a_single_variable() {
    let mut m = CpModel::new();
    let x = m.new_int_var(0..=10, "x");
    m.minimize(x);
    let o = m.to_proto().objective.clone().unwrap();
    assert_eq!(o.vars, vec![0]);
    assert_eq!(o.coeffs, vec![1]);
    assert_eq!(o.offset, 0);
    assert!(o.domain.is_empty() && !o.scaling_was_exact);
    m.maximize(x);
    let o = m.to_proto().objective.clone().unwrap();
    assert_eq!(o.coeffs, vec![-1]);
    assert_eq!(o.scaling_factor, -1);
}
