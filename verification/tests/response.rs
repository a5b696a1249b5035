use cpsat_rs::params::SatParameters;
use cpsat_rs::proto::{CpSolverResponse, CpSolverStatus};
use cpsat_rs::solver::SolveResponse;
use cpsat_rs::vars::{BoolVar, IntVar};

fn number(status: CpSolverStatus) -> i32 {
    match status {
        CpSolverStatus::Unknown => 0,
        CpSolverStatus::ModelInvalid => 1,
        CpSolverStatus::Feasible => 2,
        CpSolverStatus::Infeasible => 3,
        CpSolverStatus::Optimal => 4,
    }
}

fn response(status: CpSolverStatus, solution: Vec<i64>) -> SolveResponse {
    SolveResponse {
        proto: CpSolverResponse {
            status: number(status),
            solution,
            sufficient_assumptions_for_infeasibility: vec![2, 5],
            ..Default::default()
        },
    }
}

#[test]
fn statuses() {
    let opt = response(CpSolverStatus::Optimal, vec![]);
    assert!(opt.is_optimal() && opt.is_feasible());
    assert_eq!(opt.status(), CpSolverStatus::Optimal);
    let feas = response(CpSolverStatus::Feasible, vec![]);
    assert!(!feas.is_optimal() && feas.is_feasible());
    for s in [CpSolverStatus::Infeasible, CpSolverStatus::Unknown, CpSolverStatus::ModelInvalid] {
        let r = response(s, vec![]);
        assert!(!r.is_optimal() && !r.is_feasible());
        assert_eq!(r.status(), s);
    }
}

#[test]
fn unknown_status_number_reads_as_unknown() {
    let r = SolveResponse { proto: CpSolverResponse { status: 9, ..Default::default() } };
    assert_eq!(r.status(), CpSolverStatus::Unknown);
    assert!(!r.is_feasible());
    assert_eq!(r.raw_proto().status, 9);
}

#[test]
fn values() {
    let r = response(CpSolverStatus::Optimal, vec![4, 0, 1]);
    assert_eq!(r.value(IntVar(0)), 4);
    assert_eq!(r.value(IntVar(2)), 1);
    assert!(r.bool_value(BoolVar(0)));
    assert!(!r.bool_value(BoolVar(1)));
    assert!(r.bool_value(BoolVar(1).negated()));
    assert!(!r.bool_value(!BoolVar(2)));
    assert_eq!(r.sufficient_assumptions_for_infeasibility(), &[2, 5]);
    assert_eq!(r.raw_proto().solution, vec![4, 0, 1]);
}

#[test]
fn negation_is_bitwise_not() {
    let b = BoolVar(5);
    assert_eq!(b.negated().index(), -6);
    assert_eq!((!b).index(), -6);
    assert_eq!((!!b).index(), 5);
    assert_eq!(b.as_int_var(), IntVar(5));
    assert!((!b).index() < 0);
}

#[test]
fn parameters() {
    let p = SatParameters::default();
    assert_eq!(p.num_workers, None);
    let p = p.with_num_workers(8).with_random_seed(3).with_log_search_progress(true).with_enumerate_all_solutions(false);
    assert_eq!(p.num_workers, Some(8));
    assert_eq!(p.random_seed, Some(3));
    assert_eq!(p.log_search_progress, Some(true));
    assert_eq!(p.enumerate_all_solutions, Some(false));
    assert_eq!(p.max_number_of_conflicts, None);
    assert_eq!(p.num_search_workers, None);
}
