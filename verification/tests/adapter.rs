use kissat::codec::{kissat_lit_to_lit, lit_to_kissat_lit, Lit, Var};
use kissat::model::{interpret_value, Model, SolveOutcome};
use kissat::protocol::{
    check_solve_request, encode_clause, interpret_solve_status, interpret_timed_event,
    seed_option_value, SolverError, STATUS_SATISFIABLE, STATUS_UNSATISFIABLE,
};
use kissat::solver::Solver;

fn lit(index: usize, polarity: bool) -> Lit {
    Lit::new(Var::new(index), polarity)
}

#[test]
fn encode_exact_values() {
    assert_eq!(lit_to_kissat_lit(&lit(0, true)), 1);
    assert_eq!(lit_to_kissat_lit(&lit(0, false)), -1);
    assert_eq!(lit_to_kissat_lit(&lit(2, true)), 3);
    assert_eq!(lit_to_kissat_lit(&lit(2, false)), -3);
}

#[test]
fn decode_exact_values() {
    assert_eq!(kissat_lit_to_lit(1), lit(0, true));
    assert_eq!(kissat_lit_to_lit(-1), lit(0, false));
    assert_eq!(kissat_lit_to_lit(5), lit(4, true));
    assert_eq!(kissat_lit_to_lit(-5), lit(4, false));
}

#[test]
fn round_trip_encode_then_decode() {
    let indices: [usize; 5] = [0, 1, 2, 1000, 2147483645];
    for &index in indices.iter() {
        for &polarity in [true, false].iter() {
            let l = lit(index, polarity);
            assert_eq!(kissat_lit_to_lit(lit_to_kissat_lit(&l)), l);
        }
    }
}

#[test]
fn round_trip_decode_then_encode() {
    let codes: [i32; 8] = [1, -1, 7, -7, 42, -42, 2147483647, -2147483647];
    for &code in codes.iter() {
        assert_eq!(lit_to_kissat_lit(&kissat_lit_to_lit(code)), code);
    }
}

#[test]
fn negate_flips_polarity_and_keeps_the_variable() {
    let l = lit(3, true);
    let n = l.negate();
    assert_eq!(n, lit(3, false));
    assert_eq!(n.negate(), l);
}

#[test]
fn allocation_is_monotonic_and_dense() {
    let mut solver = Solver::new();
    assert_eq!(solver.num_var(), 0);
    let v0 = solver.new_var();
    let v1 = solver.new_var();
    let v2 = solver.new_var();
    assert_eq!(v0, Var::new(0));
    assert_eq!(v1, Var::new(1));
    assert_eq!(v2, Var::new(2));
    assert_eq!(solver.num_var(), 3);
}

#[test]
fn default_solver_has_no_variables() {
    let solver = Solver::default();
    assert_eq!(solver.num_var(), 0);
}

#[test]
fn empty_clause_encodes_to_the_terminator_alone() {
    let encoded = encode_clause(&[]);
    assert_eq!(encoded, vec![0]);
}

#[test]
fn clause_encoding_keeps_order_and_terminates() {
    let clause = [lit(0, true), lit(2, false), lit(1, true)];
    let encoded = encode_clause(&clause);
    assert_eq!(encoded, vec![1, -3, 2, 0]);
}

#[test]
fn solve_request_without_assumptions_or_constraints_is_accepted() {
    assert_eq!(check_solve_request(&[], &[]), Ok(()));
}

#[test]
fn solve_request_with_assumptions_is_rejected() {
    let assumptions = [lit(0, true)];
    assert_eq!(
        check_solve_request(&assumptions, &[]),
        Err(SolverError::UnsupportedFeature)
    );
    let several = [lit(0, false), lit(5, true)];
    assert_eq!(
        check_solve_request(&several, &[]),
        Err(SolverError::UnsupportedFeature)
    );
}

#[test]
fn solve_request_with_constraints_is_rejected() {
    let constraints = [vec![lit(1, true)]];
    assert_eq!(
        check_solve_request(&[], &constraints),
        Err(SolverError::UnsupportedFeature)
    );
}

#[test]
fn documented_status_codes_are_interpreted_exactly() {
    assert_eq!(interpret_solve_status(STATUS_SATISFIABLE), Ok(true));
    assert_eq!(interpret_solve_status(STATUS_UNSATISFIABLE), Ok(false));
}

#[test]
fn undocumented_status_code_is_a_contract_violation() {
    assert_eq!(
        interpret_solve_status(0),
        Err(SolverError::EngineContractViolation { status: 0 })
    );
    assert_eq!(
        interpret_solve_status(30),
        Err(SolverError::EngineContractViolation { status: 30 })
    );
}

#[test]
fn timed_events_are_interpreted_exactly() {
    assert_eq!(interpret_timed_event(None), Ok(None));
    assert_eq!(interpret_timed_event(Some(10)), Ok(Some(true)));
    assert_eq!(interpret_timed_event(Some(20)), Ok(Some(false)));
    assert_eq!(
        interpret_timed_event(Some(5)),
        Err(SolverError::EngineContractViolation { status: 5 })
    );
}

#[test]
fn seed_is_reduced_to_its_low_32_bits() {
    assert_eq!(seed_option_value(0), 0);
    assert_eq!(seed_option_value(3), 3);
    assert_eq!(seed_option_value(0xffff_ffff), -1);
    assert_eq!(seed_option_value(u64::MAX), -1);
    assert_eq!(seed_option_value(0x8000_0000), i32::MIN);
    assert_eq!(seed_option_value(0x1_0000_0000), 0);
    assert_eq!(seed_option_value(0x1_2345_6789), 0x2345_6789);
}

#[test]
fn model_answers_point_queries() {
    let model = Model::new(vec![1, -2, 0]);
    assert_eq!(model.value(lit(0, true)), Some(true));
    assert_eq!(model.value(lit(0, false)), Some(false));
    assert_eq!(model.value(lit(1, true)), Some(false));
    assert_eq!(model.value(lit(1, false)), Some(true));
    assert_eq!(model.value(lit(2, true)), None);
    assert_eq!(model.value(lit(2, false)), None);
    assert_eq!(model.value(lit(9, true)), None);
}

#[test]
fn value_queries_are_idempotent() {
    let model = Model::new(vec![1, -2, 0]);
    for &l in [lit(0, true), lit(1, false), lit(2, true), lit(9, false)].iter() {
        assert_eq!(model.value(l), model.value(l));
    }
}

#[test]
fn raw_reports_are_interpreted_exactly() {
    assert_eq!(interpret_value(lit(1, true), 2), Some(true));
    assert_eq!(interpret_value(lit(1, true), -2), Some(false));
    assert_eq!(interpret_value(lit(1, false), -2), Some(true));
    assert_eq!(interpret_value(lit(1, false), 2), Some(false));
    assert_eq!(interpret_value(lit(1, true), 0), None);
    assert_eq!(interpret_value(lit(1, true), 7), None);
}

#[test]
fn only_a_satisfiable_outcome_carries_an_assignment() {
    let satisfiable = SolveOutcome::Satisfiable(Model::new(vec![1, 2, 3]));
    assert_eq!(satisfiable.value(lit(1, true)), Some(true));
    assert_eq!(satisfiable.value(lit(1, false)), Some(false));
    let unsatisfiable = SolveOutcome::Unsatisfiable;
    assert_eq!(unsatisfiable.value(lit(1, true)), None);
    let timed_out = SolveOutcome::TimedOut;
    assert_eq!(timed_out.value(lit(1, true)), None);
}
