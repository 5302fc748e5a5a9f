//! The incremental protocol spoken with the native engine: validation of
//! solve requests, encoding of asserted clauses, and interpretation of the
//! engine's integer status codes.

use vstd::prelude::*;

use crate::codec::{lit_to_kissat_lit, lit_valid, spec_encode, Lit};

verus! {

/// Failures the adapter surfaces to its caller.
#[derive(Clone, Copy, Debug, PartialEq, Eq, Structural)]
pub enum SolverError {
    /// The caller asked for assumption literals or extra constraint clauses,
    /// which the native engine does not support.
    UnsupportedFeature,
    /// The native solve call returned a status code outside the documented
    /// set; this indicates an engine build or version mismatch.
    EngineContractViolation { status: i32 },
}

/// The engine's status code for a satisfiable instance.
pub const STATUS_SATISFIABLE: i32 = 10;

/// The engine's status code for an unsatisfiable instance.
pub const STATUS_UNSATISFIABLE: i32 = 20;

/// Validate a solve request before anything is handed to the engine: the
/// engine supports neither assumption literals nor extra constraint clauses,
/// so a request carrying either is rejected outright, whatever the clauses
/// already asserted.
pub fn check_solve_request(assumptions: &[Lit], constraints: &[Vec<Lit>]) -> (r: Result<
    (),
    SolverError,
>)
    ensures
        r == (if assumptions@.len() == 0 && constraints@.len() == 0 {
            Ok::<(), SolverError>(())
        } else {
            Err::<(), SolverError>(SolverError::UnsupportedFeature)
        }),
{
    if assumptions.len() != 0 || constraints.len() != 0 {
        Err(SolverError::UnsupportedFeature)
    } else {
        Ok(())
    }
}

/// Encode a clause for assertion: each literal in order, in the native
/// encoding, followed by the terminator `0`.  An empty clause encodes to the
/// terminator alone.
pub fn encode_clause(clause: &[Lit]) -> (r: Vec<i32>)
    requires
        forall|i: int| 0 <= i < clause@.len() ==> lit_valid(#[trigger] clause@[i]),
    ensures
        r@.len() == clause@.len() + 1,
        forall|i: int| 0 <= i < clause@.len() ==> r@[i] == spec_encode(clause@[i]),
        forall|i: int| 0 <= i < clause@.len() ==> r@[i] != 0,
        r@[clause@.len() as int] == 0,
{
    let mut r: Vec<i32> = Vec::new();
    let mut i: usize = 0;
    while i < clause.len()
        invariant
            i <= clause@.len(),
            r@.len() == i,
            forall|j: int| 0 <= j < clause@.len() ==> lit_valid(#[trigger] clause@[j]),
            forall|j: int| 0 <= j < i ==> r@[j] == spec_encode(clause@[j]),
        decreases clause@.len() - i,
    {
        let code = lit_to_kissat_lit(&clause[i]);
        r.push(code);
        i = i + 1;
    }
    r.push(0);
    r
}

/// Interpret the status code of an unbounded solve: `10` means satisfiable,
/// `20` unsatisfiable, and any other code breaks the engine's contract.
pub fn interpret_solve_status(status: i32) -> (r: Result<bool, SolverError>)
    ensures
        status == STATUS_SATISFIABLE ==> r == Ok::<bool, SolverError>(true),
        status == STATUS_UNSATISFIABLE ==> r == Ok::<bool, SolverError>(false),
        status != STATUS_SATISFIABLE && status != STATUS_UNSATISFIABLE ==> r == Err::<
            bool,
            SolverError,
        >(SolverError::EngineContractViolation { status }),
{
    if status == STATUS_SATISFIABLE {
        Ok(true)
    } else if status == STATUS_UNSATISFIABLE {
        Ok(false)
    } else {
        Err(SolverError::EngineContractViolation { status })
    }
}

/// Interpret the event a time-bounded solve ends with: `None` means no
/// status arrived within the bound, so the solve timed out; a status code is
/// read as in an unbounded solve.
pub fn interpret_timed_event(event: Option<i32>) -> (r: Result<Option<bool>, SolverError>)
    ensures
        r == (match event {
            None => Ok::<Option<bool>, SolverError>(None::<bool>),
            Some(status) => {
                if status == STATUS_SATISFIABLE {
                    Ok::<Option<bool>, SolverError>(Some(true))
                } else if status == STATUS_UNSATISFIABLE {
                    Ok::<Option<bool>, SolverError>(Some(false))
                } else {
                    Err::<Option<bool>, SolverError>(SolverError::EngineContractViolation { status })
                }
            },
        }),
{
    match event {
        None => Ok(None),
        Some(status) => match interpret_solve_status(status) {
            Ok(sat) => Ok(Some(sat)),
            Err(e) => Err(e),
        },
    }
}

/// Reduction of a 64-bit seed to the 32-bit value the engine's seed option
/// takes: the low 32 bits, read as a two's-complement signed value.
pub open spec fn spec_seed_value(seed: u64) -> int {
    let low = seed % 0x1_0000_0000;
    if low < 0x8000_0000 {
        low as int
    } else {
        low - 0x1_0000_0000
    }
}

/// Reduce a 64-bit seed to the value passed for the engine's seed option.
pub fn seed_option_value(seed: u64) -> (r: i32)
    ensures
        r == spec_seed_value(seed),
{
    let low: u64 = seed % 0x1_0000_0000;
    if low < 0x8000_0000 {
        low as i32
    } else {
        let above: i64 = low as i64 - 0x1_0000_0000;
        above as i32
    }
}

} // verus!
