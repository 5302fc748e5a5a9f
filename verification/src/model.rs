//! Solve outcomes and satisfying assignments.
//!
//! After a satisfiable solve the engine reports, for each variable, either
//! the encoded positive literal, the encoded negative literal, or something
//! else (the variable was left unassigned).  A `Model` snapshots those raw
//! reports, one per variable, and answers point queries for the truth value
//! of any literal; an unassigned variable answers "unknown" (`None`), which
//! is distinct from `false`.

use vstd::prelude::*;

use crate::codec::{lit_to_kissat_lit, lit_valid, spec_encode, Lit};

verus! {

/// How one raw engine report is read for a literal: the encoded literal
/// itself means `true`, its negation means `false`, anything else means the
/// variable is unassigned.
pub open spec fn spec_interpreted_value(lit: Lit, raw: i32) -> Option<bool> {
    if raw == spec_encode(lit) {
        Some(true)
    } else if raw == -spec_encode(lit) {
        Some(false)
    } else {
        None
    }
}

/// Read the engine's raw assignment report for a literal.
pub fn interpret_value(lit: Lit, raw: i32) -> (r: Option<bool>)
    requires
        lit_valid(lit),
    ensures
        r == spec_interpreted_value(lit, raw),
{
    let code = lit_to_kissat_lit(&lit);
    if raw == code {
        Some(true)
    } else if raw == -code {
        Some(false)
    } else {
        None
    }
}

/// A satisfying assignment, snapshotted from the engine: entry `i` is the
/// engine's raw report for variable `i`.
#[derive(Clone, Debug)]
pub struct Model {
    values: Vec<i32>,
}

/// The truth value a model gives a literal: the raw report for the literal's
/// variable, interpreted; a variable beyond the model is unassigned.
pub open spec fn spec_model_value(values: Seq<i32>, lit: Lit) -> Option<bool> {
    if lit.var.index < values.len() {
        spec_interpreted_value(lit, values[lit.var.index as int])
    } else {
        None
    }
}

impl Model {
    /// The raw per-variable reports this model holds.
    pub closed spec fn values(self) -> Seq<i32> {
        self.values@
    }

    /// Snapshot a model from the engine's raw reports, one per variable.
    pub fn new(values: Vec<i32>) -> (m: Model)
        ensures
            m.values() == values@,
    {
        Model { values }
    }

    /// The truth value of a literal under this model; `None` means the
    /// variable was left unassigned.
    pub fn value(&self, lit: Lit) -> (r: Option<bool>)
        requires
            lit_valid(lit),
        ensures
            r == spec_model_value(self.values(), lit),
    {
        if lit.var.index < self.values.len() {
            interpret_value(lit, self.values[lit.var.index])
        } else {
            None
        }
    }
}

/// Value queries are idempotent: any two results of reading the same literal
/// against the same model are equal.
pub proof fn lemma_value_query_idempotent(
    m: Model,
    lit: Lit,
    r1: Option<bool>,
    r2: Option<bool>,
)
    requires
        r1 == spec_model_value(m.values(), lit),
        r2 == spec_model_value(m.values(), lit),
    ensures
        r1 == r2,
{
}

/// What one solve ends in: a satisfying assignment, a proof of
/// unsatisfiability, or — for a time-bounded solve — the time bound struck
/// first.
#[derive(Clone, Debug)]
pub enum SolveOutcome {
    Satisfiable(Model),
    Unsatisfiable,
    TimedOut,
}

impl SolveOutcome {
    /// The truth value of a literal under this outcome.  Only a satisfiable
    /// outcome carries an assignment; the others answer "unknown".
    pub fn value(&self, lit: Lit) -> (r: Option<bool>)
        requires
            lit_valid(lit),
        ensures
            r == (match self {
                SolveOutcome::Satisfiable(m) => spec_model_value(m.values(), lit),
                SolveOutcome::Unsatisfiable => None::<bool>,
                SolveOutcome::TimedOut => None::<bool>,
            }),
    {
        match self {
            SolveOutcome::Satisfiable(m) => m.value(lit),
            SolveOutcome::Unsatisfiable => None,
            SolveOutcome::TimedOut => None,
        }
    }
}

} // verus!
