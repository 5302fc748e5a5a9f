//! Bidirectional mapping between literals and the native integer encoding.
//!
//! The native engine speaks signed, one-based integer literals: variable
//! index `i` with positive polarity becomes `i + 1`, with negative polarity
//! `-(i + 1)`.  The code `0` is reserved as the clause terminator and never
//! denotes a literal.

use vstd::prelude::*;

verus! {

/// A boolean variable, identified by a dense zero-based index.
#[derive(Clone, Copy, Debug, PartialEq, Eq, Structural)]
pub struct Var {
    pub index: usize,
}

/// A literal: a variable together with a polarity, where `true` means the
/// positive occurrence of the variable.
#[derive(Clone, Copy, Debug, PartialEq, Eq, Structural)]
pub struct Lit {
    pub var: Var,
    pub polarity: bool,
}

impl Var {
    pub fn new(index: usize) -> (v: Var)
        ensures
            v.index == index,
    {
        Var { index }
    }
}

impl Lit {
    pub fn new(var: Var, polarity: bool) -> (l: Lit)
        ensures
            l.var == var,
            l.polarity == polarity,
    {
        Lit { var, polarity }
    }

    /// The same variable with the opposite polarity.
    pub fn negate(&self) -> (l: Lit)
        ensures
            l.var == self.var,
            l.polarity == !self.polarity,
    {
        Lit { var: self.var, polarity: !self.polarity }
    }
}

/// A literal is representable in the native encoding when its one-based
/// magnitude fits in a signed 32-bit integer.
pub open spec fn lit_valid(l: Lit) -> bool {
    l.var.index + 1 <= i32::MAX
}

/// Native code of a literal: one-based magnitude, sign carrying the polarity.
pub open spec fn spec_encode(l: Lit) -> int {
    if l.polarity {
        l.var.index + 1
    } else {
        -(l.var.index + 1)
    }
}

/// Literal denoted by a non-zero native code: the magnitude minus one is the
/// variable index, the sign is the polarity.
pub open spec fn spec_decode(code: int) -> Lit {
    if code > 0 {
        Lit { var: Var { index: (code - 1) as usize }, polarity: true }
    } else {
        Lit { var: Var { index: (-code - 1) as usize }, polarity: false }
    }
}

/// Encode a literal for the native engine.  The result is never `0`, so it
/// can always be told apart from the clause terminator.
pub fn lit_to_kissat_lit(lit: &Lit) -> (r: i32)
    requires
        lit_valid(*lit),
    ensures
        r == spec_encode(*lit),
        r != 0,
{
    let magnitude: i32 = lit.var.index as i32 + 1;
    if lit.polarity {
        magnitude
    } else {
        -magnitude
    }
}

/// Decode a non-zero native code back into a literal.
pub fn kissat_lit_to_lit(code: i32) -> (r: Lit)
    requires
        code != 0,
    ensures
        r == spec_decode(code as int),
{
    if code > 0 {
        Lit { var: Var { index: (code - 1) as usize }, polarity: true }
    } else {
        let magnitude_minus_one: i32 = -(code + 1);
        Lit { var: Var { index: magnitude_minus_one as usize }, polarity: false }
    }
}

/// Round trip: decoding the encoding of any representable literal gives the
/// literal back unchanged.
pub proof fn lemma_encode_then_decode(l: Lit)
    requires
        lit_valid(l),
    ensures
        spec_decode(spec_encode(l)) == l,
{
}

/// Round trip in the other direction: every non-zero code whose magnitude
/// fits in the native width decodes to a representable literal that encodes
/// back to the same code.
pub proof fn lemma_decode_then_encode(code: int)
    requires
        code != 0,
        -0x7fff_ffff <= code <= 0x7fff_ffff,
    ensures
        lit_valid(spec_decode(code)),
        spec_encode(spec_decode(code)) == code,
{
}

} // verus!
