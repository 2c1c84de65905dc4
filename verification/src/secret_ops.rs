//! The primitive oblivious operations the evaluation pipeline is built from.
//!
//! In deployment these primitives (equality, comparison, conjunction,
//! disjunction, negation, select) are executed jointly by the
//! secret-computation engine on secret-shared operands, each with a fixed
//! cost and with control flow independent of the operand values. The
//! pipeline combines secret data through these functions only, so no
//! data-dependent branch and no data-dependent memory access ever appears
//! above this module; here the primitives are realized on plain values, which
//! gives each one an exact contract.

use vstd::prelude::*;

verus! {

/// Negation of a secret bit.
pub fn sec_not(a: bool) -> (r: bool)
    ensures
        r == !a,
{
    !a
}

/// Conjunction of two secret bits.
pub fn sec_and(a: bool, b: bool) -> (r: bool)
    ensures
        r == (a && b),
{
    if a {
        b
    } else {
        false
    }
}

/// Disjunction of two secret bits.
pub fn sec_or(a: bool, b: bool) -> (r: bool)
    ensures
        r == (a || b),
{
    if a {
        true
    } else {
        b
    }
}

/// Equality test on two secret bytes.
pub fn sec_eq_u8(a: u8, b: u8) -> (r: bool)
    ensures
        r == (a == b),
{
    a == b
}

/// Signed comparison of two secret values: true iff `a` is at most `b`.
pub fn sec_le_i16(a: i16, b: i16) -> (r: bool)
    ensures
        r == (a <= b),
{
    a <= b
}

/// Select between two secret values: `t` where the condition bit is set,
/// `e` where it is clear.
pub fn sec_select_i16(c: bool, t: i16, e: i16) -> (r: i16)
    ensures
        r == (if c {
            t
        } else {
            e
        }),
{
    if c {
        t
    } else {
        e
    }
}

} // verus!
