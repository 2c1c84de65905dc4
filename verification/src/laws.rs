//! Proved laws of the evaluation pipeline: one-hotness of the path vector,
//! agreement of the oblivious circuit with the plaintext reference traversal,
//! and determinism of the classification.

use vstd::prelude::*;

use crate::tree::classification_spec;
use crate::tree::count_true;
use crate::tree::decision_bits;
use crate::tree::leaf_index;
use crate::tree::path_bit;
use crate::tree::Model;
use crate::tree::Sample;

verus! {

/// A bit vector with no set bit has zero set bits.
proof fn lemma_count_true_zero(s: Seq<bool>)
    requires
        forall|i: int| 0 <= i < s.len() ==> !s[i],
    ensures
        count_true(s) == 0,
    decreases s.len(),
{
    if s.len() > 0 {
        lemma_count_true_zero(s.drop_last());
    }
}

/// A bit vector whose only set bit is at position `j` has exactly one set
/// bit.
proof fn lemma_count_true_single(s: Seq<bool>, j: int)
    requires
        0 <= j < s.len(),
        forall|i: int| 0 <= i < s.len() ==> (s[i] <==> i == j),
    ensures
        count_true(s) == 1,
    decreases s.len(),
{
    if j == s.len() - 1 {
        lemma_count_true_zero(s.drop_last());
    } else {
        lemma_count_true_single(s.drop_last(), j);
    }
}

/// One-hot preservation: whatever the seven vertex bits are, the eight path
/// formulas fire for exactly one leaf — the leaf the plaintext traversal
/// reaches — and for no other.
pub proof fn lemma_path_one_hot(v: Seq<bool>)
    requires
        v.len() == 7,
    ensures
        0 <= leaf_index(v) < 8,
        forall|k: int| 0 <= k < 8 ==> (path_bit(v, k) <==> k == leaf_index(v)),
        count_true(Seq::new(8, |k: int| path_bit(v, k))) == 1,
{
    let s = Seq::new(8, |k: int| path_bit(v, k));
    assert(forall|i: int| 0 <= i < 8 ==> (s[i] <==> i == leaf_index(v)));
    lemma_count_true_single(s, leaf_index(v));
}

/// Correctness against the plaintext reference: for every output bit, the
/// oblivious circuit — every leaf's label masked by that leaf's path formula,
/// all OR-ed together — agrees with the label at the leaf an ordinary
/// top-down traversal of the tree reaches.
pub proof fn lemma_circuit_matches_reference(m: Model, s: Sample)
    ensures
        forall|k: int|
            0 <= k < 8 ==> ((exists|l: int|
                0 <= l < 8 && path_bit(decision_bits(m, s), l)
                    && m.leaves@[l].classification@[k]) <==> classification_spec(m, s)[k]),
{
    let v = decision_bits(m, s);
    lemma_path_one_hot(v);
    let leaf = leaf_index(v);
    assert forall|k: int| 0 <= k < 8 implies ((exists|l: int|
        0 <= l < 8 && path_bit(v, l) && m.leaves@[l].classification@[k]) <==> classification_spec(
        m,
        s,
    )[k]) by {
        if m.leaves@[leaf].classification@[k] {
            assert(0 <= leaf < 8 && path_bit(v, leaf) && m.leaves@[leaf].classification@[k]);
        }
    }
}

/// Shape preservation: when every leaf label of the model is one-hot, the
/// classification is one-hot too — it is the label at the leaf the traversal
/// reaches.
pub proof fn lemma_classification_one_hot(m: Model, s: Sample)
    requires
        forall|l: int| 0 <= l < 8 ==> count_true(m.leaves@[l].classification@) == 1,
    ensures
        count_true(classification_spec(m, s)) == 1,
{
    lemma_path_one_hot(decision_bits(m, s));
}

/// Determinism: any two classifications that meet the evaluator's contract
/// for the same model and sample are the same vector. Together with totality
/// (the evaluator is a checked-total function), repeated evaluation of one
/// (model, sample) pair always returns one classification.
pub proof fn lemma_evaluation_deterministic(m: Model, s: Sample, r1: Seq<bool>, r2: Seq<bool>)
    requires
        r1 == classification_spec(m, s),
        r2 == classification_spec(m, s),
    ensures
        r1 == r2,
{
}

} // verus!
