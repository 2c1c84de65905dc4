//! The oblivious evaluation pipeline: feature lookup, vertex evaluation,
//! path evaluation and class prediction, composed by [`evaluate`].
//!
//! Every stage does a fixed amount of work: the lookup touches all ten
//! feature slots, the vertex evaluator compares at all seven vertices, the
//! path evaluator computes all eight leaf formulas, and the class predictor
//! combines all sixty-four label bits — whatever the secret values are.

use vstd::prelude::*;

use crate::laws::lemma_path_one_hot;
use crate::secret_ops::sec_and;
use crate::secret_ops::sec_eq_u8;
use crate::secret_ops::sec_le_i16;
use crate::secret_ops::sec_not;
use crate::secret_ops::sec_or;
use crate::secret_ops::sec_select_i16;
use crate::tree::classification_spec;
use crate::tree::decision_bits;
use crate::tree::leaf_index;
use crate::tree::lookup_spec;
use crate::tree::path_bit;
use crate::tree::vertex_decision;
use crate::tree::InternalVertex;
use crate::tree::LeafVertex;
use crate::tree::Model;
use crate::tree::Sample;

verus! {

/// Oblivious array read: return `values[wanted_index]` for an in-range index
/// and the fail-safe default `0` for an out-of-range one, touching every slot
/// exactly once so that the access pattern reveals nothing about the index.
pub fn lookup(values: [i16; 10], wanted_index: u8) -> (result: i16)
    ensures
        result == lookup_spec(values@, wanted_index),
{
    let mut result: i16 = 0;
    for index in 0u8..10u8
        invariant
            result == (if (wanted_index as int) < (index as int) {
                values@[wanted_index as int]
            } else {
                0i16
            }),
    {
        let hit: bool = sec_eq_u8(index, wanted_index);
        result = sec_select_i16(hit, values[index as usize], result);
    }
    result
}

/// Evaluate every internal vertex: bit `i` of the result is set iff the
/// feature value addressed by vertex `i` is at most its threshold. All seven
/// comparisons run unconditionally, whichever way each one goes.
pub fn evaluate_internal_vertices(
    internal_vertices: [InternalVertex; 7],
    sample: [i16; 10],
) -> (result: [bool; 7])
    ensures
        forall|i: int| 0 <= i < 7 ==> result@[i] == vertex_decision(internal_vertices@, sample@, i),
{
    let mut result: [bool; 7] = [false; 7];
    for i in 0usize..7usize
        invariant
            forall|j: int| 0 <= j < i ==> result@[j] == vertex_decision(
                internal_vertices@,
                sample@,
                j,
            ),
    {
        let value: i16 = lookup(sample, internal_vertices[i].feature);
        let bit: bool = sec_le_i16(value, internal_vertices[i].threshold);
        result[i] = bit;
    }
    result
}

/// Evaluate every root-to-leaf path: bit `leaf` of the result is the fixed
/// three-literal conjunction for that leaf. The eight formulas together are
/// one-hot in the vertex bits (see [`lemma_path_one_hot`]), though nothing
/// here tests that — it is a property, not a check.
pub fn evaluate_paths(vertex_evaluation: [bool; 7]) -> (result: [bool; 8])
    ensures
        forall|k: int| 0 <= k < 8 ==> result@[k] == path_bit(vertex_evaluation@, k),
{
    let v0: bool = vertex_evaluation[0];
    let v1: bool = vertex_evaluation[1];
    let v2: bool = vertex_evaluation[2];
    let v3: bool = vertex_evaluation[3];
    let v4: bool = vertex_evaluation[4];
    let v5: bool = vertex_evaluation[5];
    let v6: bool = vertex_evaluation[6];
    let result: [bool; 8] = [
        sec_and(sec_and(v0, v1), v2),
        sec_and(sec_and(v0, v1), sec_not(v2)),
        sec_and(sec_and(v0, sec_not(v1)), v3),
        sec_and(sec_and(v0, sec_not(v1)), sec_not(v3)),
        sec_and(sec_and(sec_not(v0), v4), v5),
        sec_and(sec_and(sec_not(v0), v4), sec_not(v5)),
        sec_and(sec_and(sec_not(v0), sec_not(v4)), v6),
        sec_and(sec_and(sec_not(v0), sec_not(v4)), sec_not(v6)),
    ];
    result
}

/// The bits of the first `n` leaves that reach output bit `k`: the disjunction
/// over those leaves of "the leaf's path fired and its label has bit `k`".
/// This is the class predictor's accumulator after `n` leaves.
pub open spec fn masked_or(path: Seq<bool>, leaves: Seq<LeafVertex>, k: int, n: int) -> bool
    recommends
        path.len() == 8,
        leaves.len() == 8,
        0 <= k < 8,
        0 <= n <= 8,
    decreases n,
{
    if n <= 0 {
        false
    } else {
        masked_or(path, leaves, k, n - 1) || (path[n - 1] && leaves[n - 1].classification@[k])
    }
}

/// The accumulator over all eight leaves says: some leaf's path fired and
/// that leaf's label has bit `k`.
proof fn lemma_masked_or_exists(path: Seq<bool>, leaves: Seq<LeafVertex>, k: int, n: int)
    requires
        0 <= n,
    ensures
        masked_or(path, leaves, k, n) <==> exists|l: int|
            0 <= l < n && path[l] && leaves[l].classification@[k],
    decreases n,
{
    if n > 0 {
        lemma_masked_or_exists(path, leaves, k, n - 1);
        if path[n - 1] && leaves[n - 1].classification@[k] {
            assert(0 <= n - 1 < n && path[n - 1] && leaves[n - 1].classification@[k]);
        }
    }
}

/// Combine the path vector with the leaf labels: output bit `k` is set iff
/// some leaf whose path fired carries bit `k` in its label. Each leaf's label
/// is masked by its path bit and the masked labels are OR-ed together over
/// the full eight-by-eight grid, so no step depends on which path fired. When
/// the path vector is one-hot the output is exactly the fired leaf's label,
/// whether or not that label itself is one-hot.
pub fn predict_class(path_evaluation: [bool; 8], leaf_vertices: [LeafVertex; 8]) -> (result: [
    bool;
    8
])
    ensures
        forall|k: int|
            0 <= k < 8 ==> (result@[k] <==> exists|l: int|
                0 <= l < 8 && path_evaluation@[l] && leaf_vertices@[l].classification@[k]),
{
    let mut final_class: [bool; 8] = [false; 8];
    for leaf_idx in 0usize..8usize
        invariant
            forall|k: int| 0 <= k < 8 ==> final_class@[k] == masked_or(
                path_evaluation@,
                leaf_vertices@,
                k,
                leaf_idx as int,
            ),
    {
        let taken: bool = path_evaluation[leaf_idx];
        for bit_idx in 0usize..8usize
            invariant
                leaf_idx < 8,
                taken == path_evaluation@[leaf_idx as int],
                forall|k: int| 0 <= k < bit_idx ==> final_class@[k] == masked_or(
                    path_evaluation@,
                    leaf_vertices@,
                    k,
                    leaf_idx as int + 1,
                ),
                forall|k: int| bit_idx <= k < 8 ==> final_class@[k] == masked_or(
                    path_evaluation@,
                    leaf_vertices@,
                    k,
                    leaf_idx as int,
                ),
        {
            let leaf_bit: bool = leaf_vertices[leaf_idx].classification[bit_idx];
            let partial: bool = sec_and(taken, leaf_bit);
            let combined: bool = sec_or(final_class[bit_idx], partial);
            final_class[bit_idx] = combined;
        }
    }
    proof {
        assert forall|k: int| 0 <= k < 8 implies (final_class@[k] <==> exists|l: int|
            0 <= l < 8 && path_evaluation@[l] && leaf_vertices@[l].classification@[k]) by {
            lemma_masked_or_exists(path_evaluation@, leaf_vertices@, k, 8);
        }
    }
    final_class
}

/// Evaluate the decision tree on the sample, obliviously: all vertices, all
/// paths and all labels are combined unconditionally, and the result is
/// proved equal to the label at the leaf a plaintext top-down traversal
/// reaches. The result is a function of the model and sample alone, so
/// repeated evaluation returns the same classification.
pub fn evaluate(model: Model, sample: Sample) -> (result: [bool; 8])
    ensures
        result@ == classification_spec(model, sample),
{
    let vertex_evaluation: [bool; 7] = evaluate_internal_vertices(model.internals, sample.values);
    let path_evaluation: [bool; 8] = evaluate_paths(vertex_evaluation);
    let predicted_class: [bool; 8] = predict_class(path_evaluation, model.leaves);
    proof {
        assert(vertex_evaluation@ =~= decision_bits(model, sample));
        lemma_path_one_hot(vertex_evaluation@);
        let leaf = leaf_index(vertex_evaluation@);
        assert forall|k: int| 0 <= k < 8 implies predicted_class@[k] == classification_spec(
            model,
            sample,
        )[k] by {
            if model.leaves@[leaf].classification@[k] {
                assert(path_evaluation@[leaf] && model.leaves@[leaf].classification@[k]);
            } else {
                assert forall|l: int|
                    0 <= l < 8 && path_evaluation@[l] implies !model.leaves@[l].classification@[k]
                by {
                    assert(l == leaf);
                }
            }
        }
        assert(predicted_class@ =~= classification_spec(model, sample));
    }
    predicted_class
}

} // verus!
