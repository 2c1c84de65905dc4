//! The fixed-shape data model of the decision tree and its plaintext
//! semantics.
//!
//! The shapes are load-bearing: seven internal vertices, eight leaves and ten
//! feature values are fixed so that every stage of the evaluation does a
//! constant amount of work whatever the secret values are. The spec functions
//! here give each stage its mathematical meaning; `leaf_index` is the
//! plaintext reference traversal that the oblivious circuit is proved to
//! agree with.

use vstd::prelude::*;

verus! {

/// One decision node of the tree: the sample value selected by `feature` is
/// compared against `threshold`, and "value at most threshold" means
/// "traverse left".
#[derive(Clone, Copy)]
pub struct InternalVertex {
    /// Index into the sample's ten feature values. An index outside
    /// `[0, 10)` is not an error: the lookup falls back to the fixed
    /// default `0`, since failing on a secret index would leak it.
    pub feature: u8,
    /// Fixed-point scaled threshold. Scaling happens at submission time,
    /// outside this library, so the comparison here is an exact signed
    /// integer comparison.
    pub threshold: i16,
}

/// One terminal node of the tree: a classification label over eight classes,
/// intended to be one-hot. The library does not enforce one-hotness of
/// labels; a malformed label propagates to the output unchanged.
#[derive(Clone, Copy)]
pub struct LeafVertex {
    /// `classification[k]` set means the leaf labels its inputs with class
    /// `k`.
    pub classification: [bool; 8],
}

/// A complete binary decision tree of depth three. The internal vertices are
/// numbered in preorder: vertex 0 is the root, vertices 1, 2, 3 form its left
/// subtree (vertex 1 on top), vertices 4, 5, 6 its right subtree.
#[derive(Clone, Copy)]
pub struct Model {
    /// The seven decision nodes, in preorder.
    pub internals: [InternalVertex; 7],
    /// The eight leaves, left to right.
    pub leaves: [LeafVertex; 8],
}

/// A feature vector of ten fixed-point scaled values, one classification
/// request's input.
#[derive(Clone, Copy)]
pub struct Sample {
    /// The feature values, addressed by `InternalVertex::feature`.
    pub values: [i16; 10],
}

/// What the oblivious lookup returns: the feature value at `index` when the
/// index is in range, and the fail-safe default `0` otherwise.
pub open spec fn lookup_spec(values: Seq<i16>, index: u8) -> i16 {
    if (index as int) < 10 {
        values[index as int]
    } else {
        0i16
    }
}

/// The decision taken at internal vertex `i`: true iff the addressed feature
/// value is at most the vertex's threshold ("traverse left").
pub open spec fn vertex_decision(internals: Seq<InternalVertex>, values: Seq<i16>, i: int) -> bool
    recommends
        internals.len() == 7,
        values.len() == 10,
        0 <= i < 7,
{
    lookup_spec(values, internals[i].feature) <= internals[i].threshold
}

/// All seven decisions of the model on the sample, as one bit vector.
pub open spec fn decision_bits(m: Model, s: Sample) -> Seq<bool> {
    Seq::new(7, |i: int| vertex_decision(m.internals@, s.values@, i))
}

/// The fixed boolean formula that decides whether the traversal ends in leaf
/// `leaf`: one conjunction of three literals, read off the three vertices on
/// the root-to-leaf path (vertices in preorder).
pub open spec fn path_bit(v: Seq<bool>, leaf: int) -> bool
    recommends
        v.len() == 7,
        0 <= leaf < 8,
{
    if leaf == 0 {
        v[0] && v[1] && v[2]
    } else if leaf == 1 {
        v[0] && v[1] && !v[2]
    } else if leaf == 2 {
        v[0] && !v[1] && v[3]
    } else if leaf == 3 {
        v[0] && !v[1] && !v[3]
    } else if leaf == 4 {
        !v[0] && v[4] && v[5]
    } else if leaf == 5 {
        !v[0] && v[4] && !v[5]
    } else if leaf == 6 {
        !v[0] && !v[4] && v[6]
    } else {
        !v[0] && !v[4] && !v[6]
    }
}

/// The plaintext reference traversal: start at the root and descend, left on
/// a set bit, right on a clear bit, until a leaf is reached. The vertices are
/// numbered in preorder, so the left child of vertex 0 is vertex 1 and its
/// right child is vertex 4.
pub open spec fn leaf_index(v: Seq<bool>) -> int
    recommends
        v.len() == 7,
{
    if v[0] {
        if v[1] {
            if v[2] {
                0
            } else {
                1
            }
        } else {
            if v[3] {
                2
            } else {
                3
            }
        }
    } else {
        if v[4] {
            if v[5] {
                4
            } else {
                5
            }
        } else {
            if v[6] {
                6
            } else {
                7
            }
        }
    }
}

/// The leaf a plain top-down traversal of the model reaches on the sample.
pub open spec fn reference_leaf(m: Model, s: Sample) -> int {
    leaf_index(decision_bits(m, s))
}

/// The classification the evaluation owes: the label stored at the leaf the
/// plaintext traversal reaches. For a well-formed model this is one-hot; for
/// a malformed label it is that label, bit for bit.
pub open spec fn classification_spec(m: Model, s: Sample) -> Seq<bool> {
    m.leaves@[reference_leaf(m, s)].classification@
}

/// The number of set bits in a bit vector.
pub open spec fn count_true(s: Seq<bool>) -> nat
    decreases s.len(),
{
    if s.len() == 0 {
        0
    } else {
        count_true(s.drop_last()) + (if s.last() {
            1nat
        } else {
            0nat
        })
    }
}

} // verus!
