//! End-to-end tests of the oblivious decision-tree evaluation, including an
//! independent plaintext reference traversal it is compared against.

use zk_classification::eval::evaluate_internal_vertices;
use zk_classification::eval::evaluate_paths;
use zk_classification::eval::lookup;
use zk_classification::eval::predict_class;
use zk_classification::evaluate;
use zk_classification::InternalVertex;
use zk_classification::LeafVertex;
use zk_classification::Model;
use zk_classification::Sample;

/// A leaf labeled with class `k` alone.
fn one_hot_leaf(k: usize) -> LeafVertex {
    let mut classification: [bool; 8] = [false; 8];
    classification[k] = true;
    LeafVertex { classification }
}

/// The eight leaves labeled 0 through 7, left to right.
fn identity_leaves() -> [LeafVertex; 8] {
    [
        one_hot_leaf(0),
        one_hot_leaf(1),
        one_hot_leaf(2),
        one_hot_leaf(3),
        one_hot_leaf(4),
        one_hot_leaf(5),
        one_hot_leaf(6),
        one_hot_leaf(7),
    ]
}

fn model_from(features: [u8; 7], thresholds: [i16; 7], leaves: [LeafVertex; 8]) -> Model {
    let mut internals: [InternalVertex; 7] = [InternalVertex { feature: 0, threshold: 0 }; 7];
    for i in 0..7usize {
        internals[i] = InternalVertex { feature: features[i], threshold: thresholds[i] };
    }
    Model { internals, leaves }
}

/// Plaintext reference: an ordinary top-down traversal of the tree, taking
/// the left child on `value <= threshold`, with vertices in preorder.
fn reference_classify(model: &Model, sample: &Sample) -> [bool; 8] {
    let decision = |i: usize| -> bool {
        let f: usize = model.internals[i].feature as usize;
        let value: i16 = if f < 10 { sample.values[f] } else { 0 };
        value <= model.internals[i].threshold
    };
    let leaf: usize = if decision(0) {
        if decision(1) {
            if decision(2) {
                0
            } else {
                1
            }
        } else {
            if decision(3) {
                2
            } else {
                3
            }
        }
    } else {
        if decision(4) {
            if decision(5) {
                4
            } else {
                5
            }
        } else {
            if decision(6) {
                6
            } else {
                7
            }
        }
    };
    model.leaves[leaf].classification
}

/// A small deterministic pseudo-random generator for the randomized
/// comparison against the reference.
fn next_random(state: &mut u64) -> u64 {
    *state = state
        .wrapping_mul(6364136223846793005)
        .wrapping_add(1442695040888963407);
    *state >> 16
}

#[test]
fn lookup_returns_each_in_range_value() {
    let values: [i16; 10] = [9, -8, 7, -6, 5, -4, 3, -2, 1, 0];
    for i in 0..10u8 {
        assert_eq!(lookup(values, i), values[i as usize]);
    }
}

#[test]
fn lookup_out_of_range_yields_zero() {
    let values: [i16; 10] = [9, -8, 7, -6, 5, -4, 3, -2, 1, 0];
    assert_eq!(lookup(values, 10), 0);
    assert_eq!(lookup(values, 11), 0);
    assert_eq!(lookup(values, 255), 0);
}

#[test]
fn path_evaluation_is_one_hot_for_all_vertex_vectors() {
    for mask in 0..128u32 {
        let mut bits: [bool; 7] = [false; 7];
        for i in 0..7usize {
            bits[i] = (mask >> i) & 1 == 1;
        }
        let path: [bool; 8] = evaluate_paths(bits);
        let set: usize = path.iter().filter(|b| **b).count();
        assert_eq!(set, 1, "vertex bits {:?} gave path {:?}", bits, path);
    }
}

#[test]
fn path_evaluation_matches_traversal_for_all_vertex_vectors() {
    for mask in 0..128u32 {
        let mut bits: [bool; 7] = [false; 7];
        for i in 0..7usize {
            bits[i] = (mask >> i) & 1 == 1;
        }
        let expected_leaf: usize = if bits[0] {
            if bits[1] {
                if bits[2] {
                    0
                } else {
                    1
                }
            } else {
                if bits[3] {
                    2
                } else {
                    3
                }
            }
        } else {
            if bits[4] {
                if bits[5] {
                    4
                } else {
                    5
                }
            } else {
                if bits[6] {
                    6
                } else {
                    7
                }
            }
        };
        let path: [bool; 8] = evaluate_paths(bits);
        for k in 0..8usize {
            assert_eq!(path[k], k == expected_leaf);
        }
    }
}

#[test]
fn threshold_equality_takes_left_branch() {
    let mut sample_values: [i16; 10] = [0; 10];
    sample_values[0] = 100;
    let vertices: [InternalVertex; 7] = [InternalVertex { feature: 0, threshold: 100 }; 7];
    let bits: [bool; 7] = evaluate_internal_vertices(vertices, sample_values);
    assert!(bits[0], "a value equal to the threshold must traverse left");

    let above: [InternalVertex; 7] = [InternalVertex { feature: 0, threshold: 99 }; 7];
    let bits_above: [bool; 7] = evaluate_internal_vertices(above, sample_values);
    assert!(!bits_above[0], "a value above the threshold must traverse right");
}

#[test]
fn out_of_range_feature_index_compares_the_default_zero() {
    let sample_values: [i16; 10] = [7; 10];
    // Feature index 200 is out of range, so the compared value is 0.
    let at_zero: [InternalVertex; 7] = [InternalVertex { feature: 200, threshold: 0 }; 7];
    let bits: [bool; 7] = evaluate_internal_vertices(at_zero, sample_values);
    assert!(bits[0]);
    let below_zero: [InternalVertex; 7] = [InternalVertex { feature: 200, threshold: -1 }; 7];
    let bits_below: [bool; 7] = evaluate_internal_vertices(below_zero, sample_values);
    assert!(!bits_below[0]);
}

#[test]
fn concrete_scenario_reaches_leaf_four() {
    // All thresholds 0, features [0,1,0,2,1,3,2], identity leaf labels,
    // sample [5,-1,3,-2,0,...]: the traversal goes right at the root
    // (5 <= 0 fails), left at vertex 4 (-1 <= 0), left at vertex 5
    // (-2 <= 0), ending in leaf 4.
    let model = model_from([0, 1, 0, 2, 1, 3, 2], [0; 7], identity_leaves());
    let sample = Sample { values: [5, -1, 3, -2, 0, 0, 0, 0, 0, 0] };
    let result: [bool; 8] = evaluate(model, sample);
    assert_eq!(result, [false, false, false, false, true, false, false, false]);
}

#[test]
fn malformed_leaf_label_propagates_unchanged() {
    let mut leaves: [LeafVertex; 8] = identity_leaves();
    let malformed: [bool; 8] = [true, true, false, false, false, false, false, false];
    leaves[4] = LeafVertex { classification: malformed };
    let model = model_from([0, 1, 0, 2, 1, 3, 2], [0; 7], leaves);
    let sample = Sample { values: [5, -1, 3, -2, 0, 0, 0, 0, 0, 0] };
    let result: [bool; 8] = evaluate(model, sample);
    assert_eq!(result, malformed, "a non-one-hot label is not silently fixed");
}

#[test]
fn evaluation_matches_plaintext_reference_on_random_inputs() {
    let mut state: u64 = 0x5eed_5eed_5eed_5eed;
    for _ in 0..200usize {
        let mut features: [u8; 7] = [0; 7];
        let mut thresholds: [i16; 7] = [0; 7];
        for i in 0..7usize {
            // Mostly in-range feature indices, some out of range.
            features[i] = (next_random(&mut state) % 13) as u8;
            thresholds[i] = next_random(&mut state) as i16;
        }
        let mut leaves: [LeafVertex; 8] = identity_leaves();
        for k in 0..8usize {
            leaves[k] = one_hot_leaf((next_random(&mut state) % 8) as usize);
        }
        let mut values: [i16; 10] = [0; 10];
        for v in 0..10usize {
            values[v] = next_random(&mut state) as i16;
        }
        let model = model_from(features, thresholds, leaves);
        let sample = Sample { values };
        assert_eq!(evaluate(model, sample), reference_classify(&model, &sample));
    }
}

#[test]
fn repeated_evaluation_returns_the_same_classification() {
    let model = model_from([3, 1, 4, 1, 5, 9, 2], [10, -20, 30, -40, 50, -60, 70], identity_leaves());
    let sample = Sample { values: [1, -2, 3, -4, 5, -6, 7, -8, 9, -10] };
    let first: [bool; 8] = evaluate(model, sample);
    let second: [bool; 8] = evaluate(model, sample);
    assert_eq!(first, second);
}

#[test]
fn predict_class_unions_labels_of_all_fired_paths() {
    // With a (deliberately non-one-hot) path vector firing leaves 0 and 2,
    // the prediction is the OR of both labels.
    let path: [bool; 8] = [true, false, true, false, false, false, false, false];
    let result: [bool; 8] = predict_class(path, identity_leaves());
    assert_eq!(result, [true, false, true, false, false, false, false, false]);
}

#[test]
fn predict_class_of_all_clear_path_vector_is_all_clear() {
    let path: [bool; 8] = [false; 8];
    let result: [bool; 8] = predict_class(path, identity_leaves());
    assert_eq!(result, [false; 8]);
}
