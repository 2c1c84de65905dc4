//! Oblivious evaluation of a secret decision-tree classifier.
//!
//! A model owner holds a fixed-shape binary decision tree (seven internal
//! vertices, eight leaves, depth three) and a sample owner holds a feature
//! vector of ten fixed-point values; the tree is evaluated on the sample
//! without revealing the model, the sample, or the path taken. To keep the
//! execution pattern independent of the secret values, every vertex and every
//! path is evaluated unconditionally: per-vertex comparison bits are computed
//! for all seven vertices, a fixed boolean formula per leaf turns them into a
//! one-hot path vector, and a masked-OR reduction over all eight leaves
//! produces the final one-hot classification.
//!
//! The contracts here relate each stage to a plaintext mathematical model,
//! culminating in [`eval::evaluate`], whose result is proved equal to the
//! label found by an ordinary top-down traversal of the tree.

pub mod eval;
pub mod laws;
pub mod secret_ops;
pub mod tree;

pub use eval::evaluate;
pub use tree::InternalVertex;
pub use tree::LeafVertex;
pub use tree::Model;
pub use tree::Sample;
