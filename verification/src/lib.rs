//! A binary search tree with cheap structural snapshots.
pub mod order;
pub mod laws;
pub mod node;

pub use node::{Child, Node};
