//! The two kinds of node in a dock tree: leaves, which hold tabs, and splits.

pub mod leaf;
pub mod split;
