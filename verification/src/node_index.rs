use vstd::prelude::*;

verus! {

/// The position of a node in a surface's binary tree, in breadth-first order.
#[derive(Clone, Copy, Debug, PartialEq, Eq, Structural)]
pub struct NodeIndex(pub usize);

impl NodeIndex {
    /// The index of the root node.
    pub fn root() -> (r: NodeIndex)
        ensures
            r == NodeIndex(0),
    {
        NodeIndex(0)
    }
}

/// Where a tab goes within a destination node.
#[derive(Clone, Copy, Debug, PartialEq, Eq, Structural)]
pub enum TabInsert {
    /// Split the node towards the given direction and put the tab in the new half.
    Split(crate::allowed_splits::Split),
    /// Insert the tab at the given position of the node's tab list.
    Insert(crate::tab_index::TabIndex),
    /// Put the tab at the end of the node's tab list.
    Append,
}

} // verus!
