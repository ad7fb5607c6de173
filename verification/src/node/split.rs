use vstd::prelude::*;

use egui::Rect;

use crate::allowed_drops::AllowedDrops;
use crate::node::leaf::opt_str_view;

verus! {

/// The inner data of a horizontal or vertical node, which splits into two further nodes.
///
/// The fraction of the area taken by the first child, a floating-point value,
/// is kept by the renderer beside this state.
#[derive(Clone, Debug)]
pub struct SplitNode {
    /// The rectangle in which all children of this node are drawn.
    pub rect: Rect,
    /// Whether all subnodes are collapsed.
    pub fully_collapsed: bool,
    /// The number of collapsed leaf subnodes.
    pub collapsed_leaf_count: i32,
    /// Drop permissions inherited from the family.
    pub allowed_drops: AllowedDrops,
    /// Family identifier used to constrain where tabs can be dropped.
    pub(crate) family_id: Option<String>,
}

/// The mathematical value of a [`SplitNode`].
pub struct SplitView {
    pub rect: Rect,
    pub fully_collapsed: bool,
    pub collapsed_leaf_count: i32,
    pub allowed_drops: AllowedDrops,
    pub family_id: Option<Seq<char>>,
}

impl View for SplitNode {
    type V = SplitView;

    closed spec fn view(&self) -> SplitView {
        SplitView {
            rect: self.rect,
            fully_collapsed: self.fully_collapsed,
            collapsed_leaf_count: self.collapsed_leaf_count,
            allowed_drops: self.allowed_drops,
            family_id: opt_str_view(self.family_id),
        }
    }
}

impl SplitNode {
    /// Create a new ``SplitNode``
    pub fn new(
        rect: Rect,
        fully_collapsed: bool,
        collapsed_leaf_count: i32,
        allowed_drops: AllowedDrops,
        family_id: Option<String>,
    ) -> (r: Self)
        ensures
            r@ == (SplitView {
                rect,
                fully_collapsed,
                collapsed_leaf_count,
                allowed_drops,
                family_id: opt_str_view(family_id),
            }),
    {
        SplitNode { rect, fully_collapsed, collapsed_leaf_count, allowed_drops, family_id }
    }

    /// Set the Area which this ``SplitNode`` occupies.
    pub fn set_rect(&mut self, new_rect: Rect)
        ensures
            final(self)@ == (SplitView { rect: new_rect, ..old(self)@ }),
    {
        self.rect = new_rect;
    }

    /// Get the Area which this ``SplitNode`` occupies.
    pub fn rect(&self) -> (r: Rect)
        ensures
            r == self@.rect,
    {
        self.rect
    }

    /// The family identifier of this node, if it has one.
    pub fn family_id(&self) -> (r: Option<&str>)
        ensures
            match r {
                Some(s) => self@.family_id == Some(s@),
                None => self@.family_id is None,
            },
    {
        match &self.family_id {
            Some(s) => Some(s.as_str()),
            None => None,
        }
    }
}

} // verus!
