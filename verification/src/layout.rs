use vstd::prelude::*;

verus! {

/// Where the border between the two children of a split node goes.
#[derive(Clone, Copy, Debug, PartialEq, Eq, Structural)]
pub enum SplitBorder {
    /// Just below the tab bars of the collapsed leaves of the first (upper) child.
    BelowFirstTabBars,
    /// Just above the tab bars of the collapsed leaves of the second (lower) child.
    AboveSecondTabBars,
    /// At the node's fraction of its extent.
    AtFraction,
}

/// The rule that places the border of a split node: a vertical split with a
/// collapsed child makes room for exactly the tab bars of the collapsed leaves —
/// below the first child's when the first is collapsed, else above the second's;
/// every other split puts the border at its fraction.
pub open spec fn spec_split_border(vertical: bool, first_collapsed: bool, second_collapsed: bool) -> SplitBorder {
    if vertical && first_collapsed {
        SplitBorder::BelowFirstTabBars
    } else if vertical && second_collapsed {
        SplitBorder::AboveSecondTabBars
    } else {
        SplitBorder::AtFraction
    }
}

/// Where the border between the two children of a split node goes.
pub fn split_border(vertical: bool, first_collapsed: bool, second_collapsed: bool) -> (r: SplitBorder)
    ensures
        r == spec_split_border(vertical, first_collapsed, second_collapsed),
{
    if first_collapsed || second_collapsed {
        if vertical {
            if first_collapsed {
                return SplitBorder::BelowFirstTabBars;
            } else {
                return SplitBorder::AboveSecondTabBars;
            }
        }
    }
    SplitBorder::AtFraction
}

/// Whether the separator of a split node can be dragged: not on a vertical split
/// with a collapsed child.
pub fn separator_interactive(vertical: bool, first_collapsed: bool, second_collapsed: bool) -> (r: bool)
    ensures
        r == !((first_collapsed || second_collapsed) && vertical),
{
    !((first_collapsed || second_collapsed) && vertical)
}

/// The separator can be dragged exactly when the border sits at the node's
/// fraction, the value that dragging changes.
pub proof fn lemma_separator_moves_fraction_border(
    vertical: bool,
    first_collapsed: bool,
    second_collapsed: bool,
)
    ensures
        !((first_collapsed || second_collapsed) && vertical) == (spec_split_border(
            vertical,
            first_collapsed,
            second_collapsed,
        ) == SplitBorder::AtFraction),
{
}

} // verus!
