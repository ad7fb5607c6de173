use vstd::prelude::*;

use crate::allowed_splits::{AllowedSplits, Split};

verus! {

/// Per-node drop permissions.
///
/// Used to decide which drop zones to render and accept.
#[derive(Clone, Debug, PartialEq, Eq, Structural)]
pub struct AllowedDrops {
    /// Allow dropping to the left (horizontal split).
    pub left: bool,
    /// Allow dropping to the right (horizontal split).
    pub right: bool,
    /// Allow dropping above (vertical split).
    pub top: bool,
    /// Allow dropping below (vertical split).
    pub bottom: bool,
    /// Allow turning into a floating window.
    pub float: bool,
    /// Allow dropping into the tab bar / merging tabs.
    pub tabs: bool,
}

impl AllowedDrops {
    /// The permissions with every drop enabled.
    pub open spec fn spec_all() -> AllowedDrops {
        AllowedDrops { left: true, right: true, top: true, bottom: true, float: true, tabs: true }
    }

    /// Whether the permissions admit a drop that splits towards `split`.
    pub open spec fn spec_split_allowed(&self, split: Split) -> bool {
        match split {
            Split::Left => self.left,
            Split::Right => self.right,
            Split::Above => self.top,
            Split::Below => self.bottom,
        }
    }

    /// The split shape admitted by the enabled directions: an axis is admitted
    /// when either of its two directions is.
    pub open spec fn spec_to_allowed_splits(&self) -> AllowedSplits {
        AllowedSplits::from_axes(self.left || self.right, self.top || self.bottom)
    }

    /// All directions and float enabled.
    pub fn all() -> (r: AllowedDrops)
        ensures
            r == AllowedDrops::spec_all(),
    {
        AllowedDrops { left: true, right: true, top: true, bottom: true, float: true, tabs: true }
    }

    /// Convert the enabled directions into [`AllowedSplits`] shape.
    pub fn to_allowed_splits(&self) -> (r: AllowedSplits)
        ensures
            r == self.spec_to_allowed_splits(),
    {
        let lr = self.left || self.right;
        let tb = self.top || self.bottom;
        match (lr, tb) {
            (true, true) => AllowedSplits::All,
            (true, false) => AllowedSplits::LeftRightOnly,
            (false, true) => AllowedSplits::TopBottomOnly,
            (false, false) => AllowedSplits::NoSplits,
        }
    }

    /// Check whether a specific split direction is allowed.
    pub fn split_allowed(&self, split: Split) -> (r: bool)
        ensures
            r == self.spec_split_allowed(split),
            split == Split::Left ==> r == self.left,
            split == Split::Right ==> r == self.right,
            split == Split::Above ==> r == self.top,
            split == Split::Below ==> r == self.bottom,
    {
        match split {
            Split::Left => self.left,
            Split::Right => self.right,
            Split::Above => self.top,
            Split::Below => self.bottom,
        }
    }
}

impl Default for AllowedDrops {
    /// Every drop is allowed by default.
    fn default() -> (r: AllowedDrops)
        ensures
            r == AllowedDrops::spec_all(),
    {
        Self::all()
    }
}

/// The split shape of a set of permissions admits a split exactly when the
/// permissions allow the split towards that direction or towards the opposite one.
pub proof fn lemma_split_shape_matches_directions(d: AllowedDrops, s: Split)
    ensures
        d.spec_to_allowed_splits().permits(s) == (d.spec_split_allowed(s) || d.spec_split_allowed(
            match s {
                Split::Left => Split::Right,
                Split::Right => Split::Left,
                Split::Above => Split::Below,
                Split::Below => Split::Above,
            },
        )),
{
}

/// Each direction reads exactly its own permission: a split towards the left is
/// allowed exactly when dropping to the left is, whatever the other permissions.
pub proof fn lemma_split_allowed_reads_own_flag(d: AllowedDrops)
    ensures
        d.spec_split_allowed(Split::Left) == d.left,
        d.spec_split_allowed(Split::Right) == d.right,
        d.spec_split_allowed(Split::Above) == d.top,
        d.spec_split_allowed(Split::Below) == d.bottom,
        !d.left ==> !d.spec_split_allowed(Split::Left),
        !d.right ==> !d.spec_split_allowed(Split::Right),
        !d.top ==> !d.spec_split_allowed(Split::Above),
        !d.bottom ==> !d.spec_split_allowed(Split::Below),
{
}

/// With every drop enabled, every split is admitted.
pub proof fn lemma_all_admits_every_split(s: Split)
    ensures
        AllowedDrops::spec_all().spec_split_allowed(s),
        AllowedDrops::spec_all().spec_to_allowed_splits() == AllowedSplits::All,
{
}

} // verus!
