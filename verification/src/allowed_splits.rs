use vstd::prelude::*;

verus! {

/// A direction in which a node can be split when a tab is dropped on one of its edges.
#[derive(Clone, Copy, Debug, PartialEq, Eq, Structural)]
pub enum Split {
    /// The new node goes to the left.
    Left,
    /// The new node goes to the right.
    Right,
    /// The new node goes above.
    Above,
    /// The new node goes below.
    Below,
}

impl Split {
    /// Whether this split divides a node left from right.
    pub open spec fn is_left_right(self) -> bool {
        self is Left || self is Right
    }

    /// Whether this split divides a node top from bottom.
    pub open spec fn is_top_bottom(self) -> bool {
        self is Above || self is Below
    }
}

/// The directions in which nodes may be split: left-right, top-bottom, all, or none.
#[derive(Clone, Copy, Debug, PartialEq, Eq, Structural)]
pub enum AllowedSplits {
    /// Every split is allowed.
    All,
    /// Only splits to the left or to the right.
    LeftRightOnly,
    /// Only splits above or below.
    TopBottomOnly,
    /// No split is allowed.
    NoSplits,
}

impl AllowedSplits {
    /// Whether this set of allowed splits admits `split`.
    pub open spec fn permits(self, split: Split) -> bool {
        match self {
            AllowedSplits::All => true,
            AllowedSplits::LeftRightOnly => split.is_left_right(),
            AllowedSplits::TopBottomOnly => split.is_top_bottom(),
            AllowedSplits::NoSplits => false,
        }
    }

    /// Whether left-right splits are admitted.
    pub open spec fn spec_left_right(self) -> bool {
        self is All || self is LeftRightOnly
    }

    /// Whether top-bottom splits are admitted.
    pub open spec fn spec_top_bottom(self) -> bool {
        self is All || self is TopBottomOnly
    }

    /// The value that admits left-right splits iff `lr` and top-bottom splits iff `tb`.
    pub open spec fn from_axes(lr: bool, tb: bool) -> AllowedSplits {
        if lr && tb {
            AllowedSplits::All
        } else if lr {
            AllowedSplits::LeftRightOnly
        } else if tb {
            AllowedSplits::TopBottomOnly
        } else {
            AllowedSplits::NoSplits
        }
    }

    /// The splits admitted by both `self` and `other`.
    pub open spec fn spec_intersect(self, other: AllowedSplits) -> AllowedSplits {
        AllowedSplits::from_axes(
            self.spec_left_right() && other.spec_left_right(),
            self.spec_top_bottom() && other.spec_top_bottom(),
        )
    }

    /// The splits admitted by both `self` and `rhs` (what `&` computes on two values).
    pub fn intersect(self, rhs: AllowedSplits) -> (r: AllowedSplits)
        ensures
            r == self.spec_intersect(rhs),
    {
        match (self, rhs) {
            (AllowedSplits::All, other) => other,
            (AllowedSplits::LeftRightOnly, AllowedSplits::All)
            | (AllowedSplits::LeftRightOnly, AllowedSplits::LeftRightOnly) => AllowedSplits::LeftRightOnly,
            (AllowedSplits::TopBottomOnly, AllowedSplits::All)
            | (AllowedSplits::TopBottomOnly, AllowedSplits::TopBottomOnly) => AllowedSplits::TopBottomOnly,
            (_, _) => AllowedSplits::NoSplits,
        }
    }
}

impl core::ops::BitAnd for AllowedSplits {
    type Output = AllowedSplits;

    /// The splits admitted by both operands.
    fn bitand(self, rhs: AllowedSplits) -> (r: AllowedSplits)
        ensures
            r == self.spec_intersect(rhs),
    {
        self.intersect(rhs)
    }
}

impl vstd::std_specs::ops::BitAndSpecImpl for AllowedSplits {
    open spec fn obeys_bitand_spec() -> bool {
        true
    }

    open spec fn bitand_req(self, rhs: AllowedSplits) -> bool {
        true
    }

    open spec fn bitand_spec(self, rhs: AllowedSplits) -> AllowedSplits {
        self.spec_intersect(rhs)
    }
}

impl Default for AllowedSplits {
    /// Every split is allowed by default.
    fn default() -> (r: AllowedSplits)
        ensures
            r == AllowedSplits::All,
    {
        AllowedSplits::All
    }
}

/// A value admits a split exactly when it admits the split's axis.
pub proof fn lemma_permits_by_axis(a: AllowedSplits, s: Split)
    ensures
        a.permits(s) == if s.is_left_right() { a.spec_left_right() } else { a.spec_top_bottom() },
{
}

/// The intersection admits a split exactly when both operands admit it.
pub proof fn lemma_intersect_permits(a: AllowedSplits, b: AllowedSplits, s: Split)
    ensures
        a.spec_intersect(b).permits(s) == (a.permits(s) && b.permits(s)),
{
}

/// Intersection does not depend on the order of its operands.
pub proof fn lemma_intersect_commutative(a: AllowedSplits, b: AllowedSplits)
    ensures
        a.spec_intersect(b) == b.spec_intersect(a),
{
}

/// Intersection can be regrouped freely.
pub proof fn lemma_intersect_associative(a: AllowedSplits, b: AllowedSplits, c: AllowedSplits)
    ensures
        a.spec_intersect(b).spec_intersect(c) == a.spec_intersect(b.spec_intersect(c)),
{
}

/// `All` is the neutral element, `NoSplits` the absorbing one, and every value intersected
/// with itself is itself.
pub proof fn lemma_intersect_identities(a: AllowedSplits)
    ensures
        AllowedSplits::All.spec_intersect(a) == a,
        a.spec_intersect(AllowedSplits::All) == a,
        AllowedSplits::NoSplits.spec_intersect(a) == AllowedSplits::NoSplits,
        a.spec_intersect(AllowedSplits::NoSplits) == AllowedSplits::NoSplits,
        a.spec_intersect(a) == a,
{
}

} // verus!
