use vstd::prelude::*;

use crate::tab_index::TabIndex;

verus! {

/// The side of a leaf on which its tab bar is drawn.
#[derive(Clone, Copy, Debug, PartialEq, Eq, Structural)]
pub enum TabBarPosition {
    /// Above the tab body.
    Top,
    /// Below the tab body.
    Bottom,
    /// Left of the tab body.
    Left,
    /// Right of the tab body.
    Right,
}

impl TabBarPosition {
    /// Whether the tabs are stacked vertically (a bar on the left or the right).
    pub fn is_vertical(&self) -> (r: bool)
        ensures
            r == (*self is Left || *self is Right),
    {
        match self {
            TabBarPosition::Left | TabBarPosition::Right => true,
            _ => false,
        }
    }

    /// Whether the tab bar's scroll bar is drawn before the bar's other parts
    /// (bars at the top or on the left) rather than after them.
    pub fn scroll_bar_first(&self) -> (r: bool)
        ensures
            r == (*self is Top || *self is Left),
    {
        match self {
            TabBarPosition::Top | TabBarPosition::Left => true,
            _ => false,
        }
    }
}

/// The position of the first tab, in order, that asks for one.
pub open spec fn spec_first_override(overrides: Seq<Option<TabBarPosition>>) -> Option<TabBarPosition>
    decreases overrides.len(),
{
    if overrides.len() == 0 {
        None
    } else if overrides[0] is Some {
        overrides[0]
    } else {
        spec_first_override(overrides.drop_first())
    }
}

/// The first asking tab decides: when the tab at `i` asks for a position and no
/// tab before it does, that is the position; when no tab asks, there is none.
pub proof fn lemma_first_override(overrides: Seq<Option<TabBarPosition>>)
    ensures
        forall|i: int|
            #![trigger overrides[i]]
            0 <= i < overrides.len() && overrides[i] is Some && (forall|j: int|
                0 <= j < i ==> overrides[j] is None) ==> spec_first_override(overrides) == overrides[i],
        (forall|j: int| 0 <= j < overrides.len() ==> overrides[j] is None) ==> spec_first_override(
            overrides,
        ) is None,
        spec_first_override(overrides) matches Some(p) ==> exists|i: int|
            0 <= i < overrides.len() && overrides[i] == Some(p),
    decreases overrides.len(),
{
    if overrides.len() > 0 {
        let rest = overrides.drop_first();
        lemma_first_override(rest);
        assert forall|i: int|
            #![trigger overrides[i]]
            0 <= i < overrides.len() && overrides[i] is Some && (forall|j: int|
                0 <= j < i ==> overrides[j] is None) implies spec_first_override(overrides)
            == overrides[i] by {
            if i > 0 {
                assert(overrides[0] is None);
                assert(rest[i - 1] == overrides[i]);
                assert(forall|j: int| 0 <= j < i - 1 ==> rest[j] == overrides[j + 1]);
            }
        }
        if forall|j: int| 0 <= j < overrides.len() ==> overrides[j] is None {
            assert(overrides[0] is None);
            assert(forall|j: int| 0 <= j < rest.len() ==> rest[j] == overrides[j + 1]);
        }
        if spec_first_override(overrides) is Some && overrides[0] is None {
            let p = spec_first_override(overrides).unwrap();
            let k = choose|k: int| 0 <= k < rest.len() && rest[k] == Some(p);
            assert(overrides[k + 1] == Some(p));
        }
    }
}

/// Where a leaf draws its tab bar: where the leaf's own setting says if it has
/// one, else where the first tab that asks for a position says, else `default`.
/// Looking for the first asking tab, rather than only the first tab, keeps the
/// bar in place when tabs are reordered.
pub fn tab_bar_position(
    node_override: Option<TabBarPosition>,
    tab_overrides: &Vec<Option<TabBarPosition>>,
    default: TabBarPosition,
) -> (r: TabBarPosition)
    ensures
        r == match node_override {
            Some(p) => p,
            None => match spec_first_override(tab_overrides@) {
                Some(p) => p,
                None => default,
            },
        },
        node_override matches Some(p) ==> r == p,
        forall|i: int|
            #![trigger tab_overrides@[i]]
            (node_override is None && 0 <= i < tab_overrides@.len() && tab_overrides@[i] is Some
                && forall|j: int| 0 <= j < i ==> tab_overrides@[j] is None) ==> r
                == tab_overrides@[i].unwrap(),
        (node_override is None && forall|j: int|
            0 <= j < tab_overrides@.len() ==> tab_overrides@[j] is None) ==> r == default,
{
    proof {
        lemma_first_override(tab_overrides@);
    }
    if let Some(p) = node_override {
        return p;
    }
    let mut i: usize = 0;
    assert(tab_overrides@.subrange(0, tab_overrides@.len() as int) =~= tab_overrides@);
    while i < tab_overrides.len()
        invariant
            node_override is None,
            i <= tab_overrides@.len(),
            spec_first_override(tab_overrides@) == spec_first_override(
                tab_overrides@.subrange(i as int, tab_overrides@.len() as int),
            ),
        decreases tab_overrides@.len() - i,
    {
        let ghost rest = tab_overrides@.subrange(i as int, tab_overrides@.len() as int);
        if let Some(p) = tab_overrides[i] {
            assert(rest[0] == tab_overrides@[i as int]);
            proof {
                lemma_first_override(tab_overrides@);
            }
            return p;
        }
        assert(rest.drop_first() =~= tab_overrides@.subrange(i + 1, tab_overrides@.len() as int));
        i = i + 1;
    }
    assert(tab_overrides@.subrange(i as int, tab_overrides@.len() as int).len() == 0);
    default
}

/// The indices, in increasing order, of the tabs that ask to be closed.
pub fn forced_closes(force_close: &Vec<bool>) -> (r: Vec<TabIndex>)
    ensures
        forall|k: int, l: int| 0 <= k < l < r@.len() ==> r@[k].0 < r@[l].0,
        forall|k: int| 0 <= k < r@.len() ==> r@[k].0 < force_close@.len() && force_close@[r@[k].0 as int],
        forall|i: int|
            0 <= i < force_close@.len() && force_close@[i] ==> exists|k: int|
                0 <= k < r@.len() && r@[k].0 == i,
{
    let mut r: Vec<TabIndex> = Vec::new();
    let mut i: usize = 0;
    while i < force_close.len()
        invariant
            i <= force_close@.len(),
            forall|k: int, l: int| 0 <= k < l < r@.len() ==> r@[k].0 < r@[l].0,
            forall|k: int| 0 <= k < r@.len() ==> r@[k].0 < i && force_close@[r@[k].0 as int],
            forall|j: int|
                0 <= j < i && force_close@[j] ==> exists|k: int| 0 <= k < r@.len() && r@[k].0 == j,
        decreases force_close@.len() - i,
    {
        let ghost prev = r@;
        if force_close[i] {
            r.push(TabIndex(i));
            assert(r@[r@.len() - 1].0 == i);
        }
        assert forall|j: int|
            0 <= j < i + 1 && force_close@[j] implies exists|k: int| 0 <= k < r@.len() && r@[k].0 == j by {
            if j < i {
                let k = choose|k: int| 0 <= k < prev.len() && prev[k].0 == j;
                assert(r@[k] == prev[k]);
            } else {
                assert(r@[r@.len() - 1].0 == i);
            }
        }
        i = i + 1;
    }
    r
}

} // verus!
