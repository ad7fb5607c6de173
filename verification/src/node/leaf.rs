use vstd::prelude::*;

use egui::Rect;

use crate::allowed_drops::AllowedDrops;
use crate::external::{is_uuid_v4_text, rect_or_nothing, spec_rect_or_nothing, uuid_v4_string};
use crate::tab_index::TabIndex;

verus! {

/// The inner data of a leaf node, which contains tabs and can be collapsed.
///
/// The scroll amount of the tab bar, a floating-point value, is kept by the
/// renderer beside this state.
#[derive(Clone, Debug)]
pub struct LeafNode<Tab> {
    /// The full rectangle - tab bar plus tab body.
    pub rect: Rect,
    /// The tab body rectangle.
    pub viewport: Rect,
    /// All the tabs in this node.
    pub tabs: Vec<Tab>,
    /// The opened tab.
    pub active: TabIndex,
    /// Whether the leaf is collapsed.
    pub collapsed: bool,
    /// Whether the entire leaf (tab bar + body) is hidden.
    pub hidden: bool,
    /// Unique identifier for this leaf node (for stable references across tree changes).
    pub(crate) id: Option<String>,
    /// Whether this node should always keep at least one tab (cannot drag last tab).
    pub(crate) always_keep: bool,
    /// Whether to show the built-in fullscreen toggle button on the tab tail.
    pub(crate) fullscreen_toggle: bool,
    /// Drop permissions inherited from the family.
    pub allowed_drops: AllowedDrops,
    /// Family identifier used to constrain where tabs can be dropped.
    pub(crate) family_id: Option<String>,
}

/// The mathematical value of a [`LeafNode`]: its tabs as a sequence, its
/// strings as sequences of characters.
pub struct LeafView<Tab> {
    pub rect: Rect,
    pub viewport: Rect,
    pub tabs: Seq<Tab>,
    pub active: usize,
    pub collapsed: bool,
    pub hidden: bool,
    pub id: Option<Seq<char>>,
    pub always_keep: bool,
    pub fullscreen_toggle: bool,
    pub allowed_drops: AllowedDrops,
    pub family_id: Option<Seq<char>>,
}

/// The characters of an optional string.
pub open spec fn opt_str_view(s: Option<String>) -> Option<Seq<char>> {
    match s {
        Some(s) => Some(s@),
        None => None,
    }
}

/// The keep-flags select, in order, the elements of `s` whose flag is `true`.
pub open spec fn select<T>(s: Seq<T>, keep: Seq<bool>) -> Seq<T>
    recommends
        s.len() == keep.len(),
    decreases s.len(),
{
    if s.len() == 0 {
        Seq::empty()
    } else {
        let rest = select(s.drop_last(), keep.drop_last());
        if keep.last() {
            rest.push(s.last())
        } else {
            rest
        }
    }
}

impl<Tab> LeafView<Tab> {
    /// The active index after the tab at `index` is taken out: it moves down by
    /// one, stopping at zero, when the removed tab was at or before it.
    pub open spec fn active_after_removal(active: usize, index: usize) -> usize {
        if index <= active {
            if active == 0 { 0 } else { (active - 1) as usize }
        } else {
            active
        }
    }

    /// The same leaf with another tab list.
    pub open spec fn with_tabs(self, tabs: Seq<Tab>) -> LeafView<Tab> {
        LeafView { tabs, ..self }
    }

    /// The same leaf with another active index.
    pub open spec fn with_active(self, active: usize) -> LeafView<Tab> {
        LeafView { active, ..self }
    }

    /// The leaf after `set_active_tab(index)`: the index is taken when it is in
    /// bounds and ignored otherwise.
    pub open spec fn set_active_tab(self, index: usize) -> LeafView<Tab> {
        if index < self.tabs.len() {
            self.with_active(index)
        } else {
            self
        }
    }

    /// The leaf after `append_tab(tab)`: the tab goes to the end and is focused.
    pub open spec fn append_tab(self, tab: Tab) -> LeafView<Tab> {
        LeafView { tabs: self.tabs.push(tab), active: self.tabs.len() as usize, ..self }
    }

    /// The leaf after `insert_tab(index, tab)`: the tab is placed at `index` and focused.
    pub open spec fn insert_tab(self, index: usize, tab: Tab) -> LeafView<Tab> {
        LeafView { tabs: self.tabs.insert(index as int, tab), active: index, ..self }
    }

    /// The leaf after `remove_tab(index)`.
    pub open spec fn remove_tab(self, index: usize) -> LeafView<Tab> {
        LeafView {
            tabs: self.tabs.remove(index as int),
            active: Self::active_after_removal(self.active, index),
            ..self
        }
    }

    /// The leaf with `fresh` as its id when it has none, else unchanged.
    pub open spec fn with_id_if_absent(self, fresh: Seq<char>) -> LeafView<Tab> {
        if self.id is None {
            LeafView { id: Some(fresh), ..self }
        } else {
            self
        }
    }

    /// The leaf with `fresh` as its family id when it has none, else unchanged.
    pub open spec fn with_family_id_if_absent(self, fresh: Seq<char>) -> LeafView<Tab> {
        if self.family_id is None {
            LeafView { family_id: Some(fresh), ..self }
        } else {
            self
        }
    }

    /// The active index names a tab, or the leaf is empty and the index is zero.
    pub open spec fn active_in_range(self) -> bool {
        self.active < self.tabs.len() || (self.tabs.len() == 0 && self.active == 0)
    }
}

impl<Tab> View for LeafNode<Tab> {
    type V = LeafView<Tab>;

    closed spec fn view(&self) -> LeafView<Tab> {
        LeafView {
            rect: self.rect,
            viewport: self.viewport,
            tabs: self.tabs@,
            active: self.active.0,
            collapsed: self.collapsed,
            hidden: self.hidden,
            id: opt_str_view(self.id),
            always_keep: self.always_keep,
            fullscreen_toggle: self.fullscreen_toggle,
            allowed_drops: self.allowed_drops,
            family_id: opt_str_view(self.family_id),
        }
    }
}

impl<Tab> LeafNode<Tab> {
    /// Create New LeafNode with specified ``tabs``, all other internal values will be filled by "nothing" defaults.
    pub fn new(tabs: Vec<Tab>) -> (r: Self)
        ensures
            r@.tabs == tabs@,
            r@.active == 0,
            r@.rect == spec_rect_or_nothing(None),
            r@.viewport == spec_rect_or_nothing(None),
            !r@.collapsed,
            !r@.hidden,
            r@.id is None,
            !r@.always_keep,
            !r@.fullscreen_toggle,
            r@.allowed_drops == AllowedDrops::spec_all(),
            r@.family_id is None,
    {
        let nothing = rect_or_nothing(None);
        LeafNode {
            rect: nothing,
            viewport: nothing,
            tabs,
            active: TabIndex(0),
            collapsed: false,
            hidden: false,
            id: None,
            always_keep: false,
            fullscreen_toggle: false,
            allowed_drops: AllowedDrops::all(),
            family_id: None,
        }
    }

    /// Set whether this node should always keep at least one tab
    pub fn set_always_keep(&mut self, always_keep: bool)
        ensures
            final(self)@ == (LeafView { always_keep, ..old(self)@ }),
    {
        self.always_keep = always_keep;
    }

    /// Get whether this node should always keep at least one tab
    pub fn always_keep(&self) -> (r: bool)
        ensures
            r == self@.always_keep,
    {
        self.always_keep
    }

    /// Set whether to show the fullscreen toggle on this node.
    pub fn set_fullscreen_toggle(&mut self, enabled: bool)
        ensures
            final(self)@ == (LeafView { fullscreen_toggle: enabled, ..old(self)@ }),
    {
        self.fullscreen_toggle = enabled;
    }

    /// Get whether the fullscreen toggle is enabled.
    pub fn fullscreen_toggle(&self) -> (r: bool)
        ensures
            r == self@.fullscreen_toggle,
    {
        self.fullscreen_toggle
    }

    /// Get the unique ID of this leaf node
    pub fn id(&self) -> (r: Option<&str>)
        ensures
            match r {
                Some(s) => self@.id == Some(s@),
                None => self@.id is None,
            },
    {
        match &self.id {
            Some(s) => Some(s.as_str()),
            None => None,
        }
    }

    /// The family identifier of this leaf, if it has one.
    pub fn family_id(&self) -> (r: Option<&str>)
        ensures
            match r {
                Some(s) => self@.family_id == Some(s@),
                None => self@.family_id is None,
            },
    {
        match &self.family_id {
            Some(s) => Some(s.as_str()),
            None => None,
        }
    }

    /// Return this leaf's id, giving it `fresh` as its id first if it has none.
    pub fn get_or_insert_id(&mut self, fresh: String) -> (r: String)
        ensures
            final(self)@ == old(self)@.with_id_if_absent(fresh@),
            final(self)@.id == Some(r@),
    {
        match &self.id {
            Some(id) => id.clone(),
            None => {
                let r = fresh.clone();
                self.id = Some(fresh);
                r
            },
        }
    }

    /// Get or create a unique ID for this leaf node (using UUID v4)
    pub fn get_or_create_id(&mut self) -> (r: String)
        ensures
            final(self)@ == old(self)@.with_id_if_absent(r@),
            final(self)@.id == Some(r@),
            old(self)@.id is None ==> is_uuid_v4_text(r@),
    {
        match &self.id {
            Some(id) => id.clone(),
            None => {
                let fresh = uuid_v4_string();
                self.get_or_insert_id(fresh)
            },
        }
    }

    /// Return this leaf's family id, giving it `fresh` as its family id first if it has none.
    pub fn get_or_insert_family_id(&mut self, fresh: String) -> (r: String)
        ensures
            final(self)@ == old(self)@.with_family_id_if_absent(fresh@),
            final(self)@.family_id == Some(r@),
    {
        match &self.family_id {
            Some(id) => id.clone(),
            None => {
                let r = fresh.clone();
                self.family_id = Some(fresh);
                r
            },
        }
    }

    /// Get or create a family id for this leaf node.
    pub fn get_or_create_family_id(&mut self) -> (r: String)
        ensures
            final(self)@ == old(self)@.with_family_id_if_absent(r@),
            final(self)@.family_id == Some(r@),
            old(self)@.family_id is None ==> is_uuid_v4_text(r@),
    {
        match &self.family_id {
            Some(id) => id.clone(),
            None => {
                let fresh = uuid_v4_string();
                self.get_or_insert_family_id(fresh)
            },
        }
    }

    /// Set the active tab of this [`LeafNode`]
    ///
    /// If ``active_tab`` is out of bounds, it will be ignored and the active tab will not be changed.
    pub fn set_active_tab(&mut self, active_tab: TabIndex)
        ensures
            final(self)@ == old(self)@.set_active_tab(active_tab.0),
            active_tab.0 < old(self)@.tabs.len() ==> final(self)@.active == active_tab.0,
            active_tab.0 >= old(self)@.tabs.len() ==> final(self)@ == old(self)@,
            final(self)@.tabs == old(self)@.tabs,
    {
        if active_tab.0 < self.tabs.len() {
            self.active = active_tab;
        }
    }

    /// Make the tab at `tab_index` the active one, as a click on it or a close
    /// request answered with focus does; unlike [`Self::set_active_tab`] the index
    /// is taken as it is.
    pub fn focus_tab(&mut self, tab_index: TabIndex)
        ensures
            final(self)@ == old(self)@.with_active(tab_index.0),
    {
        self.active = tab_index;
    }

    /// Set the area this [`LeafNode`] Occupies on screen.
    pub fn set_rect(&mut self, new_rect: Rect)
        ensures
            final(self)@ == (LeafView { rect: new_rect, ..old(self)@ }),
    {
        self.rect = new_rect;
    }

    /// Whether the leaf is hidden.
    pub fn is_hidden(&self) -> (r: bool)
        ensures
            r == self@.hidden,
    {
        self.hidden
    }

    /// Whether the leaf is collapsed.
    pub fn is_collapsed(&self) -> (r: bool)
        ensures
            r == self@.collapsed,
    {
        self.collapsed
    }

    /// Get the length of tab list in this [`LeafNode`].
    pub fn len(&self) -> (r: usize)
        ensures
            r == self@.tabs.len(),
    {
        self.tabs.len()
    }

    /// Returns `true` when the [`LeafNode`] contains no tabs.
    pub fn is_empty(&self) -> (r: bool)
        ensures
            r == (self@.tabs.len() == 0),
    {
        self.tabs.is_empty()
    }

    /// Get the area this [`LeafNode`] occupies on screen.
    pub fn rect(&self) -> (r: Rect)
        ensures
            r == self@.rect,
    {
        self.rect
    }

    /// Get immutable access to the ``Tab``s of this [`LeafNode`]
    pub fn tabs(&self) -> (r: &[Tab])
        ensures
            r@ == self@.tabs,
    {
        self.tabs.as_slice()
    }

    /// Get mutable access to the ``Tab``s of this [`LeafNode`]
    pub fn tabs_mut(&mut self) -> (r: &mut [Tab])
        ensures
            r@ == old(self)@.tabs,
            final(self)@ == old(self)@.with_tabs(final(r)@),
    {
        self.tabs.as_mut_slice()
    }

    /// Return the area and tab which is currently representing this [`LeafNode`]
    ///
    /// This may return ``None`` if the leaf contains 0 tabs.
    pub fn active_focused(&mut self) -> (r: Option<(Rect, &mut Tab)>)
        ensures
            old(self)@.active < old(self)@.tabs.len() <==> r is Some,
            match r {
                Some((area, tab)) => {
                    &&& area == old(self)@.viewport
                    &&& *tab == old(self)@.tabs[old(self)@.active as int]
                    &&& final(self)@ == old(self)@.with_tabs(
                        old(self)@.tabs.update(old(self)@.active as int, *final(tab)),
                    )
                },
                None => final(self)@ == old(self)@,
            },
    {
        let active = self.active.0;
        if active < self.tabs.len() {
            Some((self.viewport, &mut self.tabs[active]))
        } else {
            None
        }
    }

    /// Removes all tabs for which `predicate` returns `false`, keeping the others in order.
    ///
    /// The predicate sees each tab once, in order, and cannot change it. The
    /// active index is left as it is.
    pub fn retain_tabs<F>(&mut self, predicate: F)
        where
            F: Fn(&Tab) -> bool,
        requires
            forall|t: &Tab| #[trigger] predicate.requires((t,)),
        ensures
            exists|keep: Seq<bool>|
                {
                    &&& keep.len() == old(self)@.tabs.len()
                    &&& forall|i: int|
                        0 <= i < keep.len() ==> predicate.ensures(
                            (&old(self)@.tabs[i],),
                            #[trigger] keep[i],
                        )
                    &&& final(self)@ == old(self)@.with_tabs(select(old(self)@.tabs, keep))
                },
    {
        let ghost old_view = self@;
        let mut pending: Vec<Tab> = Vec::new();
        std::mem::swap(&mut pending, &mut self.tabs);
        let ghost all = pending@;
        let ghost mut keep: Seq<bool> = Seq::empty();
        let n = pending.len();
        let mut i: usize = 0;
        while i < n
            invariant
                n == all.len(),
                i <= n,
                pending@ == all.subrange(i as int, n as int),
                keep.len() == i,
                forall|j: int| 0 <= j < i ==> predicate.ensures((&all[j],), #[trigger] keep[j]),
                self.tabs@ == select(all.subrange(0, i as int), keep),
                forall|t: &Tab| #[trigger] predicate.requires((t,)),
                self@ == old_view.with_tabs(self.tabs@),
            decreases n - i,
        {
            let ghost prev_keep = keep;
            let ghost prev_tabs = self.tabs@;
            let tab = pending.remove(0);
            assert(tab == all[i as int]);
            let kept = predicate(&tab);
            proof {
                keep = keep.push(kept);
            }
            if kept {
                self.tabs.push(tab);
            }
            proof {
                let s = all.subrange(0, i + 1);
                assert(s.drop_last() =~= all.subrange(0, i as int));
                assert(keep.drop_last() =~= prev_keep);
                assert(s.last() == tab);
                assert(select(s, keep) == if kept { prev_tabs.push(tab) } else { prev_tabs });
            }
            i = i + 1;
            proof {
                assert(pending@ =~= all.subrange(i as int, n as int));
            }
        }
        proof {
            assert(all.subrange(0, n as int) =~= all);
        }
    }

    /// Append a ``Tab`` to the end of this [`LeafNode`]s tab list.
    ///
    /// This will also focus the added tab.
    pub fn append_tab(&mut self, tab: Tab)
        ensures
            final(self)@ == old(self)@.append_tab(tab),
            final(self)@.active == old(self)@.tabs.len(),
            final(self)@.tabs == old(self)@.tabs.push(tab),
    {
        self.active = TabIndex(self.tabs.len());
        self.tabs.push(tab);
    }

    /// Insert a ``Tab`` to this [`LeafNode`]s tab list at the specified [`TabIndex`].
    ///
    /// This will also focus the added tab. The index must not exceed the length
    /// of the tab list.
    pub fn insert_tab(&mut self, tab_index: TabIndex, tab: Tab)
        requires
            tab_index.0 <= old(self)@.tabs.len(),
        ensures
            final(self)@ == old(self)@.insert_tab(tab_index.0, tab),
            final(self)@.tabs == old(self)@.tabs.insert(tab_index.0 as int, tab),
            final(self)@.active == tab_index.0,
    {
        self.tabs.insert(tab_index.0, tab);
        self.active = tab_index;
    }

    /// Remove the ``Tab`` at the specified [`TabIndex`] from this [`LeafNode`]s tab list,
    /// and return it.
    ///
    /// The active index moves down by one (stopping at zero) when the removed tab
    /// was at or before it. The index must be in bounds.
    pub fn remove_tab(&mut self, tab_index: TabIndex) -> (r: Option<Tab>)
        requires
            tab_index.0 < old(self)@.tabs.len(),
        ensures
            r == Some(old(self)@.tabs[tab_index.0 as int]),
            final(self)@ == old(self)@.remove_tab(tab_index.0),
            final(self)@.tabs == old(self)@.tabs.remove(tab_index.0 as int),
            tab_index.0 > old(self)@.active ==> final(self)@.active == old(self)@.active,
            tab_index.0 <= old(self)@.active ==> final(self)@.active == if old(self)@.active == 0 {
                0
            } else {
                old(self)@.active - 1
            },
    {
        if tab_index.0 <= self.active.0 {
            self.active.0 = self.active.0.saturating_sub(1);
        }
        Some(self.tabs.remove(tab_index.0))
    }
}

/// Inserting a tab at an index and then removing the tab at that index gives back
/// the inserted tab and the original tab list.
pub proof fn lemma_insert_then_remove<Tab>(leaf: LeafView<Tab>, index: usize, tab: Tab)
    requires
        index <= leaf.tabs.len(),
    ensures
        leaf.insert_tab(index, tab).tabs[index as int] == tab,
        leaf.insert_tab(index, tab).remove_tab(index).tabs == leaf.tabs,
{
    assert(leaf.insert_tab(index, tab).remove_tab(index).tabs =~= leaf.tabs);
}

/// Appending a tab and then removing the last tab gives back the appended tab
/// and the original tab list.
pub proof fn lemma_append_then_remove_last<Tab>(leaf: LeafView<Tab>, tab: Tab)
    requires
        leaf.tabs.len() < usize::MAX,
    ensures
        leaf.append_tab(tab).tabs[leaf.tabs.len() as int] == tab,
        leaf.append_tab(tab).remove_tab(leaf.tabs.len() as usize).tabs == leaf.tabs,
{
    assert(leaf.append_tab(tab).remove_tab(leaf.tabs.len() as usize).tabs =~= leaf.tabs);
}

/// Removing a tab other than the active one keeps the same tab active: the active
/// index then names the tab it named before. The index stays put when a tab after
/// it goes, and moves down by one when a tab before it goes; removing the active
/// tab itself makes the tab before it active (or the first one).
pub proof fn lemma_remove_keeps_active_tab<Tab>(leaf: LeafView<Tab>, index: usize)
    requires
        index < leaf.tabs.len(),
        leaf.active < leaf.tabs.len(),
    ensures
        index > leaf.active ==> leaf.remove_tab(index).active == leaf.active,
        index < leaf.active ==> leaf.remove_tab(index).active == leaf.active - 1,
        index == leaf.active ==> leaf.remove_tab(index).active == if leaf.active == 0 {
            0
        } else {
            leaf.active - 1
        },
        index != leaf.active ==> leaf.remove_tab(index).tabs[leaf.remove_tab(index).active as int]
            == leaf.tabs[leaf.active as int],
        leaf.remove_tab(index).tabs.len() == leaf.tabs.len() - 1,
{
    let after = leaf.remove_tab(index);
    if index < leaf.active {
        assert(after.tabs[leaf.active - 1] == leaf.tabs[leaf.active as int]);
    } else if index > leaf.active {
        assert(after.tabs[leaf.active as int] == leaf.tabs[leaf.active as int]);
    }
}

/// Appending or inserting a tab focuses it: the active index then names the new tab.
pub proof fn lemma_added_tab_is_active<Tab>(leaf: LeafView<Tab>, index: usize, tab: Tab)
    requires
        index <= leaf.tabs.len(),
        leaf.tabs.len() < usize::MAX,
    ensures
        leaf.append_tab(tab).tabs[leaf.append_tab(tab).active as int] == tab,
        leaf.insert_tab(index, tab).tabs[leaf.insert_tab(index, tab).active as int] == tab,
{
}

/// Once a leaf has an id, it keeps it: a later request for an id, whatever
/// fresh value it offers, returns the same id and changes nothing. The same holds
/// of the family id.
pub proof fn lemma_ids_are_stable<Tab>(leaf: LeafView<Tab>, first: Seq<char>, later: Seq<char>)
    ensures
        leaf.with_id_if_absent(first).id is Some,
        leaf.with_id_if_absent(first).with_id_if_absent(later) == leaf.with_id_if_absent(first),
        leaf.id matches Some(s) ==> leaf.with_id_if_absent(first).id == Some(s),
        leaf.with_family_id_if_absent(first).family_id is Some,
        leaf.with_family_id_if_absent(first).with_family_id_if_absent(later)
            == leaf.with_family_id_if_absent(first),
        leaf.family_id matches Some(s) ==> leaf.with_family_id_if_absent(first).family_id == Some(s),
{
}

/// Every operation on the tab list other than `retain_tabs` keeps the active
/// index in range: it names a tab, or the leaf is empty and the index is zero.
/// A fresh leaf starts in range.
pub proof fn lemma_operations_keep_active_in_range<Tab>(
    leaf: LeafView<Tab>,
    index: usize,
    tab: Tab,
)
    requires
        leaf.active_in_range(),
        leaf.tabs.len() < usize::MAX,
    ensures
        leaf.set_active_tab(index).active_in_range(),
        leaf.append_tab(tab).active_in_range(),
        index <= leaf.tabs.len() ==> leaf.insert_tab(index, tab).active_in_range(),
        index < leaf.tabs.len() ==> leaf.remove_tab(index).active_in_range(),
        (LeafView { tabs: leaf.tabs, active: 0, ..leaf }).active_in_range(),
{
}

/// Setting the active tab is idempotent, and in bounds it takes the given index.
pub proof fn lemma_set_active_tab<Tab>(leaf: LeafView<Tab>, index: usize)
    ensures
        leaf.set_active_tab(index).set_active_tab(index) == leaf.set_active_tab(index),
        index < leaf.tabs.len() ==> leaf.set_active_tab(index).active == index,
        index >= leaf.tabs.len() ==> leaf.set_active_tab(index) == leaf,
{
}

/// What `retain_tabs` keeps is drawn from the original list, no longer than it,
/// and everything when every flag is `true`.
pub proof fn lemma_select_is_sublist<T>(s: Seq<T>, keep: Seq<bool>)
    requires
        s.len() == keep.len(),
    ensures
        select(s, keep).len() <= s.len(),
        forall|x: T| select(s, keep).contains(x) ==> s.contains(x),
        (forall|i: int| 0 <= i < keep.len() ==> keep[i]) ==> select(s, keep) == s,
    decreases s.len(),
{
    if s.len() > 0 {
        lemma_select_is_sublist(s.drop_last(), keep.drop_last());
        let rest = select(s.drop_last(), keep.drop_last());
        assert forall|x: T| select(s, keep).contains(x) implies s.contains(x) by {
            if rest.contains(x) {
                let j = choose|j: int| 0 <= j < rest.len() && rest[j] == x;
                assert(s.drop_last().contains(x));
                let k = choose|k: int| 0 <= k < s.drop_last().len() && s.drop_last()[k] == x;
                assert(s[k] == x);
            } else {
                assert(s[s.len() - 1] == x);
            }
        }
        if forall|i: int| 0 <= i < keep.len() ==> keep[i] {
            assert(forall|i: int|
                0 <= i < keep.drop_last().len() ==> keep.drop_last()[i] == keep[i]);
            assert(s.drop_last().push(s.last()) =~= s);
        }
    }
}

} // verus!
