use vstd::prelude::*;

use egui::{Id, Rect};

use crate::allowed_drops::AllowedDrops;
use crate::allowed_splits::AllowedSplits;
use crate::external::{id_new, spec_id_of_str};
use crate::modifier_keys::ModifierKeys;
use crate::node::leaf::LeafNode;
use crate::node_index::{NodeIndex, TabInsert};
use crate::tab_index::TabIndex;

verus! {

/// The settings with which a dock is displayed, and the decisions that its
/// renderer takes from them.
pub struct DockArea {
    id: Id,
    show_add_popup: bool,
    show_add_buttons: bool,
    show_close_buttons: bool,
    tab_context_menus: bool,
    draggable_tabs: bool,
    show_tab_name_on_hover: bool,
    show_window_close_buttons: bool,
    show_window_collapse_buttons: bool,
    show_leaf_close_all_buttons: bool,
    show_leaf_collapse_buttons: bool,
    show_secondary_button_hint: bool,
    secondary_button_modifiers: ModifierKeys,
    secondary_button_on_modifier: bool,
    secondary_button_context_menu: bool,
    allowed_splits: AllowedSplits,
    window_bounds: Option<Rect>,
}

/// The mathematical value of a [`DockArea`].
pub struct DockAreaView {
    pub id: Id,
    pub show_add_popup: bool,
    pub show_add_buttons: bool,
    pub show_close_buttons: bool,
    pub tab_context_menus: bool,
    pub draggable_tabs: bool,
    pub show_tab_name_on_hover: bool,
    pub show_window_close_buttons: bool,
    pub show_window_collapse_buttons: bool,
    pub show_leaf_close_all_buttons: bool,
    pub show_leaf_collapse_buttons: bool,
    pub show_secondary_button_hint: bool,
    pub secondary_button_modifiers: ModifierKeys,
    pub secondary_button_on_modifier: bool,
    pub secondary_button_context_menu: bool,
    pub allowed_splits: AllowedSplits,
    pub window_bounds: Option<Rect>,
}

impl View for DockArea {
    type V = DockAreaView;

    closed spec fn view(&self) -> DockAreaView {
        DockAreaView {
            id: self.id,
            show_add_popup: self.show_add_popup,
            show_add_buttons: self.show_add_buttons,
            show_close_buttons: self.show_close_buttons,
            tab_context_menus: self.tab_context_menus,
            draggable_tabs: self.draggable_tabs,
            show_tab_name_on_hover: self.show_tab_name_on_hover,
            show_window_close_buttons: self.show_window_close_buttons,
            show_window_collapse_buttons: self.show_window_collapse_buttons,
            show_leaf_close_all_buttons: self.show_leaf_close_all_buttons,
            show_leaf_collapse_buttons: self.show_leaf_collapse_buttons,
            show_secondary_button_hint: self.show_secondary_button_hint,
            secondary_button_modifiers: self.secondary_button_modifiers,
            secondary_button_on_modifier: self.secondary_button_on_modifier,
            secondary_button_context_menu: self.secondary_button_context_menu,
            allowed_splits: self.allowed_splits,
            window_bounds: self.window_bounds,
        }
    }
}

/// Which hint a window's collapse button shows about minimizing the window.
#[derive(Clone, Copy, Debug, PartialEq, Eq, Structural)]
pub enum MinimizeHint {
    /// Minimize with the modifier keys or from the context menu.
    ModifierOrMenu,
    /// Minimize from the context menu.
    Menu,
    /// Minimize with the modifier keys.
    Modifier,
}

/// What a tab's bar lets the user do with the tab this frame.
#[derive(Clone, Copy, Debug, PartialEq, Eq, Structural)]
pub struct TabInteractions {
    /// The tab may be moved away from its leaf at all.
    pub movable: bool,
    /// The tab is being dragged (and may be dropped elsewhere).
    pub dragged: bool,
    /// The tab shows a close button; its context menu offers closing too.
    pub close_button: bool,
    /// A middle click closes the tab.
    pub middle_click_close: bool,
    /// The tab's context menu offers to eject it into a window.
    pub eject: bool,
}

/// What a dragged tab may do over its current target.
#[derive(Clone, Copy, Debug, PartialEq, Eq, Structural)]
pub struct DropPermissions {
    /// The splits the drop may make.
    pub allowed_splits: AllowedSplits,
    /// Whether the tab may be dropped into a new window.
    pub windows_allowed: bool,
    /// Whether the tab may be dropped into the target's tab bar.
    pub tabs_allowed: bool,
}

/// What a window must record after one of its nodes was collapsed or expanded.
#[derive(Clone, Copy, Debug, PartialEq, Eq, Structural)]
pub enum CollapseUpdate {
    /// The node was expanded: the window is to be laid out afresh.
    MarkNew,
    /// The whole window collapsed: its height before collapsing is to be kept.
    RecordExpandedHeight,
    /// Nothing to record.
    Unchanged,
}

/// What a tab viewer answers when asked to close one of its tabs.
#[derive(Clone, Copy, Debug, PartialEq, Eq, Structural)]
pub enum OnCloseResponse {
    /// Close the tab.
    Close,
    /// Keep the tab and focus it.
    Focus,
    /// Keep the tab as it is.
    Ignore,
}

/// What became of a tab whose closing was requested.
#[derive(Clone, Copy, Debug, PartialEq, Eq, Structural)]
pub enum CloseOutcome {
    /// The tab is to be removed.
    Remove,
    /// The tab was made active; its leaf is to be focused.
    Focused,
    /// The tab stays as it was.
    Kept,
}

/// Two family identifiers are compatible when both are present and equal, or
/// when either is absent.
pub open spec fn spec_families_compatible(a: Option<Seq<char>>, b: Option<Seq<char>>) -> bool {
    match (a, b) {
        (Some(a), Some(b)) => a == b,
        _ => true,
    }
}

/// The characters of an optional string.
pub open spec fn opt_chars(s: &Option<String>) -> Option<Seq<char>> {
    match s {
        Some(s) => Some(s@),
        None => None,
    }
}

/// Whether a tab may be dragged away or closed: not when it is the last tab of a
/// leaf on the main surface that must always keep one.
pub open spec fn spec_tab_movable(tabs_len: usize, on_main_surface: bool, always_keep: bool) -> bool {
    tabs_len != 1 || !on_main_surface || !always_keep
}

/// Whether a tab may be dragged away or closed: not when it is the last tab of a
/// leaf on the main surface that must always keep one.
pub fn tab_movable(tabs_len: usize, on_main_surface: bool, always_keep: bool) -> (r: bool)
    ensures
        r == spec_tab_movable(tabs_len, on_main_surface, always_keep),
        r == !(tabs_len == 1 && on_main_surface && always_keep),
{
    let is_last_tab = tabs_len == 1;
    let can_drag_last_tab = !on_main_surface || !always_keep;
    !is_last_tab || can_drag_last_tab
}

/// Whether a tab's context menu offers to eject it into a window: when it is
/// allowed in windows, it may be moved (an always-keep leaf keeps its last tab),
/// and it is on the main surface or not the only tab of its surface.
pub open spec fn spec_eject_offered(
    on_main_surface: bool,
    lonely_tab: bool,
    allowed_in_windows: bool,
    tab_movable: bool,
) -> bool {
    (on_main_surface || !lonely_tab) && allowed_in_windows && tab_movable
}

/// Whether a tab's context menu offers to eject it into a window: when it is
/// allowed in windows, it may be moved (an always-keep leaf keeps its last tab),
/// and it is on the main surface or not the only tab of its surface.
pub fn eject_offered(
    on_main_surface: bool,
    lonely_tab: bool,
    allowed_in_windows: bool,
    tab_movable: bool,
) -> (r: bool)
    ensures
        r == spec_eject_offered(on_main_surface, lonely_tab, allowed_in_windows, tab_movable),
        r == ((on_main_surface || !lonely_tab) && allowed_in_windows && tab_movable),
{
    (on_main_surface || !lonely_tab) && allowed_in_windows && tab_movable
}

/// Whether a tab is drawn as active: it is its leaf's active tab, or it is being dragged.
pub fn tab_shown_active(active: TabIndex, tab_index: TabIndex, being_dragged: bool) -> (r: bool)
    ensures
        r == (active == tab_index || being_dragged),
{
    active.0 == tab_index.0 || being_dragged
}

/// Whether a node may take the hover of a dragged tab: the tab may live in a
/// window, or the node is on the main surface.
pub fn drag_target_valid(allowed_in_windows: bool, on_main_surface: bool) -> (r: bool)
    ensures
        r == (allowed_in_windows || on_main_surface),
{
    allowed_in_windows || on_main_surface
}

/// Act on a tab viewer's answer to a request to close the tab at `tab_index` of
/// `leaf`: `Close` asks for the tab's removal, `Focus` makes the tab active, and
/// `Ignore` leaves everything as it was.
pub fn apply_close_response<Tab>(
    leaf: &mut LeafNode<Tab>,
    tab_index: TabIndex,
    response: OnCloseResponse,
) -> (r: CloseOutcome)
    ensures
        match response {
            OnCloseResponse::Close => r == CloseOutcome::Remove && final(leaf)@ == old(leaf)@,
            OnCloseResponse::Focus => r == CloseOutcome::Focused && final(leaf)@ == old(
                leaf,
            )@.with_active(tab_index.0),
            OnCloseResponse::Ignore => r == CloseOutcome::Kept && final(leaf)@ == old(leaf)@,
        },
{
    match response {
        OnCloseResponse::Close => CloseOutcome::Remove,
        OnCloseResponse::Focus => {
            leaf.focus_tab(tab_index);
            CloseOutcome::Focused
        },
        OnCloseResponse::Ignore => CloseOutcome::Kept,
    }
}

/// The kind of place where a dragged tab is dropped.
#[derive(Clone, Copy, Debug, PartialEq, Eq, Structural)]
pub enum DropDestination {
    /// A node of a surface.
    Node,
    /// A new window.
    Window,
    /// A surface without nodes.
    EmptySurface,
}

/// Whether a dropped tab is moved: into a node when the tab viewer allows it (or
/// the tab cannot be found, `viewer_allows` being `None`), into a new window always,
/// onto an empty surface never.
pub fn dropped_tab_moves(destination: DropDestination, viewer_allows: Option<bool>) -> (r: bool)
    ensures
        r == match destination {
            DropDestination::Node => match viewer_allows {
                Some(b) => b,
                None => true,
            },
            DropDestination::Window => true,
            DropDestination::EmptySurface => false,
        },
{
    match destination {
        DropDestination::Node => match viewer_allows {
            Some(b) => b,
            None => true,
        },
        DropDestination::Window => true,
        DropDestination::EmptySurface => false,
    }
}

/// The queued removals or detachments in the order they are carried out: the
/// last queued first, so that earlier tab indices of a leaf stay valid.
pub fn in_processing_order<T: Copy>(queue: &Vec<T>) -> (r: Vec<T>)
    ensures
        r@ == queue@.reverse(),
{
    let mut r: Vec<T> = Vec::new();
    let mut i: usize = queue.len();
    while i > 0
        invariant
            i <= queue@.len(),
            r@ == queue@.subrange(i as int, queue@.len() as int).reverse(),
        decreases i,
    {
        i = i - 1;
        r.push(queue[i]);
        assert(r@ =~= queue@.subrange(i as int, queue@.len() as int).reverse());
    }
    assert(queue@.subrange(0, queue@.len() as int) =~= queue@);
    r
}

/// Carry out a queued removal of the tab at `tab_index` of `leaf`. A forced removal
/// removes the tab without asking; otherwise the tab viewer's answer, `response`
/// (`None` when it was not asked), decides as [`apply_close_response`] does.
pub fn apply_queued_removal<Tab>(
    leaf: &mut LeafNode<Tab>,
    tab_index: TabIndex,
    forced: bool,
    response: Option<OnCloseResponse>,
) -> (r: CloseOutcome)
    ensures
        forced ==> r == CloseOutcome::Remove && final(leaf)@ == old(leaf)@,
        !forced ==> match response {
            Some(OnCloseResponse::Close) => r == CloseOutcome::Remove && final(leaf)@ == old(leaf)@,
            Some(OnCloseResponse::Focus) => r == CloseOutcome::Focused && final(leaf)@ == old(
                leaf,
            )@.with_active(tab_index.0),
            _ => r == CloseOutcome::Kept && final(leaf)@ == old(leaf)@,
        },
{
    if forced {
        CloseOutcome::Remove
    } else {
        match response {
            Some(response) => apply_close_response(leaf, tab_index, response),
            None => CloseOutcome::Kept,
        }
    }
}

/// Whether two optional family identifiers allow a drop between their nodes.
pub fn families_compatible(a: &Option<String>, b: &Option<String>) -> (r: bool)
    ensures
        r == spec_families_compatible(opt_chars(a), opt_chars(b)),
        (a.is_some() && b.is_some()) ==> r == (a.unwrap()@ == b.unwrap()@),
        (a.is_none() || b.is_none()) ==> r,
{
    match (a, b) {
        (Some(a), Some(b)) => String::eq(a, b),
        _ => true,
    }
}

/// The position at which a tab returning from a window goes into its destination
/// leaf: its original position while that is still within the leaf's tab list,
/// else the end.
pub fn restore_insert_position(original_tab_index: Option<usize>, leaf_len: usize) -> (r: TabInsert)
    ensures
        r == match original_tab_index {
            Some(i) => if i <= leaf_len { TabInsert::Insert(TabIndex(i)) } else { TabInsert::Append },
            None => TabInsert::Append,
        },
{
    if let Some(original_index) = original_tab_index {
        if original_index <= leaf_len {
            TabInsert::Insert(TabIndex(original_index))
        } else {
            TabInsert::Append
        }
    } else {
        TabInsert::Append
    }
}

/// A leaf is open when it is neither hidden nor collapsed.
pub open spec fn spec_open_leaf<Tab>(node: Option<&LeafNode<Tab>>) -> bool {
    match node {
        Some(leaf) => !leaf@.hidden && !leaf@.collapsed,
        None => false,
    }
}

/// The first node, in the given order, that is an open leaf; `nodes` pairs each
/// node's index with its leaf data, or `None` for a split.
pub fn first_open_leaf<Tab>(nodes: &[(NodeIndex, Option<&LeafNode<Tab>>)]) -> (r: Option<NodeIndex>)
    ensures
        match r {
            Some(n) => exists|i: int|
                0 <= i < nodes@.len() && nodes@[i].0 == n && spec_open_leaf(nodes@[i].1)
                    && forall|j: int| 0 <= j < i ==> !spec_open_leaf(#[trigger] nodes@[j].1),
            None => forall|j: int| 0 <= j < nodes@.len() ==> !spec_open_leaf(#[trigger] nodes@[j].1),
        },
{
    let mut i: usize = 0;
    while i < nodes.len()
        invariant
            i <= nodes@.len(),
            forall|j: int| 0 <= j < i ==> !spec_open_leaf(#[trigger] nodes@[j].1),
        decreases nodes@.len() - i,
    {
        let (index, node) = nodes[i];
        assert(node == nodes@[i as int].1);
        match node {
            Some(leaf) => {
                if !leaf.is_hidden() && !leaf.is_collapsed() {
                    assert(nodes@[i as int].0 == index && spec_open_leaf(nodes@[i as int].1));
                    return Some(index);
                }
            },
            None => {},
        }
        i = i + 1;
    }
    None
}

/// The leaf to which a tab returns from a window: the node it came from if that
/// still exists, else the focused leaf, else the first open leaf, else the root.
pub fn restore_destination(
    original: Option<NodeIndex>,
    focused: Option<NodeIndex>,
    first_open: Option<NodeIndex>,
) -> (r: NodeIndex)
    ensures
        r == match (original, focused, first_open) {
            (Some(n), _, _) => n,
            (None, Some(n), _) => n,
            (None, None, Some(n)) => n,
            (None, None, None) => NodeIndex(0),
        },
{
    match original {
        Some(n) => n,
        None => match focused {
            Some(n) => n,
            None => match first_open {
                Some(n) => n,
                None => NodeIndex::root(),
            },
        },
    }
}

/// What a window records after one of its nodes was collapsed or expanded: an
/// expanded node marks the window new; a collapse that reaches the root keeps
/// the window's expanded height; otherwise nothing.
pub fn collapse_update(node_collapsed: bool, root_collapsed: bool) -> (r: CollapseUpdate)
    ensures
        r == if !node_collapsed {
            CollapseUpdate::MarkNew
        } else if root_collapsed {
            CollapseUpdate::RecordExpandedHeight
        } else {
            CollapseUpdate::Unchanged
        },
{
    if !node_collapsed {
        CollapseUpdate::MarkNew
    } else if root_collapsed {
        CollapseUpdate::RecordExpandedHeight
    } else {
        CollapseUpdate::Unchanged
    }
}

impl DockAreaView {
    /// The settings of a freshly created dock area, but for its ID.
    pub open spec fn has_default_settings(self) -> bool {
        &&& !self.show_add_popup
        &&& !self.show_add_buttons
        &&& self.show_close_buttons
        &&& self.tab_context_menus
        &&& self.draggable_tabs
        &&& !self.show_tab_name_on_hover
        &&& self.show_window_close_buttons
        &&& self.show_window_collapse_buttons
        &&& self.show_leaf_close_all_buttons
        &&& self.show_leaf_collapse_buttons
        &&& self.show_secondary_button_hint
        &&& self.secondary_button_on_modifier
        &&& self.secondary_button_context_menu
        &&& self.allowed_splits == AllowedSplits::All
        &&& self.window_bounds is None
        &&& self.secondary_button_modifiers == ModifierKeys::spec_shift()
    }

    /// The splits, window drop and tab-bar drop that a dragged tab may make over
    /// a target with permissions `target`.
    pub open spec fn drop_permissions(
        self,
        target: AllowedDrops,
        family_ok: bool,
        hovering_surface: bool,
        deserted_node: bool,
        allowed_in_windows: bool,
    ) -> DropPermissions {
        let restricted = if hovering_surface || deserted_node {
            AllowedSplits::NoSplits
        } else {
            AllowedSplits::All
        };
        DropPermissions {
            allowed_splits: if family_ok {
                self.allowed_splits.spec_intersect(restricted).spec_intersect(
                    target.spec_to_allowed_splits(),
                )
            } else {
                AllowedSplits::NoSplits
            },
            windows_allowed: family_ok && allowed_in_windows && target.float,
            tabs_allowed: family_ok && target.tabs,
        }
    }

    /// Whether a tab is being dragged.
    pub open spec fn tab_being_dragged(self, pointer_dragging: bool, tab_movable: bool) -> bool {
        pointer_dragging && self.draggable_tabs && tab_movable
    }

    /// Whether a tab shows a close button.
    pub open spec fn tab_close_button_shown(self, closeable: bool, tab_movable: bool, fullscreen_active: bool) -> bool {
        self.show_close_buttons && closeable && tab_movable && !fullscreen_active
    }

    /// Whether a middle click on a tab closes it.
    pub open spec fn middle_click_closes(self, closeable: bool, tab_movable: bool, middle_clicked: bool) -> bool {
        self.show_close_buttons && closeable && tab_movable && middle_clicked
    }

    /// Everything the tab bar lets the user do with one tab.
    pub open spec fn tab_interactions(
        self,
        tabs_len: usize,
        on_main_surface: bool,
        always_keep: bool,
        closeable: bool,
        fullscreen_active: bool,
        pointer_dragging: bool,
        middle_clicked: bool,
        lonely_tab: bool,
        allowed_in_windows: bool,
    ) -> TabInteractions {
        let movable = spec_tab_movable(tabs_len, on_main_surface, always_keep);
        TabInteractions {
            movable,
            dragged: self.tab_being_dragged(pointer_dragging, movable),
            close_button: self.tab_close_button_shown(closeable, movable, fullscreen_active),
            middle_click_close: self.middle_click_closes(closeable, movable, middle_clicked),
            eject: spec_eject_offered(on_main_surface, lonely_tab, allowed_in_windows, movable),
        }
    }

    /// Whether the secondary button mode is engaged on a window's collapse button.
    pub open spec fn on_secondary_button(self, on_main_surface: bool, modifiers_match: bool, button_engaged: bool) -> bool {
        !on_main_surface && self.secondary_button_on_modifier && modifiers_match && button_engaged
    }

    /// The minimize hint a collapse button shows, if any.
    pub open spec fn minimize_hint(self, on_main_surface: bool) -> Option<MinimizeHint> {
        if !on_main_surface && self.show_secondary_button_hint
            && (self.secondary_button_context_menu || self.secondary_button_on_modifier) {
            if self.secondary_button_context_menu && self.secondary_button_on_modifier {
                Some(MinimizeHint::ModifierOrMenu)
            } else if self.secondary_button_context_menu {
                Some(MinimizeHint::Menu)
            } else {
                Some(MinimizeHint::Modifier)
            }
        } else {
            None
        }
    }
}

impl DockArea {
    /// Creates a new [`DockArea`] with the default settings.
    pub fn new() -> (r: DockArea)
        ensures
            r@.has_default_settings(),
            r@.id == spec_id_of_str("egui_dock::DockArea"@),
            r@.secondary_button_modifiers == ModifierKeys::spec_shift(),
    {
        DockArea {
            id: id_new("egui_dock::DockArea"),
            show_add_popup: false,
            show_add_buttons: false,
            show_close_buttons: true,
            tab_context_menus: true,
            draggable_tabs: true,
            show_tab_name_on_hover: false,
            allowed_splits: AllowedSplits::All,
            window_bounds: None,
            show_window_close_buttons: true,
            show_window_collapse_buttons: true,
            show_leaf_close_all_buttons: true,
            show_leaf_collapse_buttons: true,
            show_secondary_button_hint: true,
            secondary_button_modifiers: ModifierKeys::shift(),
            secondary_button_on_modifier: true,
            secondary_button_context_menu: true,
        }
    }

    /// Sets the [`DockArea`] ID. Useful if you have more than one [`DockArea`].
    pub fn id(self, id: Id) -> (r: Self)
        ensures
            r@ == (DockAreaView { id, ..self@ }),
    {
        DockArea { id, ..self }
    }

    /// Shows or hides the add button popup.
    /// By default it's `false`.
    pub fn show_add_popup(self, show_add_popup: bool) -> (r: Self)
        ensures
            r@ == (DockAreaView { show_add_popup, ..self@ }),
    {
        DockArea { show_add_popup, ..self }
    }

    /// Shows or hides the tab add buttons.
    /// By default it's `false`.
    pub fn show_add_buttons(self, show_add_buttons: bool) -> (r: Self)
        ensures
            r@ == (DockAreaView { show_add_buttons, ..self@ }),
    {
        DockArea { show_add_buttons, ..self }
    }

    /// Shows or hides the tab close buttons.
    /// By default it's `true`.
    pub fn show_close_buttons(self, show_close_buttons: bool) -> (r: Self)
        ensures
            r@ == (DockAreaView { show_close_buttons, ..self@ }),
    {
        DockArea { show_close_buttons, ..self }
    }

    /// Whether tabs show a context menu when right-clicked.
    /// By default it's `true`.
    pub fn tab_context_menus(self, tab_context_menus: bool) -> (r: Self)
        ensures
            r@ == (DockAreaView { tab_context_menus, ..self@ }),
    {
        DockArea { tab_context_menus, ..self }
    }

    /// Whether tabs can be dragged between nodes and reordered on the tab bar.
    /// By default it's `true`.
    pub fn draggable_tabs(self, draggable_tabs: bool) -> (r: Self)
        ensures
            r@ == (DockAreaView { draggable_tabs, ..self@ }),
    {
        DockArea { draggable_tabs, ..self }
    }

    /// Whether tabs show their name when hovered over them.
    /// By default it's `false`.
    pub fn show_tab_name_on_hover(self, show_tab_name_on_hover: bool) -> (r: Self)
        ensures
            r@ == (DockAreaView { show_tab_name_on_hover, ..self@ }),
    {
        DockArea { show_tab_name_on_hover, ..self }
    }

    /// What directions can a node be split in: left-right, top-bottom, all, or none.
    /// By default it's all.
    pub fn allowed_splits(self, allowed_splits: AllowedSplits) -> (r: Self)
        ensures
            r@ == (DockAreaView { allowed_splits, ..self@ }),
    {
        DockArea { allowed_splits, ..self }
    }

    /// Whether tooltip hints are shown for secondary buttons on tab bars.
    /// By default it's `true`.
    pub fn show_secondary_button_hint(self, show_secondary_button_hint: bool) -> (r: Self)
        ensures
            r@ == (DockAreaView { show_secondary_button_hint, ..self@ }),
    {
        DockArea { show_secondary_button_hint, ..self }
    }

    /// The key combination used to activate secondary buttons on tab bars.
    /// By default it's the shift key alone.
    pub fn secondary_button_modifiers(self, secondary_button_modifiers: ModifierKeys) -> (r: Self)
        ensures
            r@ == (DockAreaView { secondary_button_modifiers, ..self@ }),
    {
        DockArea { secondary_button_modifiers, ..self }
    }

    /// Whether the secondary buttons on tab bars are activated by the modifier key.
    /// By default it's `true`.
    pub fn secondary_button_on_modifier(self, secondary_button_on_modifier: bool) -> (r: Self)
        ensures
            r@ == (DockAreaView { secondary_button_on_modifier, ..self@ }),
    {
        DockArea { secondary_button_on_modifier, ..self }
    }

    /// Whether the secondary buttons on tab bars are activated from a context value by right-clicking primary buttons.
    /// By default it's `true`.
    pub fn secondary_button_context_menu(self, secondary_button_context_menu: bool) -> (r: Self)
        ensures
            r@ == (DockAreaView { secondary_button_context_menu, ..self@ }),
    {
        DockArea { secondary_button_context_menu, ..self }
    }

    /// The bounds for any windows inside the [`DockArea`]. Defaults to the screen rect.
    pub fn window_bounds(self, bounds: Rect) -> (r: Self)
        ensures
            r@ == (DockAreaView { window_bounds: Some(bounds), ..self@ }),
    {
        DockArea { window_bounds: Some(bounds), ..self }
    }

    /// Enables or disables the close button on windows.
    /// By default it's `true`.
    pub fn show_window_close_buttons(self, show_window_close_buttons: bool) -> (r: Self)
        ensures
            r@ == (DockAreaView { show_window_close_buttons, ..self@ }),
    {
        DockArea { show_window_close_buttons, ..self }
    }

    /// Enables or disables the collapsing header on windows.
    /// By default it's `true`.
    pub fn show_window_collapse_buttons(self, show_window_collapse_buttons: bool) -> (r: Self)
        ensures
            r@ == (DockAreaView { show_window_collapse_buttons, ..self@ }),
    {
        DockArea { show_window_collapse_buttons, ..self }
    }

    /// Enables or disables the close all tabs button on tab bars.
    /// By default it's `true`.
    pub fn show_leaf_close_all_buttons(self, show_leaf_close_all_buttons: bool) -> (r: Self)
        ensures
            r@ == (DockAreaView { show_leaf_close_all_buttons, ..self@ }),
    {
        DockArea { show_leaf_close_all_buttons, ..self }
    }

    /// Enables or disables the collapse tabs button on tab bars.
    /// By default it's `true`.
    pub fn show_leaf_collapse_buttons(self, show_leaf_collapse_buttons: bool) -> (r: Self)
        ensures
            r@ == (DockAreaView { show_leaf_collapse_buttons, ..self@ }),
    {
        DockArea { show_leaf_collapse_buttons, ..self }
    }

    /// The ID of this dock area.
    pub fn get_id(&self) -> (r: Id)
        ensures
            r == self@.id,
    {
        self.id
    }

    /// The modifier keys that engage the secondary buttons.
    pub fn get_secondary_button_modifiers(&self) -> (r: ModifierKeys)
        ensures
            r == self@.secondary_button_modifiers,
    {
        self.secondary_button_modifiers
    }

    /// The bounds for windows, if set.
    pub fn get_window_bounds(&self) -> (r: Option<Rect>)
        ensures
            r == self@.window_bounds,
    {
        self.window_bounds
    }

    /// Whether the add button opens a popup.
    pub fn add_popup_shown(&self) -> (r: bool)
        ensures
            r == self@.show_add_popup,
    {
        self.show_add_popup
    }

    /// Whether tab bars show an add button.
    pub fn add_buttons_shown(&self) -> (r: bool)
        ensures
            r == self@.show_add_buttons,
    {
        self.show_add_buttons
    }

    /// Whether tabs open a context menu when right-clicked.
    pub fn context_menus_shown(&self) -> (r: bool)
        ensures
            r == self@.tab_context_menus,
    {
        self.tab_context_menus
    }

    /// Whether a hovered tab shows its name.
    pub fn tab_name_shown_on_hover(&self) -> (r: bool)
        ensures
            r == self@.show_tab_name_on_hover,
    {
        self.show_tab_name_on_hover
    }

    /// Whether tab bars show a close-all button.
    pub fn leaf_close_all_buttons_shown(&self) -> (r: bool)
        ensures
            r == self@.show_leaf_close_all_buttons,
    {
        self.show_leaf_close_all_buttons
    }

    /// Whether windows show a close button.
    pub fn window_close_buttons_shown(&self) -> (r: bool)
        ensures
            r == self@.show_window_close_buttons,
    {
        self.show_window_close_buttons
    }

    /// Whether windows show a collapsing header.
    pub fn window_collapse_buttons_shown(&self) -> (r: bool)
        ensures
            r == self@.show_window_collapse_buttons,
    {
        self.show_window_collapse_buttons
    }

    /// Whether a tab is being dragged: the pointer drags it, tabs are draggable
    /// in this area, and the tab may be moved.
    pub fn tab_being_dragged(&self, pointer_dragging: bool, tab_movable: bool) -> (r: bool)
        ensures
            r == self@.tab_being_dragged(pointer_dragging, tab_movable),
            r == (pointer_dragging && self@.draggable_tabs && tab_movable),
    {
        pointer_dragging && self.draggable_tabs && tab_movable
    }

    /// Whether a tab shows a close button: close buttons are on, the tab is
    /// closeable and may be moved, and no tab is shown fullscreen.
    pub fn tab_close_button_shown(&self, closeable: bool, tab_movable: bool, fullscreen_active: bool) -> (r: bool)
        ensures
            r == self@.tab_close_button_shown(closeable, tab_movable, fullscreen_active),
            r == (self@.show_close_buttons && closeable && tab_movable && !fullscreen_active),
    {
        self.show_close_buttons && (closeable && tab_movable) && !fullscreen_active
    }

    /// Whether a middle click on a tab closes it: close buttons are on, the tab
    /// is closeable and may be moved (an always-keep leaf keeps its last tab), and
    /// it was middle-clicked.
    pub fn middle_click_closes(&self, closeable: bool, tab_movable: bool, middle_clicked: bool) -> (r: bool)
        ensures
            r == self@.middle_click_closes(closeable, tab_movable, middle_clicked),
            r == (self@.show_close_buttons && closeable && tab_movable && middle_clicked),
    {
        self.show_close_buttons && closeable && tab_movable && middle_clicked
    }

    /// Everything the tab bar lets the user do with one tab of a leaf with
    /// `tabs_len` tabs: whether it may be moved at all, is being dragged, shows a
    /// close button, closes on a middle click, and is offered for ejection.
    pub fn tab_interactions(
        &self,
        tabs_len: usize,
        on_main_surface: bool,
        always_keep: bool,
        closeable: bool,
        fullscreen_active: bool,
        pointer_dragging: bool,
        middle_clicked: bool,
        lonely_tab: bool,
        allowed_in_windows: bool,
    ) -> (r: TabInteractions)
        ensures
            r == self@.tab_interactions(
                tabs_len,
                on_main_surface,
                always_keep,
                closeable,
                fullscreen_active,
                pointer_dragging,
                middle_clicked,
                lonely_tab,
                allowed_in_windows,
            ),
    {
        let movable = tab_movable(tabs_len, on_main_surface, always_keep);
        TabInteractions {
            movable,
            dragged: self.tab_being_dragged(pointer_dragging, movable),
            close_button: self.tab_close_button_shown(closeable, movable, fullscreen_active),
            middle_click_close: self.middle_click_closes(closeable, movable, middle_clicked),
            eject: eject_offered(on_main_surface, lonely_tab, allowed_in_windows, movable),
        }
    }

    /// Whether a leaf's tab bar shows the collapse button.
    pub fn collapse_button_shown(&self, collapse_allowed: bool) -> (r: bool)
        ensures
            r == (self@.show_leaf_collapse_buttons && collapse_allowed),
    {
        self.show_leaf_collapse_buttons && collapse_allowed
    }

    /// Whether the secondary button mode is engaged on a collapse button: on a
    /// window surface, with modifier activation on, the configured modifiers held,
    /// and the button hovered, focused or pressed.
    pub fn is_on_secondary_button(&self, on_main_surface: bool, modifiers_match: bool, button_engaged: bool) -> (r: bool)
        ensures
            r == self@.on_secondary_button(on_main_surface, modifiers_match, button_engaged),
            r == (!on_main_surface && self@.secondary_button_on_modifier && modifiers_match
                && button_engaged),
    {
        !on_main_surface && self.secondary_button_on_modifier && modifiers_match && button_engaged
    }

    /// Whether a window's collapse button offers a context menu with the minimize button.
    pub fn minimize_menu_offered(&self, on_main_surface: bool) -> (r: bool)
        ensures
            r == (!on_main_surface && self@.secondary_button_context_menu),
    {
        !on_main_surface && self.secondary_button_context_menu
    }

    /// The hint a collapse button shows about minimizing the window, if any.
    pub fn minimize_hint(&self, on_main_surface: bool) -> (r: Option<MinimizeHint>)
        ensures
            r == self@.minimize_hint(on_main_surface),
            (on_main_surface || !self@.show_secondary_button_hint) ==> r is None,
            (!self@.secondary_button_context_menu && !self@.secondary_button_on_modifier) ==> r is None,
            (!on_main_surface && self@.show_secondary_button_hint && self@.secondary_button_context_menu
                && self@.secondary_button_on_modifier) ==> r == Some(MinimizeHint::ModifierOrMenu),
            (!on_main_surface && self@.show_secondary_button_hint && self@.secondary_button_context_menu
                && !self@.secondary_button_on_modifier) ==> r == Some(MinimizeHint::Menu),
            (!on_main_surface && self@.show_secondary_button_hint && !self@.secondary_button_context_menu
                && self@.secondary_button_on_modifier) ==> r == Some(MinimizeHint::Modifier),
    {
        if !on_main_surface && self.show_secondary_button_hint
            && (self.secondary_button_context_menu || self.secondary_button_on_modifier) {
            if self.secondary_button_context_menu && self.secondary_button_on_modifier {
                Some(MinimizeHint::ModifierOrMenu)
            } else if self.secondary_button_context_menu {
                Some(MinimizeHint::Menu)
            } else {
                Some(MinimizeHint::Modifier)
            }
        } else {
            None
        }
    }

    /// What a dragged tab may do over its target.
    ///
    /// `target` are the target's drop permissions; the families are those of the
    /// dragged tab's node and of the target; `hovering_surface` is whether the
    /// target is a whole surface; `deserted_node` whether the tab hovers over its
    /// own node and is that node's only tab; `allowed_in_windows` whether the tab
    /// may live in a window.
    pub fn drop_permissions(
        &self,
        target: &AllowedDrops,
        source_family: &Option<String>,
        target_family: &Option<String>,
        hovering_surface: bool,
        deserted_node: bool,
        allowed_in_windows: bool,
    ) -> (r: DropPermissions)
        ensures
            r == self@.drop_permissions(
                *target,
                spec_families_compatible(opt_chars(source_family), opt_chars(target_family)),
                hovering_surface,
                deserted_node,
                allowed_in_windows,
            ),
            r.windows_allowed == (spec_families_compatible(opt_chars(source_family), opt_chars(target_family))
                && allowed_in_windows && target.float),
            r.tabs_allowed == (spec_families_compatible(opt_chars(source_family), opt_chars(target_family))
                && target.tabs),
    {
        let family_ok = families_compatible(source_family, target_family);
        let restricted_splits = if hovering_surface || deserted_node {
            AllowedSplits::NoSplits
        } else {
            AllowedSplits::All
        };
        let node_splits = target.to_allowed_splits();
        let allowed_splits = if family_ok {
            (self.allowed_splits & restricted_splits) & node_splits
        } else {
            AllowedSplits::NoSplits
        };
        let windows_allowed = family_ok && allowed_in_windows && target.float;
        let tabs_allowed = family_ok && target.tabs;
        DropPermissions { allowed_splits, windows_allowed, tabs_allowed }
    }
}

/// A drop is never allowed anything across families, a split is allowed only
/// where the area, the target's permissions and the kind of target all admit
/// it, and a window drop needs the target's float permission.
pub proof fn lemma_drop_permissions_sound(
    v: DockAreaView,
    target: AllowedDrops,
    family_ok: bool,
    hovering_surface: bool,
    deserted_node: bool,
    allowed_in_windows: bool,
    s: crate::allowed_splits::Split,
)
    ensures
        ({
            let p = v.drop_permissions(target, family_ok, hovering_surface, deserted_node, allowed_in_windows);
            &&& !family_ok ==> (p.allowed_splits == AllowedSplits::NoSplits && !p.windows_allowed && !p.tabs_allowed)
            &&& p.allowed_splits.permits(s) == (family_ok && !hovering_surface && !deserted_node
                && v.allowed_splits.permits(s) && target.spec_to_allowed_splits().permits(s))
            &&& p.windows_allowed ==> target.float && allowed_in_windows
            &&& p.tabs_allowed == (family_ok && target.tabs)
        }),
{
}

/// Every way the tab bar can take a tab away from its leaf — dragging it,
/// closing it by its button, its context menu or a middle click, ejecting it —
/// needs the tab to be movable; so the last tab of a leaf that must always keep
/// one, on the main surface, is never taken away, whatever the settings and input.
pub proof fn lemma_tab_removal_requires_movable(
    v: DockAreaView,
    tabs_len: usize,
    on_main_surface: bool,
    always_keep: bool,
    closeable: bool,
    fullscreen_active: bool,
    pointer_dragging: bool,
    middle_clicked: bool,
    lonely_tab: bool,
    allowed_in_windows: bool,
)
    ensures
        ({
            let t = v.tab_interactions(
                tabs_len,
                on_main_surface,
                always_keep,
                closeable,
                fullscreen_active,
                pointer_dragging,
                middle_clicked,
                lonely_tab,
                allowed_in_windows,
            );
            &&& (t.dragged || t.close_button || t.middle_click_close || t.eject) ==> t.movable
            &&& (tabs_len == 1 && on_main_surface && always_keep) ==> !t.movable && !t.dragged
                && !t.close_button && !t.middle_click_close && !t.eject
        }),
{
}

/// A window drop depends on the families, the tab's permission to live in a
/// window and the target's float permission, and on nothing else: in particular
/// not on whether the target is a whole surface or the tab's own deserted node,
/// which only take away splits. A tab-bar drop depends on the families and the
/// target's tab permission alone.
pub proof fn lemma_window_and_tab_drops(
    v: DockAreaView,
    target: AllowedDrops,
    family_ok: bool,
    hovering_surface: bool,
    deserted_node: bool,
    allowed_in_windows: bool,
)
    ensures
        v.drop_permissions(target, family_ok, hovering_surface, deserted_node, allowed_in_windows).windows_allowed
            == (family_ok && allowed_in_windows && target.float),
        v.drop_permissions(target, family_ok, hovering_surface, deserted_node, allowed_in_windows).tabs_allowed
            == (family_ok && target.tabs),
        (family_ok && allowed_in_windows && target.float) ==> v.drop_permissions(
            target,
            family_ok,
            hovering_surface,
            deserted_node,
            allowed_in_windows,
        ).windows_allowed,
        v.drop_permissions(target, family_ok, true, true, allowed_in_windows).windows_allowed
            == v.drop_permissions(target, family_ok, false, false, allowed_in_windows).windows_allowed,
        v.drop_permissions(target, family_ok, false, true, allowed_in_windows).allowed_splits
            == AllowedSplits::NoSplits,
{
}

/// A tab is reported dragged exactly when the pointer drags it, tabs are
/// draggable, and the tab may be moved; with the pointer not dragging, no tab is.
pub proof fn lemma_dragged_needs_pointer(v: DockAreaView, pointer_dragging: bool, tab_movable: bool)
    ensures
        v.tab_being_dragged(pointer_dragging, tab_movable) ==> pointer_dragging,
        v.tab_being_dragged(pointer_dragging, tab_movable) ==> tab_movable && v.draggable_tabs,
        (pointer_dragging && tab_movable && v.draggable_tabs) ==> v.tab_being_dragged(
            pointer_dragging,
            tab_movable,
        ),
        !v.tab_being_dragged(false, tab_movable),
{
}

/// With the pointer not dragging, the tab bar reports no tab of any leaf as dragged.
pub proof fn lemma_no_drag_without_pointer(
    v: DockAreaView,
    tabs_len: usize,
    on_main_surface: bool,
    always_keep: bool,
    closeable: bool,
    fullscreen_active: bool,
    middle_clicked: bool,
    lonely_tab: bool,
    allowed_in_windows: bool,
)
    ensures
        !v.tab_interactions(
            tabs_len,
            on_main_surface,
            always_keep,
            closeable,
            fullscreen_active,
            false,
            middle_clicked,
            lonely_tab,
            allowed_in_windows,
        ).dragged,
{
}

/// A leaf marked to always keep a tab keeps its last tab on the main surface:
/// whatever the settings and the pointer, that tab is not dragged, shows no close
/// button, is not closed by a middle click and is not offered for ejection.
pub proof fn lemma_always_keep_leaf_keeps_last_tab(
    v: DockAreaView,
    pointer_dragging: bool,
    closeable: bool,
    fullscreen_active: bool,
    middle_clicked: bool,
    lonely_tab: bool,
    allowed_in_windows: bool,
)
    ensures
        ({
            let movable = spec_tab_movable(1, true, true);
            &&& !v.tab_being_dragged(pointer_dragging, movable)
            &&& !v.tab_close_button_shown(closeable, movable, fullscreen_active)
            &&& !v.middle_click_closes(closeable, movable, middle_clicked)
            &&& !spec_eject_offered(true, lonely_tab, allowed_in_windows, movable)
        }),
{
}

/// Without any hint setting on, or on the main surface, no minimize hint shows;
/// a hint shows exactly when hints are on and some secondary activation is on.
pub proof fn lemma_minimize_hint_shown(v: DockAreaView, on_main_surface: bool)
    ensures
        v.minimize_hint(on_main_surface) is Some == (!on_main_surface && v.show_secondary_button_hint
            && (v.secondary_button_context_menu || v.secondary_button_on_modifier)),
{
}

} // verus!
