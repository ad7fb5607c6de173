use egui::{pos2, Id, Rect};
use egui_dock::dock_area::{
    apply_close_response, apply_queued_removal, collapse_update, dropped_tab_moves, in_processing_order,
    DropDestination, drag_target_valid, eject_offered, tab_shown_active,
    CloseOutcome, OnCloseResponse, families_compatible, first_open_leaf, restore_destination,
    restore_insert_position, tab_movable, CollapseUpdate, MinimizeHint,
};
use egui_dock::{
    AllowedDrops, AllowedSplits, DockArea, LeafNode, ModifierKeys, NodeIndex, TabIndex, TabInsert,
};

const CTRL: ModifierKeys =
    ModifierKeys { alt: false, ctrl: true, shift: false, mac_cmd: false, command: true };

#[test]
fn new_has_documented_defaults() {
    let d = DockArea::new();
    assert_eq!(d.get_id(), Id::new("egui_dock::DockArea"));
    assert_eq!(
        d.get_secondary_button_modifiers(),
        ModifierKeys { alt: false, ctrl: false, shift: true, mac_cmd: false, command: false }
    );
    assert_eq!(d.get_secondary_button_modifiers(), ModifierKeys::shift());
    assert!(!d.add_popup_shown());
    assert!(!d.add_buttons_shown());
    assert!(d.context_menus_shown());
    assert!(!d.tab_name_shown_on_hover());
    assert!(d.leaf_close_all_buttons_shown());
    assert!(d.window_close_buttons_shown());
    assert!(d.window_collapse_buttons_shown());
    assert_eq!(d.get_window_bounds(), None);
    // close buttons, draggable tabs and collapse buttons are on
    assert!(d.tab_close_button_shown(true, true, false));
    assert!(d.tab_being_dragged(true, true));
    assert!(d.collapse_button_shown(true));
    // secondary buttons: modifier and menu both on, hint shown
    assert_eq!(d.minimize_hint(false), Some(MinimizeHint::ModifierOrMenu));
    assert!(d.is_on_secondary_button(false, true, true));
    // every split allowed
    let p = d.drop_permissions(&AllowedDrops::all(), &None, &None, false, false, true);
    assert_eq!(p.allowed_splits, AllowedSplits::All);
}

#[test]
fn builder_sets_each_setting() {
    let r = Rect::from_min_max(pos2(0.0, 0.0), pos2(10.0, 10.0));
    let d = DockArea::new()
        .id(Id::new("mine"))
        .show_add_popup(true)
        .show_add_buttons(true)
        .show_close_buttons(false)
        .tab_context_menus(false)
        .draggable_tabs(false)
        .show_tab_name_on_hover(true)
        .allowed_splits(AllowedSplits::TopBottomOnly)
        .show_secondary_button_hint(false)
        .secondary_button_modifiers(CTRL)
        .secondary_button_on_modifier(false)
        .secondary_button_context_menu(false)
        .window_bounds(r)
        .show_window_close_buttons(false)
        .show_window_collapse_buttons(false)
        .show_leaf_close_all_buttons(false)
        .show_leaf_collapse_buttons(false);
    assert_eq!(d.get_id(), Id::new("mine"));
    assert!(d.add_popup_shown());
    assert!(d.add_buttons_shown());
    assert!(!d.context_menus_shown());
    assert!(d.tab_name_shown_on_hover());
    assert_eq!(d.get_secondary_button_modifiers(), CTRL);
    assert_eq!(d.get_window_bounds(), Some(r));
    assert!(!d.window_close_buttons_shown());
    assert!(!d.window_collapse_buttons_shown());
    assert!(!d.leaf_close_all_buttons_shown());
    assert!(!d.tab_close_button_shown(true, true, false));
    assert!(!d.tab_being_dragged(true, true));
    assert!(!d.collapse_button_shown(true));
    assert!(!d.middle_click_closes(true, true, true));
    assert_eq!(d.minimize_hint(false), None);
    assert!(!d.is_on_secondary_button(false, true, true));
    assert!(!d.minimize_menu_offered(false));
    let p = d.drop_permissions(&AllowedDrops::all(), &None, &None, false, false, true);
    assert_eq!(p.allowed_splits, AllowedSplits::TopBottomOnly);
}

#[test]
fn last_tab_of_kept_main_leaf_is_pinned() {
    assert!(!tab_movable(1, true, true));
    assert!(tab_movable(1, false, true));
    assert!(tab_movable(1, true, false));
    assert!(tab_movable(2, true, true));
    let d = DockArea::new();
    assert!(!d.tab_being_dragged(true, tab_movable(1, true, true)));
    assert!(!d.tab_close_button_shown(true, tab_movable(1, true, true), false));
    assert!(!d.middle_click_closes(true, tab_movable(1, true, true), true));
    assert!(!eject_offered(true, false, true, tab_movable(1, true, true)));
    // the same tab in a window, or in a leaf that need not keep it, can go
    assert!(d.middle_click_closes(true, tab_movable(1, false, true), true));
    assert!(eject_offered(true, false, true, tab_movable(1, true, false)));
}

#[test]
fn close_button_hidden_in_fullscreen() {
    let d = DockArea::new();
    assert!(!d.tab_close_button_shown(true, true, true));
    assert!(!d.tab_close_button_shown(false, true, false));
    assert!(d.middle_click_closes(true, true, true));
    assert!(!d.middle_click_closes(false, true, true));
    assert!(!d.middle_click_closes(true, true, false));
}

#[test]
fn eject_rules() {
    assert!(eject_offered(true, true, true, true));
    assert!(eject_offered(false, false, true, true));
    assert!(!eject_offered(false, true, true, true));
    assert!(!eject_offered(true, false, false, true));
    assert!(!eject_offered(true, false, true, false));
}

#[test]
fn secondary_button_needs_window_surface() {
    let d = DockArea::new();
    assert!(!d.is_on_secondary_button(true, true, true));
    assert!(!d.is_on_secondary_button(false, false, true));
    assert!(!d.is_on_secondary_button(false, true, false));
    assert_eq!(d.minimize_hint(true), None);
    assert!(d.minimize_menu_offered(false));
    assert!(!d.minimize_menu_offered(true));
}

#[test]
fn minimize_hint_variants() {
    let only_menu = DockArea::new().secondary_button_on_modifier(false);
    assert_eq!(only_menu.minimize_hint(false), Some(MinimizeHint::Menu));
    let only_modifier = DockArea::new().secondary_button_context_menu(false);
    assert_eq!(only_modifier.minimize_hint(false), Some(MinimizeHint::Modifier));
    let neither = DockArea::new()
        .secondary_button_context_menu(false)
        .secondary_button_on_modifier(false);
    assert_eq!(neither.minimize_hint(false), None);
}

#[test]
fn families() {
    let a = Some("a".to_string());
    let b = Some("b".to_string());
    assert!(families_compatible(&a, &a.clone()));
    assert!(!families_compatible(&a, &b));
    assert!(families_compatible(&a, &None));
    assert!(families_compatible(&None, &b));
}

#[test]
fn drop_permissions_rules() {
    let d = DockArea::new();
    let a = Some("a".to_string());
    let b = Some("b".to_string());
    // across families nothing is allowed
    let p = d.drop_permissions(&AllowedDrops::all(), &a, &b, false, false, true);
    assert_eq!(p.allowed_splits, AllowedSplits::NoSplits);
    assert!(!p.windows_allowed && !p.tabs_allowed);
    // over a surface or a deserted node, no split
    let p = d.drop_permissions(&AllowedDrops::all(), &a, &a, true, false, true);
    assert_eq!(p.allowed_splits, AllowedSplits::NoSplits);
    assert!(p.windows_allowed && p.tabs_allowed);
    let p = d.drop_permissions(&AllowedDrops::all(), &None, &a, false, true, true);
    assert_eq!(p.allowed_splits, AllowedSplits::NoSplits);
    // target permissions narrow the splits
    let target = AllowedDrops { left: false, right: true, top: false, bottom: false, float: false, tabs: false };
    let p = d.drop_permissions(&target, &None, &None, false, false, true);
    assert_eq!(p.allowed_splits, AllowedSplits::LeftRightOnly);
    assert!(!p.windows_allowed && !p.tabs_allowed);
    // the area's setting narrows them too
    let d2 = DockArea::new().allowed_splits(AllowedSplits::TopBottomOnly);
    let p = d2.drop_permissions(&target, &None, &None, false, false, true);
    assert_eq!(p.allowed_splits, AllowedSplits::NoSplits);
    // a tab not allowed in windows cannot float
    let p = d.drop_permissions(&AllowedDrops::all(), &None, &None, false, false, false);
    assert!(!p.windows_allowed);
}

#[test]
fn restore_insert_rules() {
    assert_eq!(restore_insert_position(Some(2), 3), TabInsert::Insert(TabIndex(2)));
    assert_eq!(restore_insert_position(Some(3), 3), TabInsert::Insert(TabIndex(3)));
    assert_eq!(restore_insert_position(Some(4), 3), TabInsert::Append);
    assert_eq!(restore_insert_position(None, 3), TabInsert::Append);
}

#[test]
fn restore_destination_rules() {
    let (n1, n2, n3) = (NodeIndex(1), NodeIndex(2), NodeIndex(3));
    assert_eq!(restore_destination(Some(n1), Some(n2), Some(n3)), n1);
    assert_eq!(restore_destination(None, Some(n2), Some(n3)), n2);
    assert_eq!(restore_destination(None, None, Some(n3)), n3);
    assert_eq!(restore_destination(None, None, None), NodeIndex::root());
    assert_eq!(NodeIndex::root(), NodeIndex(0));
}

#[test]
fn first_open_leaf_skips_hidden_collapsed_and_splits() {
    let mut hidden = LeafNode::new(vec![1]);
    hidden.hidden = true;
    let mut collapsed = LeafNode::new(vec![2]);
    collapsed.collapsed = true;
    let open = LeafNode::new(vec![3]);
    let open2 = LeafNode::new(vec![4]);
    let nodes = vec![
        (NodeIndex(0), None),
        (NodeIndex(1), Some(&hidden)),
        (NodeIndex(2), Some(&collapsed)),
        (NodeIndex(3), Some(&open)),
        (NodeIndex(4), Some(&open2)),
    ];
    assert_eq!(first_open_leaf(&nodes), Some(NodeIndex(3)));
    assert_eq!(first_open_leaf(&nodes[..3]), None);
    let none: Vec<(NodeIndex, Option<&LeafNode<i32>>)> = vec![];
    assert_eq!(first_open_leaf(&none), None);
}

#[test]
fn collapse_update_rules() {
    assert_eq!(collapse_update(false, false), CollapseUpdate::MarkNew);
    assert_eq!(collapse_update(false, true), CollapseUpdate::MarkNew);
    assert_eq!(collapse_update(true, true), CollapseUpdate::RecordExpandedHeight);
    assert_eq!(collapse_update(true, false), CollapseUpdate::Unchanged);
}

#[test]
fn close_responses() {
    let mut l = LeafNode::new(vec!["a", "b", "c"]);
    assert_eq!(apply_close_response(&mut l, TabIndex(2), OnCloseResponse::Close), CloseOutcome::Remove);
    assert_eq!(l.active, TabIndex(0));
    assert_eq!(apply_close_response(&mut l, TabIndex(2), OnCloseResponse::Ignore), CloseOutcome::Kept);
    assert_eq!(l.active, TabIndex(0));
    assert_eq!(apply_close_response(&mut l, TabIndex(2), OnCloseResponse::Focus), CloseOutcome::Focused);
    assert_eq!(l.active, TabIndex(2));
    assert_eq!(l.tabs(), &["a", "b", "c"]);
}

#[test]
fn active_and_drag_target() {
    assert!(tab_shown_active(TabIndex(1), TabIndex(1), false));
    assert!(!tab_shown_active(TabIndex(1), TabIndex(2), false));
    assert!(tab_shown_active(TabIndex(1), TabIndex(2), true));
    assert!(drag_target_valid(true, false));
    assert!(drag_target_valid(false, true));
    assert!(!drag_target_valid(false, false));
}

#[test]
fn dropped_tab_moves_rules() {
    assert!(dropped_tab_moves(DropDestination::Node, Some(true)));
    assert!(!dropped_tab_moves(DropDestination::Node, Some(false)));
    assert!(dropped_tab_moves(DropDestination::Node, None));
    assert!(dropped_tab_moves(DropDestination::Window, Some(false)));
    assert!(!dropped_tab_moves(DropDestination::EmptySurface, Some(true)));
}

#[test]
fn queue_is_processed_last_first() {
    assert_eq!(in_processing_order(&vec![1, 2, 3]), vec![3, 2, 1]);
    let empty: Vec<u8> = vec![];
    assert!(in_processing_order(&empty).is_empty());
}

#[test]
fn queued_removals() {
    let mut l = LeafNode::new(vec!["a", "b"]);
    assert_eq!(apply_queued_removal(&mut l, TabIndex(1), true, Some(OnCloseResponse::Ignore)), CloseOutcome::Remove);
    assert_eq!(apply_queued_removal(&mut l, TabIndex(1), false, None), CloseOutcome::Kept);
    assert_eq!(apply_queued_removal(&mut l, TabIndex(1), false, Some(OnCloseResponse::Close)), CloseOutcome::Remove);
    assert_eq!(l.active, TabIndex(0));
    assert_eq!(apply_queued_removal(&mut l, TabIndex(1), false, Some(OnCloseResponse::Focus)), CloseOutcome::Focused);
    assert_eq!(l.active, TabIndex(1));
}

#[test]
fn tab_interactions_of_pinned_and_free_tabs() {
    let d = DockArea::new();
    let pinned = d.tab_interactions(1, true, true, true, false, true, true, false, true);
    assert!(!pinned.movable && !pinned.dragged && !pinned.close_button);
    assert!(!pinned.middle_click_close && !pinned.eject);
    let free = d.tab_interactions(2, true, true, true, false, true, true, false, true);
    assert!(free.movable && free.dragged && free.close_button && free.middle_click_close && free.eject);
}

#[test]
fn bitand_is_intersection() {
    assert_eq!(AllowedSplits::All & AllowedSplits::LeftRightOnly, AllowedSplits::LeftRightOnly);
    assert_eq!(AllowedSplits::TopBottomOnly & AllowedSplits::LeftRightOnly, AllowedSplits::NoSplits);
}
