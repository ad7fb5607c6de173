use egui::{pos2, Rect};
use egui_dock::{LeafNode, TabIndex};

fn leaf(tabs: &[&'static str]) -> LeafNode<&'static str> {
    LeafNode::new(tabs.to_vec())
}

#[test]
fn new_leaf_defaults() {
    let l = leaf(&["a", "b"]);
    assert_eq!(l.tabs(), &["a", "b"]);
    assert_eq!(l.active, TabIndex(0));
    assert!(!l.collapsed && !l.hidden);
    assert_eq!(l.id(), None);
    assert!(!l.always_keep());
    assert!(!l.fullscreen_toggle());
    assert_eq!(l.allowed_drops, egui_dock::AllowedDrops::all());
    assert_eq!(l.rect(), Rect::NOTHING);
    assert_eq!(l.viewport, Rect::NOTHING);
    assert_eq!(l.len(), 2);
    assert!(!l.is_empty());
    assert!(leaf(&[]).is_empty());
}

#[test]
fn flags_and_rect() {
    let mut l = leaf(&["a"]);
    l.set_always_keep(true);
    l.set_fullscreen_toggle(true);
    assert!(l.always_keep());
    assert!(l.fullscreen_toggle());
    let r = Rect::from_min_max(pos2(1.0, 2.0), pos2(3.0, 4.0));
    l.set_rect(r);
    assert_eq!(l.rect(), r);
}

#[test]
fn set_active_tab_ignores_out_of_bounds() {
    let mut l = leaf(&["a", "b", "c"]);
    l.set_active_tab(TabIndex(2));
    assert_eq!(l.active, TabIndex(2));
    l.set_active_tab(TabIndex(3));
    assert_eq!(l.active, TabIndex(2));
    l.set_active_tab(1.into());
    assert_eq!(l.active, TabIndex(1));
}

#[test]
fn append_focuses_new_tab() {
    let mut l = leaf(&["a", "b"]);
    l.append_tab("c");
    assert_eq!(l.tabs(), &["a", "b", "c"]);
    assert_eq!(l.active, TabIndex(2));
}

#[test]
fn insert_focuses_new_tab() {
    let mut l = leaf(&["a", "b"]);
    l.insert_tab(TabIndex(1), "x");
    assert_eq!(l.tabs(), &["a", "x", "b"]);
    assert_eq!(l.active, TabIndex(1));
    l.insert_tab(TabIndex(3), "y");
    assert_eq!(l.tabs(), &["a", "x", "b", "y"]);
    assert_eq!(l.active, TabIndex(3));
}

#[test]
fn remove_moves_active_down() {
    let mut l = leaf(&["a", "b", "c"]);
    l.set_active_tab(TabIndex(2));
    assert_eq!(l.remove_tab(TabIndex(0)), Some("a"));
    assert_eq!(l.tabs(), &["b", "c"]);
    assert_eq!(l.active, TabIndex(1));
    // removing the active tab moves it down too
    assert_eq!(l.remove_tab(TabIndex(1)), Some("c"));
    assert_eq!(l.active, TabIndex(0));
    // removing a tab after the active one keeps it
    let mut m = leaf(&["a", "b", "c"]);
    assert_eq!(m.remove_tab(TabIndex(2)), Some("c"));
    assert_eq!(m.active, TabIndex(0));
    // at zero it stays at zero
    assert_eq!(m.remove_tab(TabIndex(0)), Some("a"));
    assert_eq!(m.active, TabIndex(0));
    assert_eq!(m.tabs(), &["b"]);
}

#[test]
fn insert_then_remove_round_trip() {
    let mut l = leaf(&["a", "b", "c"]);
    l.insert_tab(TabIndex(1), "x");
    assert_eq!(l.remove_tab(TabIndex(1)), Some("x"));
    assert_eq!(l.tabs(), &["a", "b", "c"]);
}

#[test]
fn append_then_remove_last_round_trip() {
    let mut l = leaf(&["a", "b"]);
    l.append_tab("z");
    assert_eq!(l.remove_tab(TabIndex(2)), Some("z"));
    assert_eq!(l.tabs(), &["a", "b"]);
}

#[test]
fn active_stays_in_range() {
    let mut l = leaf(&["a", "b", "c"]);
    l.set_active_tab(TabIndex(2));
    l.remove_tab(TabIndex(2));
    assert!(l.active.0 < l.len());
    l.remove_tab(TabIndex(0));
    assert!(l.active.0 < l.len());
    l.remove_tab(TabIndex(0));
    assert_eq!(l.len(), 0);
    assert_eq!(l.active, TabIndex(0));
}

#[test]
fn retain_keeps_order_and_active() {
    let mut l = LeafNode::new(vec![1, 2, 3, 4, 5, 6]);
    l.set_active_tab(TabIndex(5));
    l.retain_tabs(|t: &i32| t % 2 == 0);
    assert_eq!(l.tabs(), &[2, 4, 6]);
    // the active index is not adjusted
    assert_eq!(l.active, TabIndex(5));
    l.retain_tabs(|_: &i32| true);
    assert_eq!(l.tabs(), &[2, 4, 6]);
    l.retain_tabs(|_: &i32| false);
    assert!(l.is_empty());
}

#[test]
fn tabs_mut_edits_in_place() {
    let mut l = LeafNode::new(vec![1, 2, 3]);
    l.set_active_tab(TabIndex(1));
    for t in l.tabs_mut() {
        *t *= 10;
    }
    assert_eq!(l.tabs(), &[10, 20, 30]);
    assert_eq!(l.active, TabIndex(1));
}

#[test]
fn active_focused_gives_viewport_and_tab() {
    let mut l = LeafNode::new(vec![1, 2, 3]);
    let r = Rect::from_min_max(pos2(0.0, 0.0), pos2(5.0, 5.0));
    l.viewport = r;
    l.set_active_tab(TabIndex(2));
    {
        let (area, tab) = l.active_focused().unwrap();
        assert_eq!(area, r);
        assert_eq!(*tab, 3);
        *tab = 7;
    }
    assert_eq!(l.tabs(), &[1, 2, 7]);
    let mut empty: LeafNode<i32> = LeafNode::new(vec![]);
    assert!(empty.active_focused().is_none());
}

fn check_uuid(s: &str) {
    let c: Vec<char> = s.chars().collect();
    assert_eq!(c.len(), 36);
    for i in [8, 13, 18, 23] {
        assert_eq!(c[i], '-');
    }
    assert_eq!(c[14], '4');
}

#[test]
fn get_or_create_id_is_stable() {
    let mut l = leaf(&["a"]);
    assert_eq!(l.id(), None);
    let first = l.get_or_create_id();
    check_uuid(&first);
    assert_eq!(l.id(), Some(first.as_str()));
    let second = l.get_or_create_id();
    assert_eq!(first, second);
    let other = leaf(&["a"]).get_or_create_id();
    assert_ne!(first, other);
}

#[test]
fn get_or_insert_id_keeps_existing() {
    let mut l = leaf(&["a"]);
    assert_eq!(l.get_or_insert_id("node-1".to_string()), "node-1");
    assert_eq!(l.get_or_insert_id("node-2".to_string()), "node-1");
    assert_eq!(l.get_or_create_id(), "node-1");
    assert_eq!(l.id(), Some("node-1"));
}

#[test]
fn family_id_is_stable() {
    let mut l = leaf(&["a"]);
    let f = l.get_or_create_family_id();
    check_uuid(&f);
    assert_eq!(l.get_or_create_family_id(), f);
    let mut m = leaf(&["b"]);
    assert_eq!(m.get_or_insert_family_id("fam".to_string()), "fam");
    assert_eq!(m.get_or_insert_family_id("other".to_string()), "fam");
    assert_eq!(m.get_or_create_family_id(), "fam");
}

#[test]
fn family_id_getter() {
    let mut l = leaf(&["a"]);
    assert_eq!(l.family_id(), None);
    l.get_or_insert_family_id("f".to_string());
    assert_eq!(l.family_id(), Some("f"));
}
