use egui::{pos2, Rect};
use egui_dock::{AllowedDrops, SplitNode};

#[test]
fn split_node_fields() {
    let r = Rect::from_min_max(pos2(0.0, 0.0), pos2(4.0, 2.0));
    let mut s = SplitNode::new(r, true, 2, AllowedDrops::all(), Some("fam".to_string()));
    assert_eq!(s.rect(), r);
    assert!(s.fully_collapsed);
    assert_eq!(s.collapsed_leaf_count, 2);
    assert_eq!(s.family_id(), Some("fam"));
    let r2 = Rect::from_min_max(pos2(1.0, 1.0), pos2(2.0, 2.0));
    s.set_rect(r2);
    assert_eq!(s.rect(), r2);
    let t = SplitNode::new(r, false, 0, AllowedDrops::default(), None);
    assert_eq!(t.family_id(), None);
}
