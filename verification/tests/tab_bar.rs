use egui_dock::tab_bar::{forced_closes, tab_bar_position};
use egui_dock::{TabBarPosition, TabIndex};

#[test]
fn position_choice() {
    let tabs = vec![None, Some(TabBarPosition::Left), Some(TabBarPosition::Right)];
    assert_eq!(tab_bar_position(Some(TabBarPosition::Bottom), &tabs, TabBarPosition::Top), TabBarPosition::Bottom);
    assert_eq!(tab_bar_position(None, &tabs, TabBarPosition::Top), TabBarPosition::Left);
    assert_eq!(tab_bar_position(None, &vec![None, None], TabBarPosition::Top), TabBarPosition::Top);
    assert_eq!(tab_bar_position(None, &vec![], TabBarPosition::Right), TabBarPosition::Right);
}

#[test]
fn position_axes() {
    assert!(TabBarPosition::Left.is_vertical());
    assert!(TabBarPosition::Right.is_vertical());
    assert!(!TabBarPosition::Top.is_vertical());
    assert!(TabBarPosition::Top.scroll_bar_first());
    assert!(TabBarPosition::Left.scroll_bar_first());
    assert!(!TabBarPosition::Bottom.scroll_bar_first());
    assert!(!TabBarPosition::Right.scroll_bar_first());
}

#[test]
fn forced_close_list() {
    assert_eq!(forced_closes(&vec![false, true, false, true]), vec![TabIndex(1), TabIndex(3)]);
    assert!(forced_closes(&vec![false, false]).is_empty());
    assert!(forced_closes(&vec![]).is_empty());
}
