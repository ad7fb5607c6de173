use egui_dock::layout::{separator_interactive, split_border, SplitBorder};

#[test]
fn border_rules() {
    assert_eq!(split_border(true, true, false), SplitBorder::BelowFirstTabBars);
    assert_eq!(split_border(true, true, true), SplitBorder::BelowFirstTabBars);
    assert_eq!(split_border(true, false, true), SplitBorder::AboveSecondTabBars);
    assert_eq!(split_border(true, false, false), SplitBorder::AtFraction);
    assert_eq!(split_border(false, true, true), SplitBorder::AtFraction);
}

#[test]
fn separator_rules() {
    for bits in 0u8..8 {
        let (v, a, b) = (bits & 1 != 0, bits & 2 != 0, bits & 4 != 0);
        assert_eq!(separator_interactive(v, a, b), split_border(v, a, b) == SplitBorder::AtFraction);
    }
    assert!(!separator_interactive(true, false, true));
    assert!(separator_interactive(false, true, false));
}
