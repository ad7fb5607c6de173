use egui_dock::{AllowedDrops, AllowedSplits, Split};

fn drops(left: bool, right: bool, top: bool, bottom: bool) -> AllowedDrops {
    AllowedDrops { left, right, top, bottom, float: true, tabs: true }
}

#[test]
fn all_enables_everything() {
    let d = AllowedDrops::all();
    assert!(d.left && d.right && d.top && d.bottom && d.float && d.tabs);
    assert_eq!(AllowedDrops::default(), AllowedDrops::all());
    assert_eq!(d.to_allowed_splits(), AllowedSplits::All);
}

#[test]
fn to_allowed_splits_by_axis() {
    assert_eq!(drops(true, false, false, false).to_allowed_splits(), AllowedSplits::LeftRightOnly);
    assert_eq!(drops(false, true, false, false).to_allowed_splits(), AllowedSplits::LeftRightOnly);
    assert_eq!(drops(false, false, true, false).to_allowed_splits(), AllowedSplits::TopBottomOnly);
    assert_eq!(drops(false, false, false, true).to_allowed_splits(), AllowedSplits::TopBottomOnly);
    assert_eq!(drops(true, false, false, true).to_allowed_splits(), AllowedSplits::All);
    assert_eq!(drops(false, false, false, false).to_allowed_splits(), AllowedSplits::NoSplits);
}

#[test]
fn split_allowed_reads_the_direction() {
    let d = drops(true, false, false, true);
    assert!(d.split_allowed(Split::Left));
    assert!(!d.split_allowed(Split::Right));
    assert!(!d.split_allowed(Split::Above));
    assert!(d.split_allowed(Split::Below));
}

#[test]
fn split_shape_matches_directions() {
    let all_splits = [Split::Left, Split::Right, Split::Above, Split::Below];
    for bits in 0u8..16 {
        let d = drops(bits & 1 != 0, bits & 2 != 0, bits & 4 != 0, bits & 8 != 0);
        let shape = d.to_allowed_splits();
        for s in all_splits {
            let opposite = match s {
                Split::Left => Split::Right,
                Split::Right => Split::Left,
                Split::Above => Split::Below,
                Split::Below => Split::Above,
            };
            let permits = match (shape, s) {
                (AllowedSplits::All, _) => true,
                (AllowedSplits::LeftRightOnly, Split::Left | Split::Right) => true,
                (AllowedSplits::TopBottomOnly, Split::Above | Split::Below) => true,
                _ => false,
            };
            assert_eq!(permits, d.split_allowed(s) || d.split_allowed(opposite));
        }
    }
}

#[test]
fn intersect_table() {
    let values = [AllowedSplits::All, AllowedSplits::LeftRightOnly, AllowedSplits::TopBottomOnly, AllowedSplits::NoSplits];
    for a in values {
        assert_eq!(AllowedSplits::All.intersect(a), a);
        assert_eq!(a.intersect(AllowedSplits::All), a);
        assert_eq!(AllowedSplits::NoSplits.intersect(a), AllowedSplits::NoSplits);
        assert_eq!(a.intersect(a), a);
        for b in values {
            assert_eq!(a.intersect(b), b.intersect(a));
            for c in values {
                assert_eq!(a.intersect(b).intersect(c), a.intersect(b.intersect(c)));
            }
        }
    }
    assert_eq!(
        AllowedSplits::LeftRightOnly.intersect(AllowedSplits::TopBottomOnly),
        AllowedSplits::NoSplits
    );
    assert_eq!(AllowedSplits::default(), AllowedSplits::All);
}
