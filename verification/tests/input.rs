use drag_normal::gesture::ModRangeInput;
use drag_normal::input::{Bounds, ModifierSet, Point};

fn keys(shift: bool, control: bool, alt: bool, logo: bool) -> ModifierSet {
    ModifierSet { shift, control, alt, logo }
}

/// Whether holding `held` switches on the fine mode of a control that is
/// configured with the keys `wanted`.
fn matches(held: ModifierSet, wanted: ModifierSet) -> bool {
    let steps = ModRangeInput::new().modifier_keys(wanted).movement(held, 0, 1);
    assert!(steps == 38_500 || steps == 1_925_000);
    steps == 38_500
}

#[test]
fn bounds_contain_their_edges() {
    let b = Bounds { x: 10, y: 20, width: 30, height: 40 };
    assert!(b.contains(Point { x: 10, y: 20 }));
    assert!(b.contains(Point { x: 40, y: 60 }));
    assert!(b.contains(Point { x: 25, y: 35 }));
    assert!(!b.contains(Point { x: 9, y: 35 }));
    assert!(!b.contains(Point { x: 41, y: 35 }));
    assert!(!b.contains(Point { x: 25, y: 19 }));
    assert!(!b.contains(Point { x: 25, y: 61 }));
}

#[test]
fn bounds_at_the_limits_of_the_coordinates() {
    let all = Bounds { x: i32::MIN, y: i32::MIN, width: u32::MAX, height: u32::MAX };
    assert!(all.contains(Point { x: i32::MIN, y: i32::MAX }));
    assert!(all.contains(Point { x: i32::MAX, y: i32::MIN }));
    let far = Bounds { x: i32::MAX, y: i32::MAX, width: u32::MAX, height: u32::MAX };
    assert!(far.contains(Point { x: i32::MAX, y: i32::MAX }));
    assert!(!far.contains(Point { x: i32::MAX - 1, y: i32::MAX }));
    let empty = Bounds { x: 0, y: 0, width: 0, height: 0 };
    assert!(empty.contains(Point { x: 0, y: 0 }));
    assert!(!empty.contains(Point { x: 1, y: 0 }));
    assert!(!empty.contains(Point { x: -1, y: -1 }));
}

#[test]
fn matches_wants_every_key_of_the_target() {
    let control = ModifierSet::control_only();
    assert!(matches(control, control));
    assert!(matches(keys(true, true, false, false), control));
    assert!(matches(keys(true, true, true, true), control));
    assert!(!matches(ModifierSet::none(), control));
    assert!(!matches(keys(true, false, true, true), control));
    assert!(!matches(control, keys(true, true, false, false)));
}

#[test]
fn matches_an_empty_target_always() {
    assert!(matches(ModifierSet::none(), ModifierSet::none()));
    assert!(matches(keys(false, false, true, false), ModifierSet::none()));
}

#[test]
fn matches_each_key_on_its_own() {
    let all = [
        keys(true, false, false, false),
        keys(false, true, false, false),
        keys(false, false, true, false),
        keys(false, false, false, true),
    ];
    for (i, held) in all.iter().enumerate() {
        for (j, wanted) in all.iter().enumerate() {
            assert_eq!(matches(*held, *wanted), i == j);
        }
    }
}

#[test]
fn named_modifier_sets() {
    assert_eq!(ModifierSet::none(), keys(false, false, false, false));
    assert_eq!(ModifierSet::control_only(), keys(false, true, false, false));
}
