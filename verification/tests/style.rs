use drag_normal::style::{TextMarksStyle, TickMarksStyle};

#[test]
fn mark_styles_pair_look_and_placement() {
    let ticks = TickMarksStyle { style: (24u16, 2u16), placement: "center" };
    let copy = ticks.clone();
    assert_eq!(copy.style, (24, 2));
    assert_eq!(copy.placement, "center");
    let text = TextMarksStyle { style: 12u8, placement: (0i32, 7i32) };
    let copy = text.clone();
    assert_eq!(copy.style, 12);
    assert_eq!(copy.placement, (0, 7));
}
