use hobo_ext::click::{attach_clicked, is_clicked};
use hobo_ext::{flip_if_offscreen, short_type_name, slide_position, Anchor, Clicked, FontTag, Fraction, Offset, Rect, Side};

fn value(f: Fraction) -> f64 {
    f.num as f64 / f.den as f64
}

fn rect(top: i32, right: i32, bottom: i32, left: i32) -> Rect {
    Rect { top, right, bottom, left }
}

#[test]
fn click_state_follows_mouse_down_and_up() {
    let mut c = attach_clicked(None);
    assert!(!is_clicked(Some(&c)));
    c.mouse_down();
    assert!(is_clicked(Some(&c)));
    assert_eq!(c, Clicked(true));
    c.mouse_up();
    assert!(!is_clicked(Some(&c)));
    assert_eq!(c, Clicked(false));
}

#[test]
fn untracked_element_is_not_clicked() {
    assert!(!is_clicked(None));
}

#[test]
fn attaching_keeps_existing_state() {
    assert_eq!(attach_clicked(Some(Clicked(true))), Clicked(true));
    assert_eq!(attach_clicked(Some(Clicked(false))), Clicked(false));
    assert_eq!(Clicked::new(), Clicked(false));
}

#[test]
fn slide_position_examples() {
    let r = rect(0, 100, 20, 0);
    assert_eq!(value(slide_position(150, &r).unwrap()), 1.0);
    assert_eq!(value(slide_position(-10, &r).unwrap()), 0.0);
    assert_eq!(value(slide_position(50, &r).unwrap()), 0.5);
    assert_eq!(slide_position(50, &r), Some(Fraction { num: 50, den: 100 }));
}

#[test]
fn slide_position_offset_element() {
    let r = rect(0, 300, 20, 200);
    assert_eq!(value(slide_position(225, &r).unwrap()), 0.25);
    assert_eq!(value(slide_position(200, &r).unwrap()), 0.0);
    assert_eq!(value(slide_position(300, &r).unwrap()), 1.0);
}

#[test]
fn slide_position_zero_width() {
    let r = rect(0, 40, 20, 40);
    assert_eq!(slide_position(41, &r), Some(Fraction { num: 1, den: 1 }));
    assert_eq!(slide_position(39, &r), Some(Fraction { num: 0, den: 1 }));
    assert_eq!(slide_position(40, &r), None);
}

#[test]
fn slide_position_extreme_coordinates() {
    let r = rect(0, i32::MAX, 0, i32::MIN);
    assert_eq!(slide_position(i32::MAX, &r).map(value), Some(1.0));
    assert_eq!(slide_position(i32::MIN, &r).map(value), Some(0.0));
}

#[test]
fn rect_width_and_height() {
    let r = rect(10, 110, 60, 30);
    assert_eq!(r.width(), 80);
    assert_eq!(r.height(), 50);
    assert_eq!(rect(i32::MIN, i32::MAX, i32::MAX, i32::MIN).width(), (1i64 << 32) - 1);
}

#[test]
fn flip_top_stays_when_it_fits() {
    let parent = rect(100, 200, 150, 100);
    let own = rect(0, 50, 40, 0);
    let plan = flip_if_offscreen(Some(Offset::Px { side: Side::Top, amount: 8 }), None, &parent, &own, 1000, 1000);
    assert_eq!(plan.style, vec![Anchor { side: Side::Top, extra: 8 }]);
    assert!(!plan.unsupported_vertical);
    assert!(!plan.unsupported_horizontal);
}

#[test]
fn flip_top_to_bottom_past_window_bottom() {
    let parent = rect(100, 200, 150, 100);
    let own = rect(0, 50, 40, 0);
    // 150 + 8 + 40 = 198 > 197
    let plan = flip_if_offscreen(Some(Offset::Px { side: Side::Top, amount: 8 }), None, &parent, &own, 1000, 197);
    assert_eq!(plan.style, vec![Anchor { side: Side::Bottom, extra: 8 }]);
    // exactly at the edge it still fits
    let plan = flip_if_offscreen(Some(Offset::Px { side: Side::Top, amount: 8 }), None, &parent, &own, 1000, 198);
    assert_eq!(plan.style, vec![Anchor { side: Side::Top, extra: 8 }]);
}

#[test]
fn flip_bottom_to_top_past_window_top() {
    let parent = rect(30, 200, 150, 100);
    let own = rect(0, 50, 40, 0);
    // 30 - 8 - 40 < 0
    let plan = flip_if_offscreen(Some(Offset::Px { side: Side::Bottom, amount: 8 }), None, &parent, &own, 1000, 1000);
    assert_eq!(plan.style, vec![Anchor { side: Side::Top, extra: 8 }]);
    let parent = rect(48, 200, 150, 100);
    let plan = flip_if_offscreen(Some(Offset::Px { side: Side::Bottom, amount: 8 }), None, &parent, &own, 1000, 1000);
    assert_eq!(plan.style, vec![Anchor { side: Side::Bottom, extra: 8 }]);
}

#[test]
fn flip_horizontal_uses_negative_spacing() {
    let parent = rect(100, 200, 150, 100);
    let own = rect(0, 50, 40, 0);
    let plan = flip_if_offscreen(None, Some(Offset::Px { side: Side::Left, amount: 36 }), &parent, &own, 1000, 1000);
    assert_eq!(plan.style, vec![Anchor { side: Side::Left, extra: -36 }]);
    // 200 + 36 + 50 = 286 > 285
    let plan = flip_if_offscreen(None, Some(Offset::Px { side: Side::Left, amount: 36 }), &parent, &own, 285, 1000);
    assert_eq!(plan.style, vec![Anchor { side: Side::Right, extra: -36 }]);
    // 100 - 36 - 50 = 14 >= 0
    let plan = flip_if_offscreen(None, Some(Offset::Px { side: Side::Right, amount: 36 }), &parent, &own, 1000, 1000);
    assert_eq!(plan.style, vec![Anchor { side: Side::Right, extra: -36 }]);
    let plan = flip_if_offscreen(None, Some(Offset::Px { side: Side::Right, amount: 60 }), &parent, &own, 1000, 1000);
    assert_eq!(plan.style, vec![Anchor { side: Side::Left, extra: -60 }]);
}

#[test]
fn flip_both_axes_vertical_first() {
    let parent = rect(100, 200, 150, 100);
    let own = rect(0, 50, 40, 0);
    let plan = flip_if_offscreen(
        Some(Offset::Px { side: Side::Top, amount: 8 }),
        Some(Offset::Px { side: Side::Right, amount: 36 }),
        &parent,
        &own,
        1000,
        1000,
    );
    assert_eq!(plan.style, vec![Anchor { side: Side::Top, extra: 8 }, Anchor { side: Side::Right, extra: -36 }]);
}

#[test]
fn flip_skips_unsupported_spacing() {
    let parent = rect(100, 200, 150, 100);
    let own = rect(0, 50, 40, 0);
    let plan = flip_if_offscreen(Some(Offset::Unsupported), Some(Offset::Px { side: Side::Top, amount: 4 }), &parent, &own, 1000, 1000);
    assert!(plan.style.is_empty());
    assert!(plan.unsupported_vertical);
    assert!(plan.unsupported_horizontal);
    let plan = flip_if_offscreen(Some(Offset::Px { side: Side::Left, amount: 4 }), Some(Offset::Px { side: Side::Left, amount: 4 }), &parent, &own, 1000, 1000);
    assert_eq!(plan.style, vec![Anchor { side: Side::Left, extra: -4 }]);
    assert!(plan.unsupported_vertical);
    assert!(!plan.unsupported_horizontal);
}

#[test]
fn flip_without_spacing_sets_nothing() {
    let plan = flip_if_offscreen(None, None, &rect(0, 0, 0, 0), &rect(0, 0, 0, 0), 0, 0);
    assert!(plan.style.is_empty());
    assert!(!plan.unsupported_vertical && !plan.unsupported_horizontal);
}

#[test]
fn short_type_name_takes_last_segment() {
    assert_eq!(short_type_name("hobo_ext::click::Clicked"), "Clicked");
    assert_eq!(short_type_name("Clicked"), "Clicked");
    assert_eq!(short_type_name("a::"), "");
    assert_eq!(short_type_name(""), "");
    assert_eq!(short_type_name("hobo_ext::FontTag"), "FontTag");
    assert_eq!(FontTag, FontTag);
}
