use panes::style::{HALF_BITS, ONE_BITS, THREE_TENTHS_BITS};
use panes::{
    Axis, Child, Element, ElementId, FileDrop, FlexSizing, Hsla, Length, Pane, Position, Size,
    Style,
};

fn overlay() -> Element {
    Element {
        id: Some(ElementId::Name(String::from("drag-target"))),
        style: Style {
            position: Some(Position::Absolute),
            inset: Some(Length::Pixels(0)),
            z_index: Some(1),
            ..Style::plain()
        },
        file_drop: Some(FileDrop { hover_background: Hsla::red() }),
        children: vec![],
    }
}

fn content_layer(handles: &[u64]) -> Element {
    Element {
        id: None,
        style: Style {
            width: Some(Length::Fraction(ONE_BITS)),
            height: Some(Length::Fraction(ONE_BITS)),
            z_index: Some(0),
            ..Style::plain()
        },
        file_drop: None,
        children: handles.iter().map(|h| Child::Content(*h)).collect(),
    }
}

#[test]
fn bit_patterns_are_those_of_the_values() {
    assert_eq!(ONE_BITS, 1.0f32.to_bits());
    assert_eq!(HALF_BITS, 0.5f32.to_bits());
    assert_eq!(THREE_TENTHS_BITS, 0.3f32.to_bits());
    assert_eq!(0u32, 0.0f32.to_bits());
}

#[test]
fn red_is_hue_zero_full_saturation_half_lightness() {
    let red = Hsla::red();
    assert_eq!(f32::from_bits(red.h), 0.0);
    assert_eq!(f32::from_bits(red.s), 1.0);
    assert_eq!(f32::from_bits(red.l), 0.5);
    assert_eq!(f32::from_bits(red.a), 1.0);
}

#[test]
fn placeholder_fill_is_three_tenths_opaque() {
    let fill = Hsla::placeholder();
    assert_eq!(f32::from_bits(fill.h), 0.3);
    assert_eq!(f32::from_bits(fill.s), 0.3);
    assert_eq!(f32::from_bits(fill.l), 0.3);
    assert_eq!(f32::from_bits(fill.a), 1.0);
}

#[test]
fn full_size_is_the_whole_parent_both_ways() {
    assert_eq!(Length::full(), Length::Fraction(1.0f32.to_bits()));
    assert_eq!(Size::full(), Size { width: Length::full(), height: Length::full() });
}

#[test]
fn element_ids_by_name_and_number() {
    assert_eq!(ElementId::name("left"), ElementId::Name(String::from("left")));
    assert_eq!(ElementId::integer(7), ElementId::Integer(7));
    assert_ne!(ElementId::name("left"), ElementId::name("right"));
}

#[test]
fn plain_style_says_nothing() {
    let s = Style::plain();
    assert!(!s.flex);
    assert_eq!(s.axis, Axis::Row);
    assert_eq!(s.sizing, FlexSizing::Unset);
    assert_eq!(s.gap, None);
    assert_eq!(s.width, None);
    assert_eq!(s.height, None);
    assert_eq!(s.background, None);
    assert_eq!(s.position, None);
    assert_eq!(s.inset, None);
    assert_eq!(s.z_index, None);
}

#[test]
fn empty_pane_renders_sized_container_with_empty_content_and_overlay() {
    let size = Size { width: Length::Fraction(ONE_BITS), height: Length::Fraction(ONE_BITS) };
    let element = Pane::new(ElementId::name("left"), size).render();
    assert_eq!(element.id, Some(ElementId::Name(String::from("left"))));
    assert_eq!(
        element.style,
        Style {
            flex: true,
            axis: Axis::Row,
            sizing: FlexSizing::Initial,
            gap: None,
            width: Some(Length::Fraction(ONE_BITS)),
            height: Some(Length::Fraction(ONE_BITS)),
            background: Some(Hsla::placeholder()),
            position: Some(Position::Relative),
            inset: None,
            z_index: None,
        }
    );
    assert_eq!(element.file_drop, None);
    assert_eq!(
        element.children,
        vec![Child::Element(content_layer(&[])), Child::Element(overlay())]
    );
}

#[test]
fn pane_keeps_the_size_it_was_given() {
    let size = Size {
        width: Length::Pixels(240.0f32.to_bits()),
        height: Length::Auto,
    };
    let element = Pane::new(ElementId::integer(3), size).render();
    assert_eq!(element.id, Some(ElementId::Integer(3)));
    assert_eq!(element.style.width, Some(Length::Pixels(240.0f32.to_bits())));
    assert_eq!(element.style.height, Some(Length::Auto));
}

#[test]
fn fill_replaces_the_placeholder() {
    let blue = Hsla {
        h: 0.6f32.to_bits(),
        s: 1.0f32.to_bits(),
        l: 0.5f32.to_bits(),
        a: 1.0f32.to_bits(),
    };
    let element = Pane::new(ElementId::name("p"), Size::full()).fill(blue).render();
    assert_eq!(element.style.background, Some(blue));
    let again = Pane::new(ElementId::name("p"), Size::full())
        .fill(blue)
        .fill(Hsla::red())
        .render();
    assert_eq!(again.style.background, Some(Hsla::red()));
}

#[test]
fn content_is_rendered_in_the_order_it_was_added() {
    let element = Pane::new(ElementId::name("p"), Size::full()).child(11).child(22).render();
    assert_eq!(
        element.children,
        vec![Child::Element(content_layer(&[11, 22])), Child::Element(overlay())]
    );
}

#[test]
fn overlay_is_in_front_for_any_number_of_children() {
    for count in [0usize, 1, 2, 3, 9] {
        let handles: Vec<u64> = (0..count as u64).map(|h| h * 10 + 1).collect();
        let pane = Pane::new(ElementId::name("p"), Size::full()).children(handles.clone());
        assert_eq!(pane.child_count(), count);
        let element = pane.render();
        assert_eq!(element.children.len(), 2);
        assert_eq!(element.children[0], Child::Element(content_layer(&handles)));
        assert_eq!(element.children[1], Child::Element(overlay()));
        let back = match &element.children[0] {
            Child::Element(e) => e.style.z_index,
            Child::Content(_) => None,
        };
        let front = match &element.children[1] {
            Child::Element(e) => e.style.z_index,
            Child::Content(_) => None,
        };
        assert_eq!(back, Some(0));
        assert_eq!(front, Some(1));
    }
}

#[test]
fn children_are_appended_behind_those_already_there() {
    let element = Pane::new(ElementId::name("p"), Size::full())
        .child(1)
        .children(vec![2, 3])
        .children(vec![])
        .child(4)
        .render();
    assert_eq!(element.children[0], Child::Element(content_layer(&[1, 2, 3, 4])));
}

#[test]
fn list_spills_past_two_items_and_keeps_order() {
    let mut pane = Pane::new(ElementId::name("p"), Size::full());
    assert_eq!(pane.children_mut().len(), 0);
    for h in [5u64, 4, 3, 2, 1] {
        pane.children_mut().push(h);
    }
    assert_eq!(pane.children_mut().len(), 5);
    assert_eq!(pane.child_count(), 5);
    let element = pane.render();
    assert_eq!(element.children[0], Child::Element(content_layer(&[5, 4, 3, 2, 1])));
}

#[test]
fn child_count_follows_each_addition() {
    let pane = Pane::new(ElementId::name("p"), Size::full());
    assert_eq!(pane.child_count(), 0);
    let pane = pane.child(8);
    assert_eq!(pane.child_count(), 1);
    let pane = pane.child(8);
    assert_eq!(pane.child_count(), 2);
}

#[test]
fn the_overlay_alone() {
    assert_eq!(panes::pane::drop_overlay(), overlay());
}
