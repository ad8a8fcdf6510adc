use arusti::{Element, ElementType};

fn parsed_elements(text: &str) -> Vec<Element> {
    let sequence = arusti::olan::parse_sequence(text.to_string()).unwrap();
    assert_eq!(sequence.figures.len(), 1);
    sequence.figures[0].elements.clone()
}

/// A double loop keeps its two opposite-signed loops apart: opposite signs
/// break the radius-merge run.
#[test]
fn double_loop_plain() {
    assert_eq!(
        parsed_elements("oo"),
        vec![
            Element::line(0),
            Element::radius(180),
            Element::radius(-360),
            Element::radius(180),
            Element::line(0),
        ]
    );
    assert_eq!(
        parsed_elements("ooo"),
        vec![
            Element::line(0),
            Element::radius(360),
            Element::radius(-360),
            Element::line(0),
        ]
    );
}

/// A tail slide carries its pitch reversal in the stall's auxiliary angle.
#[test]
fn tailslide_stall() {
    assert_eq!(
        parsed_elements("ta"),
        vec![
            Element::line(0),
            Element::radius(90),
            Element::line(90),
            Element::stall(0, -180),
            Element::line(-90),
            Element::radius(90),
            Element::line(0),
        ]
    );
}

/// A half loop from upright ends inverted; the exit reconciliation steps
/// back to the loop radius and inverts it so that the notated upright exit
/// holds.
#[test]
fn half_loop_exit_reconciliation() {
    assert_eq!(
        parsed_elements("a"),
        vec![Element::line(0), Element::radius(180), Element::line(0)]
    );
}

/// A half loop entered inverted is inverted whole: its pull becomes a push
/// and the exit comes out upright.
#[test]
fn half_loop_with_inverted_entry() {
    assert_eq!(
        parsed_elements("-m"),
        vec![Element::invline(0), Element::radius(-180), Element::line(0)]
    );
}

/// A twin line figure is a pure catalog shape: no slots, no rolls.
#[test]
fn twin_line_plain() {
    assert_eq!(
        parsed_elements("it"),
        vec![
            Element::line(0),
            Element::radius(-45),
            Element::line(-45),
            Element::radius(135),
            Element::line(90),
            Element::radius(-90),
            Element::line(0),
        ]
    );
}

/// The element kinds of a resolved hammerhead: the stall is a Stall
/// element, everything else lines and radii.
#[test]
fn hammerhead_element_kinds() {
    let elements = parsed_elements("h");
    let kinds: Vec<ElementType> = elements.iter().map(|e| e.elem_type).collect();
    assert_eq!(
        kinds,
        vec![
            ElementType::Line,
            ElementType::Radius,
            ElementType::Line,
            ElementType::Stall,
            ElementType::Line,
            ElementType::Radius,
            ElementType::Line,
        ]
    );
}
