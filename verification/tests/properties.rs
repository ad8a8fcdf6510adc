use arusti::olan::parser::{combine_contiguous_radii, insert_combining_rolls, invert_figure_elements};
use arusti::{Attitude, Element, ElementType, Figure, OlanError, RollType};

const ALL_MNEMONICS: [&str; 80] = [
    "0", "d", "id", "v", "iv", "z", "iz", "t", "it", "k", "ik", "zt", "izt", "kz", "ikz", "a",
    "m", "o", "io", "qo", "iqo", "dq", "idq", "qq", "iqq", "c", "ic", "rc", "irc", "g", "ig", "p",
    "ip", "rp", "irp", "q", "iq", "rq", "irq", "y", "iy", "ry", "iry", "cc", "rcc", "oo", "icc",
    "ircc", "ioo", "ooo", "b", "pb", "bb", "pbb", "db", "rdb", "h", "dh", "hd", "dhd", "ta",
    "ita", "n", "in", "pn", "ipn", "w", "iw", "gg", "igg", "mm", "zb", "rzb", "bz", "rbz", "zy",
    "oj", "ioj", "mj", "aj",
];

fn is_marker(e: &Element) -> bool {
    matches!(e.elem_type, ElementType::Combining { .. })
}

/// Every catalog mnemonic parses on its own into a figure that starts and
/// ends with a level line and has every combining marker resolved away.
#[test]
fn every_bare_mnemonic_resolves() {
    for mnemonic in ALL_MNEMONICS.iter() {
        let sequence = arusti::olan::parse_sequence(mnemonic.to_string())
            .unwrap_or_else(|e| panic!("mnemonic {} failed: {}", mnemonic, e.describe()));
        assert_eq!(sequence.figures.len(), 1, "mnemonic {}", mnemonic);
        let elements = &sequence.figures[0].elements;
        assert!(!elements.is_empty(), "mnemonic {}", mnemonic);
        let first = &elements[0];
        let last = &elements[elements.len() - 1];
        assert_eq!(first.elem_type, ElementType::Line, "mnemonic {}", mnemonic);
        assert_eq!(first.main_angle, 0, "mnemonic {}", mnemonic);
        assert_eq!(last.elem_type, ElementType::Line, "mnemonic {}", mnemonic);
        assert_eq!(last.main_angle, 0, "mnemonic {}", mnemonic);
        for element in elements.iter() {
            assert!(!is_marker(element), "mnemonic {}", mnemonic);
        }
    }
}

/// Injecting N rolls into a combining slot yields exactly N copies of the
/// slot's base element, each carrying one resolved roll, in input order.
#[test]
fn combining_slot_takes_one_copy_per_roll() {
    let mut elements = vec![
        Element::radius(45),
        Element::combining(0, Element::line(45)),
        Element::radius(-45),
    ];
    let rolls = vec![
        Element {
            aux_angle: 360,
            roll_type: RollType::Standard,
            ..Element::line(0)
        },
        Element {
            aux_angle: -180,
            roll_type: RollType::HesitationQuarters,
            ..Element::line(0)
        },
        Element {
            aux_angle: 90,
            roll_type: RollType::Flick,
            ..Element::line(0)
        },
    ];
    let remainder = insert_combining_rolls(&mut elements, 0, Some(rolls));
    assert!(remainder.is_none());
    let expected = vec![
        Element::radius(45),
        Element {
            aux_angle: 360,
            roll_type: RollType::Standard,
            ..Element::line(45)
        },
        Element {
            aux_angle: -180,
            roll_type: RollType::HesitationQuarters,
            ..Element::line(45)
        },
        Element {
            aux_angle: 90,
            roll_type: RollType::Flick,
            ..Element::line(45)
        },
        Element::radius(-45),
    ];
    assert_eq!(elements, expected);
}

/// With no matching slot the element list is unchanged and the rolls come
/// back to the caller; with a slot and no rolls, the marker collapses to
/// one bare copy of its base element.
#[test]
fn combining_slot_fallbacks() {
    let original = vec![
        Element::radius(45),
        Element::combining(0, Element::line(45)),
        Element::radius(-45),
    ];
    let mut elements = original.clone();
    let rolls = vec![Element {
        aux_angle: 360,
        roll_type: RollType::Standard,
        ..Element::line(0)
    }];
    let remainder = insert_combining_rolls(&mut elements, 1, Some(rolls.clone()));
    assert_eq!(elements, original);
    assert_eq!(remainder, Some(rolls));

    let remainder = insert_combining_rolls(&mut elements, 0, None);
    assert!(remainder.is_none());
    let expected = vec![Element::radius(45), Element::line(45), Element::radius(-45)];
    assert_eq!(elements, expected);
}

/// Radius-merge is idempotent: applying it twice equals applying it once.
#[test]
fn radius_merge_is_idempotent() {
    let mut figure = Figure {
        elements: vec![
            Element::line(0),
            Element::radius(170),
            Element::invradius(20),
            Element::invradius(170),
            Element::radius(-45),
            Element {
                matching: -1,
                ..Element::radius(-45)
            },
            Element::line(0),
        ],
    };
    combine_contiguous_radii(&mut figure);
    let once = figure.elements.clone();
    combine_contiguous_radii(&mut figure);
    assert_eq!(figure.elements, once);

    let expected = vec![
        Element::line(0),
        Element::radius(360),
        Element::radius(-45),
        Element {
            matching: -1,
            ..Element::radius(-45)
        },
        Element::line(0),
    ];
    assert_eq!(once, expected);
}

/// Figure inversion is involutive: inverting the same range twice restores
/// every sign and attitude.
#[test]
fn figure_inversion_is_involutive() {
    let original = vec![
        Element::radius(45),
        Element {
            matching: -2,
            ..Element::radius(-135)
        },
        Element::line(45),
        Element::line(90),
        Element::invline(-45),
        Element {
            main_angle: 180,
            ..Element::new(ElementType::Turn)
        },
        Element::stall(180, 0),
    ];
    let mut elements = original.clone();
    invert_figure_elements(&mut elements, 0);
    // invertible radii change sign, non-vertical lines and turns flip
    assert_eq!(elements[0], Element::radius(-45));
    assert_eq!(
        elements[1],
        Element {
            matching: -2,
            ..Element::radius(-135)
        }
    );
    assert_eq!(elements[2], Element::invline(45));
    assert_eq!(elements[3], Element::line(90));
    assert_eq!(elements[4], Element::line(-45));
    assert_eq!(elements[6], Element::stall(180, 0));
    invert_figure_elements(&mut elements, 0);
    assert_eq!(elements, original);

    // inverting only a suffix leaves the prefix untouched
    let mut suffix_inverted = original.clone();
    invert_figure_elements(&mut suffix_inverted, 4);
    assert_eq!(suffix_inverted[0], original[0]);
    assert_eq!(suffix_inverted[4], Element::line(-45));
    invert_figure_elements(&mut suffix_inverted, 4);
    assert_eq!(suffix_inverted, original);
}

/// Text outside the grammar is a syntax error.
#[test]
fn unknown_letter_is_syntax_error() {
    assert_eq!(
        arusti::olan::parse_sequence("x".to_string()).unwrap_err(),
        OlanError::Syntax
    );
    assert_eq!(
        arusti::olan::parse_sequence("o#".to_string()).unwrap_err(),
        OlanError::Syntax
    );
}

/// A roll digit that the notation tables reject is a defect, not a syntax
/// error: the grammar accepts the digit but no table row matches it.
#[test]
fn roll_outside_tables_is_defect() {
    assert_eq!(
        arusti::olan::parse_sequence("8".to_string()).unwrap_err(),
        OlanError::Defect
    );
}

/// An empty string is a valid sequence of no figures.
#[test]
fn empty_sequence() {
    let sequence = arusti::olan::parse_sequence("".to_string()).unwrap();
    assert_eq!(sequence.figures.len(), 0);
    let sequence = arusti::olan::parse_sequence("  [0,20] 2>  ".to_string()).unwrap();
    assert_eq!(sequence.figures.len(), 0);
}

/// A half roll on a level line leaves the aircraft inverted; with no
/// invertible radius in the figure, the exit reconciliation range
/// degenerates to empty and the notated upright exit is left mismatched.
#[test]
fn exit_mismatch_without_invertible_radius_is_left_standing() {
    let sequence = arusti::olan::parse_sequence("2".to_string()).unwrap();
    let expected = vec![
        Element::line(0),
        Element {
            aux_angle: 180,
            roll_type: RollType::Standard,
            ..Element::line(0)
        },
        // the trailing transition stays upright although the roll ended
        // inverted
        Element::line(0),
    ];
    assert_eq!(sequence.figures[0].elements, expected);
}

/// Roll angle tables: digit five spells a one-and-a-quarter roll, and an
/// eighths hesitation of two spells a quarter roll.
#[test]
fn roll_angle_tables() {
    let sequence = arusti::olan::parse_sequence("5".to_string()).unwrap();
    assert_eq!(sequence.figures[0].elements[1].aux_angle, 450);
    assert_eq!(
        sequence.figures[0].elements[1].roll_type,
        RollType::Standard
    );

    let sequence = arusti::olan::parse_sequence("28".to_string()).unwrap();
    assert_eq!(sequence.figures[0].elements[1].aux_angle, 90);
    assert_eq!(
        sequence.figures[0].elements[1].roll_type,
        RollType::HesitationEighths
    );

    let sequence = arusti::olan::parse_sequence("9".to_string()).unwrap();
    assert_eq!(sequence.figures[0].elements[1].aux_angle, 720);

    let sequence = arusti::olan::parse_sequence("34".to_string()).unwrap();
    assert_eq!(sequence.figures[0].elements[1].aux_angle, 270);
    assert_eq!(
        sequence.figures[0].elements[1].roll_type,
        RollType::HesitationQuarters
    );
}

/// An alternating rolling turn splits into per-roll segments of
/// alternating direction; `jo` rolls outward on a single element.
#[test]
fn rolling_turn_variants() {
    let sequence = arusti::olan::parse_sequence("2jio2".to_string()).unwrap();
    let expected = vec![
        Element::line(0),
        Element {
            main_angle: 90,
            aux_angle: 360,
            ..Element::new(ElementType::Turn)
        },
        Element {
            main_angle: 90,
            aux_angle: -360,
            ..Element::new(ElementType::Turn)
        },
        Element::line(0),
    ];
    assert_eq!(sequence.figures[0].elements, expected);

    let sequence = arusti::olan::parse_sequence("jo1".to_string()).unwrap();
    let expected = vec![
        Element::line(0),
        Element {
            main_angle: 90,
            aux_angle: -360,
            ..Element::new(ElementType::Turn)
        },
        Element::line(0),
    ];
    assert_eq!(sequence.figures[0].elements, expected);
}

/// An inner roll set in parentheses feeds the figure's inner combining
/// slot.
#[test]
fn inner_roll_set_feeds_inner_slot() {
    let sequence = arusti::olan::parse_sequence("bb(2)".to_string()).unwrap();
    let expected = vec![
        Element::line(0),
        Element::radius(90),
        Element::line(90),
        Element::radius(180),
        Element::line(-90),
        Element {
            aux_angle: 180,
            roll_type: RollType::Standard,
            ..Element::line(-90)
        },
        Element::line(-90),
        Element::radius(180),
        Element::line(90),
        Element::radius(-90),
        Element::line(0),
    ];
    assert_eq!(sequence.figures[0].elements, expected);
}

/// Attitude constructors agree with the inversion flip.
#[test]
fn attitude_flip() {
    assert_eq!(Attitude::get_inverted(Attitude::Normal), Attitude::Inverted);
    assert_eq!(Attitude::get_inverted(Attitude::Inverted), Attitude::Normal);
    assert_eq!(
        Attitude::get_inverted(Attitude::KnifeEdge),
        Attitude::KnifeEdge
    );
}

/// Malformed figure text is rejected as a syntax error.
#[test]
fn malformed_figures_are_syntax_errors() {
    // an inner roll set without a figure to attach to
    assert_eq!(
        arusti::olan::parse_sequence("(2)".to_string()).unwrap_err(),
        OlanError::Syntax
    );
    // an unclosed inner roll set
    assert_eq!(
        arusti::olan::parse_sequence("b(2".to_string()).unwrap_err(),
        OlanError::Syntax
    );
    // a rolling turn with an unknown roll count
    assert_eq!(
        arusti::olan::parse_sequence("2j5".to_string()).unwrap_err(),
        OlanError::Syntax
    );
    // a turn-angle multiplier outside the notation
    assert_eq!(
        arusti::olan::parse_sequence("5j".to_string()).unwrap_err(),
        OlanError::Syntax
    );
    // an inversion dash inside a figure body
    assert_eq!(
        arusti::olan::parse_sequence("o-o".to_string()).unwrap_err(),
        OlanError::Syntax
    );
    // text outside ASCII never matches the grammar
    assert_eq!(
        arusti::olan::parse_sequence("\u{f6}".to_string()).unwrap_err(),
        OlanError::Syntax
    );
}

/// Figures and sequences grow by push and append.
#[test]
fn figure_and_sequence_containers() {
    let mut figure = arusti::Figure::new();
    figure.push(Element::line(0));
    figure.append(vec![Element::radius(90), Element::line(90)]);
    assert_eq!(
        figure.elements,
        vec![Element::line(0), Element::radius(90), Element::line(90)]
    );

    let mut sequence = arusti::Sequence::new();
    sequence.push(figure);
    let mut other = arusti::Figure::new();
    other.push(Element::keline(0));
    sequence.append(vec![other]);
    assert_eq!(sequence.figures.len(), 2);
    assert_eq!(sequence.figures[1].elements, vec![Element::keline(0)]);
}

/// A flick or spin keyword directly after an angle digit is that roll's
/// subtype: `2f` is a single half flick, not two rolls.
#[test]
fn flick_subtype_roll() {
    let sequence = arusti::olan::parse_sequence("2f".to_string()).unwrap();
    let expected = vec![
        Element::line(0),
        Element {
            aux_angle: 180,
            roll_type: RollType::Flick,
            ..Element::line(0)
        },
        Element::line(0),
    ];
    assert_eq!(sequence.figures[0].elements, expected);
}

/// Two roll tokens of one set need a separator between them.
#[test]
fn adjacent_rolls_need_a_separator() {
    assert_eq!(
        arusti::olan::parse_sequence("11".to_string()).unwrap_err(),
        OlanError::Syntax
    );
    // with a separator the rolls are accepted; two identical adjacent
    // roll lines then collapse into one in the dedup pass
    let sequence = arusti::olan::parse_sequence("1;1".to_string()).unwrap();
    assert_eq!(sequence.figures[0].elements.len(), 3);
    // a direction swap keeps the two rolls distinct
    let sequence = arusti::olan::parse_sequence("1,1".to_string()).unwrap();
    let expected = vec![
        Element::line(0),
        Element {
            aux_angle: 360,
            roll_type: RollType::Standard,
            ..Element::line(0)
        },
        Element {
            aux_angle: -360,
            roll_type: RollType::Standard,
            ..Element::line(0)
        },
        Element::line(0),
    ];
    assert_eq!(sequence.figures[0].elements, expected);
}
