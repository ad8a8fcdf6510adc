//! Semantic resolution of OLAN figures: roll-set resolution, combining-slot
//! splicing, the attitude/inversion state machine, entry/exit
//! reconciliation, and the post-processing passes.

use vstd::prelude::*;

use vstd::arithmetic::div_mod::lemma_mod_multiples_vanish;

use crate::olan::figure_defs;
use crate::olan::figure_defs::Mnemonic;
use crate::olan::syntax::{
    opt_tokens_view, FigureBody, FigureBodyView, FigureNode, FigureNodeView, NamedFigureNode,
    RollKind, RollToken,
};
use crate::types::{
    Attitude, CombinableElementType, Element, ElementType, Figure, OlanError, RollType, Sequence,
};

verus! {

// ------------------------------------------------------------------
// Roll-set resolution
// ------------------------------------------------------------------

/// Signed degree magnitude for an angle digit of a roll of the given kind,
/// following the fixed notation tables; `None` for a pair outside the
/// tables, which marks a defect.
pub open spec fn roll_degrees(digit: u8, kind: RollKind) -> Option<i16> {
    match kind {
        RollKind::Halves => match digit {
            2u8 => Some(360i16),
            3u8 => Some(540i16),
            4u8 => Some(720i16),
            _ => None,
        },
        RollKind::Quarters => match digit {
            2u8 => Some(180i16),
            3u8 => Some(270i16),
            4u8 => Some(360i16),
            5u8 => Some(450i16),
            6u8 => Some(540i16),
            7u8 => Some(630i16),
            8u8 => Some(720i16),
            _ => None,
        },
        RollKind::Eighths => match digit {
            2u8 => Some(90i16),
            4u8 => Some(180i16),
            6u8 => Some(270i16),
            8u8 => Some(360i16),
            _ => None,
        },
        _ => match digit {
            1u8 => Some(360i16),
            2u8 => Some(180i16),
            3u8 => Some(270i16),
            4u8 => Some(90i16),
            5u8 => Some(450i16),
            6u8 => Some(540i16),
            7u8 => Some(630i16),
            9u8 => Some(720i16),
            _ => None,
        },
    }
}

/// The element roll type that a spelled roll kind resolves to.
pub open spec fn roll_type_of(kind: RollKind) -> RollType {
    match kind {
        RollKind::Plain => RollType::Standard,
        RollKind::Halves => RollType::HesitationHalves,
        RollKind::Quarters => RollType::HesitationQuarters,
        RollKind::Eighths => RollType::HesitationEighths,
        RollKind::Flick => RollType::Flick,
        RollKind::InvertedFlick => RollType::InvertedFlick,
        RollKind::Spin => RollType::Spin,
        RollKind::InvertedSpin => RollType::InvertedSpin,
    }
}

/// The line-typed element that one roll token resolves to; its sign is
/// negated while a direction swap is in force.
pub open spec fn spec_roll_element(digit: u8, kind: RollKind, reverse: bool) -> Result<
    Element,
    OlanError,
> {
    match roll_degrees(digit, kind) {
        None => Err(OlanError::Defect),
        Some(deg) => Ok(
            Element {
                aux_angle: if reverse {
                    (-(deg as int)) as i16
                } else {
                    deg
                },
                roll_type: roll_type_of(kind),
                ..Element::line(0i16)
            },
        ),
    }
}

/// Resolves one roll token; a digit/kind pair outside the notation tables
/// is a defect.
pub fn get_element_for_roll_element(digit: u8, kind: RollKind, reverse_roll: bool) -> (r: Result<
    Element,
    OlanError,
>)
    ensures
        r == spec_roll_element(digit, kind, reverse_roll),
{
    let deg_opt: Option<i16> = match kind {
        RollKind::Halves => match digit {
            2u8 => Some(360i16),
            3u8 => Some(540i16),
            4u8 => Some(720i16),
            _ => None,
        },
        RollKind::Quarters => match digit {
            2u8 => Some(180i16),
            3u8 => Some(270i16),
            4u8 => Some(360i16),
            5u8 => Some(450i16),
            6u8 => Some(540i16),
            7u8 => Some(630i16),
            8u8 => Some(720i16),
            _ => None,
        },
        RollKind::Eighths => match digit {
            2u8 => Some(90i16),
            4u8 => Some(180i16),
            6u8 => Some(270i16),
            8u8 => Some(360i16),
            _ => None,
        },
        _ => match digit {
            1u8 => Some(360i16),
            2u8 => Some(180i16),
            3u8 => Some(270i16),
            4u8 => Some(90i16),
            5u8 => Some(450i16),
            6u8 => Some(540i16),
            7u8 => Some(630i16),
            9u8 => Some(720i16),
            _ => None,
        },
    };
    let roll_type: RollType = match kind {
        RollKind::Plain => RollType::Standard,
        RollKind::Halves => RollType::HesitationHalves,
        RollKind::Quarters => RollType::HesitationQuarters,
        RollKind::Eighths => RollType::HesitationEighths,
        RollKind::Flick => RollType::Flick,
        RollKind::InvertedFlick => RollType::InvertedFlick,
        RollKind::Spin => RollType::Spin,
        RollKind::InvertedSpin => RollType::InvertedSpin,
    };
    match deg_opt {
        None => Err(OlanError::Defect),
        Some(deg) => {
            let aux: i16 = if reverse_roll {
                -deg
            } else {
                deg
            };
            Ok(
                Element {
                    elem_type: ElementType::Line,
                    attitude: Attitude::Normal,
                    main_angle: 0,
                    aux_angle: aux,
                    roll_type: roll_type,
                    matching: 0,
                },
            )
        },
    }
}

/// Resolution of a whole roll set, walking its tokens in order while a
/// running reverse flag toggles at every direction swap.
pub open spec fn spec_resolve_rolls_loop(
    tokens: Seq<RollToken>,
    i: int,
    reverse: bool,
    acc: Seq<Element>,
) -> Result<Seq<Element>, OlanError>
    decreases tokens.len() - i,
{
    if i < 0 || i >= tokens.len() {
        Ok(acc)
    } else {
        match tokens[i] {
            RollToken::Swap => spec_resolve_rolls_loop(tokens, i + 1, !reverse, acc),
            RollToken::Roll { digit, kind } => match spec_roll_element(digit, kind, reverse) {
                Err(e) => Err(e),
                Ok(el) => spec_resolve_rolls_loop(tokens, i + 1, reverse, acc.push(el)),
            },
        }
    }
}

/// The elements of a roll set: one line-typed element per roll token, in
/// token order, each carrying only its roll angle and roll type.
pub open spec fn spec_resolve_rolls(tokens: Seq<RollToken>) -> Result<Seq<Element>, OlanError> {
    spec_resolve_rolls_loop(tokens, 0, false, Seq::empty())
}

/// Resolves a roll set into its elements. The running reverse flag starts
/// false and is toggled by every direction-swap separator; each element's
/// sign is negated while the flag is set.
pub fn get_elements_for_roll_set(tokens: &Vec<RollToken>) -> (r: Result<Vec<Element>, OlanError>)
    ensures
        match r {
            Ok(v) => spec_resolve_rolls(tokens@) == Ok::<Seq<Element>, OlanError>(v@),
            Err(e) => spec_resolve_rolls(tokens@) == Err::<Seq<Element>, OlanError>(e),
        },
{
    let mut reverse_state: bool = false;
    let mut elements: Vec<Element> = Vec::new();
    let mut i: usize = 0;
    while i < tokens.len()
        invariant
            0 <= i <= tokens.len(),
            spec_resolve_rolls(tokens@) == spec_resolve_rolls_loop(
                tokens@,
                i as int,
                reverse_state,
                elements@,
            ),
        decreases tokens.len() - i,
    {
        match tokens[i] {
            RollToken::Swap => {
                reverse_state = !reverse_state;
            },
            RollToken::Roll { digit, kind } => {
                match get_element_for_roll_element(digit, kind, reverse_state) {
                    Ok(el) => {
                        elements.push(el);
                    },
                    Err(e) => {
                        return Err(e);
                    },
                }
            },
        }
        i = i + 1;
    }
    Ok(elements)
}

// ------------------------------------------------------------------
// Combining-slot resolution
// ------------------------------------------------------------------

/// Whether an element is a combining marker with the given roll selector.
pub open spec fn is_combining_marker(e: Element, selector: i32) -> bool {
    match e.elem_type {
        ElementType::Combining { roll_selector, .. } => roll_selector == selector,
        _ => false,
    }
}

pub open spec fn spec_find_combining_from(s: Seq<Element>, selector: i32, i: int) -> Option<int>
    decreases s.len() - i,
{
    if i < 0 || i >= s.len() {
        None
    } else if is_combining_marker(s[i], selector) {
        Some(i)
    } else {
        spec_find_combining_from(s, selector, i + 1)
    }
}

/// Index of the first combining marker with the given selector, if any.
pub open spec fn spec_find_combining(s: Seq<Element>, selector: i32) -> Option<int> {
    spec_find_combining_from(s, selector, 0)
}

/// The bare base element that a combining marker stands in for: the marker
/// itself with its element type lowered to the base kind.
pub open spec fn base_element_of(marker: Element) -> Element {
    match marker.elem_type {
        ElementType::Combining { base_type, .. } => Element {
            elem_type: match base_type {
                CombinableElementType::Line => ElementType::Line,
                CombinableElementType::Radius => ElementType::Radius,
                CombinableElementType::Turn => ElementType::Turn,
            },
            ..marker
        },
        _ => marker,
    }
}

/// A copy of a slot's base element carrying one resolved roll.
pub open spec fn spec_roll_applied(base: Element, roll: Element) -> Element {
    Element { aux_angle: roll.aux_angle, roll_type: roll.roll_type, ..base }
}

/// The element sequences of an optional roll-set vector.
pub open spec fn opt_elems_view(rolls: Option<Vec<Element>>) -> Option<Seq<Element>> {
    match rolls {
        Some(v) => Some(v@),
        None => None,
    }
}

/// Splicing a resolved roll set into the first combining slot with the
/// given selector: the new element list and the unconsumed remainder.
///
/// With no matching slot the list is unchanged and the rolls are handed
/// back. With a slot and no rolls, the marker becomes one bare copy of its
/// base element. With a slot and a roll list, the marker is replaced by
/// exactly one copy of the base element per roll, in roll order.
pub open spec fn spec_insert_combining(
    s: Seq<Element>,
    selector: i32,
    rolls: Option<Seq<Element>>,
) -> (Seq<Element>, Option<Seq<Element>>) {
    match spec_find_combining(s, selector) {
        None => (s, rolls),
        Some(idx) => {
            let base = base_element_of(s[idx]);
            match rolls {
                None => (s.update(idx, base), None),
                Some(list) => (
                    s.subrange(0, idx) + Seq::new(list.len(), |j: int| spec_roll_applied(base, list[j]))
                        + s.subrange(idx + 1, s.len() as int),
                    None,
                ),
            }
        },
    }
}

/// Index of the first combining marker whose selector matches.
pub fn find_combining_with_arg(elements: &Vec<Element>, target_roll_selector: i32) -> (r: Option<
    usize,
>)
    ensures
        match r {
            Some(i) => i < elements.len() && spec_find_combining(elements@, target_roll_selector)
                == Some(i as int),
            None => spec_find_combining(elements@, target_roll_selector) is None,
        },
{
    let mut i: usize = 0;
    while i < elements.len()
        invariant
            0 <= i <= elements.len(),
            spec_find_combining(elements@, target_roll_selector) == spec_find_combining_from(
                elements@,
                target_roll_selector,
                i as int,
            ),
        decreases elements.len() - i,
    {
        let is_marker: bool = match elements[i].elem_type {
            ElementType::Combining { roll_selector, .. } => roll_selector == target_roll_selector,
            _ => false,
        };
        if is_marker {
            return Some(i);
        }
        i = i + 1;
    }
    None
}

/// Splices a resolved roll set into the first combining slot with the given
/// selector and returns the unconsumed remainder.
///
/// This carries the combining law: when a slot is found and rolls are
/// supplied, the marker is replaced by exactly one copy of the slot's base
/// element per roll element, in input order, each copy taking that roll's
/// angle and roll type.
pub fn insert_combining_rolls(
    elements: &mut Vec<Element>,
    position: i32,
    roll_set_opt: Option<Vec<Element>>,
) -> (r: Option<Vec<Element>>)
    ensures
        final(elements)@ == spec_insert_combining(
            old(elements)@,
            position,
            opt_elems_view(roll_set_opt),
        ).0,
        opt_elems_view(r) == spec_insert_combining(
            old(elements)@,
            position,
            opt_elems_view(roll_set_opt),
        ).1,
{
    let found = find_combining_with_arg(elements, position);
    match found {
        None => roll_set_opt,
        Some(idx) => {
            let marker: Element = elements[idx];
            let base_elem_type: ElementType = match marker.elem_type {
                ElementType::Combining { base_type, .. } => match base_type {
                    CombinableElementType::Line => ElementType::Line,
                    CombinableElementType::Radius => ElementType::Radius,
                    CombinableElementType::Turn => ElementType::Turn,
                },
                _ => marker.elem_type,
            };
            let base = Element { elem_type: base_elem_type, ..marker };
            proof {
                assert(base == base_element_of(old(elements)@[idx as int]));
            }
            match roll_set_opt {
                None => {
                    let mut out: Vec<Element> = Vec::new();
                    let mut i: usize = 0;
                    while i < elements.len()
                        invariant
                            0 <= i <= elements@.len(),
                            idx < elements@.len(),
                            out@.len() == i,
                            forall|j: int|
                                0 <= j < i ==> out@[j] == (if j == idx {
                                    base
                                } else {
                                    elements@[j]
                                }),
                        decreases elements.len() - i,
                    {
                        if i == idx {
                            out.push(base);
                        } else {
                            out.push(elements[i]);
                        }
                        i = i + 1;
                    }
                    assert(out@ =~= elements@.update(idx as int, base));
                    *elements = out;
                    None
                },
                Some(list) => {
                    let ghost applied: Seq<Element> = Seq::new(
                        list@.len(),
                        |j: int| spec_roll_applied(base, list@[j]),
                    );
                    let mut out: Vec<Element> = Vec::new();
                    let mut i: usize = 0;
                    while i < idx
                        invariant
                            0 <= i <= idx < elements@.len(),
                            out@ == elements@.subrange(0, i as int),
                        decreases idx - i,
                    {
                        out.push(elements[i]);
                        proof {
                            assert(elements@.subrange(0, i + 1 as int) =~= elements@.subrange(
                                0,
                                i as int,
                            ).push(elements@[i as int]));
                        }
                        i = i + 1;
                    }
                    let mut j: usize = 0;
                    while j < list.len()
                        invariant
                            0 <= j <= list@.len(),
                            idx < elements@.len(),
                            applied == Seq::new(
                                list@.len(),
                                |k: int| spec_roll_applied(base, list@[k]),
                            ),
                            out@ == elements@.subrange(0, idx as int) + applied.subrange(
                                0,
                                j as int,
                            ),
                        decreases list.len() - j,
                    {
                        let roll: Element = list[j];
                        out.push(
                            Element { aux_angle: roll.aux_angle, roll_type: roll.roll_type, ..base },
                        );
                        proof {
                            assert(applied.subrange(0, j + 1 as int) =~= applied.subrange(
                                0,
                                j as int,
                            ).push(applied[j as int]));
                        }
                        j = j + 1;
                    }
                    let mut k: usize = idx + 1;
                    while k < elements.len()
                        invariant
                            idx + 1 <= k <= elements@.len(),
                            out@ == elements@.subrange(0, idx as int) + applied
                                + elements@.subrange(idx + 1 as int, k as int),
                        decreases elements.len() - k,
                    {
                        out.push(elements[k]);
                        proof {
                            assert(elements@.subrange(idx + 1 as int, k + 1 as int)
                                =~= elements@.subrange(idx + 1 as int, k as int).push(
                                elements@[k as int],
                            ));
                        }
                        k = k + 1;
                    }
                    proof {
                        assert(applied.subrange(0, list@.len() as int) =~= applied);
                        assert(out@ =~= spec_insert_combining(
                            elements@,
                            position,
                            opt_elems_view(Some(list)),
                        ).0);
                    }
                    *elements = out;
                    None
                },
            }
        },
    }
}

// ------------------------------------------------------------------
// Attitude/inversion state machine
// ------------------------------------------------------------------

/// The walk state of the attitude pass: accumulated pitch in degrees
/// (always a value in `[0, 360)`), the attitude at the current element,
/// and whether an odd net roll has inverted the ground track.
#[derive(Clone, Copy, Debug, PartialEq, Eq, Structural)]
pub struct AttitudeState {
    pub current_pitch: i16,
    pub current_attitude: Attitude,
    pub inverted_by_roll: bool,
}

/// The state at the start of a figure: level pitch, upright, no roll
/// inversion.
pub open spec fn initial_attitude_state() -> AttitudeState {
    AttitudeState {
        current_pitch: 0,
        current_attitude: Attitude::Normal,
        inverted_by_roll: false,
    }
}

/// The walk state after an inversion flip caused by an odd roll on a line:
/// pitch advances by the given amount, the attitude toggles, and the
/// roll-inversion flag toggles.
pub open spec fn spec_flip_state(st: AttitudeState, pitch_step: int) -> AttitudeState {
    AttitudeState {
        current_pitch: ((st.current_pitch + pitch_step) % 360) as i16,
        current_attitude: Attitude::spec_get_inverted(st.current_attitude),
        inverted_by_roll: !st.inverted_by_roll,
    }
}

/// Whether a line's accumulated roll angle leaves it other than upright or
/// fully inverted, so that the ground track flips.
pub open spec fn spec_odd_roll(aux_angle: i16) -> bool {
    (aux_angle as int) % 360 != 0
}

/// One step of the attitude pass.
///
/// A radius is negated while roll inversion is in force (unless its
/// matching id forbids it) and moves the pitch; the attitude is inverted
/// exactly between 90 and 270 degrees of pitch. A line is stamped with the
/// current attitude, and an odd net roll flips the ground track unless the
/// line is vertical: the pitch advances by 180 on level lines, by 90 on
/// rising diagonals and by -90 on falling ones. A stall reverses the
/// vertical-plane direction without radius geometry. A line at a pitch
/// that is not a multiple of 45 degrees marks a defect.
pub open spec fn spec_walk_element(e: Element, st: AttitudeState) -> Result<
    (Element, AttitudeState),
    OlanError,
> {
    match e.elem_type {
        ElementType::Radius => {
            if st.inverted_by_roll && e.matching >= 0 && e.main_angle == i16::MIN {
                Err(OlanError::Defect)
            } else {
                let m: int = if st.inverted_by_roll && e.matching >= 0 {
                    -(e.main_angle as int)
                } else {
                    e.main_angle as int
                };
                let p: int = (st.current_pitch + m) % 360;
                let att: Attitude = if 90 < p && p < 270 {
                    Attitude::Inverted
                } else {
                    Attitude::Normal
                };
                Ok(
                    (
                        Element { main_angle: m as i16, ..e },
                        AttitudeState {
                            current_pitch: p as i16,
                            current_attitude: att,
                            inverted_by_roll: st.inverted_by_roll,
                        },
                    ),
                )
            }
        },
        ElementType::Line => {
            let e2 = Element { attitude: st.current_attitude, ..e };
            let p = st.current_pitch as int;
            if p == 90 || p == 270 {
                Ok((e2, st))
            } else if p == 0 || p == 180 {
                if spec_odd_roll(e.aux_angle) {
                    Ok((e2, spec_flip_state(st, 180)))
                } else {
                    Ok((e2, st))
                }
            } else if p == 45 || p == 225 {
                if spec_odd_roll(e.aux_angle) {
                    Ok((e2, spec_flip_state(st, 90)))
                } else {
                    Ok((e2, st))
                }
            } else if p == 135 || p == 315 {
                if spec_odd_roll(e.aux_angle) {
                    Ok((e2, spec_flip_state(st, -90)))
                } else {
                    Ok((e2, st))
                }
            } else {
                Err(OlanError::Defect)
            }
        },
        ElementType::Stall => Ok(
            (
                e,
                AttitudeState {
                    current_pitch: ((st.current_pitch + 180) % 360) as i16,
                    ..st
                },
            ),
        ),
        _ => Ok((e, st)),
    }
}

pub open spec fn spec_attitude_walk(
    s: Seq<Element>,
    i: int,
    st: AttitudeState,
    acc: Seq<Element>,
) -> Result<(Seq<Element>, AttitudeState), OlanError>
    decreases s.len() - i,
{
    if i < 0 || i >= s.len() {
        Ok((acc, st))
    } else {
        match spec_walk_element(s[i], st) {
            Err(e) => Err(e),
            Ok(step) => spec_attitude_walk(s, i + 1, step.1, acc.push(step.0)),
        }
    }
}

/// The single forward pass of the attitude state machine over a figure's
/// resolved elements, and the state it ends in.
pub open spec fn spec_attitude_pass(s: Seq<Element>) -> Result<
    (Seq<Element>, AttitudeState),
    OlanError,
> {
    spec_attitude_walk(s, 0, initial_attitude_state(), Seq::empty())
}

/// Runs the attitude/inversion state machine over a figure's elements in
/// place and returns the final walk state. On a defect the elements are
/// left unchanged.
pub fn apply_roll_inversions(elements: &mut Vec<Element>) -> (r: Result<AttitudeState, OlanError>)
    ensures
        match r {
            Ok(st) => spec_attitude_pass(old(elements)@) == Ok::<(Seq<Element>, AttitudeState), OlanError>(
                (final(elements)@, st),
            ),
            Err(e) => spec_attitude_pass(old(elements)@) == Err::<(Seq<Element>, AttitudeState), OlanError>(e)
                && final(elements)@ == old(elements)@,
        },
{
    let mut st = AttitudeState {
        current_pitch: 0,
        current_attitude: Attitude::Normal,
        inverted_by_roll: false,
    };
    let mut out: Vec<Element> = Vec::new();
    let mut i: usize = 0;
    while i < elements.len()
        invariant
            0 <= i <= elements@.len(),
            elements == old(elements),
            0 <= st.current_pitch < 360,
            spec_attitude_pass(elements@) == spec_attitude_walk(elements@, i as int, st, out@),
        decreases elements.len() - i,
    {
        let e: Element = elements[i];
        match e.elem_type {
            ElementType::Radius => {
                let negate: bool = st.inverted_by_roll && e.matching >= 0;
                if negate && e.main_angle == i16::MIN {
                    return Err(OlanError::Defect);
                }
                let m: i16 = if negate {
                    -e.main_angle
                } else {
                    e.main_angle
                };
                let t: i32 = st.current_pitch as i32 + m as i32 + 33120;
                let np: i16 = (t % 360) as i16;
                proof {
                    lemma_mod_multiples_vanish(92, st.current_pitch + m as int, 360);
                    assert(np as int == (st.current_pitch + m as int) % 360);
                }
                let att: Attitude = if 90 < np && np < 270 {
                    Attitude::Inverted
                } else {
                    Attitude::Normal
                };
                out.push(Element { main_angle: m, ..e });
                st =
                AttitudeState {
                    current_pitch: np,
                    current_attitude: att,
                    inverted_by_roll: st.inverted_by_roll,
                };
            },
            ElementType::Line => {
                out.push(Element { attitude: st.current_attitude, ..e });
                let a: i32 = e.aux_angle as i32 + 33120;
                let odd: bool = (a % 360) != 0;
                proof {
                    lemma_mod_multiples_vanish(92, e.aux_angle as int, 360);
                    assert(odd == spec_odd_roll(e.aux_angle));
                }
                let p: i16 = st.current_pitch;
                if p == 90 || p == 270 {
                    // vertical line: rolls do not flip the ground track
                } else if p == 0 || p == 180 {
                    if odd {
                        let np: i16 = ((p as i32 + 180) % 360) as i16;
                        st =
                        AttitudeState {
                            current_pitch: np,
                            current_attitude: Attitude::get_inverted(st.current_attitude),
                            inverted_by_roll: !st.inverted_by_roll,
                        };
                    }
                } else if p == 45 || p == 225 {
                    if odd {
                        let np: i16 = ((p as i32 + 90) % 360) as i16;
                        st =
                        AttitudeState {
                            current_pitch: np,
                            current_attitude: Attitude::get_inverted(st.current_attitude),
                            inverted_by_roll: !st.inverted_by_roll,
                        };
                    }
                } else if p == 135 || p == 315 {
                    if odd {
                        let np: i16 = ((p as i32 - 90 + 360) % 360) as i16;
                        proof {
                            lemma_mod_multiples_vanish(1, p - 90, 360);
                            assert(np as int == (p - 90) % 360);
                        }
                        st =
                        AttitudeState {
                            current_pitch: np,
                            current_attitude: Attitude::get_inverted(st.current_attitude),
                            inverted_by_roll: !st.inverted_by_roll,
                        };
                    }
                } else {
                    return Err(OlanError::Defect);
                }
            },
            ElementType::Stall => {
                let np: i16 = ((st.current_pitch as i32 + 180) % 360) as i16;
                out.push(e);
                st = AttitudeState { current_pitch: np, ..st };
            },
            _ => {
                out.push(e);
            },
        }
        i = i + 1;
    }
    *elements = out;
    Ok(st)
}

// ------------------------------------------------------------------
// Figure inversion
// ------------------------------------------------------------------

/// One element under figure inversion: a radius whose matching id allows
/// it has its pull/push sign negated, a turn has its attitude flipped, and
/// a non-vertical line has its attitude flipped; everything else is
/// unchanged. A pull angle at the extreme of the representable range
/// cannot be negated and is left unchanged.
pub open spec fn spec_invert_element(e: Element) -> Element {
    match e.elem_type {
        ElementType::Radius => if e.matching >= 0 && e.main_angle != i16::MIN {
            Element { main_angle: (-(e.main_angle as int)) as i16, ..e }
        } else {
            e
        },
        ElementType::Turn => Element {
            attitude: Attitude::spec_get_inverted(e.attitude),
            ..e
        },
        ElementType::Line => if e.main_angle != 90 && e.main_angle != -90 {
            Element { attitude: Attitude::spec_get_inverted(e.attitude), ..e }
        } else {
            e
        },
        _ => e,
    }
}

/// A figure's elements with inversion applied from the given index to the
/// end; elements before the index are unchanged.
pub open spec fn spec_invert_from(s: Seq<Element>, from: int) -> Seq<Element> {
    Seq::new(
        s.len(),
        |i: int|
            if i >= from {
                spec_invert_element(s[i])
            } else {
                s[i]
            },
    )
}

/// Applies figure inversion to every element at or after `from_idx`:
/// push becomes pull on invertible radii, and turns and non-vertical
/// lines flip between upright and inverted flight.
pub fn invert_figure_elements(elements: &mut Vec<Element>, from_idx: usize)
    ensures
        final(elements)@ == spec_invert_from(old(elements)@, from_idx as int),
{
    let mut out: Vec<Element> = Vec::new();
    let mut i: usize = 0;
    while i < elements.len()
        invariant
            0 <= i <= elements@.len(),
            elements == old(elements),
            out@.len() == i,
            forall|j: int| 0 <= j < i ==> out@[j] == spec_invert_from(elements@, from_idx as int)[j],
        decreases elements.len() - i,
    {
        let e: Element = elements[i];
        if i < from_idx {
            out.push(e);
        } else {
            match e.elem_type {
                ElementType::Radius => {
                    if e.matching >= 0 && e.main_angle != i16::MIN {
                        out.push(Element { main_angle: -e.main_angle, ..e });
                    } else {
                        out.push(e);
                    }
                },
                ElementType::Turn => {
                    out.push(Element { attitude: Attitude::get_inverted(e.attitude), ..e });
                },
                ElementType::Line => {
                    if !((e.main_angle == 90) || (e.main_angle == -90)) {
                        out.push(Element { attitude: Attitude::get_inverted(e.attitude), ..e });
                    } else {
                        out.push(e);
                    }
                },
                _ => {
                    out.push(e);
                },
            }
        }
        i = i + 1;
    }
    assert(out@ =~= spec_invert_from(elements@, from_idx as int));
    *elements = out;
}

/// Inverting one element twice restores it.
pub proof fn lemma_invert_element_involutive(e: Element)
    ensures
        spec_invert_element(spec_invert_element(e)) == e,
{
}

/// Figure inversion is involutive over invertible radii and non-vertical
/// lines: applying inversion twice over the same range restores the
/// original signs and attitudes of every element.
pub proof fn lemma_invert_involutive(s: Seq<Element>, from: int)
    ensures
        spec_invert_from(spec_invert_from(s, from), from) == s,
{
    let t = spec_invert_from(spec_invert_from(s, from), from);
    assert forall|i: int| 0 <= i < s.len() implies t[i] == s[i] by {
        if i >= from {
            lemma_invert_element_involutive(s[i]);
        }
    }
    assert(t =~= s);
}

// ------------------------------------------------------------------
// Post-processing: duplicate transition lines
// ------------------------------------------------------------------

pub open spec fn spec_dedup_lines_from(s: Seq<Element>, i: int) -> Seq<Element>
    decreases s.len() - i,
{
    if i < 0 || i >= s.len() {
        Seq::empty()
    } else if i + 1 < s.len() && s[i].elem_type == ElementType::Line && s[i] == s[i + 1] {
        spec_dedup_lines_from(s, i + 1)
    } else {
        seq![s[i]] + spec_dedup_lines_from(s, i + 1)
    }
}

/// The element list with every run of fully-equal adjacent lines collapsed
/// to a single element.
pub open spec fn spec_dedup_lines(s: Seq<Element>) -> Seq<Element> {
    spec_dedup_lines_from(s, 0)
}

/// Collapses adjacent pairs of fully-equal line elements, removing the
/// duplicate zero-length transition lines shared between the stages of a
/// resolved figure.
pub fn remove_duplicate_lines(elements: &mut Vec<Element>)
    ensures
        final(elements)@ == spec_dedup_lines(old(elements)@),
{
    let mut out: Vec<Element> = Vec::new();
    let mut i: usize = 0;
    while i < elements.len()
        invariant
            0 <= i <= elements@.len(),
            elements == old(elements),
            spec_dedup_lines(elements@) == out@ + spec_dedup_lines_from(elements@, i as int),
        decreases elements.len() - i,
    {
        let is_dup: bool = i + 1 < elements.len() && {
            let a: Element = elements[i];
            let b: Element = elements[i + 1];
            match a.elem_type {
                ElementType::Line => a == b,
                _ => false,
            }
        };
        if !is_dup {
            let e: Element = elements[i];
            let ghost out_before = out@;
            out.push(e);
            proof {
                assert(out@ =~= out_before + seq![e]);
                assert((out_before + seq![e]) + spec_dedup_lines_from(elements@, i + 1)
                    =~= out_before + (seq![e] + spec_dedup_lines_from(elements@, i + 1)));
            }
        }
        i = i + 1;
    }
    proof {
        assert(out@ + spec_dedup_lines_from(elements@, i as int) =~= out@);
    }
    *elements = out;
}

// ------------------------------------------------------------------
// Post-processing: merging contiguous radii
// ------------------------------------------------------------------

/// A plain radius: one that carries no roll.
pub open spec fn spec_is_plain_radius(e: Element) -> bool {
    e.elem_type == ElementType::Radius && e.roll_type == RollType::NoRoll
}

pub fn is_plain_radius(elem: &Element) -> (r: bool)
    ensures
        r == spec_is_plain_radius(*elem),
{
    match elem.elem_type {
        ElementType::Radius => match elem.roll_type {
            RollType::NoRoll => true,
            _ => false,
        },
        _ => false,
    }
}

pub open spec fn spec_signum(x: int) -> int {
    if x > 0 {
        1
    } else if x < 0 {
        -1
    } else {
        0
    }
}

/// Whether a merge run that started at `first` and has accumulated `total`
/// degrees may consume `e`: `e` must be a plain radius with the same
/// matching id and the same pull/push sign as the run's first element, and
/// the accumulated angle must stay representable.
pub open spec fn spec_can_extend(first: Element, total: int, e: Element) -> bool {
    &&& spec_is_plain_radius(e)
    &&& e.matching == first.matching
    &&& spec_signum(e.main_angle as int) == spec_signum(first.main_angle as int)
    &&& i16::MIN <= total + e.main_angle <= i16::MAX
}

/// How many further elements the merge run consumes.
pub open spec fn spec_run_len(s: Seq<Element>, i: int, first: Element, total: int) -> nat
    decreases s.len() - i,
{
    if i < 0 || i >= s.len() {
        0
    } else if spec_can_extend(first, total, s[i]) {
        1 + spec_run_len(s, i + 1, first, total + s[i].main_angle)
    } else {
        0
    }
}

/// The signed angle sum accumulated by the merge run.
pub open spec fn spec_run_total(s: Seq<Element>, i: int, first: Element, total: int) -> int
    decreases s.len() - i,
{
    if i < 0 || i >= s.len() {
        total
    } else if spec_can_extend(first, total, s[i]) {
        spec_run_total(s, i + 1, first, total + s[i].main_angle)
    } else {
        total
    }
}

pub proof fn lemma_run_len_bound(s: Seq<Element>, i: int, first: Element, total: int)
    ensures
        i >= 0 ==> i + spec_run_len(s, i, first, total) <= vstd::math::max(s.len() as int, i),
    decreases s.len() - i,
{
    if 0 <= i < s.len() && spec_can_extend(first, total, s[i]) {
        lemma_run_len_bound(s, i + 1, first, total + s[i].main_angle);
    }
}

/// The element list with every maximal run of plain radii sharing one
/// matching id and one sign replaced by a single radius carrying the
/// signed sum, its other fields copied from the run's first element.
pub open spec fn spec_merge_radii_from(s: Seq<Element>, i: int) -> Seq<Element>
    decreases s.len() - i,
    via spec_merge_radii_from_decreases
{
    if i < 0 || i >= s.len() {
        Seq::empty()
    } else if !spec_is_plain_radius(s[i]) {
        seq![s[i]] + spec_merge_radii_from(s, i + 1)
    } else {
        let n = spec_run_len(s, i + 1, s[i], s[i].main_angle as int);
        let t = spec_run_total(s, i + 1, s[i], s[i].main_angle as int);
        seq![Element { main_angle: t as i16, ..s[i] }] + spec_merge_radii_from(s, i + 1 + n)
    }
}

#[via_fn]
proof fn spec_merge_radii_from_decreases(s: Seq<Element>, i: int) {
    if 0 <= i < s.len() && spec_is_plain_radius(s[i]) {
        lemma_run_len_bound(s, i + 1, s[i], s[i].main_angle as int);
    }
}

pub open spec fn spec_merge_radii(s: Seq<Element>) -> Seq<Element> {
    spec_merge_radii_from(s, 0)
}

/// Whether the merge run that started at `first` and stands at `total`
/// accumulated degrees may consume `next`.
fn can_extend_run(first: &Element, total: i16, next: &Element) -> (r: bool)
    ensures
        r == spec_can_extend(*first, total as int, *next),
{
    if !is_plain_radius(next) {
        return false;
    }
    if first.matching != next.matching {
        return false;
    }
    let sign_matches: bool = (first.main_angle > 0 && next.main_angle > 0) || (first.main_angle < 0
        && next.main_angle < 0) || (first.main_angle == 0 && next.main_angle == 0);
    if !sign_matches {
        return false;
    }
    let widened: i32 = total as i32 + next.main_angle as i32;
    -32768 <= widened && widened <= 32767
}

/// Replaces every maximal run of contiguous plain radii that share a
/// matching id and a pull/push sign with one radius whose angle is the
/// run's signed sum. A sign change, a different matching id, a rolled
/// radius, or an angle sum leaving the representable range breaks the run.
pub fn combine_contiguous_radii(figure: &mut crate::types::Figure)
    ensures
        final(figure)@ == spec_merge_radii(old(figure)@),
{
    let ghost s: Seq<Element> = figure.elements@;
    let mut out: Vec<Element> = Vec::new();
    let mut i: usize = 0;
    while i < figure.elements.len()
        invariant
            0 <= i <= s.len(),
            figure.elements@ == s,
            spec_merge_radii(s) == out@ + spec_merge_radii_from(s, i as int),
        decreases s.len() - i,
    {
        let e: Element = figure.elements[i];
        if !is_plain_radius(&e) {
            let ghost out_before = out@;
            out.push(e);
            proof {
                assert(out@ =~= out_before + seq![e]);
                assert((out_before + seq![e]) + spec_merge_radii_from(s, i + 1)
                    =~= out_before + (seq![e] + spec_merge_radii_from(s, i + 1)));
            }
            i = i + 1;
        } else {
            let mut total: i16 = e.main_angle;
            let mut j: usize = i + 1;
            while j < figure.elements.len() && can_extend_run(&e, total, &figure.elements[j])
                invariant
                    figure.elements@ == s,
                    i < j <= s.len(),
                    spec_run_len(s, i + 1 as int, e, e.main_angle as int) + i + 1
                        == spec_run_len(s, j as int, e, total as int) + j,
                    spec_run_total(s, i + 1 as int, e, e.main_angle as int) == spec_run_total(
                        s,
                        j as int,
                        e,
                        total as int,
                    ),
                    e == s[i as int],
                decreases s.len() - j,
            {
                let next: Element = figure.elements[j];
                proof {
                    assert(spec_can_extend(e, total as int, next));
                }
                total = total + next.main_angle;
                j = j + 1;
            }
            let ghost out_before = out@;
            proof {
                assert(spec_run_len(s, j as int, e, total as int) == 0);
                assert(spec_run_total(s, j as int, e, total as int) == total as int);
                let merged = Element {
                    main_angle: spec_run_total(s, i + 1 as int, e, e.main_angle as int) as i16,
                    ..s[i as int]
                };
                assert((out_before + seq![merged]) + spec_merge_radii_from(s, j as int)
                    =~= out_before + (seq![merged] + spec_merge_radii_from(s, j as int)));
            }
            out.push(Element { main_angle: total, ..e });
            proof {
                assert(out@ =~= out_before + seq![Element { main_angle: total, ..e }]);
            }
            i = j;
        }
    }
    proof {
        assert(out@ + spec_merge_radii_from(s, i as int) =~= out@);
    }
    figure.elements = out;
}

// ------------------------------------------------------------------
// Radius merge is idempotent
// ------------------------------------------------------------------

/// Whether a merge pass would fuse `b` into a run opened by `a`.
pub open spec fn spec_mergeable_pair(a: Element, b: Element) -> bool {
    spec_is_plain_radius(a) && spec_can_extend(a, a.main_angle as int, b)
}

/// No two adjacent elements of the list could still be merged.
pub open spec fn spec_no_mergeable_runs(u: Seq<Element>) -> bool {
    forall|j: int|
        0 <= j && j + 1 < u.len() ==> !spec_mergeable_pair(#[trigger] u[j], u[j + 1])
}

/// A merge run keeps the sign of its accumulated angle, only grows its
/// magnitude, and stays in the representable range.
proof fn lemma_run_props(s: Seq<Element>, k: int, f: Element, t: int)
    requires
        spec_signum(t) == spec_signum(f.main_angle as int),
        i16::MIN <= t <= i16::MAX,
    ensures
        spec_signum(spec_run_total(s, k, f, t)) == spec_signum(t),
        t >= 0 ==> spec_run_total(s, k, f, t) >= t,
        t <= 0 ==> spec_run_total(s, k, f, t) <= t,
        i16::MIN <= spec_run_total(s, k, f, t) <= i16::MAX,
    decreases s.len() - k,
{
    if 0 <= k < s.len() && spec_can_extend(f, t, s[k]) {
        lemma_run_props(s, k + 1, f, t + s[k].main_angle);
    }
}

/// A merge run ends either at the end of the list or at the first element
/// it may not consume.
proof fn lemma_run_end(s: Seq<Element>, k: int, f: Element, t: int)
    requires
        0 <= k,
    ensures
        k + spec_run_len(s, k, f, t) <= vstd::math::max(s.len() as int, k),
        k + spec_run_len(s, k, f, t) < s.len() ==> !spec_can_extend(
            f,
            spec_run_total(s, k, f, t),
            s[k + spec_run_len(s, k, f, t)],
        ),
    decreases s.len() - k,
{
    if 0 <= k < s.len() && spec_can_extend(f, t, s[k]) {
        lemma_run_end(s, k + 1, f, t + s[k].main_angle);
    }
}

/// The first element that the merge pass emits from position `i`.
pub open spec fn spec_merge_head(s: Seq<Element>, i: int) -> Element {
    if !spec_is_plain_radius(s[i]) {
        s[i]
    } else {
        Element {
            main_angle: spec_run_total(s, i + 1, s[i], s[i].main_angle as int) as i16,
            ..s[i]
        }
    }
}

/// A list in which no adjacent pair can be merged is a fixed point of the
/// merge pass.
proof fn lemma_merge_fixed(u: Seq<Element>, i: int)
    requires
        spec_no_mergeable_runs(u),
        0 <= i <= u.len(),
    ensures
        spec_merge_radii_from(u, i) == u.subrange(i, u.len() as int),
    decreases u.len() - i,
{
    if i == u.len() {
        assert(spec_merge_radii_from(u, i) =~= u.subrange(i, u.len() as int));
    } else if !spec_is_plain_radius(u[i]) {
        lemma_merge_fixed(u, i + 1);
        assert(seq![u[i]] + u.subrange(i + 1, u.len() as int) =~= u.subrange(i, u.len() as int));
    } else {
        let n = spec_run_len(u, i + 1, u[i], u[i].main_angle as int);
        if i + 1 < u.len() {
            assert(!spec_mergeable_pair(u[i], u[i + 1]));
            assert(n == 0);
        } else {
            assert(n == 0);
        }
        assert(Element {
            main_angle: spec_run_total(u, i + 1, u[i], u[i].main_angle as int) as i16,
            ..u[i]
        } == u[i]);
        lemma_merge_fixed(u, i + 1);
        assert(seq![u[i]] + u.subrange(i + 1, u.len() as int) =~= u.subrange(i, u.len() as int));
    }
}

/// The output of the merge pass leaves no adjacent pair that could still
/// be merged, and its first element is the head the pass emits.
proof fn lemma_merge_no_mergeable(s: Seq<Element>, i: int)
    requires
        0 <= i <= s.len(),
    ensures
        spec_no_mergeable_runs(spec_merge_radii_from(s, i)),
        spec_merge_radii_from(s, i).len() > 0 <==> i < s.len(),
        i < s.len() ==> spec_merge_radii_from(s, i)[0] == spec_merge_head(s, i),
    decreases s.len() - i,
{
    if i == s.len() {
        return ;
    }
    let out = spec_merge_radii_from(s, i);
    if !spec_is_plain_radius(s[i]) {
        let rest = spec_merge_radii_from(s, i + 1);
        lemma_merge_no_mergeable(s, i + 1);
        assert forall|j: int| 0 <= j && j + 1 < out.len() implies !spec_mergeable_pair(
            #[trigger] out[j],
            out[j + 1],
        ) by {
            if j == 0 {
                assert(out[0] == s[i]);
                assert(!spec_is_plain_radius(out[0]));
            } else {
                assert(out[j] == rest[j - 1]);
                assert(out[j + 1] == rest[j]);
                assert(!spec_mergeable_pair(rest[j - 1], rest[j]));
            }
        }
    } else {
        let first = s[i];
        let t0 = first.main_angle as int;
        let n = spec_run_len(s, i + 1, first, t0);
        let tt = spec_run_total(s, i + 1, first, t0);
        let jj = i + 1 + n;
        lemma_run_len_bound(s, i + 1, first, t0);
        lemma_run_props(s, i + 1, first, t0);
        lemma_run_end(s, i + 1, first, t0);
        let m1 = Element { main_angle: tt as i16, ..first };
        let rest = spec_merge_radii_from(s, jj);
        lemma_merge_no_mergeable(s, jj);
        assert(out == seq![m1] + rest);
        if jj < s.len() {
            // the run stopped for a reason that also stops a second pass
            assert(!spec_can_extend(first, tt, s[jj]));
            assert(rest[0] == spec_merge_head(s, jj));
            if spec_is_plain_radius(s[jj]) {
                let t2 = spec_run_total(s, jj + 1, s[jj], s[jj].main_angle as int);
                lemma_run_props(s, jj + 1, s[jj], s[jj].main_angle as int);
                let m2 = Element { main_angle: t2 as i16, ..s[jj] };
                assert(rest[0] == m2);
                assert(!spec_can_extend(m1, tt, m2));
            } else {
                assert(!spec_is_plain_radius(rest[0]));
            }
            assert(!spec_mergeable_pair(m1, rest[0]));
        }
        assert forall|j: int| 0 <= j && j + 1 < out.len() implies !spec_mergeable_pair(
            #[trigger] out[j],
            out[j + 1],
        ) by {
            if j == 0 {
                assert(out[0] == m1);
                assert(out[1] == rest[0]);
            } else {
                assert(out[j] == rest[j - 1]);
                assert(out[j + 1] == rest[j]);
                assert(!spec_mergeable_pair(rest[j - 1], rest[j]));
            }
        }
    }
}

// ------------------------------------------------------------------
// Figure assembly
// ------------------------------------------------------------------

/// Resolution of an optional roll set: absent sets stay absent.
pub open spec fn spec_resolve_opt_rolls(o: Option<Seq<RollToken>>) -> Result<
    Option<Seq<Element>>,
    OlanError,
> {
    match o {
        None => Ok(None),
        Some(tokens) => match spec_resolve_rolls(tokens) {
            Ok(v) => Ok(Some(v)),
            Err(e) => Err(e),
        },
    }
}

/// The raw element list of a named figure: the mnemonic's skeleton with
/// the entry roll set spliced into its entry slot, the inner sets into the
/// inner slots and the exit set into the exit slot. Entry or exit rolls
/// left over because the skeleton has no such slot are placed raw before
/// or after the figure; leftover inner rolls have no effect.
pub open spec fn spec_named_figure_elements(
    entry: Option<Seq<RollToken>>,
    mnemonic: Mnemonic,
    inner: Option<Seq<RollToken>>,
    inner2: Option<Seq<RollToken>>,
    exit: Option<Seq<RollToken>>,
) -> Result<Seq<Element>, OlanError> {
    match spec_resolve_opt_rolls(entry) {
        Err(e) => Err(e),
        Ok(entry_rolls) => match spec_resolve_opt_rolls(inner) {
            Err(e) => Err(e),
            Ok(inner_rolls) => match spec_resolve_opt_rolls(inner2) {
                Err(e) => Err(e),
                Ok(inner_rolls2) => match spec_resolve_opt_rolls(exit) {
                    Err(e) => Err(e),
                    Ok(exit_rolls) => {
                        let skel = figure_defs::skeleton(mnemonic);
                        let entry_step = spec_insert_combining(skel, -1i32, entry_rolls);
                        let prefix = match entry_step.1 {
                            Some(v) => v,
                            None => Seq::empty(),
                        };
                        let inner_step = spec_insert_combining(entry_step.0, 1i32, inner_rolls);
                        let inner_step2 = spec_insert_combining(inner_step.0, 2i32, inner_rolls2);
                        let exit_step = spec_insert_combining(inner_step2.0, 0i32, exit_rolls);
                        let suffix = match exit_step.1 {
                            Some(v) => v,
                            None => Seq::empty(),
                        };
                        Ok(prefix + exit_step.0 + suffix)
                    },
                },
            },
        },
    }
}

/// Resolves an optional roll set.
fn resolve_opt_roll_set(o: &Option<Vec<RollToken>>) -> (r: Result<Option<Vec<Element>>, OlanError>)
    ensures
        match r {
            Ok(v) => spec_resolve_opt_rolls(opt_tokens_view(*o)) == Ok::<
                Option<Seq<Element>>,
                OlanError,
            >(opt_elems_view(v)),
            Err(e) => spec_resolve_opt_rolls(opt_tokens_view(*o)) == Err::<
                Option<Seq<Element>>,
                OlanError,
            >(e),
        },
{
    match o {
        None => Ok(None),
        Some(tokens) => match get_elements_for_roll_set(tokens) {
            Ok(v) => Ok(Some(v)),
            Err(e) => Err(e),
        },
    }
}

/// Builds the raw element list of a named figure from its skeleton and its
/// notated roll sets.
pub fn get_elements_for_named_figure(node: &NamedFigureNode) -> (r: Result<Vec<Element>, OlanError>)
    ensures
        match r {
            Ok(v) => spec_named_figure_elements(
                opt_tokens_view(node.entry_rolls),
                node.mnemonic,
                opt_tokens_view(node.inner_rolls),
                opt_tokens_view(node.inner_rolls2),
                opt_tokens_view(node.exit_rolls),
            ) == Ok::<Seq<Element>, OlanError>(v@),
            Err(e) => spec_named_figure_elements(
                opt_tokens_view(node.entry_rolls),
                node.mnemonic,
                opt_tokens_view(node.inner_rolls),
                opt_tokens_view(node.inner_rolls2),
                opt_tokens_view(node.exit_rolls),
            ) == Err::<Seq<Element>, OlanError>(e),
        },
{
    let entry_roll_set_opt: Option<Vec<Element>> = match resolve_opt_roll_set(&node.entry_rolls) {
        Ok(v) => v,
        Err(e) => {
            return Err(e);
        },
    };
    let inner_roll_set_opt: Option<Vec<Element>> = match resolve_opt_roll_set(&node.inner_rolls) {
        Ok(v) => v,
        Err(e) => {
            return Err(e);
        },
    };
    let inner_roll_set2_opt: Option<Vec<Element>> = match resolve_opt_roll_set(&node.inner_rolls2) {
        Ok(v) => v,
        Err(e) => {
            return Err(e);
        },
    };
    let exit_roll_set_opt: Option<Vec<Element>> = match resolve_opt_roll_set(&node.exit_rolls) {
        Ok(v) => v,
        Err(e) => {
            return Err(e);
        },
    };
    let mut main_figure_elements = figure_defs::get_elements_for_mnemonic(node.mnemonic);

    let mut elements: Vec<Element> = Vec::new();
    let remaining_entry_rolls_opt = insert_combining_rolls(
        &mut main_figure_elements,
        -1,
        entry_roll_set_opt,
    );
    if let Some(mut entry_rolls) = remaining_entry_rolls_opt {
        elements.append(&mut entry_rolls);
    }
    insert_combining_rolls(&mut main_figure_elements, 1, inner_roll_set_opt);
    insert_combining_rolls(&mut main_figure_elements, 2, inner_roll_set2_opt);
    let remaining_exit_rolls_opt = insert_combining_rolls(
        &mut main_figure_elements,
        0,
        exit_roll_set_opt,
    );
    elements.append(&mut main_figure_elements);
    if let Some(mut exit_rolls) = remaining_exit_rolls_opt {
        elements.append(&mut exit_rolls);
    }
    proof {
        assert(elements@ =~= {
            let skel = figure_defs::skeleton(node.mnemonic);
            let entry_step = spec_insert_combining(
                skel,
                -1i32,
                opt_elems_view(entry_roll_set_opt),
            );
            let prefix = match entry_step.1 {
                Some(v) => v,
                None => Seq::empty(),
            };
            let inner_step = spec_insert_combining(
                entry_step.0,
                1i32,
                opt_elems_view(inner_roll_set_opt),
            );
            let inner_step2 = spec_insert_combining(
                inner_step.0,
                2i32,
                opt_elems_view(inner_roll_set2_opt),
            );
            let exit_step = spec_insert_combining(
                inner_step2.0,
                0i32,
                opt_elems_view(exit_roll_set_opt),
            );
            let suffix = match exit_step.1 {
                Some(v) => v,
                None => Seq::empty(),
            };
            prefix + exit_step.0 + suffix
        });
    }
    Ok(elements)
}

/// Whether an element is a combining marker of any selector.
pub open spec fn spec_is_marker(e: Element) -> bool {
    match e.elem_type {
        ElementType::Combining { .. } => true,
        _ => false,
    }
}

/// Whether any combining marker remains in the list.
pub open spec fn spec_has_marker(s: Seq<Element>) -> bool {
    exists|i: int| 0 <= i < s.len() && spec_is_marker(#[trigger] s[i])
}

/// Scans for a leftover combining marker.
pub fn has_combining_marker(elements: &Vec<Element>) -> (r: bool)
    ensures
        r == spec_has_marker(elements@),
{
    let mut i: usize = 0;
    while i < elements.len()
        invariant
            0 <= i <= elements@.len(),
            forall|j: int| 0 <= j < i ==> !spec_is_marker(#[trigger] elements@[j]),
        decreases elements.len() - i,
    {
        let m: bool = match elements[i].elem_type {
            ElementType::Combining { .. } => true,
            _ => false,
        };
        if m {
            return true;
        }
        i = i + 1;
    }
    false
}

/// The index of the last invertible radius at or before position `i`.
pub open spec fn spec_last_invertible_radius(s: Seq<Element>, i: int) -> Option<int>
    decreases i + 1,
{
    if i < 0 || i >= s.len() {
        None
    } else if s[i].elem_type == ElementType::Radius && s[i].matching >= 0 {
        Some(i)
    } else {
        spec_last_invertible_radius(s, i - 1)
    }
}

/// The transition line at a figure boundary.
pub open spec fn spec_boundary_line(inverted: bool) -> Element {
    if inverted {
        Element::invline(0i16)
    } else {
        Element::line(0i16)
    }
}

/// The raw element list of a figure body: a named figure's skeleton with
/// its roll sets spliced in, a bare roll set's elements, or the rolling
/// turn's generated elements. A turn multiplier outside the notation
/// marks a defect.
pub open spec fn spec_figure_body_elements(body: FigureBodyView) -> Result<
    Seq<Element>,
    OlanError,
> {
    match body {
        FigureBodyView::Named(n) => spec_named_figure_elements(
            n.entry_rolls,
            n.mnemonic,
            n.inner_rolls,
            n.inner_rolls2,
            n.exit_rolls,
        ),
        FigureBodyView::Rolling(tokens) => spec_resolve_rolls(tokens),
        FigureBodyView::RollingTurn { multiplier, kind, rolls } => if 1 <= multiplier <= 4 {
            Ok(figure_defs::rolling_turn_elements(multiplier, kind, rolls))
        } else {
            Err(OlanError::Defect)
        },
    }
}

/// Full resolution of one figure node, before sequence-level
/// post-processing.
///
/// The body's raw elements are built (a leftover combining marker is a
/// defect), the attitude pass stamps and normalizes them, entry inversion
/// is applied when the figure is entered inverted, and when the resulting
/// attitude disagrees with the notated exit transition the figure is
/// inverted from its last invertible radius onward; with no such radius
/// the correction degenerates to a no-op and the mismatch stands. The
/// result is bounded by the two notated transition lines.
pub open spec fn spec_parse_figure_node(node: FigureNodeView) -> Result<Seq<Element>, OlanError> {
    match spec_figure_body_elements(node.body) {
        Err(e) => Err(e),
        Ok(raw) => if spec_has_marker(raw) {
            Err(OlanError::Defect)
        } else {
            match spec_attitude_pass(raw) {
                Err(e) => Err(e),
                Ok(walked) => {
                    let body1 = if node.entry_inverted {
                        spec_invert_from(walked.0, 0)
                    } else {
                        walked.0
                    };
                    let att1 = if node.entry_inverted {
                        Attitude::spec_get_inverted(walked.1.current_attitude)
                    } else {
                        walked.1.current_attitude
                    };
                    let exit_att = if node.exit_inverted {
                        Attitude::Inverted
                    } else {
                        Attitude::Normal
                    };
                    let body2 = if att1 != exit_att {
                        match spec_last_invertible_radius(body1, body1.len() - 1) {
                            Some(idx) => spec_invert_from(body1, idx),
                            None => body1,
                        }
                    } else {
                        body1
                    };
                    Ok(
                        seq![spec_boundary_line(node.entry_inverted)] + body2 + seq![
                            spec_boundary_line(node.exit_inverted)
                        ],
                    )
                },
            }
        },
    }
}

/// Resolves one figure of the parse tree into its element list, bounded by
/// its transition lines; sequence-level post-processing is applied by
/// [`parse_sequence`].
pub fn parse_figure(node: &FigureNode) -> (r: Result<Figure, OlanError>)
    ensures
        match r {
            Ok(f) => spec_parse_figure_node(node@) == Ok::<Seq<Element>, OlanError>(f@),
            Err(e) => spec_parse_figure_node(node@) == Err::<Seq<Element>, OlanError>(e),
        },
{
    let mut figure_elements: Vec<Element> = match &node.body {
        FigureBody::Named(n) => match get_elements_for_named_figure(n) {
            Ok(v) => v,
            Err(e) => {
                return Err(e);
            },
        },
        FigureBody::Rolling(tokens) => match get_elements_for_roll_set(tokens) {
            Ok(v) => v,
            Err(e) => {
                return Err(e);
            },
        },
        FigureBody::RollingTurn { multiplier, kind, rolls } => {
            if *multiplier < 1 || *multiplier > 4 {
                return Err(OlanError::Defect);
            }
            figure_defs::get_elements_for_rolling_turn(*multiplier, *kind, *rolls)
        },
    };
    if has_combining_marker(&figure_elements) {
        return Err(OlanError::Defect);
    }
    let walk_state = match apply_roll_inversions(&mut figure_elements) {
        Ok(st) => st,
        Err(e) => {
            return Err(e);
        },
    };
    let mut current_attitude = walk_state.current_attitude;
    if node.entry_inverted {
        invert_figure_elements(&mut figure_elements, 0);
        current_attitude = Attitude::get_inverted(current_attitude);
    }
    let exit_attitude = if node.exit_inverted {
        Attitude::Inverted
    } else {
        Attitude::Normal
    };
    if current_attitude != exit_attitude {
        // Mismatched exit: step back to the last invertible radius. With
        // none, the inversion range degenerates to empty and the mismatch
        // is left standing.
        let mut k: usize = figure_elements.len();
        let mut found: Option<usize> = None;
        while k > 0 && found.is_none()
            invariant
                0 <= k <= figure_elements@.len(),
                match found {
                    None => spec_last_invertible_radius(
                        figure_elements@,
                        figure_elements@.len() - 1,
                    ) == spec_last_invertible_radius(figure_elements@, k - 1),
                    Some(idx) => idx < figure_elements@.len() && spec_last_invertible_radius(
                        figure_elements@,
                        figure_elements@.len() - 1,
                    ) == Some(idx as int),
                },
            decreases k,
        {
            k = k - 1;
            let e: Element = figure_elements[k];
            let invertible: bool = match e.elem_type {
                ElementType::Radius => e.matching >= 0,
                _ => false,
            };
            if invertible {
                found = Some(k);
            }
        }
        match found {
            Some(idx) => {
                invert_figure_elements(&mut figure_elements, idx);
            },
            None => {},
        }
    }
    let mut figure = Figure::new();
    if node.entry_inverted {
        figure.push(Element::invline(0));
    } else {
        figure.push(Element::line(0));
    }
    let ghost body_final = figure_elements@;
    figure.append(figure_elements);
    if node.exit_inverted {
        figure.push(Element::invline(0));
    } else {
        figure.push(Element::line(0));
    }
    proof {
        assert(figure@ =~= seq![spec_boundary_line(node.entry_inverted)] + body_final + seq![
            spec_boundary_line(node.exit_inverted)
        ]);
    }
    Ok(figure)
}

/// Radius merge is idempotent: applying the merge pass twice yields the
/// same element list as applying it once.
pub proof fn lemma_combine_contiguous_radii_idempotent(s: Seq<Element>)
    ensures
        spec_merge_radii(spec_merge_radii(s)) == spec_merge_radii(s),
{
    let u = spec_merge_radii(s);
    lemma_merge_no_mergeable(s, 0);
    lemma_merge_fixed(u, 0);
    assert(u.subrange(0, u.len() as int) =~= u);
}

// ------------------------------------------------------------------
// The figure invariant
// ------------------------------------------------------------------

/// The invariant of every fully resolved figure: it begins and ends with
/// a level transition line, and no combining marker remains.
pub open spec fn spec_figure_wf(s: Seq<Element>) -> bool {
    &&& s.len() >= 1
    &&& s[0].elem_type == ElementType::Line
    &&& s[0].main_angle == 0
    &&& s[s.len() - 1].elem_type == ElementType::Line
    &&& s[s.len() - 1].main_angle == 0
    &&& forall|i: int| 0 <= i < s.len() ==> !spec_is_marker(#[trigger] s[i])
}

/// The attitude pass changes angles and attitudes but never an element's
/// kind, so it cannot introduce combining markers.
proof fn lemma_walk_no_marker(s: Seq<Element>, i: int, st: AttitudeState, acc: Seq<Element>)
    requires
        !spec_has_marker(s),
        !spec_has_marker(acc),
    ensures
        spec_attitude_walk(s, i, st, acc) matches Ok(p) ==> !spec_has_marker(p.0),
    decreases s.len() - i,
{
    if 0 <= i < s.len() {
        match spec_walk_element(s[i], st) {
            Err(_) => {},
            Ok(step) => {
                assert(!spec_is_marker(s[i]));
                assert(step.0.elem_type == s[i].elem_type);
                let acc2 = acc.push(step.0);
                assert forall|k: int| 0 <= k < acc2.len() implies !spec_is_marker(
                    #[trigger] acc2[k],
                ) by {
                    if k < acc.len() {
                        assert(!spec_is_marker(acc[k]));
                    }
                }
                lemma_walk_no_marker(s, i + 1, step.1, acc2);
            },
        }
    }
}

/// Figure inversion never changes an element's kind, nor the pitch of a
/// line.
proof fn lemma_invert_keeps_kinds(s: Seq<Element>, from: int)
    ensures
        spec_invert_from(s, from).len() == s.len(),
        forall|k: int|
            0 <= k < s.len() ==> (#[trigger] spec_invert_from(s, from)[k]).elem_type
                == s[k].elem_type,
        forall|k: int|
            0 <= k < s.len() && s[k].elem_type == ElementType::Line ==> (
            #[trigger] spec_invert_from(s, from)[k]).main_angle == s[k].main_angle,
{
}

/// A resolved figure is bounded by its two transition lines and carries no
/// combining marker.
proof fn lemma_parse_figure_bounds(node: FigureNodeView)
    ensures
        spec_parse_figure_node(node) matches Ok(s) ==> s.len() >= 2 && s[0]
            == spec_boundary_line(node.entry_inverted) && s[s.len() - 1] == spec_boundary_line(
            node.exit_inverted,
        ) && !spec_has_marker(s),
{
    match spec_parse_figure_node(node) {
        Err(_) => {},
        Ok(s) => {
            let raw = spec_figure_body_elements(node.body)->Ok_0;
            lemma_walk_no_marker(raw, 0, initial_attitude_state(), Seq::empty());
            let walked = spec_attitude_pass(raw)->Ok_0;
            let body1 = if node.entry_inverted {
                spec_invert_from(walked.0, 0)
            } else {
                walked.0
            };
            lemma_invert_keeps_kinds(walked.0, 0);
            assert(!spec_has_marker(body1)) by {
                assert forall|k: int| 0 <= k < body1.len() implies !spec_is_marker(
                    #[trigger] body1[k],
                ) by {
                    assert(!spec_is_marker(walked.0[k]));
                }
            }
            let att1 = if node.entry_inverted {
                Attitude::spec_get_inverted(walked.1.current_attitude)
            } else {
                walked.1.current_attitude
            };
            let exit_att = if node.exit_inverted {
                Attitude::Inverted
            } else {
                Attitude::Normal
            };
            let body2 = if att1 != exit_att {
                match spec_last_invertible_radius(body1, body1.len() - 1) {
                    Some(idx) => spec_invert_from(body1, idx),
                    None => body1,
                }
            } else {
                body1
            };
            if att1 != exit_att {
                match spec_last_invertible_radius(body1, body1.len() - 1) {
                    Some(idx) => {
                        lemma_invert_keeps_kinds(body1, idx);
                    },
                    None => {},
                }
            }
            assert(!spec_has_marker(body2)) by {
                assert forall|k: int| 0 <= k < body2.len() implies !spec_is_marker(
                    #[trigger] body2[k],
                ) by {
                    assert(!spec_is_marker(body1[k]));
                }
            }
            assert(s == seq![spec_boundary_line(node.entry_inverted)] + body2 + seq![
                spec_boundary_line(node.exit_inverted)
            ]);
            assert forall|k: int| 0 <= k < s.len() implies !spec_is_marker(#[trigger] s[k]) by {
                if k == 0 {
                } else if k == s.len() - 1 {
                } else {
                    assert(s[k] == body2[k - 1]);
                }
            }
        },
    }
}

/// Collapsing duplicate lines keeps the first and last element values, and
/// introduces no combining marker.
proof fn lemma_dedup_props(s: Seq<Element>, i: int)
    requires
        0 <= i < s.len(),
    ensures
        spec_dedup_lines_from(s, i).len() >= 1,
        spec_dedup_lines_from(s, i)[0] == s[i],
        spec_dedup_lines_from(s, i).last() == s[s.len() - 1],
        !spec_has_marker(s) ==> !spec_has_marker(spec_dedup_lines_from(s, i)),
    decreases s.len() - i,
{
    let out = spec_dedup_lines_from(s, i);
    if i + 1 < s.len() && s[i].elem_type == ElementType::Line && s[i] == s[i + 1] {
        lemma_dedup_props(s, i + 1);
    } else if i == s.len() - 1 {
        assert(spec_dedup_lines_from(s, i + 1) =~= Seq::<Element>::empty());
        assert(out =~= seq![s[i]]);
        if !spec_has_marker(s) {
            assert(!spec_is_marker(s[i]));
            assert forall|k: int| 0 <= k < out.len() implies !spec_is_marker(
                #[trigger] out[k],
            ) by {}
        }
    } else {
        lemma_dedup_props(s, i + 1);
        let rest = spec_dedup_lines_from(s, i + 1);
        assert(out == seq![s[i]] + rest);
        assert(out.last() == rest.last());
        if !spec_has_marker(s) {
            assert forall|k: int| 0 <= k < out.len() implies !spec_is_marker(
                #[trigger] out[k],
            ) by {
                if k == 0 {
                    assert(!spec_is_marker(s[i]));
                } else {
                    assert(out[k] == rest[k - 1]);
                }
            }
        }
    }
}

/// Every element a merge run consumes is a plain radius.
proof fn lemma_run_consumed_plain(s: Seq<Element>, k: int, f: Element, t: int)
    requires
        0 <= k,
    ensures
        forall|idx: int|
            k <= idx < k + spec_run_len(s, k, f, t) ==> spec_is_plain_radius(#[trigger] s[idx]),
    decreases s.len() - k,
{
    if 0 <= k < s.len() && spec_can_extend(f, t, s[k]) {
        lemma_run_consumed_plain(s, k + 1, f, t + s[k].main_angle);
    }
}

/// When a figure ends in something other than a plain radius, the merge
/// pass keeps its last element, keeps a non-radius first element, and
/// introduces no combining marker.
proof fn lemma_merge_props(s: Seq<Element>, i: int)
    requires
        0 <= i <= s.len(),
        s.len() > 0,
        !spec_is_plain_radius(s[s.len() - 1]),
    ensures
        i < s.len() ==> spec_merge_radii_from(s, i).len() >= 1,
        i < s.len() ==> spec_merge_radii_from(s, i).last() == s[s.len() - 1],
        i < s.len() && !spec_is_plain_radius(s[i]) ==> spec_merge_radii_from(s, i)[0] == s[i],
        !spec_has_marker(s) ==> !spec_has_marker(spec_merge_radii_from(s, i)),
    decreases s.len() - i,
{
    if i >= s.len() {
        return ;
    }
    let out = spec_merge_radii_from(s, i);
    if !spec_is_plain_radius(s[i]) {
        let rest = spec_merge_radii_from(s, i + 1);
        lemma_merge_props(s, i + 1);
        if i == s.len() - 1 {
            assert(out =~= seq![s[i]]);
        } else {
            assert(out.last() == rest.last());
        }
        if !spec_has_marker(s) {
            assert forall|k: int| 0 <= k < out.len() implies !spec_is_marker(
                #[trigger] out[k],
            ) by {
                if k == 0 {
                    assert(!spec_is_marker(s[i]));
                } else {
                    assert(out[k] == rest[k - 1]);
                }
            }
        }
    } else {
        let n = spec_run_len(s, i + 1, s[i], s[i].main_angle as int);
        let jj = i + 1 + n;
        lemma_run_len_bound(s, i + 1, s[i], s[i].main_angle as int);
        lemma_run_consumed_plain(s, i + 1, s[i], s[i].main_angle as int);
        assert(jj <= s.len());
        if jj == s.len() {
            // the run would have consumed the last element, which is not a
            // plain radius
            if n == 0 {
                assert(i == s.len() - 1);
                assert(false);
            } else {
                assert(spec_is_plain_radius(s[jj - 1]));
                assert(false);
            }
        }
        let rest = spec_merge_radii_from(s, jj);
        lemma_merge_props(s, jj);
        let m1 = Element {
            main_angle: spec_run_total(s, i + 1, s[i], s[i].main_angle as int) as i16,
            ..s[i]
        };
        assert(out == seq![m1] + rest);
        assert(out.last() == rest.last());
        if !spec_has_marker(s) {
            assert forall|k: int| 0 <= k < out.len() implies !spec_is_marker(
                #[trigger] out[k],
            ) by {
                if k == 0 {
                    assert(out[0] == m1);
                    assert(m1.elem_type == s[i].elem_type);
                    assert(!spec_is_marker(s[i]));
                } else {
                    assert(out[k] == rest[k - 1]);
                }
            }
        }
    }
}

// ------------------------------------------------------------------
// The top-level parse
// ------------------------------------------------------------------

/// Copies an ASCII string into its character sequence.
fn str_to_chars(s: &str) -> (r: Vec<char>)
    requires
        s.is_ascii(),
    ensures
        r@ == s@,
{
    proof {
        vstd::string::is_ascii_spec_bytes(s);
    }
    let bytes: &[u8] = s.as_bytes();
    let n: usize = bytes.len();
    let mut out: Vec<char> = Vec::new();
    let mut i: usize = 0;
    while i < n
        invariant
            0 <= i <= n,
            n == bytes@.len(),
            bytes@.len() == s@.len(),
            forall|k: int| 0 <= k < s@.len() ==> bytes@[k] == #[trigger] s@[k] as u8,
            forall|k: int| 0 <= k < s@.len() ==> '\0' <= #[trigger] s@[k] <= '\u{7f}',
            out@.len() == i,
            forall|k: int| 0 <= k < i ==> out@[k] == s@[k],
        decreases n - i,
    {
        let b: u8 = bytes[i];
        let c: char = b as char;
        proof {
            assert(b == s@[i as int] as u8);
            assert(c == s@[i as int]);
        }
        out.push(c);
        i = i + 1;
    }
    assert(out@ =~= s@);
    out
}

/// One fully resolved and post-processed figure of the sequence.
pub open spec fn spec_resolved_figure(node: FigureNodeView) -> Result<Seq<Element>, OlanError> {
    match spec_parse_figure_node(node) {
        Err(e) => Err(e),
        Ok(s) => Ok(spec_merge_radii(spec_dedup_lines(s))),
    }
}

/// Resolution of a parse tree, one figure per node, in order; the first
/// node that fails decides the error.
pub open spec fn spec_resolve_nodes(
    nodes: Seq<FigureNodeView>,
    i: int,
    acc: Seq<Seq<Element>>,
) -> Result<Seq<Seq<Element>>, OlanError>
    decreases nodes.len() - i,
{
    if i < 0 || i >= nodes.len() {
        Ok(acc)
    } else {
        match spec_resolved_figure(nodes[i]) {
            Err(e) => Err(e),
            Ok(f) => spec_resolve_nodes(nodes, i + 1, acc.push(f)),
        }
    }
}

/// What parsing an OLAN string returns: a syntax error on text outside
/// the grammar (non-ASCII text never matches it), and otherwise one
/// resolved, post-processed figure per figure node of the parse tree.
pub open spec fn spec_parse_sequence(text: Seq<char>) -> Result<Seq<Seq<Element>>, OlanError> {
    if !vstd::utf8::is_ascii_chars(text) {
        Err(OlanError::Syntax)
    } else {
        match crate::olan::syntax::spec_lex_sequence(text) {
            Err(e) => Err(e),
            Ok(nodes) => spec_resolve_nodes(nodes, 0, Seq::empty()),
        }
    }
}

/// Parses a whole OLAN sequence string into its resolved figures.
///
/// The result is exactly [`spec_parse_sequence`] of the text: the
/// tokenizer's parse tree resolved figure by figure, each figure's
/// duplicate transition lines collapsed and its contiguous compatible
/// radii merged. On success the sequence holds one figure per figure
/// part of the text (positioning tags yield none), and every figure
/// satisfies the figure invariant: it begins and ends with a level
/// transition line and contains no combining marker. A string that does
/// not match the grammar yields a syntax error; a grammar-validated
/// value outside the catalog or roll tables yields a defect error.
pub fn parse_sequence(olan_string: String) -> (r: Result<Sequence, OlanError>)
    ensures
        match r {
            Ok(sq) => spec_parse_sequence(olan_string@) == Ok::<Seq<Seq<Element>>, OlanError>(sq@)
                && sq@.len() == crate::olan::syntax::spec_figure_part_count(olan_string@, 0) && (
            forall|i: int| 0 <= i < sq@.len() ==> spec_figure_wf(#[trigger] sq@[i])),
            Err(e) => spec_parse_sequence(olan_string@) == Err::<Seq<Seq<Element>>, OlanError>(e),
        },
{
    let s: &str = olan_string.as_str();
    if !s.is_ascii() {
        return Err(OlanError::Syntax);
    }
    proof {
        assert(vstd::utf8::is_ascii_chars(olan_string@));
    }
    let chars: Vec<char> = str_to_chars(s);
    let nodes = match crate::olan::syntax::lex_sequence(&chars) {
        Ok(v) => v,
        Err(e) => {
            return Err(e);
        },
    };
    let ghost node_views: Seq<FigureNodeView> = nodes@.map_values(|n: FigureNode| n@);
    let mut sequence = Sequence::new();
    let mut idx: usize = 0;
    while idx < nodes.len()
        invariant
            vstd::utf8::is_ascii_chars(olan_string@),
            crate::olan::syntax::spec_lex_sequence(olan_string@) == Ok::<
                Seq<FigureNodeView>,
                OlanError,
            >(node_views),
            node_views == nodes@.map_values(|n: FigureNode| n@),
            0 <= idx <= nodes@.len(),
            sequence@.len() == idx,
            nodes@.len() == crate::olan::syntax::spec_figure_part_count(olan_string@, 0),
            spec_resolve_nodes(node_views, 0, Seq::empty()) == spec_resolve_nodes(
                node_views,
                idx as int,
                sequence@,
            ),
            forall|i: int| 0 <= i < sequence@.len() ==> spec_figure_wf(#[trigger] sequence@[i]),
        decreases nodes.len() - idx,
    {
        proof {
            assert(node_views[idx as int] == nodes@[idx as int]@);
        }
        let mut figure = match parse_figure(&nodes[idx]) {
            Ok(f) => f,
            Err(e) => {
                return Err(e);
            },
        };
        proof {
            lemma_parse_figure_bounds(node_views[idx as int]);
        }
        let ghost resolved = figure@;
        // Remove doubled lines, then merge contiguous radii
        remove_duplicate_lines(&mut figure.elements);
        proof {
            lemma_dedup_props(resolved, 0);
        }
        let ghost deduped = figure@;
        combine_contiguous_radii(&mut figure);
        proof {
            assert(deduped.last() == resolved[resolved.len() - 1]);
            assert(deduped[0] == resolved[0]);
            lemma_merge_props(deduped, 0);
            assert(spec_figure_wf(figure@));
            assert(spec_resolved_figure(node_views[idx as int]) == Ok::<Seq<Element>, OlanError>(
                figure@,
            ));
        }
        sequence.push(figure);
        idx = idx + 1;
    }
    Ok(sequence)
}

} // verus!
