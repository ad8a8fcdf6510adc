//! Data model for resolved aerobatic figures: element kinds, attitudes,
//! roll kinds, and the `Element`/`Figure`/`Sequence` containers.

use vstd::prelude::*;

verus! {

/// Element kinds that a combining slot may stand in for.
#[derive(Clone, Copy, Debug, PartialEq, Eq, Structural)]
pub enum CombinableElementType {
    Line,
    Radius,
    Turn,
}

#[derive(Clone, Copy, Debug, PartialEq, Eq, Structural)]
pub enum ElementType {
    /// Main angle defines angle between forward direction and ground.
    /// Auxiliary angle defines rolls.
    /// Matching specifies a line matching identifier: all lines with the same
    /// identifier in a figure should have the same length.
    Line,
    /// Main angle defines pull (+ve) or push (-ve) angle.
    /// Auxiliary angle defines rolls.
    /// Matching specifies a radius matching identifier: all radii with the
    /// same identifier in a figure should have the same radius.
    /// If matching is negative, the radius cannot be inverted to make the
    /// exit attitude match.
    Radius,
    /// Main angle defines turn angle.
    /// Auxiliary angle defines roll; positive is towards inside, negative
    /// towards outside.
    Turn,
    /// Main angle defines yaw between entry and exit.
    /// Auxiliary angle defines pitch between entry and exit.
    Stall,
    /// Insertion point for combining elements in a figure.
    /// Selector -1 takes rolls from before the figure, 0 takes rolls from
    /// after the figure, and 1 or 2 take the first or second inner roll set.
    Combining { base_type: CombinableElementType, roll_selector: i32 },
}

impl ElementType {
    /// Whether a combining slot may use this kind as its base.
    pub open spec fn is_combinable(self) -> bool {
        match self {
            ElementType::Line => true,
            ElementType::Radius => true,
            ElementType::Turn => true,
            _ => false,
        }
    }
}

#[derive(Clone, Copy, Debug, PartialEq, Eq, Structural)]
pub enum Attitude {
    Normal,
    Inverted,
    KnifeEdge,
}

impl Attitude {
    /// The attitude after an inversion flip; knife-edge flight is unaffected.
    pub open spec fn spec_get_inverted(attitude: Attitude) -> Attitude {
        match attitude {
            Attitude::Normal => Attitude::Inverted,
            Attitude::Inverted => Attitude::Normal,
            Attitude::KnifeEdge => Attitude::KnifeEdge,
        }
    }

    #[verifier::when_used_as_spec(spec_get_inverted)]
    pub fn get_inverted(attitude: Attitude) -> (r: Attitude)
        ensures
            r == Attitude::spec_get_inverted(attitude),
    {
        match attitude {
            Attitude::Normal => Attitude::Inverted,
            Attitude::Inverted => Attitude::Normal,
            _ => attitude,
        }
    }
}

#[derive(Clone, Copy, Debug, PartialEq, Eq, Structural)]
pub enum RollType {
    NoRoll,
    Standard,
    Flick,
    InvertedFlick,
    Spin,
    InvertedSpin,
    HesitationHalves,
    HesitationQuarters,
    HesitationEighths,
}

/// Why parsing an OLAN string failed.
#[derive(Clone, Copy, Debug, PartialEq, Eq, Structural)]
pub enum OlanError {
    /// The input text does not match the OLAN grammar.
    Syntax,
    /// A value that satisfies the grammar failed an internal table lookup
    /// or numeric conversion: the catalog and the grammar have drifted out
    /// of sync. This is a defect, not a user error.
    Defect,
}

impl OlanError {
    pub open spec fn spec_describe(self) -> Seq<char> {
        match self {
            OlanError::Syntax => "input does not match the OLAN grammar"@,
            OlanError::Defect => "catalog and grammar are out of sync"@,
        }
    }

    /// A short diagnostic for the caller.
    pub fn describe(&self) -> (r: &'static str)
        ensures
            r@ == self.spec_describe(),
    {
        match self {
            OlanError::Syntax => "input does not match the OLAN grammar",
            OlanError::Defect => "catalog and grammar are out of sync",
        }
    }
}

/// One geometric or maneuver primitive of a figure.
#[derive(Clone, Copy, Debug, PartialEq, Eq, Structural)]
pub struct Element {
    pub elem_type: ElementType,
    pub attitude: Attitude,
    pub main_angle: i16,
    pub aux_angle: i16,
    pub roll_type: RollType,
    pub matching: i32,
}

impl Element {
    pub open spec fn spec_new(elem_type: ElementType) -> Element {
        Element {
            elem_type: elem_type,
            attitude: Attitude::Normal,
            main_angle: 0,
            aux_angle: 0,
            roll_type: RollType::NoRoll,
            matching: 0,
        }
    }

    #[verifier::when_used_as_spec(spec_new)]
    pub fn new(elem_type: ElementType) -> (e: Element)
        ensures
            e == Element::spec_new(elem_type),
    {
        Element {
            elem_type: elem_type,
            attitude: Attitude::Normal,
            main_angle: 0,
            aux_angle: 0,
            roll_type: RollType::NoRoll,
            matching: 0,
        }
    }

    pub open spec fn spec_line(angle: i16) -> Element {
        Element { main_angle: angle, ..Element::spec_new(ElementType::Line) }
    }

    #[verifier::when_used_as_spec(spec_line)]
    pub fn line(angle: i16) -> (e: Element)
        ensures
            e == Element::spec_line(angle),
    {
        Element { main_angle: angle, ..Element::new(ElementType::Line) }
    }

    pub open spec fn spec_invline(angle: i16) -> Element {
        Element { attitude: Attitude::Inverted, ..Element::spec_line(angle) }
    }

    #[verifier::when_used_as_spec(spec_invline)]
    pub fn invline(angle: i16) -> (e: Element)
        ensures
            e == Element::spec_invline(angle),
    {
        Element { attitude: Attitude::Inverted, ..Element::line(angle) }
    }

    pub open spec fn spec_keline(angle: i16) -> Element {
        Element { attitude: Attitude::KnifeEdge, ..Element::spec_line(angle) }
    }

    #[verifier::when_used_as_spec(spec_keline)]
    pub fn keline(angle: i16) -> (e: Element)
        ensures
            e == Element::spec_keline(angle),
    {
        Element { attitude: Attitude::KnifeEdge, ..Element::line(angle) }
    }

    pub open spec fn spec_radius(angle: i16) -> Element {
        Element { main_angle: angle, ..Element::spec_new(ElementType::Radius) }
    }

    #[verifier::when_used_as_spec(spec_radius)]
    pub fn radius(angle: i16) -> (e: Element)
        ensures
            e == Element::spec_radius(angle),
    {
        Element { main_angle: angle, ..Element::new(ElementType::Radius) }
    }

    pub open spec fn spec_invradius(angle: i16) -> Element {
        Element { attitude: Attitude::Inverted, ..Element::spec_radius(angle) }
    }

    #[verifier::when_used_as_spec(spec_invradius)]
    pub fn invradius(angle: i16) -> (e: Element)
        ensures
            e == Element::spec_invradius(angle),
    {
        Element { attitude: Attitude::Inverted, ..Element::radius(angle) }
    }

    pub open spec fn spec_stall(yaw: i16, pitch: i16) -> Element {
        Element { main_angle: yaw, aux_angle: pitch, ..Element::spec_new(ElementType::Stall) }
    }

    #[verifier::when_used_as_spec(spec_stall)]
    pub fn stall(yaw: i16, pitch: i16) -> (e: Element)
        ensures
            e == Element::spec_stall(yaw, pitch),
    {
        Element { main_angle: yaw, aux_angle: pitch, ..Element::new(ElementType::Stall) }
    }

    /// The combinable kind of a base element; callers only use this on
    /// combinable kinds.
    pub open spec fn spec_base_kind(t: ElementType) -> CombinableElementType {
        match t {
            ElementType::Radius => CombinableElementType::Radius,
            ElementType::Turn => CombinableElementType::Turn,
            _ => CombinableElementType::Line,
        }
    }

    pub open spec fn spec_combining(roll_selector: i32, base_element: Element) -> Element
        recommends
            base_element.elem_type.is_combinable(),
    {
        Element {
            elem_type: ElementType::Combining {
                base_type: Element::spec_base_kind(base_element.elem_type),
                roll_selector: roll_selector,
            },
            ..base_element
        }
    }

    #[verifier::when_used_as_spec(spec_combining)]
    pub fn combining(roll_selector: i32, base_element: Element) -> (e: Element)
        requires
            base_element.elem_type.is_combinable(),
        ensures
            e == Element::spec_combining(roll_selector, base_element),
    {
        let base_type = match base_element.elem_type {
            ElementType::Line => CombinableElementType::Line,
            ElementType::Radius => CombinableElementType::Radius,
            ElementType::Turn => CombinableElementType::Turn,
            _ => CombinableElementType::Line,
        };
        Element {
            elem_type: ElementType::Combining { base_type: base_type, roll_selector: roll_selector },
            ..base_element
        }
    }
}

/// One flown maneuver: an ordered element list bounded by transition lines.
#[derive(Debug)]
pub struct Figure {
    pub elements: Vec<Element>,
}

impl View for Figure {
    type V = Seq<Element>;

    open spec fn view(&self) -> Seq<Element> {
        self.elements@
    }
}

impl Figure {
    pub fn new() -> (f: Figure)
        ensures
            f@ == Seq::<Element>::empty(),
    {
        Figure { elements: Vec::new() }
    }

    pub fn append(self: &mut Figure, mut new_elements: Vec<Element>)
        ensures
            final(self)@ == old(self)@ + new_elements@,
    {
        self.elements.append(&mut new_elements);
    }

    pub fn push(self: &mut Figure, new_element: Element)
        ensures
            final(self)@ == old(self)@.push(new_element),
    {
        self.elements.push(new_element);
    }
}

/// An ordered list of figures, one per flown maneuver, in flown order.
#[derive(Debug)]
pub struct Sequence {
    pub figures: Vec<Figure>,
}

impl View for Sequence {
    type V = Seq<Seq<Element>>;

    open spec fn view(&self) -> Seq<Seq<Element>> {
        self.figures@.map_values(|f: Figure| f@)
    }
}

impl Sequence {
    pub fn new() -> (s: Sequence)
        ensures
            s@ == Seq::<Seq<Element>>::empty(),
    {
        Sequence { figures: Vec::new() }
    }

    pub fn append(self: &mut Sequence, mut new_figures: Vec<Figure>)
        ensures
            final(self)@ == old(self)@ + new_figures@.map_values(|f: Figure| f@),
    {
        self.figures.append(&mut new_figures);
    }

    pub fn push(self: &mut Sequence, new_figure: Figure)
        ensures
            final(self)@ == old(self)@.push(new_figure@),
    {
        self.figures.push(new_figure);
    }
}

} // verus!
