//! The parse tree that the tokenizer hands to the semantic resolver —
//! roll tokens, figure bodies, and per-figure transition attitudes — and
//! the tokenizer itself, specified by a spec-level mirror
//! ([`spec_lex_sequence`]) that fixes the parse tree of every input.

use vstd::prelude::*;

use crate::olan::figure_defs;
use crate::olan::figure_defs::Mnemonic;
use crate::types::OlanError;

verus! {

/// The spelled kind of a single roll token.
#[derive(Clone, Copy, Debug, PartialEq, Eq, Structural)]
pub enum RollKind {
    /// A bare angle digit.
    Plain,
    /// Hesitation roll in half-roll steps (subtype digit 2).
    Halves,
    /// Hesitation roll in quarter-roll steps (subtype digit 4).
    Quarters,
    /// Hesitation roll in eighth-roll steps (subtype digit 8).
    Eighths,
    /// `f`
    Flick,
    /// `if`
    InvertedFlick,
    /// `s`
    Spin,
    /// `is`
    InvertedSpin,
}

/// One token of a roll set.
#[derive(Clone, Copy, Debug, PartialEq, Eq, Structural)]
pub enum RollToken {
    /// An angle digit with its spelled kind; flick and spin keywords carry
    /// an implicit angle digit of 1.
    Roll { digit: u8, kind: RollKind },
    /// A separator that swaps roll direction for the tokens after it.
    Swap,
}

/// The rolling-turn keyword: roll direction relative to the turn.
#[derive(Clone, Copy, Debug, PartialEq, Eq, Structural)]
pub enum TurnKind {
    /// `j`: rolling towards the inside of the turn.
    J,
    /// `jo`: rolling towards the outside of the turn.
    Jo,
    /// `joi`: alternating rolls, starting towards the outside.
    Joi,
    /// `jio`: alternating rolls, starting towards the inside.
    Jio,
}

/// How many rolls a rolling turn carries.
#[derive(Clone, Copy, Debug, PartialEq, Eq, Structural)]
pub enum TurnRollCount {
    Zero,
    One,
    OneAndAHalf,
    Two,
    Three,
    Four,
}

/// A named figure together with the roll sets notated around it.
pub struct NamedFigureNode {
    /// Roll set written before the mnemonic.
    pub entry_rolls: Option<Vec<RollToken>>,
    pub mnemonic: Mnemonic,
    /// First parenthesized inner roll set.
    pub inner_rolls: Option<Vec<RollToken>>,
    /// Second parenthesized inner roll set.
    pub inner_rolls2: Option<Vec<RollToken>>,
    /// Roll set written after the mnemonic.
    pub exit_rolls: Option<Vec<RollToken>>,
}

/// The body of one figure of a sequence.
pub enum FigureBody {
    Named(NamedFigureNode),
    /// A bare roll set flown on a level line; possibly empty.
    Rolling(Vec<RollToken>),
    /// A rolling turn: turn angle is 90 degrees times the multiplier.
    RollingTurn { multiplier: u8, kind: TurnKind, rolls: TurnRollCount },
}

/// One figure of the parse tree: a body between two transitions.
pub struct FigureNode {
    pub entry_inverted: bool,
    pub exit_inverted: bool,
    pub body: FigureBody,
}

// ------------------------------------------------------------------
// Mathematical views of the parse tree
// ------------------------------------------------------------------

/// The token sequences of an optional roll-set vector.
pub open spec fn opt_tokens_view(o: Option<Vec<RollToken>>) -> Option<Seq<RollToken>> {
    match o {
        Some(v) => Some(v@),
        None => None,
    }
}

/// The mathematical view of a named figure node.
pub struct NamedFigureNodeView {
    pub entry_rolls: Option<Seq<RollToken>>,
    pub mnemonic: Mnemonic,
    pub inner_rolls: Option<Seq<RollToken>>,
    pub inner_rolls2: Option<Seq<RollToken>>,
    pub exit_rolls: Option<Seq<RollToken>>,
}

/// The mathematical view of a figure body.
pub enum FigureBodyView {
    Named(NamedFigureNodeView),
    Rolling(Seq<RollToken>),
    RollingTurn { multiplier: u8, kind: TurnKind, rolls: TurnRollCount },
}

/// The mathematical view of a figure node.
pub struct FigureNodeView {
    pub entry_inverted: bool,
    pub exit_inverted: bool,
    pub body: FigureBodyView,
}

impl View for NamedFigureNode {
    type V = NamedFigureNodeView;

    open spec fn view(&self) -> NamedFigureNodeView {
        NamedFigureNodeView {
            entry_rolls: opt_tokens_view(self.entry_rolls),
            mnemonic: self.mnemonic,
            inner_rolls: opt_tokens_view(self.inner_rolls),
            inner_rolls2: opt_tokens_view(self.inner_rolls2),
            exit_rolls: opt_tokens_view(self.exit_rolls),
        }
    }
}

impl View for FigureBody {
    type V = FigureBodyView;

    open spec fn view(&self) -> FigureBodyView {
        match self {
            FigureBody::Named(n) => FigureBodyView::Named(n@),
            FigureBody::Rolling(tokens) => FigureBodyView::Rolling(tokens@),
            FigureBody::RollingTurn { multiplier, kind, rolls } => FigureBodyView::RollingTurn {
                multiplier: *multiplier,
                kind: *kind,
                rolls: *rolls,
            },
        }
    }
}

impl View for FigureNode {
    type V = FigureNodeView;

    open spec fn view(&self) -> FigureNodeView {
        FigureNodeView {
            entry_inverted: self.entry_inverted,
            exit_inverted: self.exit_inverted,
            body: self.body@,
        }
    }
}

// ------------------------------------------------------------------
// Character classes
// ------------------------------------------------------------------

/// Whether a character may stand in a transition or line extension:
/// length marks, softness marks, the inversion dash, and figure-shape
/// modifiers that carry no meaning for element resolution.
pub open spec fn spec_is_extension(c: char) -> bool {
    c == '-' || c == '.' || c == '\'' || c == '`' || c == '~' || c == '+' || c == '/' || c == '!'
}

fn is_extension_char(c: char) -> (r: bool)
    ensures
        r == spec_is_extension(c),
{
    c == '-' || c == '.' || c == '\'' || c == '`' || c == '~' || c == '+' || c == '/' || c == '!'
}

pub open spec fn spec_is_whitespace(c: char) -> bool {
    c == ' ' || c == '\t' || c == '\n' || c == '\r'
}

fn is_whitespace_char(c: char) -> (r: bool)
    ensures
        r == spec_is_whitespace(c),
{
    c == ' ' || c == '\t' || c == '\n' || c == '\r'
}

pub open spec fn spec_is_digit(c: char) -> bool {
    c == '0' || c == '1' || c == '2' || c == '3' || c == '4' || c == '5' || c == '6' || c == '7'
        || c == '8' || c == '9'
}

/// The numeric value of an ASCII digit; meaningful only on digits.
pub open spec fn spec_digit_value(c: char) -> u8 {
    if c == '0' {
        0u8
    } else if c == '1' {
        1u8
    } else if c == '2' {
        2u8
    } else if c == '3' {
        3u8
    } else if c == '4' {
        4u8
    } else if c == '5' {
        5u8
    } else if c == '6' {
        6u8
    } else if c == '7' {
        7u8
    } else if c == '8' {
        8u8
    } else {
        9u8
    }
}

fn digit_value(c: char) -> (r: Option<u8>)
    ensures
        r is Some <==> spec_is_digit(c),
        r matches Some(v) ==> v == spec_digit_value(c) && v <= 9,
{
    match c {
        '0' => Some(0u8),
        '1' => Some(1u8),
        '2' => Some(2u8),
        '3' => Some(3u8),
        '4' => Some(4u8),
        '5' => Some(5u8),
        '6' => Some(6u8),
        '7' => Some(7u8),
        '8' => Some(8u8),
        '9' => Some(9u8),
        _ => None,
    }
}

// ------------------------------------------------------------------
// Scanning helpers
// ------------------------------------------------------------------

/// Whether every character of `s[pos..end]` is an extension character.
pub open spec fn spec_rest_is_extension(s: Seq<char>, pos: int, end: int) -> bool {
    forall|k: int| pos <= k < end ==> spec_is_extension(#[trigger] s[k])
}

fn rest_is_extension(chars: &Vec<char>, pos: usize, end: usize) -> (r: bool)
    requires
        pos <= end <= chars@.len(),
    ensures
        r == spec_rest_is_extension(chars@, pos as int, end as int),
{
    let mut i: usize = pos;
    while i < end
        invariant
            pos <= i <= end <= chars@.len(),
            forall|k: int| pos <= k < i ==> spec_is_extension(#[trigger] chars@[k]),
        decreases end - i,
    {
        if !is_extension_char(chars[i]) {
            return false;
        }
        i = i + 1;
    }
    true
}

/// Whether `s[pos..end]` contains an inversion dash.
pub open spec fn spec_contains_dash(s: Seq<char>, pos: int, end: int) -> bool {
    exists|k: int| pos <= k < end && #[trigger] s[k] == '-'
}

fn contains_dash(chars: &Vec<char>, pos: usize, end: usize) -> (r: bool)
    requires
        pos <= end <= chars@.len(),
    ensures
        r == spec_contains_dash(chars@, pos as int, end as int),
{
    let mut i: usize = pos;
    while i < end
        invariant
            pos <= i <= end <= chars@.len(),
            forall|k: int| pos <= k < i ==> #[trigger] chars@[k] != '-',
        decreases end - i,
    {
        if chars[i] == '-' {
            return true;
        }
        i = i + 1;
    }
    false
}

/// The end of the leading extension run that starts at `i`.
pub open spec fn spec_extension_end(s: Seq<char>, i: int, end: int) -> int
    decreases end - i,
{
    if 0 <= i < end <= s.len() && spec_is_extension(s[i]) {
        spec_extension_end(s, i + 1, end)
    } else {
        i
    }
}

// ------------------------------------------------------------------
// Token-level matchers
// ------------------------------------------------------------------

/// The longest figure mnemonic starting at `pos`, with its spelled length.
pub open spec fn spec_match_mnemonic(s: Seq<char>, pos: int, end: int) -> Option<(Mnemonic, int)> {
    if end - pos >= 4 && figure_defs::spec_lookup_mnemonic_4(
        s[pos],
        s[pos + 1],
        s[pos + 2],
        s[pos + 3],
    ) is Some {
        Some((figure_defs::spec_lookup_mnemonic_4(s[pos], s[pos + 1], s[pos + 2], s[pos + 3])->0, 4))
    } else if end - pos >= 3 && figure_defs::spec_lookup_mnemonic_3(s[pos], s[pos + 1], s[pos + 2])
        is Some {
        Some((figure_defs::spec_lookup_mnemonic_3(s[pos], s[pos + 1], s[pos + 2])->0, 3))
    } else if end - pos >= 2 && figure_defs::spec_lookup_mnemonic_2(s[pos], s[pos + 1]) is Some {
        Some((figure_defs::spec_lookup_mnemonic_2(s[pos], s[pos + 1])->0, 2))
    } else if figure_defs::spec_lookup_mnemonic_1(s[pos]) is Some {
        Some((figure_defs::spec_lookup_mnemonic_1(s[pos])->0, 1))
    } else {
        None
    }
}

fn match_mnemonic(chars: &Vec<char>, pos: usize, end: usize) -> (r: Option<(Mnemonic, usize)>)
    requires
        pos < end <= chars@.len(),
    ensures
        match r {
            Some(p) => 1 <= p.1 <= end - pos && spec_match_mnemonic(chars@, pos as int, end as int)
                == Some((p.0, p.1 as int)),
            None => spec_match_mnemonic(chars@, pos as int, end as int) is None,
        },
{
    if end - pos >= 4 {
        let m = figure_defs::lookup_mnemonic_4(
            chars[pos],
            chars[pos + 1],
            chars[pos + 2],
            chars[pos + 3],
        );
        if let Some(mn) = m {
            return Some((mn, 4));
        }
    }
    if end - pos >= 3 {
        let m = figure_defs::lookup_mnemonic_3(chars[pos], chars[pos + 1], chars[pos + 2]);
        if let Some(mn) = m {
            return Some((mn, 3));
        }
    }
    if end - pos >= 2 {
        let m = figure_defs::lookup_mnemonic_2(chars[pos], chars[pos + 1]);
        if let Some(mn) = m {
            return Some((mn, 2));
        }
    }
    let m = figure_defs::lookup_mnemonic_1(chars[pos]);
    if let Some(mn) = m {
        return Some((mn, 1));
    }
    None
}

/// The flick or spin keyword starting at `pos`, with its spelled length.
pub open spec fn spec_match_flick_spin(s: Seq<char>, pos: int, end: int) -> Option<
    (RollKind, int),
> {
    if s[pos] == 'i' && pos + 1 < end {
        if s[pos + 1] == 'f' {
            Some((RollKind::InvertedFlick, 2))
        } else if s[pos + 1] == 's' {
            Some((RollKind::InvertedSpin, 2))
        } else {
            None
        }
    } else if s[pos] == 'f' {
        Some((RollKind::Flick, 1))
    } else if s[pos] == 's' {
        Some((RollKind::Spin, 1))
    } else {
        None
    }
}

fn match_flick_spin(chars: &Vec<char>, pos: usize, end: usize) -> (r: Option<(RollKind, usize)>)
    requires
        pos < end <= chars@.len(),
    ensures
        match r {
            Some(p) => 1 <= p.1 <= end - pos && spec_match_flick_spin(
                chars@,
                pos as int,
                end as int,
            ) == Some((p.0, p.1 as int)),
            None => spec_match_flick_spin(chars@, pos as int, end as int) is None,
        },
{
    let c = chars[pos];
    if c == 'i' && pos + 1 < end {
        if chars[pos + 1] == 'f' {
            return Some((RollKind::InvertedFlick, 2));
        }
        if chars[pos + 1] == 's' {
            return Some((RollKind::InvertedSpin, 2));
        }
        return None;
    }
    if c == 'f' {
        return Some((RollKind::Flick, 1));
    }
    if c == 's' {
        return Some((RollKind::Spin, 1));
    }
    None
}

/// A roll token spelled as an angle digit with an optional subtype: a
/// hesitation digit, or a flick or spin keyword; the angle digit must be
/// 1 to 9.
pub open spec fn spec_parse_roll_digits(s: Seq<char>, pos: int, end: int) -> Result<
    (RollToken, int),
    OlanError,
> {
    if !spec_is_digit(s[pos]) {
        Err(OlanError::Syntax)
    } else {
        let d = spec_digit_value(s[pos]);
        if d == 0 {
            Err(OlanError::Syntax)
        } else if pos + 1 < end && s[pos + 1] == '2' {
            Ok((RollToken::Roll { digit: d, kind: RollKind::Halves }, pos + 2))
        } else if pos + 1 < end && s[pos + 1] == '4' {
            Ok((RollToken::Roll { digit: d, kind: RollKind::Quarters }, pos + 2))
        } else if pos + 1 < end && s[pos + 1] == '8' {
            Ok((RollToken::Roll { digit: d, kind: RollKind::Eighths }, pos + 2))
        } else if pos + 1 < end && spec_match_flick_spin(s, pos + 1, end) is Some {
            let fs = spec_match_flick_spin(s, pos + 1, end)->0;
            Ok((RollToken::Roll { digit: d, kind: fs.0 }, pos + 1 + fs.1))
        } else {
            Ok((RollToken::Roll { digit: d, kind: RollKind::Plain }, pos + 1))
        }
    }
}

proof fn lemma_roll_digits_bounds(s: Seq<char>, pos: int, end: int)
    requires
        0 <= pos < end,
    ensures
        spec_parse_roll_digits(s, pos, end) matches Ok(p) ==> pos < p.1 <= end,
{
}

fn parse_roll_digits(chars: &Vec<char>, pos: usize, end: usize) -> (r: Result<
    (RollToken, usize),
    OlanError,
>)
    requires
        pos < end <= chars@.len(),
    ensures
        match r {
            Ok(p) => pos < p.1 <= end && spec_parse_roll_digits(chars@, pos as int, end as int)
                == Ok::<(RollToken, int), OlanError>((p.0, p.1 as int)),
            Err(e) => spec_parse_roll_digits(chars@, pos as int, end as int) == Err::<
                (RollToken, int),
                OlanError,
            >(e),
        },
{
    let d: u8 = match digit_value(chars[pos]) {
        Some(v) => v,
        None => {
            return Err(OlanError::Syntax);
        },
    };
    if d == 0 {
        return Err(OlanError::Syntax);
    }
    if pos + 1 < end {
        let kind_opt: Option<RollKind> = match chars[pos + 1] {
            '2' => Some(RollKind::Halves),
            '4' => Some(RollKind::Quarters),
            '8' => Some(RollKind::Eighths),
            _ => None,
        };
        if let Some(kind) = kind_opt {
            return Ok((RollToken::Roll { digit: d, kind: kind }, pos + 2));
        }
        if let Some((kind, len)) = match_flick_spin(chars, pos + 1, end) {
            return Ok((RollToken::Roll { digit: d, kind: kind }, pos + 1 + len));
        }
    }
    Ok((RollToken::Roll { digit: d, kind: RollKind::Plain }, pos + 1))
}

// ------------------------------------------------------------------
// Inner roll sets
// ------------------------------------------------------------------

/// The scan inside a parenthesized inner roll set, from position `i` to
/// the closing parenthesis.
pub open spec fn spec_inner_rolls_loop(
    s: Seq<char>,
    end: int,
    i: int,
    acc: Seq<RollToken>,
    prev_was_roll: bool,
) -> Result<(Seq<RollToken>, int), OlanError>
    decreases end - i,
    via spec_inner_rolls_loop_decreases
{
    if i < 0 || i >= end {
        Err(OlanError::Syntax)
    } else {
        let c = s[i];
        if c == ')' {
            Ok((acc, i + 1))
        } else if c == ',' {
            spec_inner_rolls_loop(s, end, i + 1, acc.push(RollToken::Swap), false)
        } else if c == ';' {
            spec_inner_rolls_loop(s, end, i + 1, acc, false)
        } else if spec_is_extension(c) && c != '-' {
            spec_inner_rolls_loop(s, end, i + 1, acc, prev_was_roll)
        } else if spec_is_digit(c) {
            if prev_was_roll {
                Err(OlanError::Syntax)
            } else {
                match spec_parse_roll_digits(s, i, end) {
                    Err(e) => Err(e),
                    Ok(p) => spec_inner_rolls_loop(s, end, p.1, acc.push(p.0), true),
                }
            }
        } else {
            match spec_match_flick_spin(s, i, end) {
                Some(p) => if prev_was_roll {
                    Err(OlanError::Syntax)
                } else {
                    spec_inner_rolls_loop(
                        s,
                        end,
                        i + p.1,
                        acc.push(RollToken::Roll { digit: 1, kind: p.0 }),
                        true,
                    )
                },
                None => Err(OlanError::Syntax),
            }
        }
    }
}

#[via_fn]
proof fn spec_inner_rolls_loop_decreases(
    s: Seq<char>,
    end: int,
    i: int,
    acc: Seq<RollToken>,
    prev_was_roll: bool,
) {
    if 0 <= i < end {
        lemma_roll_digits_bounds(s, i, end);
    }
}

/// A parenthesized inner roll set: the tokens between `(` and `)` and the
/// position after the closing parenthesis.
pub open spec fn spec_parse_inner_roll_set(s: Seq<char>, pos: int, end: int) -> Result<
    (Seq<RollToken>, int),
    OlanError,
> {
    spec_inner_rolls_loop(s, end, pos + 1, Seq::empty(), false)
}

proof fn lemma_inner_rolls_loop_bounds(
    s: Seq<char>,
    end: int,
    i: int,
    acc: Seq<RollToken>,
    prev_was_roll: bool,
)
    requires
        0 <= i,
    ensures
        spec_inner_rolls_loop(s, end, i, acc, prev_was_roll) matches Ok(p) ==> i < p.1 <= end,
    decreases end - i,
{
    if 0 <= i < end {
        lemma_roll_digits_bounds(s, i, end);
        let c = s[i];
        if c == ')' {
        } else if c == ',' {
            lemma_inner_rolls_loop_bounds(s, end, i + 1, acc.push(RollToken::Swap), false);
        } else if c == ';' {
            lemma_inner_rolls_loop_bounds(s, end, i + 1, acc, false);
        } else if spec_is_extension(c) && c != '-' {
            lemma_inner_rolls_loop_bounds(s, end, i + 1, acc, prev_was_roll);
        } else if spec_is_digit(c) {
            if !prev_was_roll {
                match spec_parse_roll_digits(s, i, end) {
                    Err(_) => {},
                    Ok(p) => {
                        lemma_inner_rolls_loop_bounds(s, end, p.1, acc.push(p.0), true);
                    },
                }
            }
        } else {
            match spec_match_flick_spin(s, i, end) {
                Some(p) => {
                    if !prev_was_roll {
                        lemma_inner_rolls_loop_bounds(
                            s,
                            end,
                            i + p.1,
                            acc.push(RollToken::Roll { digit: 1, kind: p.0 }),
                            true,
                        );
                    }
                },
                None => {},
            }
        }
    }
}

fn parse_inner_roll_set(chars: &Vec<char>, pos: usize, end: usize) -> (r: Result<
    (Vec<RollToken>, usize),
    OlanError,
>)
    requires
        pos < end <= chars@.len(),
    ensures
        match r {
            Ok(p) => pos < p.1 <= end && spec_parse_inner_roll_set(chars@, pos as int, end as int)
                == Ok::<(Seq<RollToken>, int), OlanError>((p.0@, p.1 as int)),
            Err(e) => spec_parse_inner_roll_set(chars@, pos as int, end as int) == Err::<
                (Seq<RollToken>, int),
                OlanError,
            >(e),
        },
{
    let mut tokens: Vec<RollToken> = Vec::new();
    let mut prev_was_roll: bool = false;
    let mut i: usize = pos + 1;
    while i < end
        invariant
            pos < i <= end <= chars@.len(),
            spec_parse_inner_roll_set(chars@, pos as int, end as int) == spec_inner_rolls_loop(
                chars@,
                end as int,
                i as int,
                tokens@,
                prev_was_roll,
            ),
        decreases end - i,
    {
        let c = chars[i];
        if c == ')' {
            proof {
                lemma_inner_rolls_loop_bounds(
                    chars@,
                    end as int,
                    i as int,
                    tokens@,
                    prev_was_roll,
                );
            }
            return Ok((tokens, i + 1));
        }
        if c == ',' {
            tokens.push(RollToken::Swap);
            prev_was_roll = false;
            i = i + 1;
        } else if c == ';' {
            prev_was_roll = false;
            i = i + 1;
        } else if is_extension_char(c) && c != '-' {
            i = i + 1;
        } else if digit_value(c).is_some() {
            if prev_was_roll {
                // two roll tokens need a separator between them
                return Err(OlanError::Syntax);
            }
            match parse_roll_digits(chars, i, end) {
                Ok((token, next)) => {
                    tokens.push(token);
                    prev_was_roll = true;
                    i = next;
                },
                Err(e) => {
                    return Err(e);
                },
            }
        } else {
            match match_flick_spin(chars, i, end) {
                Some((kind, len)) => {
                    if prev_was_roll {
                        return Err(OlanError::Syntax);
                    }
                    tokens.push(RollToken::Roll { digit: 1, kind: kind });
                    prev_was_roll = true;
                    i = i + len;
                },
                None => {
                    return Err(OlanError::Syntax);
                },
            }
        }
    }
    Err(OlanError::Syntax)
}

// ------------------------------------------------------------------
// Rolling turns
// ------------------------------------------------------------------

/// The scan over the roll-count digits following the turn keyword:
/// the position after the digits, their two-digit value, and how many
/// there were (saturating at three).
pub open spec fn spec_turn_digit_scan(s: Seq<char>, end: int, i: int, digits: int, count: int) -> (
    int,
    int,
    int,
)
    decreases end - i,
{
    if 0 <= i < end && count < 3 && spec_is_digit(s[i]) {
        spec_turn_digit_scan(
            s,
            end,
            i + 1,
            if count < 2 {
                digits * 10 + spec_digit_value(s[i])
            } else {
                digits
            },
            count + 1,
        )
    } else {
        (i, digits, count)
    }
}

/// The rolling-turn body starting at the turn keyword, together with the
/// trailing transition; the preceding roll tokens, if any, must spell the
/// single turn-angle multiplier digit.
pub open spec fn spec_parse_rolling_turn(
    s: Seq<char>,
    pos: int,
    end: int,
    entry_tokens: Seq<RollToken>,
    entry_inverted: bool,
) -> Result<FigureNodeView, OlanError> {
    let multiplier_ok: Option<u8> = if entry_tokens.len() == 0 {
        Some(1u8)
    } else if entry_tokens.len() == 1 {
        match entry_tokens[0] {
            RollToken::Roll { digit, kind } => if kind == RollKind::Plain && 1 <= digit <= 4 {
                Some(digit)
            } else {
                None
            },
            RollToken::Swap => None,
        }
    } else {
        None
    };
    match multiplier_ok {
        None => Err(OlanError::Syntax),
        Some(multiplier) => {
            let keyword: (TurnKind, int) = if end - pos >= 3 && s[pos + 1] == 'i' && s[pos + 2]
                == 'o' {
                (TurnKind::Jio, pos + 3)
            } else if end - pos >= 3 && s[pos + 1] == 'o' && s[pos + 2] == 'i' {
                (TurnKind::Joi, pos + 3)
            } else if end - pos >= 2 && s[pos + 1] == 'o' {
                (TurnKind::Jo, pos + 2)
            } else {
                (TurnKind::J, pos + 1)
            };
            let scanned = spec_turn_digit_scan(s, end, keyword.1, 0, 0);
            let rolls_ok: Option<TurnRollCount> = if scanned.2 == 0 {
                Some(TurnRollCount::Zero)
            } else if scanned.2 == 1 && scanned.1 == 1 {
                Some(TurnRollCount::One)
            } else if scanned.2 == 1 && scanned.1 == 2 {
                Some(TurnRollCount::Two)
            } else if scanned.2 == 1 && scanned.1 == 3 {
                Some(TurnRollCount::Three)
            } else if scanned.2 == 1 && scanned.1 == 4 {
                Some(TurnRollCount::Four)
            } else if scanned.2 == 2 && scanned.1 == 15 {
                Some(TurnRollCount::OneAndAHalf)
            } else {
                None
            };
            match rolls_ok {
                None => Err(OlanError::Syntax),
                Some(rolls) => if !spec_rest_is_extension(s, scanned.0, end) {
                    Err(OlanError::Syntax)
                } else {
                    Ok(
                        FigureNodeView {
                            entry_inverted: entry_inverted,
                            exit_inverted: spec_contains_dash(s, scanned.0, end),
                            body: FigureBodyView::RollingTurn {
                                multiplier: multiplier,
                                kind: keyword.0,
                                rolls: rolls,
                            },
                        },
                    )
                },
            }
        },
    }
}

fn parse_rolling_turn(
    chars: &Vec<char>,
    pos: usize,
    end: usize,
    entry_tokens: &Vec<RollToken>,
    entry_inverted: bool,
) -> (r: Result<FigureNode, OlanError>)
    requires
        pos < end <= chars@.len(),
    ensures
        match r {
            Ok(node) => spec_parse_rolling_turn(
                chars@,
                pos as int,
                end as int,
                entry_tokens@,
                entry_inverted,
            ) == Ok::<FigureNodeView, OlanError>(node@),
            Err(e) => spec_parse_rolling_turn(
                chars@,
                pos as int,
                end as int,
                entry_tokens@,
                entry_inverted,
            ) == Err::<FigureNodeView, OlanError>(e),
        },
{
    let multiplier: u8 = if entry_tokens.len() == 0 {
        1
    } else if entry_tokens.len() == 1 {
        match entry_tokens[0] {
            RollToken::Roll { digit, kind: RollKind::Plain } => {
                if 1 <= digit && digit <= 4 {
                    digit
                } else {
                    return Err(OlanError::Syntax);
                }
            },
            _ => {
                return Err(OlanError::Syntax);
            },
        }
    } else {
        return Err(OlanError::Syntax);
    };
    // the keyword: longest of jio, joi, jo, j
    let mut i: usize = pos + 1;
    let mut kind = TurnKind::J;
    if end - pos >= 3 && chars[pos + 1] == 'i' && chars[pos + 2] == 'o' {
        kind = TurnKind::Jio;
        i = pos + 3;
    } else if end - pos >= 3 && chars[pos + 1] == 'o' && chars[pos + 2] == 'i' {
        kind = TurnKind::Joi;
        i = pos + 3;
    } else if end - pos >= 2 && chars[pos + 1] == 'o' {
        kind = TurnKind::Jo;
        i = pos + 2;
    }
    let ghost keyword_end: int = i as int;
    // the roll count: none, a single digit 1 to 4, or 15 for one and a half
    let mut digits: u8 = 0;
    let mut digit_count: u8 = 0;
    while i < end && digit_count < 3 && digit_value(chars[i]).is_some()
        invariant
            pos < i <= end <= chars@.len(),
            digit_count <= 3,
            digits <= 99,
            digit_count < 2 ==> digits <= 9,
            digit_count == 0 ==> digits == 0,
            spec_turn_digit_scan(chars@, end as int, keyword_end, 0, 0) == spec_turn_digit_scan(
                chars@,
                end as int,
                i as int,
                digits as int,
                digit_count as int,
            ),
        decreases end - i,
    {
        let d: u8 = match digit_value(chars[i]) {
            Some(v) => v,
            None => 0,
        };
        if digit_count < 2 {
            digits = digits * 10 + d;
        }
        digit_count = digit_count + 1;
        i = i + 1;
    }
    proof {
        assert(spec_turn_digit_scan(chars@, end as int, keyword_end, 0, 0) == (
        i as int,
        digits as int,
        digit_count as int,
        ));
    }
    let rolls: TurnRollCount = if digit_count == 0 {
        TurnRollCount::Zero
    } else if digit_count == 1 {
        match digits {
            1u8 => TurnRollCount::One,
            2u8 => TurnRollCount::Two,
            3u8 => TurnRollCount::Three,
            4u8 => TurnRollCount::Four,
            _ => {
                return Err(OlanError::Syntax);
            },
        }
    } else if digit_count == 2 && digits == 15 {
        TurnRollCount::OneAndAHalf
    } else {
        return Err(OlanError::Syntax);
    };
    if !rest_is_extension(chars, i, end) {
        return Err(OlanError::Syntax);
    }
    let exit_inverted = contains_dash(chars, i, end);
    Ok(
        FigureNode {
            entry_inverted: entry_inverted,
            exit_inverted: exit_inverted,
            body: FigureBody::RollingTurn { multiplier: multiplier, kind: kind, rolls: rolls },
        },
    )
}

// ------------------------------------------------------------------
// Figure parts
// ------------------------------------------------------------------

/// The figure node assembled from the pieces the body scan collected: a
/// named figure when a mnemonic was read, otherwise a bare rolling
/// figure; empty entry and exit roll sets count as absent.
pub open spec fn spec_make_figure_node(
    entry_inverted: bool,
    exit_inverted: bool,
    entry_tokens: Seq<RollToken>,
    exit_tokens: Seq<RollToken>,
    mnemonic: Option<Mnemonic>,
    inner_rolls: Option<Seq<RollToken>>,
    inner_rolls2: Option<Seq<RollToken>>,
) -> FigureNodeView {
    FigureNodeView {
        entry_inverted: entry_inverted,
        exit_inverted: exit_inverted,
        body: match mnemonic {
            Some(mn) => FigureBodyView::Named(
                NamedFigureNodeView {
                    entry_rolls: if entry_tokens.len() > 0 {
                        Some(entry_tokens)
                    } else {
                        None
                    },
                    mnemonic: mn,
                    inner_rolls: inner_rolls,
                    inner_rolls2: inner_rolls2,
                    exit_rolls: if exit_tokens.len() > 0 {
                        Some(exit_tokens)
                    } else {
                        None
                    },
                },
            ),
            None => FigureBodyView::Rolling(entry_tokens),
        },
    }
}

fn make_figure_node(
    entry_inverted: bool,
    exit_inverted: bool,
    entry_tokens: Vec<RollToken>,
    exit_tokens: Vec<RollToken>,
    mnemonic: Option<Mnemonic>,
    inner_rolls: Option<Vec<RollToken>>,
    inner_rolls2: Option<Vec<RollToken>>,
) -> (node: FigureNode)
    ensures
        node@ == spec_make_figure_node(
            entry_inverted,
            exit_inverted,
            entry_tokens@,
            exit_tokens@,
            mnemonic,
            opt_tokens_view(inner_rolls),
            opt_tokens_view(inner_rolls2),
        ),
{
    let body: FigureBody = match mnemonic {
        Some(mn) => FigureBody::Named(
            NamedFigureNode {
                entry_rolls: if entry_tokens.len() > 0 {
                    Some(entry_tokens)
                } else {
                    None
                },
                mnemonic: mn,
                inner_rolls: inner_rolls,
                inner_rolls2: inner_rolls2,
                exit_rolls: if exit_tokens.len() > 0 {
                    Some(exit_tokens)
                } else {
                    None
                },
            },
        ),
        None => FigureBody::Rolling(entry_tokens),
    };
    FigureNode { entry_inverted: entry_inverted, exit_inverted: exit_inverted, body: body }
}

/// The scan over a figure body, one spelled item per step. The state
/// carries the roll tokens read so far on each side of the mnemonic, the
/// mnemonic and inner roll sets once read, the separator flag, and
/// whether an inner roll set has closed the current exit roll set.
pub open spec fn spec_body_loop(
    s: Seq<char>,
    end: int,
    pos: int,
    entry_tokens: Seq<RollToken>,
    exit_tokens: Seq<RollToken>,
    mnemonic: Option<Mnemonic>,
    inner_rolls: Option<Seq<RollToken>>,
    inner_rolls2: Option<Seq<RollToken>>,
    prev_was_roll: bool,
    exit_set_done: bool,
    entry_inverted: bool,
) -> Result<FigureNodeView, OlanError>
    decreases end - pos,
    via spec_body_loop_decreases
{
    if pos < 0 || pos >= end {
        Ok(
            spec_make_figure_node(
                entry_inverted,
                false,
                entry_tokens,
                exit_tokens,
                mnemonic,
                inner_rolls,
                inner_rolls2,
            ),
        )
    } else if spec_rest_is_extension(s, pos, end) {
        Ok(
            spec_make_figure_node(
                entry_inverted,
                spec_contains_dash(s, pos, end),
                entry_tokens,
                exit_tokens,
                mnemonic,
                inner_rolls,
                inner_rolls2,
            ),
        )
    } else {
        let c = s[pos];
        if c == '-' {
            Err(OlanError::Syntax)
        } else if spec_is_extension(c) {
            spec_body_loop(
                s,
                end,
                pos + 1,
                entry_tokens,
                exit_tokens,
                mnemonic,
                inner_rolls,
                inner_rolls2,
                prev_was_roll,
                exit_set_done,
                entry_inverted,
            )
        } else if c == ',' {
            if mnemonic is None {
                spec_body_loop(
                    s,
                    end,
                    pos + 1,
                    entry_tokens.push(RollToken::Swap),
                    exit_tokens,
                    mnemonic,
                    inner_rolls,
                    inner_rolls2,
                    false,
                    exit_set_done,
                    entry_inverted,
                )
            } else {
                spec_body_loop(
                    s,
                    end,
                    pos + 1,
                    entry_tokens,
                    (if exit_set_done {
                        Seq::empty()
                    } else {
                        exit_tokens
                    }).push(RollToken::Swap),
                    mnemonic,
                    inner_rolls,
                    inner_rolls2,
                    false,
                    false,
                    entry_inverted,
                )
            }
        } else if c == ';' {
            spec_body_loop(
                s,
                end,
                pos + 1,
                entry_tokens,
                exit_tokens,
                mnemonic,
                inner_rolls,
                inner_rolls2,
                false,
                exit_set_done,
                entry_inverted,
            )
        } else if spec_is_digit(c) {
            if mnemonic is None && c == '0' {
                spec_body_loop(
                    s,
                    end,
                    pos + 1,
                    entry_tokens,
                    exit_tokens,
                    Some(Mnemonic::SingleLine(figure_defs::SingleLineFigure::Zero)),
                    inner_rolls,
                    inner_rolls2,
                    prev_was_roll,
                    exit_set_done,
                    entry_inverted,
                )
            } else if prev_was_roll {
                Err(OlanError::Syntax)
            } else {
                match spec_parse_roll_digits(s, pos, end) {
                    Err(e) => Err(e),
                    Ok(p) => if mnemonic is None {
                        spec_body_loop(
                            s,
                            end,
                            p.1,
                            entry_tokens.push(p.0),
                            exit_tokens,
                            mnemonic,
                            inner_rolls,
                            inner_rolls2,
                            true,
                            exit_set_done,
                            entry_inverted,
                        )
                    } else {
                        spec_body_loop(
                            s,
                            end,
                            p.1,
                            entry_tokens,
                            (if exit_set_done {
                                Seq::empty()
                            } else {
                                exit_tokens
                            }).push(p.0),
                            mnemonic,
                            inner_rolls,
                            inner_rolls2,
                            true,
                            false,
                            entry_inverted,
                        )
                    },
                }
            }
        } else if c == '(' {
            if mnemonic is None {
                Err(OlanError::Syntax)
            } else {
                match spec_parse_inner_roll_set(s, pos, end) {
                    Err(e) => Err(e),
                    Ok(p) => spec_body_loop(
                        s,
                        end,
                        p.1,
                        entry_tokens,
                        exit_tokens,
                        mnemonic,
                        if inner_rolls is None {
                            Some(p.0)
                        } else {
                            inner_rolls
                        },
                        if inner_rolls is Some && inner_rolls2 is None {
                            Some(p.0)
                        } else {
                            inner_rolls2
                        },
                        false,
                        exit_set_done || exit_tokens.len() > 0,
                        entry_inverted,
                    ),
                }
            }
        } else if mnemonic is None {
            match spec_match_mnemonic(s, pos, end) {
                Some(p) => spec_body_loop(
                    s,
                    end,
                    pos + p.1,
                    entry_tokens,
                    exit_tokens,
                    Some(p.0),
                    inner_rolls,
                    inner_rolls2,
                    false,
                    exit_set_done,
                    entry_inverted,
                ),
                None => match spec_match_flick_spin(s, pos, end) {
                    Some(p) => if prev_was_roll {
                        Err(OlanError::Syntax)
                    } else {
                        spec_body_loop(
                            s,
                            end,
                            pos + p.1,
                            entry_tokens.push(RollToken::Roll { digit: 1, kind: p.0 }),
                            exit_tokens,
                            mnemonic,
                            inner_rolls,
                            inner_rolls2,
                            true,
                            exit_set_done,
                            entry_inverted,
                        )
                    },
                    None => if c == 'j' {
                        spec_parse_rolling_turn(s, pos, end, entry_tokens, entry_inverted)
                    } else {
                        Err(OlanError::Syntax)
                    },
                },
            }
        } else {
            match spec_match_flick_spin(s, pos, end) {
                Some(p) => if prev_was_roll {
                    Err(OlanError::Syntax)
                } else {
                    spec_body_loop(
                        s,
                        end,
                        pos + p.1,
                        entry_tokens,
                        (if exit_set_done {
                            Seq::empty()
                        } else {
                            exit_tokens
                        }).push(RollToken::Roll { digit: 1, kind: p.0 }),
                        mnemonic,
                        inner_rolls,
                        inner_rolls2,
                        true,
                        false,
                        entry_inverted,
                    )
                },
                None => Err(OlanError::Syntax),
            }
        }
    }
}

#[via_fn]
proof fn spec_body_loop_decreases(
    s: Seq<char>,
    end: int,
    pos: int,
    entry_tokens: Seq<RollToken>,
    exit_tokens: Seq<RollToken>,
    mnemonic: Option<Mnemonic>,
    inner_rolls: Option<Seq<RollToken>>,
    inner_rolls2: Option<Seq<RollToken>>,
    prev_was_roll: bool,
    exit_set_done: bool,
    entry_inverted: bool,
) {
    if 0 <= pos < end {
        lemma_roll_digits_bounds(s, pos, end);
        lemma_inner_rolls_loop_bounds(s, end, pos + 1, Seq::empty(), false);
    }
}

/// One whitespace-delimited figure of the sequence text: an optional
/// leading transition, then a named figure with its roll sets, a bare
/// roll set, or a rolling turn, and an optional trailing transition.
pub open spec fn spec_parse_figure_part(s: Seq<char>, start: int, end: int) -> Result<
    FigureNodeView,
    OlanError,
> {
    let body_start = spec_extension_end(s, start, end);
    spec_body_loop(
        s,
        end,
        body_start,
        Seq::empty(),
        Seq::empty(),
        None,
        None,
        None,
        false,
        false,
        spec_contains_dash(s, start, body_start),
    )
}

fn parse_figure_part(chars: &Vec<char>, start: usize, end: usize) -> (r: Result<
    FigureNode,
    OlanError,
>)
    requires
        start <= end <= chars@.len(),
    ensures
        match r {
            Ok(node) => spec_parse_figure_part(chars@, start as int, end as int) == Ok::<
                FigureNodeView,
                OlanError,
            >(node@),
            Err(e) => spec_parse_figure_part(chars@, start as int, end as int) == Err::<
                FigureNodeView,
                OlanError,
            >(e),
        },
{
    let mut pos: usize = start;
    let mut entry_inverted: bool = false;
    while pos < end && is_extension_char(chars[pos])
        invariant
            start <= pos <= end <= chars@.len(),
            spec_extension_end(chars@, start as int, end as int) == spec_extension_end(
                chars@,
                pos as int,
                end as int,
            ),
            entry_inverted == spec_contains_dash(chars@, start as int, pos as int),
        decreases end - pos,
    {
        proof {
            if chars@[pos as int] == '-' {
                assert(spec_contains_dash(chars@, start as int, pos + 1 as int));
            } else {
                assert(spec_contains_dash(chars@, start as int, pos + 1 as int)
                    == spec_contains_dash(chars@, start as int, pos as int)) by {
                    if spec_contains_dash(chars@, start as int, pos + 1 as int) {
                        let k = choose|k: int|
                            start <= k < pos + 1 && #[trigger] chars@[k] == '-';
                        assert(k < pos);
                    }
                }
            }
        }
        if chars[pos] == '-' {
            entry_inverted = true;
        }
        pos = pos + 1;
    }
    let mut entry_tokens: Vec<RollToken> = Vec::new();
    let mut exit_tokens: Vec<RollToken> = Vec::new();
    let mut mnemonic: Option<Mnemonic> = None;
    let mut inner_rolls: Option<Vec<RollToken>> = None;
    let mut inner_rolls2: Option<Vec<RollToken>> = None;
    // two roll tokens of one set need a separator between them
    let mut prev_was_roll: bool = false;
    // an inner roll set ends the current exit roll set; a later one
    // replaces it
    let mut exit_set_done: bool = false;
    while pos < end
        invariant
            start <= pos <= end <= chars@.len(),
            spec_parse_figure_part(chars@, start as int, end as int) == spec_body_loop(
                chars@,
                end as int,
                pos as int,
                entry_tokens@,
                exit_tokens@,
                mnemonic,
                opt_tokens_view(inner_rolls),
                opt_tokens_view(inner_rolls2),
                prev_was_roll,
                exit_set_done,
                entry_inverted,
            ),
        decreases end - pos,
    {
        if rest_is_extension(chars, pos, end) {
            let exit_inverted = contains_dash(chars, pos, end);
            return Ok(
                make_figure_node(
                    entry_inverted,
                    exit_inverted,
                    entry_tokens,
                    exit_tokens,
                    mnemonic,
                    inner_rolls,
                    inner_rolls2,
                ),
            );
        }
        let c = chars[pos];
        if c == '-' {
            // an inversion dash inside a figure body
            return Err(OlanError::Syntax);
        } else if is_extension_char(c) {
            pos = pos + 1;
        } else if c == ',' {
            if mnemonic.is_none() {
                entry_tokens.push(RollToken::Swap);
            } else {
                if exit_set_done {
                    exit_tokens = Vec::new();
                    exit_set_done = false;
                }
                exit_tokens.push(RollToken::Swap);
            }
            prev_was_roll = false;
            pos = pos + 1;
        } else if c == ';' {
            prev_was_roll = false;
            pos = pos + 1;
        } else if digit_value(c).is_some() {
            if mnemonic.is_none() && c == '0' {
                mnemonic = Some(Mnemonic::SingleLine(figure_defs::SingleLineFigure::Zero));
                pos = pos + 1;
            } else {
                if prev_was_roll {
                    return Err(OlanError::Syntax);
                }
                match parse_roll_digits(chars, pos, end) {
                    Ok((token, next)) => {
                        if mnemonic.is_none() {
                            entry_tokens.push(token);
                        } else {
                            if exit_set_done {
                                exit_tokens = Vec::new();
                                exit_set_done = false;
                            }
                            exit_tokens.push(token);
                        }
                        prev_was_roll = true;
                        pos = next;
                    },
                    Err(e) => {
                        return Err(e);
                    },
                }
            }
        } else if c == '(' {
            if mnemonic.is_none() {
                return Err(OlanError::Syntax);
            }
            match parse_inner_roll_set(chars, pos, end) {
                Ok((tokens, next)) => {
                    if exit_tokens.len() > 0 {
                        exit_set_done = true;
                    }
                    if inner_rolls.is_none() {
                        inner_rolls = Some(tokens);
                    } else if inner_rolls2.is_none() {
                        inner_rolls2 = Some(tokens);
                    }
                    prev_was_roll = false;
                    pos = next;
                },
                Err(e) => {
                    return Err(e);
                },
            }
        } else if mnemonic.is_none() {
            match match_mnemonic(chars, pos, end) {
                Some((mn, len)) => {
                    mnemonic = Some(mn);
                    prev_was_roll = false;
                    pos = pos + len;
                },
                None => {
                    match match_flick_spin(chars, pos, end) {
                        Some((kind, len)) => {
                            if prev_was_roll {
                                return Err(OlanError::Syntax);
                            }
                            entry_tokens.push(RollToken::Roll { digit: 1, kind: kind });
                            prev_was_roll = true;
                            pos = pos + len;
                        },
                        None => {
                            if c == 'j' {
                                return parse_rolling_turn(
                                    chars,
                                    pos,
                                    end,
                                    &entry_tokens,
                                    entry_inverted,
                                );
                            }
                            return Err(OlanError::Syntax);
                        },
                    }
                },
            }
        } else {
            match match_flick_spin(chars, pos, end) {
                Some((kind, len)) => {
                    if prev_was_roll {
                        return Err(OlanError::Syntax);
                    }
                    if exit_set_done {
                        exit_tokens = Vec::new();
                        exit_set_done = false;
                    }
                    exit_tokens.push(RollToken::Roll { digit: 1, kind: kind });
                    prev_was_roll = true;
                    pos = pos + len;
                },
                None => {
                    return Err(OlanError::Syntax);
                },
            }
        }
    }
    Ok(
        make_figure_node(
            entry_inverted,
            false,
            entry_tokens,
            exit_tokens,
            mnemonic,
            inner_rolls,
            inner_rolls2,
        ),
    )
}

// ------------------------------------------------------------------
// The sequence
// ------------------------------------------------------------------

/// Whether a whitespace-delimited part is a positioning tag rather than a
/// figure: a bracketed tag, or a move tag of digits ending in `>`.
pub open spec fn spec_part_is_tag(s: Seq<char>, start: int, end: int) -> bool
    recommends
        0 <= start < end <= s.len(),
{
    s[start] == '[' || (s[end - 1] == '>' && (forall|k: int|
        start <= k < end - 1 ==> spec_is_digit(#[trigger] s[k])))
}

fn part_is_tag(chars: &Vec<char>, start: usize, end: usize) -> (r: bool)
    requires
        start < end <= chars@.len(),
    ensures
        r == spec_part_is_tag(chars@, start as int, end as int),
{
    if chars[start] == '[' {
        return true;
    }
    if chars[end - 1] == '>' {
        let mut i: usize = start;
        let mut all_digits: bool = true;
        while i < end - 1
            invariant
                start <= i <= end - 1,
                end <= chars@.len(),
                all_digits == (forall|k: int|
                    start <= k < i ==> spec_is_digit(#[trigger] chars@[k])),
            decreases end - i,
        {
            if digit_value(chars[i]).is_none() {
                all_digits = false;
            }
            i = i + 1;
        }
        return all_digits;
    }
    false
}

/// The end of the whitespace-delimited part that starts at `i`: the first
/// whitespace position at or after `i`, or the end of the text.
pub open spec fn spec_part_end(s: Seq<char>, i: int) -> int
    decreases s.len() - i,
{
    if i < 0 || i >= s.len() {
        s.len() as int
    } else if spec_is_whitespace(s[i]) {
        i
    } else {
        spec_part_end(s, i + 1)
    }
}

proof fn lemma_part_end_bounds(s: Seq<char>, i: int)
    requires
        0 <= i <= s.len(),
    ensures
        i <= spec_part_end(s, i) <= s.len(),
    decreases s.len() - i,
{
    if i < s.len() && !spec_is_whitespace(s[i]) {
        lemma_part_end_bounds(s, i + 1);
    }
}

/// How many whitespace-delimited parts of the text are figures rather
/// than positioning tags.
pub open spec fn spec_figure_part_count(s: Seq<char>, i: int) -> nat
    decreases s.len() - i,
    via spec_figure_part_count_decreases
{
    if i < 0 || i >= s.len() {
        0
    } else if spec_is_whitespace(s[i]) {
        spec_figure_part_count(s, i + 1)
    } else {
        let j = spec_part_end(s, i + 1);
        (if spec_part_is_tag(s, i, j) {
            0nat
        } else {
            1nat
        }) + spec_figure_part_count(s, j)
    }
}

#[via_fn]
proof fn spec_figure_part_count_decreases(s: Seq<char>, i: int) {
    if 0 <= i < s.len() && !spec_is_whitespace(s[i]) {
        lemma_part_end_bounds(s, i + 1);
    }
}

/// The whole tokenizer: the text split on whitespace, each part that is
/// not a positioning tag parsed as one figure node, in order; the first
/// part outside the grammar decides the error.
pub open spec fn spec_lex_loop(s: Seq<char>, i: int, acc: Seq<FigureNodeView>) -> Result<
    Seq<FigureNodeView>,
    OlanError,
>
    decreases s.len() - i,
    via spec_lex_loop_decreases
{
    if i < 0 || i >= s.len() {
        Ok(acc)
    } else if spec_is_whitespace(s[i]) {
        spec_lex_loop(s, i + 1, acc)
    } else {
        let j = spec_part_end(s, i + 1);
        if spec_part_is_tag(s, i, j) {
            spec_lex_loop(s, j, acc)
        } else {
            match spec_parse_figure_part(s, i, j) {
                Err(e) => Err(e),
                Ok(node) => spec_lex_loop(s, j, acc.push(node)),
            }
        }
    }
}

#[via_fn]
proof fn spec_lex_loop_decreases(s: Seq<char>, i: int, acc: Seq<FigureNodeView>) {
    if 0 <= i < s.len() && !spec_is_whitespace(s[i]) {
        lemma_part_end_bounds(s, i + 1);
    }
}

/// The parse tree of the sequence text.
pub open spec fn spec_lex_sequence(s: Seq<char>) -> Result<Seq<FigureNodeView>, OlanError> {
    spec_lex_loop(s, 0, Seq::empty())
}

/// Splits the sequence text on whitespace and parses each part that is a
/// figure; positioning tags yield no figure, so a successful parse holds
/// exactly one node per figure part.
pub fn lex_sequence(chars: &Vec<char>) -> (r: Result<Vec<FigureNode>, OlanError>)
    ensures
        match r {
            Ok(nodes) => spec_lex_sequence(chars@) == Ok::<Seq<FigureNodeView>, OlanError>(
                nodes@.map_values(|n: FigureNode| n@),
            ) && nodes@.len() == spec_figure_part_count(chars@, 0),
            Err(e) => spec_lex_sequence(chars@) == Err::<Seq<FigureNodeView>, OlanError>(e),
        },
{
    let mut nodes: Vec<FigureNode> = Vec::new();
    proof {
        assert(nodes@.map_values(|n: FigureNode| n@) =~= Seq::<FigureNodeView>::empty());
    }
    let mut i: usize = 0;
    while i < chars.len()
        invariant
            0 <= i <= chars@.len(),
            spec_figure_part_count(chars@, 0) == nodes@.len() + spec_figure_part_count(
                chars@,
                i as int,
            ),
            spec_lex_sequence(chars@) == spec_lex_loop(
                chars@,
                i as int,
                nodes@.map_values(|n: FigureNode| n@),
            ),
        decreases chars@.len() - i,
    {
        if is_whitespace_char(chars[i]) {
            i = i + 1;
        } else {
            let mut j: usize = i + 1;
            while j < chars.len() && !is_whitespace_char(chars[j])
                invariant
                    i < j <= chars@.len(),
                    spec_part_end(chars@, i + 1 as int) == spec_part_end(chars@, j as int),
                decreases chars@.len() - j,
            {
                j = j + 1;
            }
            proof {
                assert(spec_part_end(chars@, i + 1 as int) == j as int);
            }
            if !part_is_tag(chars, i, j) {
                match parse_figure_part(chars, i, j) {
                    Ok(node) => {
                        let ghost views_before = nodes@.map_values(|n: FigureNode| n@);
                        nodes.push(node);
                        proof {
                            assert(nodes@.map_values(|n: FigureNode| n@) =~= views_before.push(
                                node@,
                            ));
                        }
                    },
                    Err(e) => {
                        return Err(e);
                    },
                }
            }
            i = j;
        }
    }
    Ok(nodes)
}

} // verus!
