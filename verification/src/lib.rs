//! Parser and semantic resolver for OLAN, the compact textual notation for
//! competition aerobatic figure sequences.
//!
//! The library turns an OLAN string into a [`Sequence`] of [`Figure`]s, each
//! a normalized list of typed [`Element`]s: a mnemonic-driven catalog supplies
//! canonical figure skeletons, roll tokens are resolved into concrete roll
//! elements and spliced into combining slots, an attitude state machine
//! tracks upright and inverted flight element by element, and a
//! post-processing pass removes duplicate transition lines and merges
//! contiguous radii.
//!
//! Parsing is specified end to end: the result of [`olan::parse_sequence`]
//! equals `olan::parser::spec_parse_sequence` of the input text, which
//! composes the tokenizer's spec-level mirror with the exact contracts of
//! every resolution stage.

mod types;

pub mod olan;

pub use types::{
    Attitude, CombinableElementType, Element, ElementType, Figure, OlanError, RollType, Sequence,
};
