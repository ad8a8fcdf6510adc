//! OLAN notation support: the figure catalog, the tokenizer, and the
//! semantic resolution passes.

pub mod figure_defs;

pub mod parser;

pub mod syntax;

pub use parser::parse_sequence;
