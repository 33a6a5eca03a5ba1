//! Argument grammar and fixture synthesis for the `register_assert` macro.
//!
//! The macro takes `Ident (Generics)? , Ident` and emits a type alias of the
//! assertion helper plus a fixture that builds it. Parsing works on a plain
//! token model (`token`), recognises identifiers and generic parameter lists
//! through `syn` (`syntax`), and reports a positioned error of a closed kind
//! (`parse`). `synth` writes the output source text; `laws` states what holds
//! of the parser over all inputs.
pub mod laws;
pub mod parse;
pub mod synth;
pub mod syntax;
pub mod token;

pub use parse::{Args, ArgsError, ParseError};
pub use synth::{register_assert, synthesize};
pub use token::{Token, TokenKind};
