//! A small framework for building tokenisers and phrase-level parsers out of
//! state functions.
//!
//! Characters come from a [`Tokeniser`], a cursor with one character of
//! look-ahead and backup. A [`Parser`] drives a tokeniser through
//! caller-supplied token states ([`TokenFn`]) to produce [`Token`]s, and a
//! [`Phraser`] drives a parser through phrase states ([`PhraseFn`]) to group
//! tokens into [`Phrase`]s. `Done` and `Error` are terminal at both levels.
mod buffer;
mod cursor;
pub mod laws;
mod parser;
mod phraser;
mod token;

pub use buffer::StrTokeniser;
pub use cursor::{contains_char, continues_run, run_end, Cursor, Tokeniser, EOF};
pub use parser::{Parser, TokenFn};
pub use phraser::{PhraseFn, Phraser};
pub use token::{
    Phrase, PhraseType, State, Token, TokenType, PHRASE_DONE, PHRASE_ERROR, TOKEN_DONE, TOKEN_ERROR,
};
