use vstd::prelude::*;

verus! {

/// The kind of a token. Grammars use non-negative kinds; the negative ones
/// are the sentinels below.
pub type TokenType = i8;

/// Kind of the token that ends a stream.
pub const TOKEN_DONE: TokenType = -1;

/// Kind of the token that reports a failure; its text is the message.
pub const TOKEN_ERROR: TokenType = -2;

/// A lexeme and its kind.
#[derive(Clone, Debug, PartialEq, Eq)]
pub struct Token {
    pub typ: TokenType,
    pub data: String,
}

impl Token {
    /// The token that ends a stream: kind `TOKEN_DONE`, empty text.
    pub open spec fn is_done(self) -> bool {
        self.typ == TOKEN_DONE && self.data@ == Seq::<char>::empty()
    }

    /// The token that reports `message`.
    pub open spec fn is_error(self, message: Seq<char>) -> bool {
        self.typ == TOKEN_ERROR && self.data@ == message
    }
}

/// The kind of a phrase, with the same sentinel convention as tokens.
pub type PhraseType = i8;

/// Kind of the phrase that ends a stream.
pub const PHRASE_DONE: PhraseType = -1;

/// Kind of the phrase that reports a failure.
pub const PHRASE_ERROR: PhraseType = -2;

/// A group of tokens and its kind.
#[derive(Clone, Debug, PartialEq, Eq)]
pub struct Phrase {
    pub typ: PhraseType,
    pub data: Vec<Token>,
}

impl Phrase {
    /// The phrase that ends a stream: kind `PHRASE_DONE`, no tokens.
    pub open spec fn is_done(self) -> bool {
        self.typ == PHRASE_DONE && self.data@.len() == 0
    }

    /// The phrase that reports `message`: kind `PHRASE_ERROR`, holding one
    /// error token with that message.
    pub open spec fn is_error(self, message: Seq<char>) -> bool {
        &&& self.typ == PHRASE_ERROR
        &&& self.data@.len() == 1
        &&& self.data@[0].is_error(message)
    }
}

/// The current state of a driver: a caller-supplied state, or one of the two
/// terminal states. Once terminal, a driver stays as it is.
pub enum State<S> {
    Active(S),
    Done,
    Error,
}

impl<S> State<S> {
    pub open spec fn is_terminal(self) -> bool {
        !(self is Active)
    }
}

} // verus!
