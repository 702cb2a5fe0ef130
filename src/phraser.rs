use vstd::prelude::*;

use crate::cursor::Tokeniser;
use crate::parser::{Parser, TokenFn};
use crate::token::{Phrase, State, Token, PHRASE_DONE, PHRASE_ERROR, TOKEN_ERROR};

verus! {

/// A phrase-level state: given the phraser, it pulls tokens from the wrapped
/// parser and returns the next phrase, setting the phraser's next state as it
/// goes.
pub trait PhraseFn<T: Tokeniser, S>: Sized {
    /// What one run of this state does: from the phraser `before`, it leaves
    /// the phraser `after` and returns `p`. A state that states nothing more
    /// keeps this default.
    open spec fn step(self, before: Phraser<T, S, Self>, after: Phraser<T, S, Self>, p: Phrase) -> bool {
        true
    }

    fn call(self, ph: &mut Phraser<T, S, Self>) -> (p: Phrase)
        requires
            old(ph).wf(),
        ensures
            final(ph).wf(),
            self.step(*old(ph), *final(ph), p),
    ;
}

/// Drives a parser through phrase states to group its tokens into phrases.
/// Every character-level operation goes through the wrapped parser.
pub struct Phraser<T, S, P> {
    parser: Parser<T, S>,
    state: State<P>,
    err: String,
}

impl<T: Tokeniser, S, P> Phraser<T, S, P> {
    /// The wrapped parser.
    pub closed spec fn inner(&self) -> Parser<T, S> {
        self.parser
    }

    /// The current phrase state.
    pub closed spec fn state(&self) -> State<P> {
        self.state
    }

    /// The message recorded by `error`.
    pub closed spec fn message(&self) -> Seq<char> {
        self.err@
    }

    pub open spec fn wf(&self) -> bool {
        self.inner().wf()
    }

    /// Whether `p` is what a terminal phraser renders: the `Done` phrase, or
    /// the `Error` phrase with the recorded message.
    pub open spec fn renders(&self, p: Phrase) -> bool {
        match self.state() {
            State::Done => p.is_done(),
            State::Error => p.is_error(self.message()),
            State::Active(_) => false,
        }
    }

    /// Everything but the wrapped parser is as it was in `other`.
    pub open spec fn same_state(&self, other: &Self) -> bool {
        self.state() == other.state() && self.message() == other.message()
    }

    pub fn new(p: Parser<T, S>, s: P) -> (ph: Self)
        requires
            p.wf(),
        ensures
            ph.wf(),
            ph.inner() == p,
            ph.state() == State::Active(s),
            ph.message() == Seq::<char>::empty(),
    {
        Phraser { parser: p, state: State::Active(s), err: String::new() }
    }

    /// The wrapped parser.
    pub fn parser(&self) -> (p: &Parser<T, S>)
        ensures
            *p == self.inner(),
    {
        &self.parser
    }

    /// The wrapped parser, for its character-level operations.
    pub fn parser_mut(&mut self) -> (p: &mut Parser<T, S>)
        ensures
            *p == old(self).inner(),
            final(self).inner() == *final(p),
            final(self).same_state(old(self)),
    {
        &mut self.parser
    }

    /// Makes `func` the state that the next `get` runs. A terminal phraser
    /// stays as it is.
    pub fn set_state(&mut self, func: P)
        requires
            old(self).wf(),
        ensures
            old(self).state().is_terminal() ==> *final(self) == *old(self),
            !old(self).state().is_terminal() ==> final(self).state() == State::Active(func),
            final(self).inner() == old(self).inner(),
            final(self).message() == old(self).message(),
    {
        if let State::Active(_) = self.state {
            self.state = State::Active(func);
        }
    }

    /// Enters the `Done` state, unless already terminal, and returns the
    /// phrase of the terminal state.
    pub fn done(&mut self) -> (p: Phrase)
        requires
            old(self).wf(),
        ensures
            old(self).state().is_terminal() ==> *final(self) == *old(self),
            !old(self).state().is_terminal() ==> final(self).state() == State::<P>::Done,
            final(self).inner() == old(self).inner(),
            final(self).message() == old(self).message(),
            final(self).renders(p),
    {
        if let State::Active(_) = self.state {
            self.state = State::Done;
        }
        self.render()
    }

    /// Records `err` and enters the `Error` state, unless already terminal,
    /// and returns the phrase of the terminal state.
    pub fn error(&mut self, err: String) -> (p: Phrase)
        requires
            old(self).wf(),
        ensures
            old(self).state().is_terminal() ==> *final(self) == *old(self),
            !old(self).state().is_terminal() ==> final(self).state() == State::<P>::Error
                && final(self).message() == err@,
            final(self).inner() == old(self).inner(),
            final(self).renders(p),
    {
        if let State::Active(_) = self.state {
            self.err = err;
            self.state = State::Error;
        }
        self.render()
    }

    /// The phrase of a terminal state.
    fn render(&self) -> (p: Phrase)
        requires
            self.state().is_terminal(),
        ensures
            self.renders(p),
    {
        match self.state {
            State::Done => Phrase { typ: PHRASE_DONE, data: Vec::new() },
            _ => {
                let mut data: Vec<Token> = Vec::new();
                data.push(Token { typ: TOKEN_ERROR, data: self.err.clone() });
                Phrase { typ: PHRASE_ERROR, data }
            },
        }
    }
}

impl<T: Tokeniser, S: TokenFn<T> + Copy, P> Phraser<T, S, P> {
    /// The next token of the wrapped parser.
    pub fn token(&mut self) -> (t: Token)
        requires
            old(self).wf(),
        ensures
            final(self).wf(),
            final(self).same_state(old(self)),
            old(self).inner().state().is_terminal() ==> final(self).inner() == old(self).inner()
                && old(self).inner().renders(t),
            old(self).inner().state() is Active ==> old(self).inner().state()->Active_0.step(
                old(self).inner(),
                final(self).inner(),
                t,
            ),
    {
        self.parser.get()
    }
}

impl<T: Tokeniser, S, P: PhraseFn<T, S> + Copy> Phraser<T, S, P> {
    /// Runs the current phrase state on this phraser and returns its phrase.
    /// In `Done` or `Error` the phraser returns that state's phrase and stays
    /// as it is, so every later call returns the same phrase.
    pub fn get(&mut self) -> (p: Phrase)
        requires
            old(self).wf(),
        ensures
            final(self).wf(),
            old(self).state().is_terminal() ==> *final(self) == *old(self) && old(self).renders(p),
            old(self).state() is Active ==> old(self).state()->Active_0.step(
                *old(self),
                *final(self),
                p,
            ),
    {
        match self.state {
            State::Active(f) => f.call(self),
            _ => self.render(),
        }
    }
}

} // verus!
