use vstd::prelude::*;

use crate::cursor::{in_run, run_end, Cursor, Tokeniser, EOF};
use crate::token::{State, Token, TOKEN_DONE, TOKEN_ERROR};

verus! {

/// A token-level state: given the parser, it consumes characters and
/// returns the next token, setting the parser's next state as it goes.
pub trait TokenFn<T: Tokeniser>: Sized {
    /// What one run of this state does: from the parser `before`, it leaves
    /// the parser `after` and returns `t`. A state that states nothing more
    /// keeps this default.
    open spec fn step(self, before: Parser<T, Self>, after: Parser<T, Self>, t: Token) -> bool {
        true
    }

    fn call(self, p: &mut Parser<T, Self>) -> (t: Token)
        requires
            old(p).wf(),
        ensures
            final(p).wf(),
            self.step(*old(p), *final(p), t),
    ;
}

/// Drives a tokeniser through token states to produce tokens.
pub struct Parser<T, S> {
    tokeniser: T,
    state: State<S>,
    err: String,
}

/// The token of the `Done` state.
fn done_state<T: Tokeniser, S>(_p: &Parser<T, S>) -> (t: Token)
    ensures
        t.is_done(),
{
    Token { typ: TOKEN_DONE, data: String::new() }
}

/// The token of the `Error` state: the recorded message.
fn error_state<T: Tokeniser, S>(p: &Parser<T, S>) -> (t: Token)
    ensures
        t.is_error(p.message()),
{
    Token { typ: TOKEN_ERROR, data: p.err.clone() }
}

impl<T: Tokeniser, S> Parser<T, S> {
    /// The state of the tokeniser.
    pub closed spec fn cursor(&self) -> Cursor {
        self.tokeniser.cursor()
    }

    /// The current state.
    pub closed spec fn state(&self) -> State<S> {
        self.state
    }

    /// The message recorded by `error`.
    pub closed spec fn message(&self) -> Seq<char> {
        self.err@
    }

    pub open spec fn wf(&self) -> bool {
        self.cursor().wf()
    }

    /// Whether `t` is what a terminal parser renders: the `Done` token, or the
    /// `Error` token with the recorded message.
    pub open spec fn renders(&self, t: Token) -> bool {
        match self.state() {
            State::Done => t.is_done(),
            State::Error => t.is_error(self.message()),
            State::Active(_) => false,
        }
    }

    /// Everything but the tokeniser is as it was in `other`.
    pub open spec fn same_state(&self, other: &Self) -> bool {
        self.state() == other.state() && self.message() == other.message()
    }

    pub fn new(t: T, state: S) -> (p: Self)
        requires
            t.cursor().wf(),
        ensures
            p.wf(),
            p.cursor() == t.cursor(),
            p.state() == State::Active(state),
            p.message() == Seq::<char>::empty(),
    {
        Parser { tokeniser: t, state: State::Active(state), err: String::new() }
    }

    /// Makes `func` the state that the next `get` runs. A terminal parser
    /// stays as it is.
    pub fn set_state(&mut self, func: S)
        requires
            old(self).wf(),
        ensures
            old(self).state().is_terminal() ==> *final(self) == *old(self),
            !old(self).state().is_terminal() ==> final(self).state() == State::Active(func),
            final(self).cursor() == old(self).cursor(),
            final(self).message() == old(self).message(),
    {
        if let State::Active(_) = self.state {
            self.state = State::Active(func);
        }
    }

    /// The next character, without consuming it.
    pub fn peek(&mut self) -> (c: char)
        requires
            old(self).wf(),
        ensures
            c == old(self).cursor().current(),
            final(self).cursor() == old(self).cursor().at(old(self).cursor().pos),
            final(self).same_state(old(self)),
    {
        self.tokeniser.peek()
    }

    /// The number of characters consumed since the last token.
    pub fn len(&mut self) -> (n: usize)
        requires
            old(self).wf(),
        ensures
            n == old(self).cursor().consumed(),
            final(self).cursor() == old(self).cursor(),
            final(self).same_state(old(self)),
    {
        self.tokeniser.len()
    }

    /// Un-reads the last character read, and returns it (`EOF` when there is
    /// none).
    pub fn backup(&mut self) -> (c: char)
        requires
            old(self).wf(),
        ensures
            c == old(self).cursor().unread(),
            final(self).cursor() == old(self).cursor().backed(),
            final(self).same_state(old(self)),
    {
        self.tokeniser.backup()
    }

    /// A token of kind `typ` holding the text consumed since the last token;
    /// the next token starts here.
    pub fn emit(&mut self, typ: i8) -> (t: Token)
        requires
            old(self).wf(),
        ensures
            t.typ == typ,
            t.data@ == old(self).cursor().text(),
            final(self).cursor() == old(self).cursor().extracted(),
            final(self).same_state(old(self)),
    {
        let data = self.tokeniser.get();
        Token { typ, data }
    }

    /// Consumes one character; whether it is in `chars`. `EOF` never is.
    pub fn accept(&mut self, chars: &str) -> (r: bool)
        requires
            old(self).wf(),
        ensures
            r == (old(self).cursor().current() != EOF && chars@.contains(
                old(self).cursor().current(),
            )),
            final(self).cursor() == old(self).cursor().advanced(),
            final(self).same_state(old(self)),
    {
        in_run(chars, true, self.tokeniser.next())
    }

    /// Consumes characters while they are in `chars`, then returns the first
    /// one that is not (already consumed), or `EOF`.
    pub fn accept_run(&mut self, chars: &str) -> (c: char)
        requires
            old(self).wf(),
        ensures
            (c, final(self).cursor()) == old(self).cursor().run(chars@, true),
            final(self).same_state(old(self)),
    {
        self.run(chars, true)
    }

    /// Consumes one character; whether it is outside `chars`: the negation
    /// of what `accept` answers, so `true` at the end of the input.
    pub fn except(&mut self, chars: &str) -> (r: bool)
        requires
            old(self).wf(),
        ensures
            r == !(old(self).cursor().current() != EOF && chars@.contains(
                old(self).cursor().current(),
            )),
            final(self).cursor() == old(self).cursor().advanced(),
            final(self).same_state(old(self)),
    {
        !in_run(chars, true, self.tokeniser.next())
    }

    /// Consumes characters while they are outside `chars`, then returns the
    /// first one that is in it (already consumed), or `EOF`.
    pub fn except_run(&mut self, chars: &str) -> (c: char)
        requires
            old(self).wf(),
        ensures
            (c, final(self).cursor()) == old(self).cursor().run(chars@, false),
            final(self).same_state(old(self)),
    {
        self.run(chars, false)
    }

    /// Consumes the run over `(chars, member)` and the character that ends it.
    fn run(&mut self, chars: &str, member: bool) -> (c: char)
        requires
            old(self).wf(),
        ensures
            (c, final(self).cursor()) == old(self).cursor().run(chars@, member),
            final(self).same_state(old(self)),
    {
        let ghost c0 = old(self).cursor();
        loop
            invariant
                self.wf(),
                self.same_state(old(self)),
                c0 == old(self).cursor(),
                self.cursor().input == c0.input,
                self.cursor().start == c0.start,
                run_end(c0.input, self.cursor().pos, chars@, member)
                    == run_end(c0.input, c0.pos, chars@, member),
            decreases c0.input.len() - self.cursor().pos,
        {
            let ghost k = self.cursor();
            let c = self.tokeniser.next();
            if !in_run(chars, member, c) {
                assert(run_end(c0.input, k.pos, chars@, member) == k.pos);
                return c;
            }
        }
    }

    /// Enters the `Done` state, unless already terminal, and returns the
    /// token of the terminal state.
    pub fn done(&mut self) -> (t: Token)
        requires
            old(self).wf(),
        ensures
            old(self).state().is_terminal() ==> *final(self) == *old(self),
            !old(self).state().is_terminal() ==> final(self).state() == State::<S>::Done,
            final(self).cursor() == old(self).cursor(),
            final(self).message() == old(self).message(),
            final(self).renders(t),
    {
        if let State::Active(_) = self.state {
            self.state = State::Done;
        }
        self.render()
    }

    /// Records `err` and enters the `Error` state, unless already terminal,
    /// and returns the token of the terminal state.
    pub fn error(&mut self, err: String) -> (t: Token)
        requires
            old(self).wf(),
        ensures
            old(self).state().is_terminal() ==> *final(self) == *old(self),
            !old(self).state().is_terminal() ==> final(self).state() == State::<S>::Error
                && final(self).message() == err@,
            final(self).cursor() == old(self).cursor(),
            final(self).renders(t),
    {
        if let State::Active(_) = self.state {
            self.err = err;
            self.state = State::Error;
        }
        self.render()
    }

    /// The token of a terminal state.
    fn render(&self) -> (t: Token)
        requires
            self.state().is_terminal(),
        ensures
            self.renders(t),
    {
        match self.state {
            State::Done => done_state(self),
            _ => error_state(self),
        }
    }
}

impl<T: Tokeniser, S: TokenFn<T> + Copy> Parser<T, S> {
    /// Runs the current state on this parser and returns its token. In
    /// `Done` or `Error` the parser returns that state's token and stays as it
    /// is, so every later call returns the same token.
    pub fn get(&mut self) -> (t: Token)
        requires
            old(self).wf(),
        ensures
            final(self).wf(),
            old(self).state().is_terminal() ==> *final(self) == *old(self) && old(self).renders(t),
            old(self).state() is Active ==> old(self).state()->Active_0.step(
                *old(self),
                *final(self),
                t,
            ),
    {
        match self.state {
            State::Active(f) => f.call(self),
            _ => self.render(),
        }
    }
}

} // verus!
