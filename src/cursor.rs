use vstd::prelude::*;
use vstd::string::StrSliceExecFns;

verus! {

/// The character a tokeniser hands out once its input is exhausted. It is
/// reserved for that: a tokeniser's input never holds it.
pub const EOF: char = '\0';

/// Mathematical model of a tokeniser: the whole input, the cursor position,
/// the last extraction point, and whether one character may be un-read.
pub struct Cursor {
    pub input: Seq<char>,
    pub pos: nat,
    pub start: nat,
    pub pending: bool,
}

impl Cursor {
    /// The input never holds `EOF`, the extraction point never passes the
    /// cursor, the cursor never passes the end, and a character can only be
    /// un-read back to the extraction point.
    pub open spec fn wf(self) -> bool {
        &&& !self.input.contains(EOF)
        &&& self.start <= self.pos <= self.input.len()
        &&& self.pending ==> self.start < self.pos
    }

    /// The character at index `i`, or `EOF` past the end.
    pub open spec fn char_at(self, i: int) -> char {
        if 0 <= i < self.input.len() {
            self.input[i]
        } else {
            EOF
        }
    }

    /// What the next read returns.
    pub open spec fn current(self) -> char {
        self.char_at(self.pos as int)
    }

    /// The cursor moved to `pos`, with no character to un-read.
    pub open spec fn at(self, pos: nat) -> Cursor {
        Cursor { pos, pending: false, ..self }
    }

    /// The state after one read. Reading at the end moves nothing, and leaves
    /// nothing to un-read.
    pub open spec fn advanced(self) -> Cursor {
        if self.pos < self.input.len() {
            Cursor { pos: self.pos + 1, pending: true, ..self }
        } else {
            Cursor { pending: false, ..self }
        }
    }

    /// The character that a backup un-reads: the last one read, or `EOF`
    /// when there is none (right after the end was read, after an
    /// extraction, or after a backup).
    pub open spec fn unread(self) -> char {
        if self.pending {
            self.input[self.pos - 1]
        } else {
            EOF
        }
    }

    /// The state after one backup. A second backup in a row changes nothing.
    pub open spec fn backed(self) -> Cursor {
        if self.pending {
            self.at((self.pos - 1) as nat)
        } else {
            self
        }
    }

    /// The text consumed since the last extraction point.
    pub open spec fn text(self) -> Seq<char> {
        self.input.subrange(self.start as int, self.pos as int)
    }

    /// The number of characters consumed since the last extraction point.
    pub open spec fn consumed(self) -> nat {
        (self.pos - self.start) as nat
    }

    /// What a run over `(chars, member)` from here returns, and the state it
    /// leaves: the character that ended the run has been read.
    pub open spec fn run(self, chars: Seq<char>, member: bool) -> (char, Cursor) {
        let end = run_end(self.input, self.pos, chars, member);
        (self.char_at(end as int), self.at(end).advanced())
    }

    /// The state after an extraction: the extraction point moves up to the
    /// cursor.
    pub open spec fn extracted(self) -> Cursor {
        Cursor { start: self.pos, pending: false, ..self }
    }
}

/// Whether `c` belongs to a run over the character class `chars`: a member
/// of it when `member`, outside it otherwise. `EOF` ends every run.
pub open spec fn continues_run(chars: Seq<char>, member: bool, c: char) -> bool {
    c != EOF && chars.contains(c) == member
}

/// The first index from `pos` on whose character ends a run over
/// `(chars, member)`; the end of `input` at the latest.
pub open spec fn run_end(input: Seq<char>, pos: nat, chars: Seq<char>, member: bool) -> nat
    decreases input.len() - pos,
{
    if pos < input.len() && continues_run(chars, member, input[pos as int]) {
        run_end(input, pos + 1, chars, member)
    } else {
        pos
    }
}

/// Whether `chars` holds `c`.
pub fn contains_char(chars: &str, c: char) -> (r: bool)
    ensures
        r == chars@.contains(c),
{
    let n = chars.unicode_len();
    let mut i: usize = 0;
    while i < n
        invariant
            n == chars@.len(),
            i <= n,
            forall|j: int| 0 <= j < i ==> chars@[j] != c,
        decreases n - i,
    {
        if chars.get_char(i) == c {
            return true;
        }
        i = i + 1;
    }
    false
}

/// Exec counterpart of [`continues_run`].
pub fn in_run(chars: &str, member: bool, c: char) -> (r: bool)
    ensures
        r == continues_run(chars@, member, c),
{
    c != EOF && contains_char(chars, c) == member
}

/// A character cursor over some input, with one character of look-ahead and
/// backup.
pub trait Tokeniser {
    /// The state of this tokeniser.
    spec fn cursor(&self) -> Cursor;

    /// Returns the next character and moves past it; `EOF` at the end.
    fn next(&mut self) -> (c: char)
        requires
            old(self).cursor().wf(),
        ensures
            c == old(self).cursor().current(),
            final(self).cursor() == old(self).cursor().advanced(),
    ;

    /// Un-reads the character that the last `next` returned.
    fn backup(&mut self) -> (c: char)
        requires
            old(self).cursor().wf(),
        ensures
            c == old(self).cursor().unread(),
            final(self).cursor() == old(self).cursor().backed(),
    ;

    /// The character that `next` would return, without moving the cursor.
    fn peek(&mut self) -> (c: char)
        requires
            old(self).cursor().wf(),
        ensures
            c == old(self).cursor().current(),
            final(self).cursor() == old(self).cursor().at(old(self).cursor().pos),
    {
        let c = self.next();
        self.backup();
        c
    }

    /// Returns the text consumed since the last extraction point, and moves
    /// that point up to the cursor.
    fn get(&mut self) -> (s: String)
        requires
            old(self).cursor().wf(),
        ensures
            s@ == old(self).cursor().text(),
            final(self).cursor() == old(self).cursor().extracted(),
    ;

    /// The number of characters consumed since the last extraction point.
    fn len(&mut self) -> (n: usize)
        requires
            old(self).cursor().wf(),
        ensures
            n == old(self).cursor().consumed(),
            final(self).cursor() == old(self).cursor(),
    ;
}

} // verus!
