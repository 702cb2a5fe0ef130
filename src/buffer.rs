use vstd::prelude::*;
use vstd::string::StrSliceExecFns;

use crate::cursor::{Cursor, Tokeniser, EOF};

verus! {

/// A tokeniser over a string held in memory.
pub struct StrTokeniser {
    text: String,
    chars: Vec<char>,
    pos: usize,
    start: usize,
    pending: bool,
}

impl StrTokeniser {
    #[verifier::type_invariant]
    spec fn inv(self) -> bool {
        self.chars@ == self.text@
    }

    /// A tokeniser at the start of `s`, which must not hold `EOF`.
    pub fn new(s: &str) -> (t: Self)
        requires
            !s@.contains(EOF),
        ensures
            t.cursor() == (Cursor { input: s@, pos: 0, start: 0, pending: false }),
            t.cursor().wf(),
    {
        let n = s.unicode_len();
        let mut chars: Vec<char> = Vec::new();
        let mut i: usize = 0;
        while i < n
            invariant
                n == s@.len(),
                i <= n,
                chars@ == s@.subrange(0, i as int),
            decreases n - i,
        {
            chars.push(s.get_char(i));
            i = i + 1;
        }
        assert(chars@ == s@);
        StrTokeniser { text: String::from_str(s), chars, pos: 0, start: 0, pending: false }
    }
}

impl Tokeniser for StrTokeniser {
    closed spec fn cursor(&self) -> Cursor {
        Cursor {
            input: self.chars@,
            pos: self.pos as nat,
            start: self.start as nat,
            pending: self.pending,
        }
    }

    fn next(&mut self) -> (c: char) {
        proof {
            use_type_invariant(&*self);
        }
        if self.pos < self.chars.len() {
            let c = self.chars[self.pos];
            self.pos = self.pos + 1;
            self.pending = true;
            c
        } else {
            self.pending = false;
            EOF
        }
    }

    fn backup(&mut self) -> (c: char) {
        proof {
            use_type_invariant(&*self);
        }
        if self.pending {
            self.pos = self.pos - 1;
            self.pending = false;
            self.chars[self.pos]
        } else {
            EOF
        }
    }

    fn get(&mut self) -> (s: String) {
        proof {
            use_type_invariant(&*self);
        }
        let s = self.text.as_str().substring_char(self.start, self.pos).to_owned();
        self.start = self.pos;
        self.pending = false;
        s
    }

    fn len(&mut self) -> (n: usize) {
        self.pos - self.start
    }
}

} // verus!
