use vstd::prelude::*;

use crate::cursor::{continues_run, run_end, Cursor, Tokeniser, EOF};
use crate::parser::Parser;
use crate::phraser::Phraser;
use crate::token::{Phrase, Token};

verus! {

/// A run ends no earlier than where it starts and no later than the end of
/// the input, and every character it passes over belongs to it.
pub proof fn run_end_bounds(input: Seq<char>, pos: nat, chars: Seq<char>, member: bool)
    requires
        pos <= input.len(),
    ensures
        pos <= run_end(input, pos, chars, member) <= input.len(),
        forall|i: int|
            pos <= i < run_end(input, pos, chars, member) ==> continues_run(
                chars,
                member,
                #[trigger] input[i],
            ),
    decreases input.len() - pos,
{
    if pos < input.len() && continues_run(chars, member, input[pos as int]) {
        run_end_bounds(input, pos + 1, chars, member);
    }
}

/// After `accept_run`, a `backup` un-reads the character that the run
/// returned, and a `peek` then sees that same character again: the cursor
/// stands just before it, and every character passed over was in the class.
pub proof fn accept_run_then_backup_then_peek(cur: Cursor, chars: Seq<char>)
    requires
        cur.wf(),
    ensures
        ({
            let (c, after) = cur.run(chars, true);
            let end = run_end(cur.input, cur.pos, chars, true);
            &&& after.wf()
            &&& after.unread() == c
            &&& after.backed().current() == c
            &&& after.backed().pos == end
            &&& forall|i: int|
                cur.pos <= i < end ==> continues_run(chars, true, #[trigger] cur.input[i])
        }),
{
    run_end_bounds(cur.input, cur.pos, chars, true);
}

/// Runs over two classes that take the same characters are the same run.
proof fn same_run_end(
    input: Seq<char>,
    pos: nat,
    a: Seq<char>,
    a_member: bool,
    b: Seq<char>,
    b_member: bool,
)
    requires
        forall|c: char| continues_run(a, a_member, c) == continues_run(b, b_member, c),
    ensures
        run_end(input, pos, a, a_member) == run_end(input, pos, b, b_member),
    decreases input.len() - pos,
{
    if pos < input.len() && continues_run(a, a_member, input[pos as int]) {
        same_run_end(input, pos + 1, a, a_member, b, b_member);
    }
}

/// Where `complement` holds exactly the characters other than `EOF` that
/// `chars` does not, a character continues a run outside `chars` exactly
/// when it continues a run inside `complement`, and `except_run(chars)` and
/// `accept_run(complement)` return the same character and leave the same
/// cursor.
pub proof fn except_run_is_accept_run_of_complement(
    cur: Cursor,
    chars: Seq<char>,
    complement: Seq<char>,
)
    requires
        forall|c: char| c != EOF ==> (complement.contains(c) <==> !chars.contains(c)),
    ensures
        forall|c: char| continues_run(chars, false, c) == continues_run(complement, true, c),
        cur.run(chars, false) == cur.run(complement, true),
{
    same_run_end(cur.input, cur.pos, chars, false, complement, true);
}

/// A terminal parser renders one token only: every `get` on it returns a
/// token of the same kind and text.
pub proof fn terminal_token_is_unique<T: Tokeniser, S>(p: Parser<T, S>, first: Token, second: Token)
    requires
        p.renders(first),
        p.renders(second),
    ensures
        first.typ == second.typ,
        first.data@ == second.data@,
{
}

/// A terminal phraser renders one phrase only: every `get` on it returns a
/// phrase of the same kind, with tokens of the same kinds and texts.
pub proof fn terminal_phrase_is_unique<T: Tokeniser, S, P>(
    ph: Phraser<T, S, P>,
    first: Phrase,
    second: Phrase,
)
    requires
        ph.renders(first),
        ph.renders(second),
    ensures
        first.typ == second.typ,
        first.data@.len() == second.data@.len(),
        forall|i: int|
            0 <= i < first.data@.len() ==> (#[trigger] first.data@[i]).typ == second.data@[i].typ
                && first.data@[i].data@ == second.data@[i].data@,
{
}

} // verus!
