use statelex::{
    Parser, PhraseFn, Phrase, Phraser, StrTokeniser, Token, TokenFn, PHRASE_DONE, PHRASE_ERROR,
    TOKEN_DONE, TOKEN_ERROR,
};

const LETTERS: &str = "abcdefghijklmnopqrstuvwxyzABCDEFGHIJKLMNOPQRSTUVWXYZ";
const DIGITS: &str = "0123456789";

const WORD: i8 = 0;
const NUMBER: i8 = 1;
const LETTER: i8 = 2;
const PAIR: i8 = 0;

/// A word, then a number, then the end.
#[derive(Clone, Copy)]
enum WordNumber {
    Word,
    Number,
    End,
}

impl TokenFn<StrTokeniser> for WordNumber {
    fn call(self, p: &mut Parser<StrTokeniser, WordNumber>) -> Token {
        match self {
            WordNumber::Word => {
                p.accept_run(LETTERS);
                p.backup();
                p.set_state(WordNumber::Number);
                p.emit(WORD)
            }
            WordNumber::Number => {
                p.accept_run(DIGITS);
                p.backup();
                p.set_state(WordNumber::End);
                p.emit(NUMBER)
            }
            WordNumber::End => p.done(),
        }
    }
}

/// Ends at once.
#[derive(Clone, Copy)]
struct Finish;

impl TokenFn<StrTokeniser> for Finish {
    fn call(self, p: &mut Parser<StrTokeniser, Finish>) -> Token {
        p.done()
    }
}

/// One token per letter; anything else is an error.
#[derive(Clone, Copy)]
struct Letters;

impl TokenFn<StrTokeniser> for Letters {
    fn call(self, p: &mut Parser<StrTokeniser, Letters>) -> Token {
        if p.peek() == statelex::EOF {
            return p.done();
        }
        if p.accept(LETTERS) {
            p.emit(LETTER)
        } else {
            let c = p.backup();
            p.error(format!("unexpected character '{}'", c))
        }
    }
}

/// Two tokens per phrase.
#[derive(Clone, Copy)]
struct Pairs;

impl PhraseFn<StrTokeniser, Letters> for Pairs {
    fn call(self, ph: &mut Phraser<StrTokeniser, Letters, Pairs>) -> Phrase {
        let first = ph.token();
        if first.typ == TOKEN_DONE {
            return ph.done();
        }
        if first.typ == TOKEN_ERROR {
            return ph.error(first.data);
        }
        let second = ph.token();
        if second.typ != LETTER {
            return ph.error("odd number of tokens".to_string());
        }
        Phrase { typ: PAIR, data: vec![first, second] }
    }
}

fn assert_token(t: &Token, typ: i8, data: &str) {
    assert_eq!(t.typ, typ);
    assert_eq!(t.data, data);
}

fn texts(p: &Phrase) -> Vec<String> {
    p.data.iter().map(|t| t.data.clone()).collect()
}

#[test]
fn word_then_number_then_done() {
    let mut p = Parser::new(StrTokeniser::new("abc123"), WordNumber::Word);
    assert_token(&p.get(), WORD, "abc");
    assert_token(&p.get(), NUMBER, "123");
    assert_token(&p.get(), TOKEN_DONE, "");
}

#[test]
fn empty_input_is_done() {
    let mut p = Parser::new(StrTokeniser::new(""), Finish);
    assert_token(&p.get(), TOKEN_DONE, "");
}

#[test]
fn unexpected_character_latches_error() {
    let mut p = Parser::new(StrTokeniser::new("a#b"), Letters);
    assert_token(&p.get(), LETTER, "a");
    for _ in 0..4 {
        assert_token(&p.get(), TOKEN_ERROR, "unexpected character '#'");
    }
}

#[test]
fn phraser_groups_pairs() {
    let p = Parser::new(StrTokeniser::new("ABCD"), Letters);
    let mut ph = Phraser::new(p, Pairs);
    let first = ph.get();
    assert_eq!(first.typ, PAIR);
    assert_eq!(texts(&first), vec!["A", "B"]);
    let second = ph.get();
    assert_eq!(second.typ, PAIR);
    assert_eq!(texts(&second), vec!["C", "D"]);
    let done = ph.get();
    assert_eq!(done.typ, PHRASE_DONE);
    assert!(done.data.is_empty());
}

#[test]
fn done_repeats_forever() {
    let mut p = Parser::new(StrTokeniser::new("abc123"), WordNumber::Word);
    p.get();
    p.get();
    for _ in 0..5 {
        assert_token(&p.get(), TOKEN_DONE, "");
    }
}

#[test]
fn phraser_done_repeats_forever() {
    let p = Parser::new(StrTokeniser::new("AB"), Letters);
    let mut ph = Phraser::new(p, Pairs);
    assert_eq!(ph.get().typ, PAIR);
    for _ in 0..3 {
        let d = ph.get();
        assert_eq!(d.typ, PHRASE_DONE);
        assert!(d.data.is_empty());
    }
}

#[test]
fn phraser_error_repeats_forever() {
    let p = Parser::new(StrTokeniser::new("ABC"), Letters);
    let mut ph = Phraser::new(p, Pairs);
    assert_eq!(texts(&ph.get()), vec!["A", "B"]);
    for _ in 0..3 {
        let e = ph.get();
        assert_eq!(e.typ, PHRASE_ERROR);
        assert_eq!(e.data.len(), 1);
        assert_token(&e.data[0], TOKEN_ERROR, "odd number of tokens");
    }
}

#[test]
fn phraser_passes_parser_error_on() {
    let p = Parser::new(StrTokeniser::new("AB#"), Letters);
    let mut ph = Phraser::new(p, Pairs);
    assert_eq!(texts(&ph.get()), vec!["A", "B"]);
    let e = ph.get();
    assert_eq!(e.typ, PHRASE_ERROR);
    assert_token(&e.data[0], TOKEN_ERROR, "unexpected character '#'");
    assert_eq!(ph.get().typ, PHRASE_ERROR);
}
