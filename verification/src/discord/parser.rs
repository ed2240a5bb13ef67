//! Splitting of a command line into words and quoted strings.

use vstd::prelude::*;

verus! {

/// One piece of a command line.
#[derive(Debug, PartialEq, Eq)]
pub enum ParseString {
    /// A run of characters without whitespace.
    Unquoted(String),
    /// What stood between two quotes of the kind `quote`.
    Quoted { s: String, quote: char },
}

/// Mathematical value of a [`ParseString`].
pub enum ParseStringView {
    Unquoted(Seq<char>),
    Quoted { s: Seq<char>, quote: char },
}

impl View for ParseString {
    type V = ParseStringView;

    open spec fn view(&self) -> ParseStringView {
        match *self {
            ParseString::Unquoted(s) => ParseStringView::Unquoted(s@),
            ParseString::Quoted { s, quote } => ParseStringView::Quoted { s: s@, quote },
        }
    }
}

impl DeepView for ParseString {
    type V = ParseStringView;

    open spec fn deep_view(&self) -> ParseStringView {
        self@
    }
}

/// Whether a character separates words: space, tab, line feed, form feed
/// or carriage return.
pub open spec fn is_separator(c: char) -> bool {
    c == ' ' || c == '\t' || c == '\n' || c == '\x0C' || c == '\r'
}

/// Where the reading of a command line stands.
pub enum ParseState {
    /// Between pieces. After a quoted string nothing but whitespace may follow.
    Whitespace { expecting: bool },
    /// Inside a word.
    Word { s: Seq<char> },
    /// Inside a quoted string; `prev_char` is the character before the next.
    QuotedString { s: Seq<char>, quote: char, prev_char: char },
    /// Something other than whitespace followed a quoted string.
    Failed,
}

/// The pieces read so far and the state of the reading.
pub struct Parse {
    pub done: Seq<ParseStringView>,
    pub state: ParseState,
}

/// The reading after one more character.
pub open spec fn parse_step(parse: Parse, c: char) -> Parse {
    match parse.state {
        ParseState::Failed => parse,
        ParseState::Whitespace { expecting } => {
            if is_separator(c) {
                parse
            } else if expecting {
                Parse { state: ParseState::Failed, ..parse }
            } else if c == '"' || c == '\'' {
                Parse {
                    state: ParseState::QuotedString { s: Seq::empty(), quote: c, prev_char: '\0' },
                    ..parse
                }
            } else {
                Parse { state: ParseState::Word { s: seq![c] }, ..parse }
            }
        },
        ParseState::Word { s } => {
            if is_separator(c) {
                Parse {
                    done: parse.done.push(ParseStringView::Unquoted(s)),
                    state: ParseState::Whitespace { expecting: false },
                }
            } else {
                Parse { state: ParseState::Word { s: s.push(c) }, ..parse }
            }
        },
        ParseState::QuotedString { s, quote, prev_char } => {
            if c == quote && prev_char != '\\' {
                Parse {
                    done: parse.done.push(ParseStringView::Quoted { s, quote }),
                    state: ParseState::Whitespace { expecting: true },
                }
            } else {
                Parse {
                    state: ParseState::QuotedString { s: s.push(c), quote, prev_char: c },
                    ..parse
                }
            }
        },
    }
}

/// The reading of a whole line, character by character from the left.
pub open spec fn parse_of(line: Seq<char>) -> Parse
    decreases line.len(),
{
    if line.len() == 0 {
        Parse { done: Seq::empty(), state: ParseState::Whitespace { expecting: false } }
    } else {
        parse_step(parse_of(line.drop_last()), line.last())
    }
}

/// The pieces of a command line.
///
/// Words end at whitespace and quoted strings at the quote that opened
/// them, unless a backslash stands right before it. Only pieces that have
/// ended count: a word or a quoted string that runs to the end of the line is
/// left out. The line has no pieces at all, `None`, where anything but
/// whitespace follows a quoted string.
pub open spec fn command_pieces(line: Seq<char>) -> Option<Seq<ParseStringView>> {
    match parse_of(line).state {
        ParseState::Failed => None,
        _ => Some(parse_of(line).done),
    }
}


/// `String::push`: appends one character to a text.
#[verifier::external_body]
fn push_char(text: &mut String, c: char)
    ensures
        final(text)@ == old(text)@.push(c),
{
    text.push(c)
}

fn separates(c: char) -> (result: bool)
    ensures
        result == is_separator(c),
{
    c == ' ' || c == '\t' || c == '\n' || c == '\x0C' || c == '\r'
}

enum Scanner {
    Whitespace { expecting: bool },
    Word { s: String },
    QuotedString { s: String, quote: char, prev_char: char },
}

impl View for Scanner {
    type V = ParseState;

    closed spec fn view(&self) -> ParseState {
        match *self {
            Scanner::Whitespace { expecting } => ParseState::Whitespace { expecting },
            Scanner::Word { s } => ParseState::Word { s: s@ },
            Scanner::QuotedString { s, quote, prev_char } => ParseState::QuotedString {
                s: s@,
                quote,
                prev_char,
            },
        }
    }
}

/// Splits a command line into its words and quoted strings.
pub fn parse_command(s: &str) -> (result: Option<Vec<ParseString>>)
    ensures
        result.deep_view() == command_pieces(s@),
{
    let mut result: Vec<ParseString> = Vec::new();
    let mut state = Scanner::Whitespace { expecting: false };
    let chars = s.chars();
    assert(parse_of(s@.take(0)).done =~= result.deep_view());
    for c in it: chars
        invariant
            it.seq() == s@,
            parse_of(s@.take(it.index())) == (Parse { done: result.deep_view(), state: state@ }),
    {
        let ghost before = parse_of(s@.take(it.index()));
        proof {
            let upto = s@.take(it.index() + 1);
            assert(upto.drop_last() =~= s@.take(it.index()));
            assert(upto.last() == c);
            assert(parse_of(upto) == parse_step(before, c));
        }
        match state {
            Scanner::Whitespace { expecting } => {
                if separates(c) {
                    state = Scanner::Whitespace { expecting };
                } else if expecting {
                    proof {
                        lemma_failure_stays(s@.take(it.index() + 1), s@);
                    }
                    return None;
                } else if c == '"' || c == '\'' {
                    state = Scanner::QuotedString { s: String::new(), quote: c, prev_char: '\0' };
                } else {
                    let mut word = String::new();
                    push_char(&mut word, c);
                    assert(word@ =~= seq![c]);
                    state = Scanner::Word { s: word };
                }
            },
            Scanner::Word { s: mut word } => {
                if separates(c) {
                    result.push(ParseString::Unquoted(word));
                    assert(result.deep_view() =~= before.done.push(
                        ParseStringView::Unquoted(word@),
                    ));
                    state = Scanner::Whitespace { expecting: false };
                } else {
                    push_char(&mut word, c);
                    state = Scanner::Word { s: word };
                }
            },
            Scanner::QuotedString { s: mut text, quote, prev_char } => {
                if c == quote && prev_char != '\\' {
                    result.push(ParseString::Quoted { s: text, quote });
                    assert(result.deep_view() =~= before.done.push(
                        ParseStringView::Quoted { s: text@, quote },
                    ));
                    state = Scanner::Whitespace { expecting: true };
                } else {
                    push_char(&mut text, c);
                    state = Scanner::QuotedString { s: text, quote, prev_char: c };
                }
            },
        }
    }
    assert(s@.take(s@.len() as int) =~= s@);
    Some(result)
}

/// A reading that has failed stays failed, whatever follows.
proof fn lemma_failure_stays(prefix: Seq<char>, line: Seq<char>)
    requires
        prefix.len() <= line.len(),
        prefix == line.take(prefix.len() as int),
        parse_of(prefix).state is Failed,
    ensures
        parse_of(line).state is Failed,
    decreases line.len() - prefix.len(),
{
    if prefix.len() < line.len() {
        let longer = line.take(prefix.len() as int + 1);
        assert(longer.drop_last() =~= prefix);
        assert(longer.take(prefix.len() as int) =~= prefix);
        lemma_failure_stays(longer, line);
    } else {
        assert(line.take(line.len() as int) =~= line);
    }
}

} // verus!
