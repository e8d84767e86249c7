//! What holds across the stages: strict JSON passes through the whole
//! expansion, and strings already in double quotes pass through
//! normalisation.
use vstd::prelude::*;
use crate::bindings::BindingsView;
use crate::error::JsonError;
use crate::normalize::{emit_then, is_keyword, normalized};
use crate::render::{lemma_parts_without_placeholder, lemma_render_literal, rendering};
use crate::segment::{parts_of, PartView};
use crate::text::{
    is_blank, is_letter, is_word_char, lemma_len_before_concat, lemma_word_len_of_run, quoted,
};

verus! {

/// One lexeme of strict JSON text.
pub ghost enum Lexeme {
    /// A whitespace character between tokens.
    Blank(char),
    /// One of `{`, `}`, `[`, `]`, `,`, `:`.
    Mark(char),
    /// A number, written without an exponent.
    Number(Seq<char>),
    /// A string: the characters between its double quotes.
    Text(Seq<char>),
    /// `true`, `false` or `null`.
    Keyword(Seq<char>),
}

pub open spec fn is_mark(c: char) -> bool {
    c == '{' || c == '}' || c == '[' || c == ']' || c == ',' || c == ':'
}

pub open spec fn is_digit(c: char) -> bool {
    '0' <= c && c <= '9'
}

pub open spec fn is_number_char(c: char) -> bool {
    is_digit(c) || c == '-' || c == '+' || c == '.'
}

/// Whether `l` is a lexeme of strict JSON without `$`: a string holds no
/// escaped quote and no `$`, and a number starts with a digit or a minus.
pub open spec fn lexeme_ok(l: Lexeme) -> bool {
    match l {
        Lexeme::Blank(c) => is_blank(c),
        Lexeme::Mark(c) => is_mark(c),
        Lexeme::Number(ds) => {
            &&& ds.len() > 0
            &&& is_digit(ds[0]) || ds[0] == '-'
            &&& forall|i: int| 0 <= i < ds.len() ==> is_number_char(#[trigger] ds[i])
        },
        Lexeme::Text(body) => forall|i: int|
            0 <= i < body.len() ==> #[trigger] body[i] != '"' && body[i] != '$',
        Lexeme::Keyword(w) => is_keyword(w),
    }
}

/// Strict JSON never puts two keywords side by side.
pub open spec fn keywords_apart(ls: Seq<Lexeme>) -> bool {
    forall|i: int| 0 <= i < ls.len() - 1 ==> !(#[trigger] ls[i] is Keyword && ls[i + 1] is Keyword)
}

/// How a lexeme is written.
pub open spec fn spelling(l: Lexeme) -> Seq<char> {
    match l {
        Lexeme::Blank(c) => seq![c],
        Lexeme::Mark(c) => seq![c],
        Lexeme::Number(ds) => ds,
        Lexeme::Text(body) => quoted(body),
        Lexeme::Keyword(w) => w,
    }
}

/// How a lexeme is written once whitespace is removed.
pub open spec fn compact_spelling(l: Lexeme) -> Seq<char> {
    if l is Blank {
        Seq::empty()
    } else {
        spelling(l)
    }
}

/// The text written by the lexemes `ls`.
pub open spec fn spelled(ls: Seq<Lexeme>) -> Seq<char>
    decreases ls.len(),
{
    if ls.len() == 0 {
        Seq::empty()
    } else {
        spelling(ls[0]) + spelled(ls.drop_first())
    }
}

/// The text written by the lexemes `ls`, without its whitespace.
pub open spec fn compacted(ls: Seq<Lexeme>) -> Seq<char>
    decreases ls.len(),
{
    if ls.len() == 0 {
        Seq::empty()
    } else {
        compact_spelling(ls[0]) + compacted(ls.drop_first())
    }
}

/// A string already in double quotes, with no quote inside, passes through
/// normalisation unchanged, whatever follows it.
pub proof fn lemma_quoted_string_kept(body: Seq<char>, rest: Seq<char>)
    requires
        forall|i: int| 0 <= i < body.len() ==> #[trigger] body[i] != '"',
    ensures
        normalized(quoted(body) + rest) == emit_then(quoted(body), normalized(rest)),
        normalized(quoted(body)) == Ok::<Seq<char>, JsonError>(quoted(body)),
{
    lemma_quoted_then(body, rest);
    lemma_quoted_then(body, Seq::empty());
    assert(quoted(body) + Seq::<char>::empty() =~= quoted(body));
}

proof fn lemma_quoted_then(body: Seq<char>, rest: Seq<char>)
    requires
        forall|i: int| 0 <= i < body.len() ==> #[trigger] body[i] != '"',
    ensures
        normalized(quoted(body) + rest) == emit_then(quoted(body), normalized(rest)),
{
    let s = quoted(body) + rest;
    let tail = s.drop_first();
    let close = seq!['"'] + rest;
    assert(tail =~= body + close);
    lemma_len_before_concat(body, close, '"');
    let k = body.len() as int;
    assert(tail.take(k) =~= body);
    assert(tail.skip(k + 1) =~= rest);
}

proof fn lemma_keyword_letters(w: Seq<char>)
    requires
        is_keyword(w),
    ensures
        w.len() > 0,
        is_letter(w[0]),
        forall|i: int| 0 <= i < w.len() ==> is_word_char(#[trigger] w[i]),
        forall|i: int| 0 <= i < w.len() ==> #[trigger] w[i] != '$',
{
    if w == seq!['t', 'r', 'u', 'e'] {
        assert(w[0] == 't' && w[1] == 'r' && w[2] == 'u' && w[3] == 'e');
    } else if w == seq!['f', 'a', 'l', 's', 'e'] {
        assert(w[0] == 'f' && w[1] == 'a' && w[2] == 'l' && w[3] == 's' && w[4] == 'e');
    } else {
        assert(w[0] == 'n' && w[1] == 'u' && w[2] == 'l' && w[3] == 'l');
    }
}

proof fn lemma_number_then(ds: Seq<char>, rest: Seq<char>)
    requires
        forall|i: int| 0 <= i < ds.len() ==> is_number_char(#[trigger] ds[i]),
    ensures
        normalized(ds + rest) == emit_then(ds, normalized(rest)),
    decreases ds.len(),
{
    if ds.len() == 0 {
        assert(ds + rest =~= rest);
        if let Ok(t) = normalized(rest) {
            assert(ds + t =~= t);
        }
    } else {
        let s = ds + rest;
        let more = ds.drop_first();
        assert(s.drop_first() =~= more + rest);
        assert(is_number_char(ds[0]));
        lemma_number_then(more, rest);
        if let Ok(t) = normalized(rest) {
            assert(seq![ds[0]] + (more + t) =~= ds + t);
        }
    }
}

/// Normalising one lexeme followed by `rest` keeps its compact spelling.
proof fn lemma_lexeme_then(l: Lexeme, rest: Seq<char>)
    requires
        lexeme_ok(l),
        l is Keyword && rest.len() > 0 ==> !is_word_char(rest[0]),
    ensures
        normalized(spelling(l) + rest) == emit_then(compact_spelling(l), normalized(rest)),
{
    let s = spelling(l) + rest;
    match l {
        Lexeme::Blank(c) => {
            assert(s.drop_first() =~= rest);
            if let Ok(t) = normalized(rest) {
                assert(Seq::<char>::empty() + t =~= t);
            }
        },
        Lexeme::Mark(c) => {
            assert(s.drop_first() =~= rest);
        },
        Lexeme::Number(ds) => {
            lemma_number_then(ds, rest);
        },
        Lexeme::Text(body) => {
            lemma_quoted_then(body, rest);
        },
        Lexeme::Keyword(w) => {
            lemma_keyword_letters(w);
            let tail = s.drop_first();
            let more = w.drop_first();
            assert(tail =~= more + rest);
            assert forall|i: int| 0 <= i < more.len() implies is_word_char(#[trigger] more[i]) by {
                assert(more[i] == w[i + 1]);
            }
            lemma_word_len_of_run(more, rest);
            let k = more.len() as int;
            assert(s.take(k + 1) =~= w);
            assert(tail.skip(k) =~= rest);
        },
    }
}

proof fn lemma_spelled_start(ls: Seq<Lexeme>)
    requires
        ls.len() > 0,
        lexeme_ok(ls[0]),
        !(ls[0] is Keyword),
    ensures
        spelled(ls).len() > 0,
        !is_word_char(spelled(ls)[0]),
{
    let first = spelling(ls[0]);
    match ls[0] {
        Lexeme::Number(ds) => {},
        Lexeme::Text(body) => {},
        _ => {},
    }
    assert(first.len() > 0);
    assert(spelled(ls)[0] == first[0]);
}

proof fn lemma_spelled_normalized(ls: Seq<Lexeme>)
    requires
        forall|i: int| 0 <= i < ls.len() ==> lexeme_ok(#[trigger] ls[i]),
        keywords_apart(ls),
    ensures
        normalized(spelled(ls)) == Ok::<Seq<char>, JsonError>(compacted(ls)),
    decreases ls.len(),
{
    if ls.len() > 0 {
        let more = ls.drop_first();
        assert forall|i: int| 0 <= i < more.len() implies lexeme_ok(#[trigger] more[i]) by {
            assert(more[i] == ls[i + 1]);
        }
        assert forall|i: int| 0 <= i < more.len() - 1 implies !(#[trigger] more[i] is Keyword
            && more[i + 1] is Keyword) by {
            assert(more[i] == ls[i + 1] && more[i + 1] == ls[i + 2]);
        }
        lemma_spelled_normalized(more);
        assert(lexeme_ok(ls[0]));
        if ls[0] is Keyword && more.len() > 0 {
            assert(more[0] == ls[1]);
            assert(lexeme_ok(more[0]));
            lemma_spelled_start(more);
        }
        lemma_lexeme_then(ls[0], spelled(more));
    }
}

proof fn lemma_compacted_no_dollar(ls: Seq<Lexeme>)
    requires
        forall|i: int| 0 <= i < ls.len() ==> lexeme_ok(#[trigger] ls[i]),
    ensures
        !compacted(ls).contains('$'),
    decreases ls.len(),
{
    if ls.len() > 0 {
        let more = ls.drop_first();
        assert forall|i: int| 0 <= i < more.len() implies lexeme_ok(#[trigger] more[i]) by {
            assert(more[i] == ls[i + 1]);
        }
        lemma_compacted_no_dollar(more);
        let head = compact_spelling(ls[0]);
        assert(lexeme_ok(ls[0]));
        assert forall|i: int| 0 <= i < head.len() implies #[trigger] head[i] != '$' by {
            match ls[0] {
                Lexeme::Keyword(w) => {
                    lemma_keyword_letters(w);
                },
                Lexeme::Text(body) => {
                    if 0 < i < head.len() - 1 {
                        assert(head[i] == body[i - 1]);
                    }
                },
                _ => {},
            }
        }
        let all = compacted(ls);
        assert(all == head + compacted(more));
        assert forall|i: int| 0 <= i < all.len() implies #[trigger] all[i] != '$' by {
            if i >= head.len() {
                assert(all[i] == compacted(more)[i - head.len()]);
            }
        }
    }
}

/// Strict JSON text without `$` (a string holds no escaped quote, a number no
/// exponent) expands to itself without its whitespace: normalisation gives
/// that text, segmentation one literal part, and rendering, under any
/// bindings, that text again.
pub proof fn lemma_strict_json_unchanged(ls: Seq<Lexeme>, b: BindingsView)
    requires
        forall|i: int| 0 <= i < ls.len() ==> lexeme_ok(#[trigger] ls[i]),
        keywords_apart(ls),
    ensures
        normalized(spelled(ls)) == Ok::<Seq<char>, JsonError>(compacted(ls)),
        parts_of(compacted(ls)) == seq![PartView::Literal(compacted(ls))],
        forall|r: Result<String, JsonError>|
            rendering(r, parts_of(compacted(ls)), b) ==> (r matches Ok(t) && t@ == compacted(ls)),
{
    lemma_spelled_normalized(ls);
    lemma_compacted_no_dollar(ls);
    lemma_parts_without_placeholder(compacted(ls));
    lemma_render_literal(compacted(ls), b);
}

} // verus!
