//! Characters and text: the character classes of the template language, the
//! scans that measure runs of them, and the `std` string operations used to
//! build output.
use vstd::prelude::*;

verus! {

/// Whether `c`, a character beyond ASCII, has the Unicode `Alphabetic` property.
pub uninterp spec fn alphabetic(c: char) -> bool;

/// An alphabetic character: what starts a bare word. Among ASCII characters
/// these are the Latin letters.
pub open spec fn is_letter(c: char) -> bool {
    ||| 'a' <= c && c <= 'z'
    ||| 'A' <= c && c <= 'Z'
    ||| c > '\u{7f}' && alphabetic(c)
}

/// A character that continues a bare word or a placeholder name.
pub open spec fn is_word_char(c: char) -> bool {
    is_letter(c) || c == '_' || c == '.'
}

/// Whitespace, which normalisation drops outside strings.
pub open spec fn is_blank(c: char) -> bool {
    c == ' ' || c == '\r' || c == '\n' || c == '\t'
}

/// Length of the longest prefix of `s` made of word characters.
pub open spec fn word_len(s: Seq<char>) -> nat
    decreases s.len(),
{
    if s.len() > 0 && is_word_char(s[0]) {
        1 + word_len(s.drop_first())
    } else {
        0
    }
}

/// Number of characters of `s` before the first `c`: `s.len()` when `c` does not occur.
pub open spec fn len_before(s: Seq<char>, c: char) -> nat
    decreases s.len(),
{
    if s.len() == 0 || s[0] == c {
        0
    } else {
        1 + len_before(s.drop_first(), c)
    }
}

/// `w` between double quotes.
pub open spec fn quoted(w: Seq<char>) -> Seq<char> {
    seq!['"'] + w + seq!['"']
}

/// A run of word characters lies within the text.
pub proof fn lemma_word_len_bound(s: Seq<char>)
    ensures
        word_len(s) <= s.len(),
    decreases s.len(),
{
    if s.len() > 0 && is_word_char(s[0]) {
        lemma_word_len_bound(s.drop_first());
    }
}

/// `len_before` stops at the first `c`, or at the end.
pub proof fn lemma_len_before_bound(s: Seq<char>, c: char)
    ensures
        len_before(s, c) <= s.len(),
        len_before(s, c) < s.len() ==> s[len_before(s, c) as int] == c,
    decreases s.len(),
{
    if s.len() > 0 && s[0] != c {
        lemma_len_before_bound(s.drop_first(), c);
    }
}

/// A run of word characters followed by anything that does not start with one
/// is measured exactly.
pub proof fn lemma_word_len_of_run(w: Seq<char>, rest: Seq<char>)
    requires
        forall|i: int| 0 <= i < w.len() ==> is_word_char(#[trigger] w[i]),
        rest.len() > 0 ==> !is_word_char(rest[0]),
    ensures
        word_len(w + rest) == w.len(),
    decreases w.len(),
{
    if w.len() > 0 {
        assert((w + rest).drop_first() =~= w.drop_first() + rest);
        lemma_word_len_of_run(w.drop_first(), rest);
    } else {
        assert(w + rest =~= rest);
    }
}

/// Where `c` does not occur in `w`, the first `c` of `w + rest` is the first of `rest`.
pub proof fn lemma_len_before_concat(w: Seq<char>, rest: Seq<char>, c: char)
    requires
        forall|i: int| 0 <= i < w.len() ==> #[trigger] w[i] != c,
    ensures
        len_before(w + rest, c) == w.len() + len_before(rest, c),
    decreases w.len(),
{
    if w.len() > 0 {
        assert((w + rest).drop_first() =~= w.drop_first() + rest);
        lemma_len_before_concat(w.drop_first(), rest, c);
    } else {
        assert(w + rest =~= rest);
    }
}

/// Relies on `char::is_alphabetic`: the Unicode `Alphabetic` property of `c`,
/// which among ASCII characters exactly the Latin letters have.
#[verifier::external_body]
pub fn is_letter_char(c: char) -> (r: bool)
    ensures
        r == (('a' <= c && c <= 'z') || ('A' <= c && c <= 'Z') || (c > '\u{7f}' && alphabetic(
            c,
        ))),
{
    c.is_alphabetic()
}

/// Whether `c` continues a bare word or a placeholder name.
pub fn is_word(c: char) -> (r: bool)
    ensures
        r == is_word_char(c),
{
    is_letter_char(c) || c == '_' || c == '.'
}

/// The characters of `s`, in order.
pub fn to_chars(s: &str) -> (r: Vec<char>)
    ensures
        r@ == s@,
{
    let mut v: Vec<char> = Vec::new();
    for c in it: s.chars()
        invariant
            v@ == it.seq().take(it.index()),
            it.seq() == s@,
    {
        v.push(c);
    }
    v
}

/// The end of the run of word characters that starts at `start`.
pub fn word_end(cs: &Vec<char>, start: usize) -> (end: usize)
    requires
        start <= cs.len(),
    ensures
        end == start + word_len(cs@.skip(start as int)),
        end <= cs.len(),
{
    let mut i: usize = start;
    while i < cs.len() && is_word(cs[i])
        invariant
            start <= i <= cs.len(),
            word_len(cs@.skip(start as int)) == (i - start) + word_len(cs@.skip(i as int)),
        decreases cs.len() - i,
    {
        assert(cs@.skip(i as int).drop_first() =~= cs@.skip(i + 1));
        i = i + 1;
    }
    i
}

/// The position of the first `c` at or after `start`; `cs.len()` when there is none.
pub fn find_from(cs: &Vec<char>, start: usize, c: char) -> (end: usize)
    requires
        start <= cs.len(),
    ensures
        end == start + len_before(cs@.skip(start as int), c),
        end <= cs.len(),
{
    let mut i: usize = start;
    while i < cs.len() && cs[i] != c
        invariant
            start <= i <= cs.len(),
            len_before(cs@.skip(start as int), c) == (i - start) + len_before(
                cs@.skip(i as int),
                c,
            ),
        decreases cs.len() - i,
    {
        assert(cs@.skip(i as int).drop_first() =~= cs@.skip(i + 1));
        i = i + 1;
    }
    i
}

/// Relies on `String::with_capacity`: an empty string, whatever room it was given.
pub assume_specification[ String::with_capacity ](capacity: usize) -> (s: String)
    ensures
        s@ == Seq::<char>::empty(),
;

/// Relies on `String::push`: appends one character.
pub assume_specification[ String::push ](s: &mut String, ch: char)
    ensures
        final(s)@ == old(s)@.push(ch),
;

/// Relies on `String::push_str`: appends a string slice.
pub assume_specification[ String::push_str ](s: &mut String, string: &str)
    ensures
        final(s)@ == old(s)@ + string@,
;

/// Appends the characters `cs[from..to]` to `out`.
pub fn push_chars(out: &mut String, cs: &Vec<char>, from: usize, to: usize)
    requires
        from <= to <= cs.len(),
    ensures
        final(out)@ == old(out)@ + cs@.subrange(from as int, to as int),
{
    let mut i: usize = from;
    while i < to
        invariant
            from <= i <= to <= cs.len(),
            out@ == old(out)@ + cs@.subrange(from as int, i as int),
        decreases to - i,
    {
        out.push(cs[i]);
        assert(cs@.subrange(from as int, i + 1) =~= cs@.subrange(from as int, i as int).push(
            cs@[i as int],
        ));
        i = i + 1;
    }
}

} // verus!
