//! Normalisation: relaxed JSON text to strict JSON text, with placeholders
//! left in place as `$name` tokens.
use vstd::prelude::*;
use crate::error::JsonError;
use crate::text::{
    find_from, is_blank, is_letter, is_letter_char, len_before, lemma_len_before_bound,
    lemma_word_len_bound, push_chars, quoted, to_chars, word_end, word_len,
};

verus! {

/// `w` put before a successful result; a failure passes through.
pub open spec fn emit_then(w: Seq<char>, r: Result<Seq<char>, JsonError>) -> Result<
    Seq<char>,
    JsonError,
> {
    match r {
        Ok(t) => Ok(w + t),
        Err(e) => Err(e),
    }
}

/// The three bare words that JSON takes as they are.
pub open spec fn is_keyword(w: Seq<char>) -> bool {
    ||| w == seq!['t', 'r', 'u', 'e']
    ||| w == seq!['f', 'a', 'l', 's', 'e']
    ||| w == seq!['n', 'u', 'l', 'l']
}

/// A bare word as strict JSON: a keyword stays, anything else is quoted.
pub open spec fn bare_word(w: Seq<char>) -> Seq<char> {
    if is_keyword(w) {
        w
    } else {
        quoted(w)
    }
}

/// The strict JSON text for relaxed text `s`, read from its first character on.
///
/// A string in `"` or `'` is rewritten in `"`; a `$` and the word characters after
/// it are kept as a placeholder token; a bare word is quoted unless it is
/// `true`, `false` or `null`; whitespace is dropped; any other character is kept.
pub open spec fn normalized(s: Seq<char>) -> Result<Seq<char>, JsonError>
    decreases s.len(),
{
    if s.len() == 0 {
        Ok(Seq::empty())
    } else {
        let c = s[0];
        let tail = s.drop_first();
        if c == '"' || c == '\'' {
            let k = len_before(tail, c) as int;
            proof {
                lemma_len_before_bound(tail, c);
            }
            if k == tail.len() {
                Err(JsonError::UnterminatedString)
            } else {
                emit_then(quoted(tail.take(k)), normalized(tail.skip(k + 1)))
            }
        } else if c == '$' {
            let k = word_len(tail) as int;
            proof {
                lemma_word_len_bound(tail);
            }
            if k == 0 {
                Err(JsonError::EmptyPlaceholderName)
            } else {
                emit_then(s.take(k + 1), normalized(tail.skip(k)))
            }
        } else if is_letter(c) {
            let k = word_len(tail) as int;
            proof {
                lemma_word_len_bound(tail);
            }
            emit_then(bare_word(s.take(k + 1)), normalized(tail.skip(k)))
        } else if is_blank(c) {
            normalized(tail)
        } else {
            emit_then(seq![c], normalized(tail))
        }
    }
}

proof fn lemma_emit_then_twice(a: Seq<char>, b: Seq<char>, r: Result<Seq<char>, JsonError>)
    ensures
        emit_then(a, emit_then(b, r)) == emit_then(a + b, r),
{
    if let Ok(t) = r {
        assert(a + (b + t) =~= (a + b) + t);
    }
}

proof fn lemma_keyword_lengths()
    ensures
        seq!['t', 'r', 'u', 'e'].len() == 4,
        seq!['n', 'u', 'l', 'l'].len() == 4,
        seq!['f', 'a', 'l', 's', 'e'].len() == 5,
{
}

/// Whether `cs[from..to]` is `true`, `false` or `null`.
fn is_keyword_at(cs: &Vec<char>, from: usize, to: usize) -> (r: bool)
    requires
        from <= to <= cs.len(),
    ensures
        r == is_keyword(cs@.subrange(from as int, to as int)),
{
    let ghost w = cs@.subrange(from as int, to as int);
    proof {
        lemma_keyword_lengths();
    }
    if to - from == 4 {
        let t = cs[from] == 't' && cs[from + 1] == 'r' && cs[from + 2] == 'u' && cs[from + 3]
            == 'e';
        let n = cs[from] == 'n' && cs[from + 1] == 'u' && cs[from + 2] == 'l' && cs[from + 3]
            == 'l';
        proof {
            if t {
                assert(w =~= seq!['t', 'r', 'u', 'e']);
            }
            if n {
                assert(w =~= seq!['n', 'u', 'l', 'l']);
            }
            if w == seq!['t', 'r', 'u', 'e'] {
                assert(w[0] == 't' && w[1] == 'r' && w[2] == 'u' && w[3] == 'e');
            }
            if w == seq!['n', 'u', 'l', 'l'] {
                assert(w[0] == 'n' && w[1] == 'u' && w[2] == 'l' && w[3] == 'l');
            }
        }
        t || n
    } else if to - from == 5 {
        let f = cs[from] == 'f' && cs[from + 1] == 'a' && cs[from + 2] == 'l' && cs[from + 3]
            == 's' && cs[from + 4] == 'e';
        proof {
            if f {
                assert(w =~= seq!['f', 'a', 'l', 's', 'e']);
            }
            if w == seq!['f', 'a', 'l', 's', 'e'] {
                assert(w[0] == 'f' && w[1] == 'a' && w[2] == 'l' && w[3] == 's' && w[4] == 'e');
            }
        }
        f
    } else {
        false
    }
}

/// Normalisation that has emitted `out0` and has `s0` left to read stands
/// where one that has emitted `out1` and has `s1` left stands.
pub open spec fn same_outcome(out0: Seq<char>, s0: Seq<char>, out1: Seq<char>, s1: Seq<char>) -> bool {
    emit_then(out0, normalized(s0)) == emit_then(out1, normalized(s1))
}

/// Reads the string that opens at `cs[i]` and appends it in double quotes.
fn copy_string(cs: &Vec<char>, i: usize, out: &mut String) -> (r: Result<usize, JsonError>)
    requires
        i < cs.len(),
        cs[i as int] == '"' || cs[i as int] == '\'',
    ensures
        match r {
            Ok(j) => i < j <= cs.len() && same_outcome(
                old(out)@,
                cs@.skip(i as int),
                final(out)@,
                cs@.skip(j as int),
            ),
            Err(e) => normalized(cs@.skip(i as int)) == Err::<Seq<char>, JsonError>(e),
        },
{
    let ghost s = cs@.skip(i as int);
    let ghost tail = s.drop_first();
    assert(tail =~= cs@.skip(i + 1));
    let c = cs[i];
    let j = find_from(cs, i + 1, c);
    if j == cs.len() {
        return Err(JsonError::UnterminatedString);
    }
    let ghost k = len_before(tail, c) as int;
    assert(tail.take(k) =~= cs@.subrange(i + 1, j as int));
    assert(tail.skip(k + 1) =~= cs@.skip(j + 1));
    let ghost before = out@;
    out.push('"');
    push_chars(out, cs, i + 1, j);
    out.push('"');
    proof {
        assert(out@ =~= before + quoted(tail.take(k)));
        lemma_emit_then_twice(before, quoted(tail.take(k)), normalized(tail.skip(k + 1)));
    }
    Ok(j + 1)
}

/// Reads the placeholder token that starts with the `$` at `cs[i]` and appends it as it is.
fn copy_placeholder(cs: &Vec<char>, i: usize, out: &mut String) -> (r: Result<usize, JsonError>)
    requires
        i < cs.len(),
        cs[i as int] == '$',
    ensures
        match r {
            Ok(j) => i < j <= cs.len() && same_outcome(
                old(out)@,
                cs@.skip(i as int),
                final(out)@,
                cs@.skip(j as int),
            ),
            Err(e) => normalized(cs@.skip(i as int)) == Err::<Seq<char>, JsonError>(e),
        },
{
    let ghost s = cs@.skip(i as int);
    let ghost tail = s.drop_first();
    assert(tail =~= cs@.skip(i + 1));
    let e = word_end(cs, i + 1);
    if e == i + 1 {
        return Err(JsonError::EmptyPlaceholderName);
    }
    let ghost k = word_len(tail) as int;
    assert(s.take(k + 1) =~= cs@.subrange(i as int, e as int));
    assert(tail.skip(k) =~= cs@.skip(e as int));
    let ghost before = out@;
    push_chars(out, cs, i, e);
    proof {
        lemma_emit_then_twice(before, s.take(k + 1), normalized(tail.skip(k)));
    }
    Ok(e)
}

/// Reads the bare word that starts at `cs[i]` and appends it as strict JSON.
fn copy_word(cs: &Vec<char>, i: usize, out: &mut String) -> (j: usize)
    requires
        i < cs.len(),
        is_letter(cs[i as int]),
    ensures
        i < j <= cs.len(),
        same_outcome(old(out)@, cs@.skip(i as int), final(out)@, cs@.skip(j as int)),
{
    let ghost s = cs@.skip(i as int);
    let ghost tail = s.drop_first();
    assert(tail =~= cs@.skip(i + 1));
    let e = word_end(cs, i + 1);
    let ghost k = word_len(tail) as int;
    assert(s.take(k + 1) =~= cs@.subrange(i as int, e as int));
    assert(tail.skip(k) =~= cs@.skip(e as int));
    let ghost before = out@;
    if is_keyword_at(cs, i, e) {
        push_chars(out, cs, i, e);
    } else {
        out.push('"');
        push_chars(out, cs, i, e);
        out.push('"');
        assert(out@ =~= before + quoted(cs@.subrange(i as int, e as int)));
    }
    proof {
        lemma_emit_then_twice(before, bare_word(s.take(k + 1)), normalized(tail.skip(k)));
    }
    e
}

/// Normalises relaxed JSON text and appends the strict JSON text to `current`.
///
/// On failure `current` is left as it was.
pub fn sanitise(remainder: &str, current: &mut String) -> (r: Result<(), JsonError>)
    ensures
        match normalized(remainder@) {
            Ok(t) => r is Ok && final(current)@ == old(current)@ + t,
            Err(e) => r == Err::<(), JsonError>(e) && final(current)@ == old(current)@,
        },
{
    let cs = to_chars(remainder);
    let n = cs.len();
    let mut out = String::new();
    let mut i: usize = 0;
    assert(cs@.skip(0) =~= cs@);
    while i < n
        invariant
            i <= n == cs.len(),
            cs@ == remainder@,
            normalized(cs@) == emit_then(out@, normalized(cs@.skip(i as int))),
        decreases n - i,
    {
        let ghost before = out@;
        let c = cs[i];
        let next: usize;
        if c == '"' || c == '\'' {
            match copy_string(&cs, i, &mut out) {
                Ok(j) => next = j,
                Err(e) => return Err(e),
            }
        } else if c == '$' {
            match copy_placeholder(&cs, i, &mut out) {
                Ok(j) => next = j,
                Err(e) => return Err(e),
            }
        } else if is_letter_char(c) {
            next = copy_word(&cs, i, &mut out);
        } else {
            proof {
                assert(cs@.skip(i as int).drop_first() =~= cs@.skip(i + 1));
                lemma_emit_then_twice(before, seq![c], normalized(cs@.skip(i + 1)));
            }
            if !(c == ' ' || c == '\r' || c == '\n' || c == '\t') {
                out.push(c);
                assert(out@ =~= before + seq![c]);
            }
            next = i + 1;
        }
        i = next;
    }
    assert(cs@.skip(n as int) =~= Seq::<char>::empty());
    assert(out@ + Seq::<char>::empty() =~= out@);
    current.push_str(out.as_str());
    Ok(())
}

} // verus!
