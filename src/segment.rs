//! Segmentation: normalised text split into literal runs and classified
//! placeholders.
use vstd::prelude::*;
use crate::text::{find_from, len_before, lemma_len_before_bound, push_chars, to_chars};

verus! {

/// Where a placeholder stands in the JSON text.
#[derive(Debug, Clone, Copy, PartialEq, Eq, Structural)]
pub enum ReplacementPart {
    /// An object key: its value is rendered inside an extra pair of quotes.
    Key,
    /// Any other value: its value is rendered as serialised.
    Value,
}

/// One part of a segmented template.
#[derive(Debug, PartialEq)]
pub enum JsonPart {
    /// Normalised JSON text, copied to the output as it is.
    Literal(String),
    /// A placeholder: the name of a binding, and where it stands.
    Replacement(String, ReplacementPart),
}

/// What a part stands for, with its text as characters.
pub ghost enum PartView {
    Literal(Seq<char>),
    Replacement(Seq<char>, ReplacementPart),
}

impl View for JsonPart {
    type V = PartView;

    open spec fn view(&self) -> PartView {
        match self {
            JsonPart::Literal(t) => PartView::Literal(t@),
            JsonPart::Replacement(n, k) => PartView::Replacement(n@, *k),
        }
    }
}

/// The views of a sequence of parts.
pub open spec fn views(ps: Seq<JsonPart>) -> Seq<PartView> {
    ps.map_values(|p: JsonPart| p@)
}

/// A character that ends a placeholder name.
pub open spec fn is_name_stop(c: char) -> bool {
    c == ':' || c == '}' || c == ']' || c == ',' || c == ' ' || c == '{' || c == '['
}

/// A character that decides the slot of a placeholder before it.
pub open spec fn is_marker(c: char) -> bool {
    c == ':' || c == '"' || c == '\'' || c == ',' || c == '{' || c == '['
}

/// Length of the placeholder name at the start of `s`.
pub open spec fn name_len(s: Seq<char>) -> nat
    decreases s.len(),
{
    if s.len() > 0 && !is_name_stop(s[0]) {
        1 + name_len(s.drop_first())
    } else {
        0
    }
}

/// Number of characters of `s` before its first marker.
pub open spec fn marker_len(s: Seq<char>) -> nat
    decreases s.len(),
{
    if s.len() > 0 && !is_marker(s[0]) {
        1 + marker_len(s.drop_first())
    } else {
        0
    }
}

/// The slot of a placeholder followed by `rest`: a key where the first marker
/// in `rest` is a colon, a value otherwise (also where there is no marker).
pub open spec fn slot_of(rest: Seq<char>) -> ReplacementPart {
    let k = marker_len(rest) as int;
    if k < rest.len() && rest[k] == ':' {
        ReplacementPart::Key
    } else {
        ReplacementPart::Value
    }
}

/// A placeholder name lies within the text.
pub proof fn lemma_name_len_bound(s: Seq<char>)
    ensures
        name_len(s) <= s.len(),
    decreases s.len(),
{
    if s.len() > 0 && !is_name_stop(s[0]) {
        lemma_name_len_bound(s.drop_first());
    }
}

/// The parts of normalised text `s`: for each `$`, the text before it (when
/// there is any) and the placeholder it opens; then the text after the last
/// placeholder, which may be empty.
pub open spec fn parts_of(s: Seq<char>) -> Seq<PartView>
    decreases s.len(),
{
    let k = len_before(s, '$') as int;
    proof {
        lemma_len_before_bound(s, '$');
    }
    if k == s.len() {
        seq![PartView::Literal(s)]
    } else {
        let after = s.skip(k + 1);
        let n = name_len(after) as int;
        proof {
            lemma_name_len_bound(after);
        }
        let rest = after.skip(n);
        let lead = if k == 0 {
            Seq::empty()
        } else {
            seq![PartView::Literal(s.take(k))]
        };
        lead + seq![PartView::Replacement(after.take(n), slot_of(rest))] + parts_of(rest)
    }
}

/// The end of the placeholder name that starts at `start`.
fn name_end(cs: &Vec<char>, start: usize) -> (end: usize)
    requires
        start <= cs.len(),
    ensures
        end == start + name_len(cs@.skip(start as int)),
        end <= cs.len(),
{
    let mut i: usize = start;
    while i < cs.len() && !(cs[i] == ':' || cs[i] == '}' || cs[i] == ']' || cs[i] == ','
        || cs[i] == ' ' || cs[i] == '{' || cs[i] == '[')
        invariant
            start <= i <= cs.len(),
            name_len(cs@.skip(start as int)) == (i - start) + name_len(cs@.skip(i as int)),
        decreases cs.len() - i,
    {
        assert(cs@.skip(i as int).drop_first() =~= cs@.skip(i + 1));
        i = i + 1;
    }
    i
}

/// The slot of a placeholder whose name ends at `from`.
fn slot_at(cs: &Vec<char>, from: usize) -> (k: ReplacementPart)
    requires
        from <= cs.len(),
    ensures
        k == slot_of(cs@.skip(from as int)),
{
    let mut i: usize = from;
    while i < cs.len() && !(cs[i] == ':' || cs[i] == '"' || cs[i] == '\'' || cs[i] == ','
        || cs[i] == '{' || cs[i] == '[')
        invariant
            from <= i <= cs.len(),
            marker_len(cs@.skip(from as int)) == (i - from) + marker_len(cs@.skip(i as int)),
        decreases cs.len() - i,
    {
        assert(cs@.skip(i as int).drop_first() =~= cs@.skip(i + 1));
        i = i + 1;
    }
    if i < cs.len() && cs[i] == ':' {
        ReplacementPart::Key
    } else {
        ReplacementPart::Value
    }
}

/// The characters `cs[from..to]` as a string.
fn string_of(cs: &Vec<char>, from: usize, to: usize) -> (r: String)
    requires
        from <= to <= cs.len(),
    ensures
        r@ == cs@.subrange(from as int, to as int),
{
    let mut r = String::new();
    push_chars(&mut r, cs, from, to);
    assert(Seq::<char>::empty() + cs@.subrange(from as int, to as int) =~= cs@.subrange(
        from as int,
        to as int,
    ));
    r
}

/// Splits normalised JSON text into literal and placeholder parts, appended to `parts`.
pub fn parse_to_replacement(json: &str, parts: &mut Vec<JsonPart>)
    ensures
        views(final(parts)@) == views(old(parts)@) + parts_of(json@),
{
    let cs = to_chars(json);
    let n = cs.len();
    let mut i: usize = 0;
    assert(cs@.skip(0) =~= cs@);
    assert(views(parts@) + parts_of(cs@) =~= views(old(parts)@) + parts_of(json@));
    loop
        invariant
            i <= n == cs.len(),
            cs@ == json@,
            views(parts@) + parts_of(cs@.skip(i as int)) == views(old(parts)@) + parts_of(
                json@,
            ),
        decreases n - i,
    {
        let ghost s = cs@.skip(i as int);
        let ghost done = views(parts@);
        let d = find_from(&cs, i, '$');
        if d == n {
            assert(s =~= cs@.subrange(i as int, n as int));
            parts.push(JsonPart::Literal(string_of(&cs, i, n)));
            assert(views(parts@) =~= done + parts_of(s));
            return;
        }
        let ghost k = d - i;
        let ghost after = s.skip(k + 1);
        assert(after =~= cs@.skip(d + 1));
        let m = name_end(&cs, d + 1);
        let ghost rest = after.skip(m - (d + 1));
        assert(rest =~= cs@.skip(m as int));
        assert(after.take(m - (d + 1)) =~= cs@.subrange(d + 1, m as int));
        let kind = slot_at(&cs, m);
        if d > i {
            assert(s.take(k) =~= cs@.subrange(i as int, d as int));
            parts.push(JsonPart::Literal(string_of(&cs, i, d)));
        }
        let ghost mid = views(parts@);
        parts.push(JsonPart::Replacement(string_of(&cs, d + 1, m), kind));
        assert(views(parts@) =~= mid.push(PartView::Replacement(after.take(m - (d + 1)), kind)));
        assert(views(parts@) + parts_of(rest) =~= done + parts_of(s));
        i = m;
    }
}

impl JsonPart {
    /// The literal text, or the placeholder's name.
    pub fn to_string(&self) -> (r: String)
        ensures
            r@ == match self@ {
                PartView::Literal(t) => t,
                PartView::Replacement(name, _) => name,
            },
    {
        match self {
            JsonPart::Literal(s) => s.clone(),
            JsonPart::Replacement(s, _) => s.clone(),
        }
    }
}

} // verus!
