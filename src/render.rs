//! Rendering: segmented parts and bindings to the final JSON text, and the
//! whole expansion of a template.
use vstd::prelude::*;
use crate::bindings::{json_text, lookup, to_json_text, Bindings, BindingsView};
use crate::error::JsonError;
use crate::normalize::{normalized, sanitise};
use crate::segment::{
    parse_to_replacement, parts_of, views, JsonPart, PartView, ReplacementPart,
};
use crate::text::{find_from, len_before, lemma_len_before_bound, quoted, to_chars};

verus! {

/// The text a placeholder in slot `kind` renders to, given its value's JSON text.
pub open spec fn slot_text(kind: ReplacementPart, serialized: Seq<char>) -> Seq<char> {
    match kind {
        ReplacementPart::Key => quoted(serialized),
        ReplacementPart::Value => serialized,
    }
}

/// The text that part `p` renders to under bindings `b`.
pub open spec fn part_text(p: PartView, b: BindingsView) -> Seq<char> {
    match p {
        PartView::Literal(t) => t,
        PartView::Replacement(name, kind) => slot_text(kind, json_text(lookup(b, name)->0)),
    }
}

/// The concatenated texts of the parts `ps` under bindings `b`.
pub open spec fn rendered(ps: Seq<PartView>, b: BindingsView) -> Seq<char>
    decreases ps.len(),
{
    if ps.len() == 0 {
        Seq::empty()
    } else {
        rendered(ps.drop_last(), b) + part_text(ps.last(), b)
    }
}

/// Whether part `p` is a placeholder whose name `b` does not bind.
pub open spec fn is_unbound(p: PartView, b: BindingsView) -> bool {
    p matches PartView::Replacement(name, _) && lookup(b, name) is None
}

/// The name of the first placeholder in `ps` that `b` does not bind.
pub open spec fn first_unbound(ps: Seq<PartView>, b: BindingsView) -> Option<Seq<char>>
    decreases ps.len(),
{
    if ps.len() == 0 {
        None
    } else if is_unbound(ps[0], b) {
        Some(ps[0]->Replacement_0)
    } else {
        first_unbound(ps.drop_first(), b)
    }
}

/// What rendering `ps` under `b` gives: the first unbound name fails it;
/// with every name bound it succeeds with the rendered text.
pub open spec fn rendering(r: Result<String, JsonError>, ps: Seq<PartView>, b: BindingsView) -> bool {
    match first_unbound(ps, b) {
        Some(name) => r matches Err(JsonError::UnboundPlaceholder(m)) && m@ == name,
        None => r matches Ok(t) && t@ == rendered(ps, b),
    }
}

/// Where no placeholder is unbound, each one is bound.
pub proof fn lemma_all_bound(ps: Seq<PartView>, b: BindingsView)
    requires
        first_unbound(ps, b) is None,
    ensures
        forall|i: int| 0 <= i < ps.len() ==> !is_unbound(#[trigger] ps[i], b),
    decreases ps.len(),
{
    if ps.len() > 0 {
        lemma_all_bound(ps.drop_first(), b);
        assert forall|i: int| 0 <= i < ps.len() implies !is_unbound(#[trigger] ps[i], b) by {
            if i > 0 {
                assert(ps[i] == ps.drop_first()[i - 1]);
            }
        }
    }
}

impl ReplacementPart {
    /// The text a placeholder in this slot renders to, given the JSON text of
    /// its value: a key is wrapped in one more pair of double quotes, a value
    /// is kept as it is.
    pub fn render_value(&self, serialized: &str) -> (r: String)
        ensures
            r@ == slot_text(*self, serialized@),
    {
        let mut r = String::new();
        match self {
            ReplacementPart::Key => {
                r.push('"');
                r.push_str(serialized);
                r.push('"');
                assert(r@ =~= quoted(serialized@));
            },
            ReplacementPart::Value => {
                r.push_str(serialized);
                assert(r@ =~= serialized@);
            },
        }
        r
    }
}

/// The name of the first placeholder among `parts` that `bindings` does not bind.
fn find_unbound(parts: &Vec<JsonPart>, bindings: &Bindings) -> (r: Option<String>)
    ensures
        match first_unbound(views(parts@), bindings@) {
            Some(name) => r matches Some(m) && m@ == name,
            None => r is None,
        },
{
    let ghost ps = views(parts@);
    let mut i: usize = 0;
    assert(ps.skip(0) =~= ps);
    while i < parts.len()
        invariant
            i <= parts.len(),
            ps == views(parts@),
            first_unbound(ps, bindings@) == first_unbound(ps.skip(i as int), bindings@),
        decreases parts.len() - i,
    {
        assert(ps.skip(i as int).drop_first() =~= ps.skip(i + 1));
        assert(ps.skip(i as int)[0] == parts@[i as int]@);
        if let JsonPart::Replacement(name, _) = &parts[i] {
            if bindings.get(name).is_none() {
                return Some(name.clone());
            }
        }
        i = i + 1;
    }
    None
}

/// Renders segmented parts against `bindings`: literals as they are, each
/// placeholder as its bound value's JSON text (in one more pair of quotes in
/// a key slot), all concatenated in order.
///
/// Every placeholder name is looked up before any value is serialised, and the
/// first unbound name is reported.
pub fn render(parts: &Vec<JsonPart>, bindings: &Bindings) -> (r: Result<String, JsonError>)
    ensures
        rendering(r, views(parts@), bindings@),
{
    let ghost ps = views(parts@);
    if let Some(name) = find_unbound(parts, bindings) {
        return Err(JsonError::UnboundPlaceholder(name));
    }
    proof {
        lemma_all_bound(ps, bindings@);
    }
    let mut pieces: Vec<String> = Vec::new();
    let mut total: usize = 0;
    let mut i: usize = 0;
    while i < parts.len()
        invariant
            i <= parts.len(),
            ps == views(parts@),
            first_unbound(ps, bindings@) is None,
            forall|j: int| 0 <= j < ps.len() ==> !is_unbound(#[trigger] ps[j], bindings@),
            pieces.len() == i,
            forall|j: int| 0 <= j < i ==> (#[trigger] pieces@[j])@ == part_text(ps[j], bindings@),
        decreases parts.len() - i,
    {
        assert(ps[i as int] == parts@[i as int]@);
        let piece = match &parts[i] {
            JsonPart::Literal(text) => text.clone(),
            JsonPart::Replacement(name, kind) => {
                assert(!is_unbound(ps[i as int], bindings@));
                let value = bindings.get(name).unwrap();
                match to_json_text(value) {
                    Ok(text) => kind.render_value(text.as_str()),
                    Err(_) => return Err(JsonError::SerializationError),
                }
            },
        };
        total = total.saturating_add(piece.as_str().len());
        pieces.push(piece);
        i = i + 1;
    }
    let mut out = String::with_capacity(total);
    let mut j: usize = 0;
    while j < pieces.len()
        invariant
            j <= pieces.len() == ps.len(),
            forall|k: int| 0 <= k < ps.len() ==> (#[trigger] pieces@[k])@ == part_text(ps[k], bindings@),
            out@ == rendered(ps.take(j as int), bindings@),
        decreases pieces.len() - j,
    {
        assert(ps.take(j + 1).drop_last() =~= ps.take(j as int));
        out.push_str(pieces[j].as_str());
        j = j + 1;
    }
    assert(ps.take(ps.len() as int) =~= ps);
    Ok(out)
}

/// Whether `t` holds a `$`, the start of every placeholder.
fn has_dollar(t: &String) -> (r: bool)
    ensures
        r == t@.contains('$'),
{
    let cs = to_chars(t.as_str());
    let d = find_from(&cs, 0, '$');
    proof {
        assert(cs@.skip(0) =~= cs@);
        lemma_len_before_bound(cs@, '$');
        if cs@.contains('$') {
            let w = choose|w: int| 0 <= w < cs@.len() && cs@[w] == '$';
            lemma_dollar_free_prefix(cs@, w);
        }
    }
    d < cs.len()
}

proof fn lemma_dollar_free_prefix(s: Seq<char>, w: int)
    requires
        0 <= w < s.len(),
        s[w] == '$',
    ensures
        len_before(s, '$') <= w,
    decreases s.len(),
{
    if s[0] != '$' {
        assert(s.drop_first()[w - 1] == s[w]);
        lemma_dollar_free_prefix(s.drop_first(), w - 1);
    }
}

/// Text without a `$` is one literal part.
pub proof fn lemma_parts_without_placeholder(t: Seq<char>)
    requires
        !t.contains('$'),
    ensures
        parts_of(t) == seq![PartView::Literal(t)],
{
    lemma_len_before_bound(t, '$');
}

/// Text without placeholders renders to itself under any bindings.
pub proof fn lemma_render_literal(t: Seq<char>, b: BindingsView)
    ensures
        first_unbound(seq![PartView::Literal(t)], b) is None,
        rendered(seq![PartView::Literal(t)], b) == t,
{
    let ps = seq![PartView::Literal(t)];
    let none = Seq::<PartView>::empty();
    assert(ps.drop_first() =~= none);
    assert(ps.drop_last() =~= none);
    assert(first_unbound(none, b) is None);
    assert(rendered(none, b) == Seq::<char>::empty());
    assert(ps[0] == PartView::Literal(t) && ps.last() == PartView::Literal(t));
    assert(Seq::<char>::empty() + t =~= t);
}

/// Expands a relaxed JSON template against `bindings`: normalises it, splits
/// it into parts and renders them. Text without placeholders is returned as
/// normalised, without a single lookup.
pub fn expand_json(template: &str, bindings: &Bindings) -> (r: Result<String, JsonError>)
    ensures
        match normalized(template@) {
            Err(e) => r == Err::<String, JsonError>(e),
            Ok(t) => {
                &&& rendering(r, parts_of(t), bindings@)
                &&& !t.contains('$') ==> (r matches Ok(s) && s@ == t)
            },
        },
{
    let mut text = String::new();
    match sanitise(template, &mut text) {
        Ok(()) => {},
        Err(e) => return Err(e),
    }
    assert(text@ =~= Seq::<char>::empty() + text@);
    if !has_dollar(&text) {
        proof {
            lemma_parts_without_placeholder(text@);
            lemma_render_literal(text@, bindings@);
        }
        return Ok(text);
    }
    let mut parts: Vec<JsonPart> = Vec::new();
    parse_to_replacement(text.as_str(), &mut parts);
    assert(views(parts@) =~= parts_of(text@));
    render(&parts, bindings)
}

} // verus!
