//! Bindings: the named JSON values that placeholders refer to, and their
//! serialisation through `serde_json`.
use vstd::prelude::*;

verus! {

/// `serde_json::Value`, a JSON value, carried through unopened.
#[verifier::external_type_specification]
#[verifier::external_body]
pub struct ExValue(serde_json::Value);

/// `serde_json::Error`, the serialiser's failure, carried through unopened.
#[verifier::external_type_specification]
#[verifier::external_body]
pub struct ExError(serde_json::Error);

/// The compact JSON text that `serde_json` writes for a value.
pub uninterp spec fn json_text(v: serde_json::Value) -> Seq<char>;

/// Relies on `serde_json::to_string`: the compact JSON text of `v`, which
/// depends on `v` alone. On a `Value` it always succeeds: object keys are
/// strings, numbers are finite, and the text is written to a `Vec<u8>`.
#[verifier::external_body]
pub(crate) fn to_json_text(v: &serde_json::Value) -> (r: Result<String, serde_json::Error>)
    ensures
        r is Ok,
        r->Ok_0@ == json_text(*v),
{
    serde_json::to_string(v)
}

/// Names and values, in the order they were first bound.
pub type BindingsView = Seq<(Seq<char>, serde_json::Value)>;

/// The index of the first entry of `b` named `name`; `b.len()` when there is none.
pub open spec fn position(b: BindingsView, name: Seq<char>) -> nat
    decreases b.len(),
{
    if b.len() == 0 || b[0].0 == name {
        0
    } else {
        1 + position(b.drop_first(), name)
    }
}

/// The value bound to `name` in `b`, if any.
pub open spec fn lookup(b: BindingsView, name: Seq<char>) -> Option<serde_json::Value> {
    let i = position(b, name) as int;
    if i < b.len() {
        Some(b[i].1)
    } else {
        None
    }
}

/// `position` stops at the first entry with the name, or at the end.
pub proof fn lemma_position_bound(b: BindingsView, name: Seq<char>)
    ensures
        position(b, name) <= b.len(),
        position(b, name) < b.len() ==> b[position(b, name) as int].0 == name,
        forall|j: int| 0 <= j < position(b, name) ==> b[j].0 != name,
    decreases b.len(),
{
    if b.len() > 0 && b[0].0 != name {
        lemma_position_bound(b.drop_first(), name);
        assert forall|j: int| 0 <= j < position(b, name) implies b[j].0 != name by {
            if j > 0 {
                assert(b[j] == b.drop_first()[j - 1]);
            }
        }
    }
}

/// Where the first entry named `n` stands is told by the entries before it.
pub proof fn lemma_position_is(b: BindingsView, n: Seq<char>, i: int)
    requires
        0 <= i <= b.len(),
        forall|j: int| 0 <= j < i ==> b[j].0 != n,
        i < b.len() ==> b[i].0 == n,
    ensures
        position(b, n) == i,
    decreases b.len(),
{
    if b.len() > 0 && b[0].0 != n {
        let more = b.drop_first();
        assert forall|j: int| 0 <= j < i - 1 implies more[j].0 != n by {
            assert(more[j] == b[j + 1]);
        }
        lemma_position_is(more, n, i - 1);
    }
}

/// The entries after binding `name` to `value`: the value is replaced in
/// place where `name` is bound already, appended otherwise.
pub open spec fn inserted(b: BindingsView, name: Seq<char>, value: serde_json::Value) -> BindingsView {
    if position(b, name) < b.len() {
        b.update(position(b, name) as int, (name, value))
    } else {
        b.push((name, value))
    }
}

/// After binding `name` to `value`, `name` looks up `value`, and every other
/// name what it looked up before.
pub proof fn lemma_lookup_after_insert(
    b: BindingsView,
    name: Seq<char>,
    value: serde_json::Value,
    n: Seq<char>,
)
    ensures
        lookup(inserted(b, name, value), n) == if n == name {
            Some(value)
        } else {
            lookup(b, n)
        },
{
    let after = inserted(b, name, value);
    let p = position(b, name) as int;
    let q = position(b, n) as int;
    lemma_position_bound(b, name);
    lemma_position_bound(b, n);
    if p < b.len() {
        assert forall|j: int| 0 <= j < b.len() implies after[j].0 == b[j].0 by {}
        lemma_position_is(after, n, q);
        if q < b.len() && n != name {
            assert(q != p);
            assert(after[q] == b[q]);
        }
    } else if n == name {
        lemma_position_is(after, n, b.len() as int);
    } else if q < b.len() {
        lemma_position_is(after, n, q);
        assert(after[q] == b[q]);
    } else {
        lemma_position_is(after, n, q + 1);
    }
}

/// A set of named JSON values for placeholders to refer to. Each name is
/// bound at most once; binding a name again replaces its value in place.
pub struct Bindings {
    entries: Vec<(String, serde_json::Value)>,
}

impl View for Bindings {
    type V = BindingsView;

    closed spec fn view(&self) -> BindingsView {
        self.entries@.map_values(|e: (String, serde_json::Value)| (e.0@, e.1))
    }
}

impl Bindings {
    /// No bindings.
    pub fn new() -> (r: Bindings)
        ensures
            r@ == Seq::<(Seq<char>, serde_json::Value)>::empty(),
    {
        let r = Bindings { entries: Vec::new() };
        assert(r@ =~= Seq::<(Seq<char>, serde_json::Value)>::empty());
        r
    }

    /// The number of names bound.
    pub fn len(&self) -> (r: usize)
        ensures
            r == self@.len(),
    {
        self.entries.len()
    }

    /// The index of the entry named `name`, or the number of entries.
    fn index_of(&self, name: &String) -> (r: usize)
        ensures
            r == position(self@, name@),
    {
        let mut i: usize = 0;
        assert(self@.skip(0) =~= self@);
        while i < self.entries.len() && !(self.entries[i].0 == *name)
            invariant
                i <= self.entries.len(),
                position(self@, name@) == i + position(self@.skip(i as int), name@),
            decreases self.entries.len() - i,
        {
            assert(self@.skip(i as int).drop_first() =~= self@.skip(i + 1));
            i = i + 1;
        }
        i
    }

    /// The value bound to `name`, if any.
    pub fn get(&self, name: &String) -> (r: Option<&serde_json::Value>)
        ensures
            match lookup(self@, name@) {
                Some(v) => r matches Some(x) && *x == v,
                None => r is None,
            },
    {
        let i = self.index_of(name);
        if i < self.entries.len() {
            Some(&self.entries[i].1)
        } else {
            None
        }
    }

    /// Binds `name` to `value`: in place of its old value where `name` is
    /// bound already, as a new last entry otherwise.
    pub fn insert(&mut self, name: String, value: serde_json::Value)
        ensures
            final(self)@ == inserted(old(self)@, name@, value),
    {
        let i = self.index_of(&name);
        let ghost key = name@;
        if i < self.entries.len() {
            self.entries.set(i, (name, value));
            assert(self@ =~= old(self)@.update(i as int, (key, value)));
        } else {
            self.entries.push((name, value));
            assert(self@ =~= old(self)@.push((key, value)));
        }
    }
}

} // verus!
