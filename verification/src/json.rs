//! The document tree that the codec reads and writes.
//!
//! A circuit travels as a tree of objects, arrays, strings, numbers and
//! booleans. [`Json`] is that tree in memory; [`JsonView`] is the same tree as
//! a mathematical value, over which every wire shape of this crate is stated.

use vstd::prelude::*;

verus! {

/// A number of a document.
///
/// A binary64 value is carried as its IEEE-754 bit pattern, so that a value
/// between two documents is never rounded.
#[derive(Clone, Copy, Debug, PartialEq, Eq, Hash)]
pub enum Number {
    /// A non-negative integer.
    PosInt(u64),
    /// An integer written with a sign.
    NegInt(i64),
    /// A binary64 value, as its bit pattern.
    Float(u64),
}

impl Number {
    /// The integer that the number is, if it is one.
    pub open spec fn as_int(self) -> Option<int> {
        match self {
            Number::PosInt(u) => Some(u as int),
            Number::NegInt(i) => Some(i as int),
            Number::Float(_) => None,
        }
    }
}

/// A document value.
#[derive(Debug, PartialEq)]
pub enum Json {
    /// The absent value.
    Null,
    /// A truth value.
    Bool(bool),
    /// A number.
    Number(Number),
    /// A string.
    String(String),
    /// An ordered list of values.
    Array(Vec<Json>),
    /// Named values, in the order in which the document lists them.
    Object(Vec<(String, Json)>),
}

/// The mathematical value of a [`Json`].
pub enum JsonView {
    Null,
    Bool(bool),
    Number(Number),
    String(Seq<char>),
    Array(Seq<JsonView>),
    Object(Seq<(Seq<char>, JsonView)>),
}

impl Json {
    /// The mathematical value of the document.
    pub open spec fn model(&self) -> JsonView
        decreases self,
    {
        match self {
            Json::Null => JsonView::Null,
            Json::Bool(b) => JsonView::Bool(*b),
            Json::Number(n) => JsonView::Number(*n),
            Json::String(s) => JsonView::String(s@),
            Json::Array(items) => JsonView::Array(
                Seq::new(
                    items@.len(),
                    |i: int|
                        if 0 <= i < items@.len() {
                            items@[i].model()
                        } else {
                            JsonView::Null
                        },
                ),
            ),
            Json::Object(entries) => JsonView::Object(
                Seq::new(
                    entries@.len(),
                    |i: int|
                        if 0 <= i < entries@.len() {
                            (entries@[i].0@, entries@[i].1.model())
                        } else {
                            (Seq::empty(), JsonView::Null)
                        },
                ),
            ),
        }
    }
}

impl DeepView for Json {
    type V = JsonView;

    open spec fn deep_view(&self) -> JsonView {
        self.model()
    }
}

/// The value that an object gives a key: that of the last entry under it.
pub open spec fn field(entries: Seq<(Seq<char>, JsonView)>, key: Seq<char>) -> Option<JsonView>
    decreases entries.len(),
{
    if entries.len() == 0 {
        None
    } else if entries.last().0 == key {
        Some(entries.last().1)
    } else {
        field(entries.drop_last(), key)
    }
}

/// A value found under a key is a part of the object.
pub proof fn lemma_field_decreases(entries: Seq<(Seq<char>, JsonView)>, key: Seq<char>)
    ensures
        field(entries, key) matches Some(v) ==> decreases_to!(entries => v),
    decreases entries.len(),
{
    if entries.len() == 0 {
    } else if entries.last().0 == key {
        assert(decreases_to!(entries => entries[entries.len() - 1]));
    } else {
        lemma_field_decreases(entries.drop_last(), key);
        assert(decreases_to!(entries => entries.drop_last()));
    }
}

/// The value that a document gives a key, where it is an object that has one.
pub open spec fn part(j: JsonView, key: Seq<char>) -> Option<JsonView> {
    match j {
        JsonView::Object(entries) => field(entries, key),
        _ => None,
    }
}

/// A value found under a key is a part of the document.
pub proof fn lemma_part_decreases(j: JsonView, key: Seq<char>)
    ensures
        part(j, key) matches Some(v) ==> decreases_to!(j => v),
{
    if let JsonView::Object(entries) = j {
        lemma_field_decreases(entries, key);
    }
}

/// An entry added at the end answers for its own key and hides no other.
pub broadcast proof fn lemma_field_push(
    entries: Seq<(Seq<char>, JsonView)>,
    key: Seq<char>,
    value: JsonView,
    asked: Seq<char>,
)
    ensures
        #[trigger] field(entries.push((key, value)), asked) == if key == asked {
            Some(value)
        } else {
            field(entries, asked)
        },
{
    assert(entries.push((key, value)).drop_last() =~= entries);
}

/// Fields with one more at the end where there is a value, and unchanged
/// where there is none.
pub open spec fn push_opt(
    entries: Seq<(Seq<char>, JsonView)>,
    key: Seq<char>,
    value: Option<JsonView>,
) -> Seq<(Seq<char>, JsonView)> {
    match value {
        Some(v) => entries.push((key, v)),
        None => entries,
    }
}

/// An entry that may have been added answers for its own key if it was, and
/// hides no other.
pub broadcast proof fn lemma_field_push_opt(
    entries: Seq<(Seq<char>, JsonView)>,
    key: Seq<char>,
    value: Option<JsonView>,
    asked: Seq<char>,
)
    ensures
        #[trigger] field(push_opt(entries, key, value), asked) == if key == asked && value is Some {
            value
        } else {
            field(entries, asked)
        },
{
    if let Some(v) = value {
        lemma_field_push(entries, key, v, asked);
    }
}

/// Whether two strings hold the same characters.
pub fn str_eq(a: &str, b: &str) -> (r: bool)
    ensures
        r == (a@ == b@),
{
    let x = a.as_bytes();
    let y = b.as_bytes();
    proof {
        vstd::utf8::encode_utf8_decode_utf8(a@);
        vstd::utf8::encode_utf8_decode_utf8(b@);
        assert(x@ == vstd::utf8::encode_utf8(a@));
        assert(y@ == vstd::utf8::encode_utf8(b@));
    }
    if x.len() != y.len() {
        return false;
    }
    let mut i: usize = 0;
    while i < x.len()
        invariant
            i <= x.len(),
            x.len() == y.len(),
            a@ == b@ ==> x@ == y@,
            forall|k: int| 0 <= k < i ==> x@[k] == y@[k],
        decreases x.len() - i,
    {
        if x[i] != y[i] {
            return false;
        }
        i = i + 1;
    }
    assert(x@ =~= y@);
    true
}

impl Json {
    /// The value under `key`, where the document is an object that has one.
    pub fn get(&self, key: &str) -> (r: Option<&Json>)
        ensures
            match r {
                Some(v) => part(self.deep_view(), key@) == Some(v.deep_view()) && decreases_to!(
                    self => v,
                ),
                None => part(self.deep_view(), key@) is None,
            },
    {
        match self {
            Json::Object(entries) => {
                let mut i: usize = entries.len();
                let ghost all = self.deep_view()->Object_0;
                assert(all.take(i as int) =~= all);
                while i > 0
                    invariant
                        i <= entries.len(),
                        self == Json::Object(*entries),
                        all == self.deep_view()->Object_0,
                        field(all, key@) == field(all.take(i as int), key@),
                    decreases i,
                {
                    i = i - 1;
                    assert(all.take(i + 1).drop_last() =~= all.take(i as int));
                    if str_eq(entries[i].0.as_str(), key) {
                        assert(decreases_to!(entries => entries[i as int]));
                        return Some(&entries[i].1);
                    }
                }
                None
            },
            _ => None,
        }
    }

    /// Whether the document is an object.
    pub fn is_object(&self) -> (r: bool)
        ensures
            r == (self.deep_view() is Object),
    {
        match self {
            Json::Object(_) => true,
            _ => false,
        }
    }

    /// A copy of the document.
    pub fn duplicate(&self) -> (r: Json)
        ensures
            r.deep_view() == self.deep_view(),
        decreases self,
    {
        match self {
            Json::Null => Json::Null,
            Json::Bool(b) => Json::Bool(*b),
            Json::Number(n) => Json::Number(*n),
            Json::String(s) => Json::String(s.clone()),
            Json::Array(items) => {
                let mut out: Vec<Json> = Vec::new();
                let mut i: usize = 0;
                while i < items.len()
                    invariant
                        i <= items.len(),
                        out.len() == i,
                        self == Json::Array(*items),
                        decreases_to!(self => items),
                        forall|k: int| 0 <= k < i ==> out@[k].model() == items@[k].model(),
                    decreases items.len() - i,
                {
                    assert(decreases_to!(items => items[i as int]));
                    out.push(items[i].duplicate());
                    i = i + 1;
                }
                let r = Json::Array(out);
                assert(r.model()->Array_0 =~= self.model()->Array_0);
                r
            },
            Json::Object(entries) => {
                let mut out: Vec<(String, Json)> = Vec::new();
                let mut i: usize = 0;
                while i < entries.len()
                    invariant
                        i <= entries.len(),
                        out.len() == i,
                        self == Json::Object(*entries),
                        decreases_to!(self => entries),
                        forall|k: int|
                            0 <= k < i ==> out@[k].0@ == entries@[k].0@ && out@[k].1.model()
                                == entries@[k].1.model(),
                    decreases entries.len() - i,
                {
                    assert(decreases_to!(entries => entries[i as int]));
                    out.push((entries[i].0.clone(), entries[i].1.duplicate()));
                    i = i + 1;
                }
                let r = Json::Object(out);
                assert(r.model()->Object_0 =~= self.model()->Object_0);
                r
            },
        }
    }
}

impl Clone for Json {
    fn clone(&self) -> (r: Json)
        ensures
            r.deep_view() == self.deep_view(),
    {
        self.duplicate()
    }
}

/// The fields of an object under construction.
pub struct Fields {
    entries: Vec<(String, Json)>,
}

impl Fields {
    /// The fields so far, in order.
    pub closed spec fn model(&self) -> Seq<(Seq<char>, JsonView)> {
        Json::Object(self.entries).model()->Object_0
    }

    /// No field yet.
    pub fn new() -> (r: Fields)
        ensures
            r.model() == Seq::<(Seq<char>, JsonView)>::empty(),
    {
        let r = Fields { entries: Vec::new() };
        assert(r.model() =~= Seq::empty());
        r
    }

    /// Adds a field at the end.
    pub fn put(&mut self, key: &str, value: Json)
        ensures
            final(self).model() == old(self).model().push((key@, value.deep_view())),
    {
        self.entries.push((key.to_owned(), value));
        assert(self.model() =~= old(self).model().push((key@, value.deep_view())));
    }

    /// Adds a field at the end where there is a value.
    pub fn put_opt(&mut self, key: &str, value: Option<Json>)
        ensures
            final(self).model() == push_opt(old(self).model(), key@, value.deep_view()),
    {
        match value {
            Some(v) => {
                self.put(key, v);
            },
            None => {},
        }
    }

    /// The object with these fields.
    pub fn finish(self) -> (j: Json)
        ensures
            j.deep_view() == JsonView::Object(self.model()),
    {
        Json::Object(self.entries)
    }
}

pub broadcast group group_field {
    lemma_field_push,
    lemma_field_push_opt,
}

} // verus!
