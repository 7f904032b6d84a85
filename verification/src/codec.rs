//! What every wire shape shares: refusals, the codec contract, and the shapes
//! of integers, strings, lists, pairs and object fields.

use vstd::prelude::*;
use crate::json::{part, push_opt, Fields, Json, JsonView, Number};

verus! {

/// Why a value was refused.
#[derive(Clone, Copy, Debug, PartialEq, Eq, Hash)]
pub enum ErrorKind {
    /// A tag names no known variant.
    UnknownVariant,
    /// An untagged classical payload has none of the accepted shapes.
    UnrecognizedClassicalShape,
    /// A required field is absent.
    MissingField,
    /// A value has the wrong primitive type, or does not fit the type's range.
    TypeMismatch,
    /// An array has not the length that its place demands.
    InvalidFixedSize,
}

impl ErrorKind {
    /// Whether the refusal says that a value has none of the shapes accepted
    /// at its place.
    pub open spec fn structural_mismatch(self) -> bool {
        self == ErrorKind::UnknownVariant || self == ErrorKind::UnrecognizedClassicalShape
    }

    /// Whether the refusal says that a value has none of the shapes accepted
    /// at its place.
    pub fn is_structural_mismatch(&self) -> (r: bool)
        ensures
            r == self.structural_mismatch(),
    {
        match self {
            ErrorKind::UnknownVariant => true,
            ErrorKind::UnrecognizedClassicalShape => true,
            _ => false,
        }
    }
}

/// One step from a value down to a part of it.
#[derive(Clone, Copy, Debug, PartialEq, Eq, Hash)]
pub enum PathStep {
    /// Into the field of this name.
    Field(&'static str),
    /// Into the item at this position of a list, or the entry at this
    /// position of a table.
    Index(usize),
}

/// A refusal, with the way from the decoded value down to the offending part.
#[derive(Debug, PartialEq, Eq)]
pub struct DecodeError {
    /// What was wrong.
    pub kind: ErrorKind,
    /// Where, outermost step first.
    pub path: Vec<PathStep>,
}

/// The mathematical value of a [`DecodeError`].
pub struct ErrorView {
    pub kind: ErrorKind,
    pub path: Seq<PathStep>,
}

impl DeepView for DecodeError {
    type V = ErrorView;

    open spec fn deep_view(&self) -> ErrorView {
        ErrorView { kind: self.kind, path: self.path@ }
    }
}

impl ErrorView {
    /// A refusal of the value at hand.
    pub open spec fn here(kind: ErrorKind) -> ErrorView {
        ErrorView { kind, path: Seq::empty() }
    }

    /// The same refusal, seen from one step further up.
    pub open spec fn under(self, step: PathStep) -> ErrorView {
        ErrorView { kind: self.kind, path: seq![step] + self.path }
    }

    /// The refusal of an object that lacks the field `key`.
    pub open spec fn missing(key: &'static str) -> ErrorView {
        ErrorView::here(ErrorKind::MissingField).under(PathStep::Field(key))
    }

    /// The refusal of a value of the wrong primitive type.
    pub open spec fn mismatch() -> ErrorView {
        ErrorView::here(ErrorKind::TypeMismatch)
    }
}

impl DecodeError {
    /// A refusal of the value at hand.
    pub fn here(kind: ErrorKind) -> (e: DecodeError)
        ensures
            e.deep_view() == ErrorView::here(kind),
    {
        DecodeError { kind, path: Vec::new() }
    }

    /// The same refusal, seen from one step further up.
    pub fn under(self, step: PathStep) -> (e: DecodeError)
        ensures
            e.deep_view() == self.deep_view().under(step),
    {
        let mut path = self.path;
        path.insert(0, step);
        let e = DecodeError { kind: self.kind, path };
        assert(e.path@ =~= seq![step] + self.path@);
        e
    }

    /// The refusal of an object that lacks the field `key`.
    pub fn missing(key: &'static str) -> (e: DecodeError)
        ensures
            e.deep_view() == ErrorView::missing(key),
    {
        DecodeError::here(ErrorKind::MissingField).under(PathStep::Field(key))
    }

    /// The refusal of a value of the wrong primitive type.
    pub fn mismatch() -> (e: DecodeError)
        ensures
            e.deep_view() == ErrorView::mismatch(),
    {
        DecodeError::here(ErrorKind::TypeMismatch)
    }
}

/// A result, seen from one step further up.
pub open spec fn lift<V>(r: Result<V, ErrorView>, step: PathStep) -> Result<V, ErrorView> {
    match r {
        Ok(v) => Ok(v),
        Err(e) => Err(e.under(step)),
    }
}

/// Whether an executable result is the value, or the refusal, that a spec
/// function gives.
pub open spec fn agrees<T: DeepView>(r: Result<T, DecodeError>, s: Result<T::V, ErrorView>) -> bool {
    match r {
        Ok(v) => s == Ok::<T::V, ErrorView>(v.deep_view()),
        Err(e) => s == Err::<T::V, ErrorView>(e.deep_view()),
    }
}

/// A type with a wire shape.
///
/// `decode_spec` and `encode_spec` say, over mathematical values, which
/// document stands for which value; `decode` and `encode` compute them.
pub trait Codec: DeepView + Sized {
    /// The value that a document decodes to, or the refusal.
    spec fn decode_spec(j: JsonView) -> Result<Self::V, ErrorView>;

    /// The document that a value encodes to.
    spec fn encode_spec(v: Self::V) -> JsonView;

    /// What holds of every decoded value.
    spec fn valid(v: Self::V) -> bool;

    /// Decodes a document. The result is valid, and encoding it gives a
    /// document that decodes to the same result again.
    fn decode(j: &Json) -> (r: Result<Self, DecodeError>)
        ensures
            agrees(r, Self::decode_spec(j.deep_view())),
            r matches Ok(v) ==> Self::valid(v.deep_view()),
            r matches Ok(v) ==> Self::decode_spec(Self::encode_spec(v.deep_view()))
                == Self::decode_spec(j.deep_view()),
    ;

    /// Encodes a value.
    fn encode(&self) -> (j: Json)
        ensures
            j.deep_view() == Self::encode_spec(self.deep_view()),
    ;

    /// Decoding undoes encoding: a valid value, encoded and decoded, is
    /// itself again. No value encodes to null, which stands for a field that
    /// is not there.
    proof fn lemma_round_trip(v: Self::V)
        requires
            Self::valid(v),
        ensures
            Self::decode_spec(Self::encode_spec(v)) == Ok::<Self::V, ErrorView>(v),
            !(Self::encode_spec(v) is Null),
    ;
}

/// A document that decodes at all decodes to a fixed point: encoding the
/// result and decoding again gives the same result.
pub proof fn lemma_decode_fixed_point<T: Codec>(x: JsonView)
    requires
        T::decode_spec(x) matches Ok(v) && T::valid(v),
    ensures
        T::decode_spec(T::encode_spec(T::decode_spec(x)->Ok_0)) == T::decode_spec(x),
{
    T::lemma_round_trip(T::decode_spec(x)->Ok_0);
}

impl Codec for bool {
    open spec fn decode_spec(j: JsonView) -> Result<bool, ErrorView> {
        match j {
            JsonView::Bool(b) => Ok(b),
            _ => Err(ErrorView::mismatch()),
        }
    }

    open spec fn encode_spec(v: bool) -> JsonView {
        JsonView::Bool(v)
    }

    open spec fn valid(v: bool) -> bool {
        true
    }

    fn decode(j: &Json) -> (r: Result<bool, DecodeError>) {
        match j {
            Json::Bool(b) => Ok(*b),
            _ => Err(DecodeError::mismatch()),
        }
    }

    fn encode(&self) -> (j: Json) {
        Json::Bool(*self)
    }

    proof fn lemma_round_trip(v: bool) {
    }
}

/// An integer of a document, where it lies between two bounds.
pub open spec fn integer_between(j: JsonView, low: int, high: int) -> Result<int, ErrorView> {
    match j {
        JsonView::Number(n) => match n.as_int() {
            Some(i) => if low <= i <= high {
                Ok(i)
            } else {
                Err(ErrorView::mismatch())
            },
            None => Err(ErrorView::mismatch()),
        },
        _ => Err(ErrorView::mismatch()),
    }
}

/// The number that stands for an integer: written with a sign only below zero.
pub open spec fn integer_number(i: int) -> Number {
    if i >= 0 {
        Number::PosInt(i as u64)
    } else {
        Number::NegInt(i as i64)
    }
}

impl Codec for u32 {
    open spec fn decode_spec(j: JsonView) -> Result<u32, ErrorView> {
        match integer_between(j, 0, u32::MAX as int) {
            Ok(i) => Ok(i as u32),
            Err(e) => Err(e),
        }
    }

    open spec fn encode_spec(v: u32) -> JsonView {
        JsonView::Number(integer_number(v as int))
    }

    open spec fn valid(v: u32) -> bool {
        true
    }

    fn decode(j: &Json) -> (r: Result<u32, DecodeError>) {
        match j {
            Json::Number(Number::PosInt(u)) => {
                if *u <= u32::MAX as u64 {
                    Ok(*u as u32)
                } else {
                    Err(DecodeError::mismatch())
                }
            },
            Json::Number(Number::NegInt(i)) => {
                if 0 <= *i && *i <= u32::MAX as i64 {
                    Ok(*i as u32)
                } else {
                    Err(DecodeError::mismatch())
                }
            },
            _ => Err(DecodeError::mismatch()),
        }
    }

    fn encode(&self) -> (j: Json) {
        Json::Number(Number::PosInt(*self as u64))
    }

    proof fn lemma_round_trip(v: u32) {
    }
}

impl Codec for u64 {
    open spec fn decode_spec(j: JsonView) -> Result<u64, ErrorView> {
        match integer_between(j, 0, u64::MAX as int) {
            Ok(i) => Ok(i as u64),
            Err(e) => Err(e),
        }
    }

    open spec fn encode_spec(v: u64) -> JsonView {
        JsonView::Number(integer_number(v as int))
    }

    open spec fn valid(v: u64) -> bool {
        true
    }

    fn decode(j: &Json) -> (r: Result<u64, DecodeError>) {
        match j {
            Json::Number(Number::PosInt(u)) => Ok(*u),
            Json::Number(Number::NegInt(i)) => {
                if 0 <= *i {
                    Ok(*i as u64)
                } else {
                    Err(DecodeError::mismatch())
                }
            },
            _ => Err(DecodeError::mismatch()),
        }
    }

    fn encode(&self) -> (j: Json) {
        Json::Number(Number::PosInt(*self))
    }

    proof fn lemma_round_trip(v: u64) {
    }
}

impl Codec for i64 {
    open spec fn decode_spec(j: JsonView) -> Result<i64, ErrorView> {
        match integer_between(j, i64::MIN as int, i64::MAX as int) {
            Ok(i) => Ok(i as i64),
            Err(e) => Err(e),
        }
    }

    open spec fn encode_spec(v: i64) -> JsonView {
        JsonView::Number(integer_number(v as int))
    }

    open spec fn valid(v: i64) -> bool {
        true
    }

    fn decode(j: &Json) -> (r: Result<i64, DecodeError>) {
        match j {
            Json::Number(Number::PosInt(u)) => {
                if *u <= i64::MAX as u64 {
                    Ok(*u as i64)
                } else {
                    Err(DecodeError::mismatch())
                }
            },
            Json::Number(Number::NegInt(i)) => Ok(*i),
            _ => Err(DecodeError::mismatch()),
        }
    }

    fn encode(&self) -> (j: Json) {
        if *self >= 0 {
            Json::Number(Number::PosInt(*self as u64))
        } else {
            Json::Number(Number::NegInt(*self))
        }
    }

    proof fn lemma_round_trip(v: i64) {
    }
}

impl DeepView for Number {
    type V = Number;

    open spec fn deep_view(&self) -> Number {
        *self
    }
}

/// A number of any kind, kept as the document wrote it: the shape of a
/// field that holds a real.
impl Codec for Number {
    open spec fn decode_spec(j: JsonView) -> Result<Number, ErrorView> {
        match j {
            JsonView::Number(n) => Ok(n),
            _ => Err(ErrorView::mismatch()),
        }
    }

    open spec fn encode_spec(v: Number) -> JsonView {
        JsonView::Number(v)
    }

    open spec fn valid(v: Number) -> bool {
        true
    }

    fn decode(j: &Json) -> (r: Result<Number, DecodeError>) {
        match j {
            Json::Number(n) => Ok(*n),
            _ => Err(DecodeError::mismatch()),
        }
    }

    fn encode(&self) -> (j: Json) {
        Json::Number(*self)
    }

    proof fn lemma_round_trip(v: Number) {
    }
}

impl Codec for String {
    open spec fn decode_spec(j: JsonView) -> Result<Seq<char>, ErrorView> {
        match j {
            JsonView::String(s) => Ok(s),
            _ => Err(ErrorView::mismatch()),
        }
    }

    open spec fn encode_spec(v: Seq<char>) -> JsonView {
        JsonView::String(v)
    }

    open spec fn valid(v: Seq<char>) -> bool {
        true
    }

    fn decode(j: &Json) -> (r: Result<String, DecodeError>) {
        match j {
            Json::String(s) => Ok(s.clone()),
            _ => Err(DecodeError::mismatch()),
        }
    }

    fn encode(&self) -> (j: Json) {
        Json::String(self.clone())
    }

    proof fn lemma_round_trip(v: Seq<char>) {
    }
}

/// The values of a list of results, or the first refusal, under its position.
pub open spec fn collect<V>(rs: Seq<Result<V, ErrorView>>) -> Result<Seq<V>, ErrorView>
    decreases rs.len(),
{
    if rs.len() == 0 {
        Ok(Seq::empty())
    } else {
        match collect(rs.drop_last()) {
            Err(e) => Err(e),
            Ok(vs) => match rs.last() {
                Err(e) => Err(e.under(PathStep::Index((rs.len() - 1) as usize))),
                Ok(v) => Ok(vs.push(v)),
            },
        }
    }
}

/// A refusal among the first results is the refusal of the whole list.
pub proof fn lemma_collect_prefix_err<V>(rs: Seq<Result<V, ErrorView>>, n: int)
    requires
        0 <= n <= rs.len(),
        collect(rs.take(n)) is Err,
    ensures
        collect(rs) == collect(rs.take(n)),
    decreases rs.len(),
{
    if n == rs.len() {
        assert(rs.take(n) =~= rs);
    } else {
        assert(rs.drop_last().take(n) =~= rs.take(n));
        lemma_collect_prefix_err(rs.drop_last(), n);
    }
}

/// Results that all hold a value collect to the list of those values.
pub proof fn lemma_collect_all_ok<V>(rs: Seq<Result<V, ErrorView>>, vs: Seq<V>)
    requires
        rs.len() == vs.len(),
        forall|i: int| 0 <= i < rs.len() ==> rs[i] == Ok::<V, ErrorView>(vs[i]),
    ensures
        collect(rs) == Ok::<Seq<V>, ErrorView>(vs),
    decreases rs.len(),
{
    if rs.len() == 0 {
        assert(vs =~= Seq::empty());
    } else {
        lemma_collect_all_ok(rs.drop_last(), vs.drop_last());
        assert(vs.drop_last().push(vs.last()) =~= vs);
    }
}

/// One more result after a list that collected.
pub proof fn lemma_collect_step<V>(rs: Seq<Result<V, ErrorView>>, n: int)
    requires
        0 <= n < rs.len(),
    ensures
        collect(rs.take(n + 1)) == match collect(rs.take(n)) {
            Err(e) => Err(e),
            Ok(vs) => match rs[n] {
                Err(e) => Err(e.under(PathStep::Index(n as usize))),
                Ok(v) => Ok(vs.push(v)),
            },
        },
{
    assert(rs.take(n + 1).drop_last() =~= rs.take(n));
}

/// A list: an array of the items' shapes.
impl<T: Codec> Codec for Vec<T> {
    open spec fn decode_spec(j: JsonView) -> Result<Seq<T::V>, ErrorView> {
        match j {
            JsonView::Array(items) => collect(items.map_values(|x: JsonView| T::decode_spec(x))),
            _ => Err(ErrorView::mismatch()),
        }
    }

    open spec fn encode_spec(v: Seq<T::V>) -> JsonView {
        JsonView::Array(v.map_values(|x: T::V| T::encode_spec(x)))
    }

    open spec fn valid(v: Seq<T::V>) -> bool {
        forall|i: int| 0 <= i < v.len() ==> T::valid(#[trigger] v[i])
    }

    fn decode(j: &Json) -> (r: Result<Vec<T>, DecodeError>) {
        match j {
            Json::Array(items) => {
                let ghost rs = j.deep_view()->Array_0.map_values(|x: JsonView| T::decode_spec(x));
                let mut out: Vec<T> = Vec::new();
                let mut i: usize = 0;
                assert(rs.take(0) =~= Seq::empty());
                assert(out.deep_view() =~= Seq::empty());
                while i < items.len()
                    invariant
                        i <= items.len(),
                        j == Json::Array(*items),
                        rs == j.deep_view()->Array_0.map_values(|x: JsonView| T::decode_spec(x)),
                        collect(rs.take(i as int)) == Ok::<Seq<T::V>, ErrorView>(out.deep_view()),
                        Self::valid(out.deep_view()),
                    decreases items.len() - i,
                {
                    let ghost before = out.deep_view();
                    proof {
                        lemma_collect_step(rs, i as int);
                    }
                    match T::decode(&items[i]) {
                        Ok(v) => {
                            out.push(v);
                            assert(out.deep_view() =~= before.push(v.deep_view()));
                        },
                        Err(e) => {
                            proof {
                                lemma_collect_prefix_err(rs, i + 1);
                            }
                            return Err(e.under(PathStep::Index(i)));
                        },
                    }
                    i = i + 1;
                }
                proof {
                    assert(rs.take(i as int) =~= rs);
                    Self::lemma_round_trip(out.deep_view());
                }
                Ok(out)
            },
            _ => Err(DecodeError::mismatch()),
        }
    }

    fn encode(&self) -> (j: Json) {
        let mut out: Vec<Json> = Vec::new();
        let mut i: usize = 0;
        while i < self.len()
            invariant
                i <= self.len(),
                out.len() == i,
                forall|k: int| 0 <= k < i ==> out@[k].deep_view() == T::encode_spec(
                    self@[k].deep_view(),
                ),
            decreases self.len() - i,
        {
            out.push(self[i].encode());
            i = i + 1;
        }
        let j = Json::Array(out);
        assert(j.deep_view()->Array_0 =~= self.deep_view().map_values(|x: T::V| T::encode_spec(x)));
        j
    }

    proof fn lemma_round_trip(v: Seq<T::V>) {
        let js = v.map_values(|x: T::V| T::encode_spec(x));
        let rs = js.map_values(|x: JsonView| T::decode_spec(x));
        assert forall|i: int| 0 <= i < rs.len() implies rs[i] == Ok::<T::V, ErrorView>(v[i]) by {
            T::lemma_round_trip(v[i]);
        }
        lemma_collect_all_ok(rs, v);
    }
}

/// A value behind a pointer: the shape of the value.
impl<T: Codec> Codec for Box<T> {
    open spec fn decode_spec(j: JsonView) -> Result<T::V, ErrorView> {
        T::decode_spec(j)
    }

    open spec fn encode_spec(v: T::V) -> JsonView {
        T::encode_spec(v)
    }

    open spec fn valid(v: T::V) -> bool {
        T::valid(v)
    }

    fn decode(j: &Json) -> (r: Result<Box<T>, DecodeError>) {
        match T::decode(j) {
            Ok(x) => Ok(Box::new(x)),
            Err(e) => Err(e),
        }
    }

    fn encode(&self) -> (j: Json) {
        (**self).encode()
    }

    proof fn lemma_round_trip(v: T::V) {
        T::lemma_round_trip(v);
    }
}

/// A pair: an array of exactly two items.
impl<A: Codec, B: Codec> Codec for (A, B) {
    open spec fn decode_spec(j: JsonView) -> Result<(A::V, B::V), ErrorView> {
        match j {
            JsonView::Array(items) => if items.len() != 2 {
                Err(ErrorView::here(ErrorKind::InvalidFixedSize))
            } else {
                match lift(A::decode_spec(items[0]), PathStep::Index(0)) {
                    Err(e) => Err(e),
                    Ok(a) => match lift(B::decode_spec(items[1]), PathStep::Index(1)) {
                        Err(e) => Err(e),
                        Ok(b) => Ok((a, b)),
                    },
                }
            },
            _ => Err(ErrorView::mismatch()),
        }
    }

    open spec fn encode_spec(v: (A::V, B::V)) -> JsonView {
        JsonView::Array(seq![A::encode_spec(v.0), B::encode_spec(v.1)])
    }

    open spec fn valid(v: (A::V, B::V)) -> bool {
        A::valid(v.0) && B::valid(v.1)
    }

    fn decode(j: &Json) -> (r: Result<(A, B), DecodeError>) {
        match j {
            Json::Array(items) => {
                if items.len() != 2 {
                    return Err(DecodeError::here(ErrorKind::InvalidFixedSize));
                }
                let a = match A::decode(&items[0]) {
                    Ok(a) => a,
                    Err(e) => {
                        return Err(e.under(PathStep::Index(0)));
                    },
                };
                let b = match B::decode(&items[1]) {
                    Ok(b) => b,
                    Err(e) => {
                        return Err(e.under(PathStep::Index(1)));
                    },
                };
                let r = (a, b);
                proof {
                    Self::lemma_round_trip(r.deep_view());
                }
                Ok(r)
            },
            _ => Err(DecodeError::mismatch()),
        }
    }

    fn encode(&self) -> (j: Json) {
        let mut out: Vec<Json> = Vec::new();
        out.push(self.0.encode());
        out.push(self.1.encode());
        let j = Json::Array(out);
        assert(j.deep_view()->Array_0 =~= seq![
            A::encode_spec(self.0.deep_view()),
            B::encode_spec(self.1.deep_view()),
        ]);
        j
    }

    proof fn lemma_round_trip(v: (A::V, B::V)) {
        A::lemma_round_trip(v.0);
        B::lemma_round_trip(v.1);
    }
}

/// A type whose values can be copied with all their parts.
pub trait DeepCopy: DeepView + Sized {
    /// A copy of the value: a new value with an equal view.
    fn deep_copy(&self) -> (r: Self)
        ensures
            r.deep_view() == self.deep_view(),
    ;
}

impl DeepCopy for bool {
    fn deep_copy(&self) -> (r: bool) {
        *self
    }
}

impl DeepCopy for u32 {
    fn deep_copy(&self) -> (r: u32) {
        *self
    }
}

impl DeepCopy for u64 {
    fn deep_copy(&self) -> (r: u64) {
        *self
    }
}

impl DeepCopy for i64 {
    fn deep_copy(&self) -> (r: i64) {
        *self
    }
}

impl DeepCopy for Number {
    fn deep_copy(&self) -> (r: Number) {
        *self
    }
}

impl DeepCopy for String {
    fn deep_copy(&self) -> (r: String) {
        self.clone()
    }
}

impl<T: DeepCopy> DeepCopy for Box<T> {
    fn deep_copy(&self) -> (r: Box<T>) {
        Box::new((**self).deep_copy())
    }
}

impl<T: DeepCopy> DeepCopy for Option<T> {
    fn deep_copy(&self) -> (r: Option<T>) {
        match self {
            Some(x) => Some(x.deep_copy()),
            None => None,
        }
    }
}

impl<A: DeepCopy, B: DeepCopy> DeepCopy for (A, B) {
    fn deep_copy(&self) -> (r: (A, B)) {
        (self.0.deep_copy(), self.1.deep_copy())
    }
}

impl<T: DeepCopy> DeepCopy for Vec<T> {
    fn deep_copy(&self) -> (r: Vec<T>) {
        let mut out: Vec<T> = Vec::new();
        let mut i: usize = 0;
        while i < self.len()
            invariant
                i <= self.len(),
                out.len() == i,
                forall|k: int| 0 <= k < i ==> out@[k].deep_view() == self@[k].deep_view(),
            decreases self.len() - i,
        {
            out.push(self[i].deep_copy());
            i = i + 1;
        }
        assert(out.deep_view() =~= self.deep_view());
        out
    }
}

/// What a required field of an object decodes to.
pub open spec fn required_spec<T: Codec>(j: JsonView, key: &'static str) -> Result<T::V, ErrorView> {
    if !(j is Object) {
        Err(ErrorView::mismatch())
    } else {
        match part(j, key@) {
            Some(v) => lift(T::decode_spec(v), PathStep::Field(key)),
            None => Err(ErrorView::missing(key)),
        }
    }
}

/// What an optional field of an object decodes to: nothing where the field is
/// absent or null.
pub open spec fn optional_spec<T: Codec>(j: JsonView, key: &'static str) -> Result<
    Option<T::V>,
    ErrorView,
> {
    if !(j is Object) {
        Err(ErrorView::mismatch())
    } else {
        match part(j, key@) {
            Some(JsonView::Null) => Ok(None),
            Some(v) => match lift(T::decode_spec(v), PathStep::Field(key)) {
                Ok(x) => Ok(Some(x)),
                Err(e) => Err(e),
            },
            None => Ok(None),
        }
    }
}

/// What a field with a default decodes to: the default only where the field
/// is absent.
pub open spec fn defaulted_spec<T: Codec>(j: JsonView, key: &'static str, default: T::V) -> Result<
    T::V,
    ErrorView,
> {
    if !(j is Object) {
        Err(ErrorView::mismatch())
    } else {
        match part(j, key@) {
            Some(v) => lift(T::decode_spec(v), PathStep::Field(key)),
            None => Ok(default),
        }
    }
}

/// Fields with one more, holding a value's document.
pub open spec fn put_spec<T: Codec>(
    entries: Seq<(Seq<char>, JsonView)>,
    key: &'static str,
    v: T::V,
) -> Seq<(Seq<char>, JsonView)> {
    entries.push((key@, T::encode_spec(v)))
}

/// Fields with one more where there is a value, and unchanged where not.
pub open spec fn put_opt_spec<T: Codec>(
    entries: Seq<(Seq<char>, JsonView)>,
    key: &'static str,
    v: Option<T::V>,
) -> Seq<(Seq<char>, JsonView)> {
    push_opt(
        entries,
        key@,
        match v {
            Some(x) => Some(T::encode_spec(x)),
            None => None,
        },
    )
}

/// Decodes a required field.
pub fn required<T: Codec>(j: &Json, key: &'static str) -> (r: Result<T, DecodeError>)
    ensures
        agrees(r, required_spec::<T>(j.deep_view(), key)),
        r matches Ok(v) ==> T::valid(v.deep_view()),
{
    if !j.is_object() {
        return Err(DecodeError::mismatch());
    }
    match j.get(key) {
        Some(v) => match T::decode(v) {
            Ok(x) => Ok(x),
            Err(e) => Err(e.under(PathStep::Field(key))),
        },
        None => Err(DecodeError::missing(key)),
    }
}

/// Decodes an optional field.
pub fn optional<T: Codec>(j: &Json, key: &'static str) -> (r: Result<Option<T>, DecodeError>)
    ensures
        agrees(r, optional_spec::<T>(j.deep_view(), key)),
        r matches Ok(Some(v)) ==> T::valid(v.deep_view()),
{
    if !j.is_object() {
        return Err(DecodeError::mismatch());
    }
    match j.get(key) {
        Some(Json::Null) => Ok(None),
        Some(v) => match T::decode(v) {
            Ok(x) => Ok(Some(x)),
            Err(e) => Err(e.under(PathStep::Field(key))),
        },
        None => Ok(None),
    }
}

/// Decodes a field that has a default.
pub fn defaulted<T: Codec>(j: &Json, key: &'static str, default: T) -> (r: Result<T, DecodeError>)
    requires
        T::valid(default.deep_view()),
    ensures
        agrees(r, defaulted_spec::<T>(j.deep_view(), key, default.deep_view())),
        r matches Ok(v) ==> T::valid(v.deep_view()),
{
    if !j.is_object() {
        return Err(DecodeError::mismatch());
    }
    match j.get(key) {
        Some(v) => match T::decode(v) {
            Ok(x) => Ok(x),
            Err(e) => Err(e.under(PathStep::Field(key))),
        },
        None => Ok(default),
    }
}

/// Adds a field that holds a value's document.
pub fn put<T: Codec>(fields: &mut Fields, key: &'static str, v: &T)
    ensures
        final(fields).model() == put_spec::<T>(old(fields).model(), key, v.deep_view()),
{
    fields.put(key, v.encode());
}

/// Adds a field where there is a value.
pub fn put_opt<T: Codec>(fields: &mut Fields, key: &'static str, v: &Option<T>)
    ensures
        final(fields).model() == put_opt_spec::<T>(old(fields).model(), key, v.deep_view()),
{
    match v {
        Some(x) => {
            fields.put_opt(key, Some(x.encode()));
        },
        None => {
            fields.put_opt(key, None);
        },
    }
}

impl ErrorView {
    /// The refusal of a tagged object whose tag names no variant.
    pub open spec fn unknown_tag() -> ErrorView {
        ErrorView::here(ErrorKind::UnknownVariant).under(PathStep::Field("type"))
    }
}

impl DecodeError {
    /// The refusal of a tagged object whose tag names no variant.
    pub fn unknown_tag() -> (e: DecodeError)
        ensures
            e.deep_view() == ErrorView::unknown_tag(),
    {
        DecodeError::here(ErrorKind::UnknownVariant).under(PathStep::Field("type"))
    }
}

} // verus!
