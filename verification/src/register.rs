//! Names of the places that a circuit acts on: qubits, bits and registers.

use vstd::prelude::*;
use vstd::std_specs::convert::FromSpecImpl;
use crate::codec::{
    put, put_spec, required, required_spec, Codec, DecodeError, DeepCopy, ErrorView,
};
use crate::json::{group_field, Fields, Json, JsonView};

verus! {

/// The name of one place in a register: the register's name and an index
/// into it, which may have several dimensions.
#[derive(Clone, Debug, PartialEq, Eq, Hash)]
pub struct ElementId(pub String, pub Vec<i64>);

impl DeepView for ElementId {
    type V = (Seq<char>, Seq<i64>);

    open spec fn deep_view(&self) -> (Seq<char>, Seq<i64>) {
        (self.0.deep_view(), self.1.deep_view())
    }
}

/// A pair `[name, index]`, not an object.
impl Codec for ElementId {
    open spec fn decode_spec(j: JsonView) -> Result<(Seq<char>, Seq<i64>), ErrorView> {
        <(String, Vec<i64>)>::decode_spec(j)
    }

    open spec fn encode_spec(v: (Seq<char>, Seq<i64>)) -> JsonView {
        <(String, Vec<i64>)>::encode_spec(v)
    }

    open spec fn valid(v: (Seq<char>, Seq<i64>)) -> bool {
        <(String, Vec<i64>)>::valid(v)
    }

    fn decode(j: &Json) -> (r: Result<ElementId, DecodeError>) {
        match <(String, Vec<i64>)>::decode(j) {
            Ok(x) => Ok(ElementId(x.0, x.1)),
            Err(e) => Err(e),
        }
    }

    fn encode(&self) -> (j: Json) {
        let mut out: Vec<Json> = Vec::new();
        out.push(self.0.encode());
        out.push(self.1.encode());
        let j = Json::Array(out);
        assert(j.deep_view()->Array_0 =~= seq![
            String::encode_spec(self.0.deep_view()),
            Vec::<i64>::encode_spec(self.1.deep_view()),
        ]);
        j
    }

    proof fn lemma_round_trip(v: (Seq<char>, Seq<i64>)) {
        <(String, Vec<i64>)>::lemma_round_trip(v);
    }
}

impl DeepCopy for ElementId {
    fn deep_copy(&self) -> (r: ElementId) {
        ElementId(self.0.deep_copy(), self.1.deep_copy())
    }
}

/// The name of a qubit.
#[derive(Clone, Debug, PartialEq, Eq, Hash)]
pub struct Qubit {
    /// The place that the qubit is.
    pub id: ElementId,
}

impl DeepView for Qubit {
    type V = (Seq<char>, Seq<i64>);

    open spec fn deep_view(&self) -> (Seq<char>, Seq<i64>) {
        self.id.deep_view()
    }
}

/// The shape of the [`ElementId`] it holds.
impl Codec for Qubit {
    open spec fn decode_spec(j: JsonView) -> Result<(Seq<char>, Seq<i64>), ErrorView> {
        ElementId::decode_spec(j)
    }

    open spec fn encode_spec(v: (Seq<char>, Seq<i64>)) -> JsonView {
        ElementId::encode_spec(v)
    }

    open spec fn valid(v: (Seq<char>, Seq<i64>)) -> bool {
        ElementId::valid(v)
    }

    fn decode(j: &Json) -> (r: Result<Qubit, DecodeError>) {
        match ElementId::decode(j) {
            Ok(x) => Ok(Qubit { id: x }),
            Err(e) => Err(e),
        }
    }

    fn encode(&self) -> (j: Json) {
        self.id.encode()
    }

    proof fn lemma_round_trip(v: (Seq<char>, Seq<i64>)) {
        ElementId::lemma_round_trip(v);
    }
}

impl DeepCopy for Qubit {
    fn deep_copy(&self) -> (r: Qubit) {
        Qubit { id: self.id.deep_copy() }
    }
}

/// The name of a classical bit.
#[derive(Clone, Debug, PartialEq, Eq, Hash)]
pub struct Bit {
    /// The place that the bit is.
    pub id: ElementId,
}

impl DeepView for Bit {
    type V = (Seq<char>, Seq<i64>);

    open spec fn deep_view(&self) -> (Seq<char>, Seq<i64>) {
        self.id.deep_view()
    }
}

/// The shape of the [`ElementId`] it holds.
impl Codec for Bit {
    open spec fn decode_spec(j: JsonView) -> Result<(Seq<char>, Seq<i64>), ErrorView> {
        ElementId::decode_spec(j)
    }

    open spec fn encode_spec(v: (Seq<char>, Seq<i64>)) -> JsonView {
        ElementId::encode_spec(v)
    }

    open spec fn valid(v: (Seq<char>, Seq<i64>)) -> bool {
        ElementId::valid(v)
    }

    fn decode(j: &Json) -> (r: Result<Bit, DecodeError>) {
        match ElementId::decode(j) {
            Ok(x) => Ok(Bit { id: x }),
            Err(e) => Err(e),
        }
    }

    fn encode(&self) -> (j: Json) {
        self.id.encode()
    }

    proof fn lemma_round_trip(v: (Seq<char>, Seq<i64>)) {
        ElementId::lemma_round_trip(v);
    }
}

impl DeepCopy for Bit {
    fn deep_copy(&self) -> (r: Bit) {
        Bit { id: self.id.deep_copy() }
    }
}

/// A classical register: a name and a width in bits.
#[derive(Clone, Debug, PartialEq, Eq, Hash)]
pub struct BitRegister {
    /// Name of the register.
    pub name: String,
    /// Number of bits in the register.
    pub size: u32,
}

/// The mathematical value of a [`BitRegister`].
pub struct BitRegisterView {
    pub name: Seq<char>,
    pub size: u32,
}

impl DeepView for BitRegister {
    type V = BitRegisterView;

    open spec fn deep_view(&self) -> BitRegisterView {
        BitRegisterView {
            name: self.name.deep_view(),
            size: self.size.deep_view(),
        }
    }
}

/// An object with the fields `name` and `size`.
impl Codec for BitRegister {
    #[verifier::opaque]
    open spec fn decode_spec(j: JsonView) -> Result<BitRegisterView, ErrorView> {
        match required_spec::<String>(j, "name") {
            Err(e) => Err(e),
            Ok(name) => match required_spec::<u32>(j, "size") {
                Err(e) => Err(e),
                Ok(size) => Ok(BitRegisterView { name, size }),
            },
        }
    }

    #[verifier::opaque]
    open spec fn encode_spec(v: BitRegisterView) -> JsonView {
        let e = Seq::empty();
        let e = put_spec::<String>(e, "name", v.name);
        let e = put_spec::<u32>(e, "size", v.size);
        JsonView::Object(e)
    }

    open spec fn valid(v: BitRegisterView) -> bool {
        true
    }

    fn decode(j: &Json) -> (r: Result<BitRegister, DecodeError>) {
        proof {
            reveal(<BitRegister as Codec>::decode_spec);
        }
        let name: String = match required::<String>(j, "name") {
            Ok(v) => v,
            Err(e) => {
                return Err(e);
            },
        };
        let size: u32 = match required::<u32>(j, "size") {
            Ok(v) => v,
            Err(e) => {
                return Err(e);
            },
        };
        let r = BitRegister { name, size };
        proof {
            Self::lemma_round_trip(r.deep_view());
        }
        Ok(r)
    }

    fn encode(&self) -> (j: Json) {
        proof {
            reveal(<BitRegister as Codec>::encode_spec);
        }
        let mut fields = Fields::new();
        put::<String>(&mut fields, "name", &self.name);
        put::<u32>(&mut fields, "size", &self.size);
        fields.finish()
    }

    proof fn lemma_round_trip(v: BitRegisterView) {
        reveal(<BitRegister as Codec>::decode_spec);
        reveal(<BitRegister as Codec>::encode_spec);
        broadcast use group_field;

        reveal_strlit("name");
        reveal_strlit("size");
        assert("name"@.len() == 4 && "name"@[0] == 'n');
        assert("size"@.len() == 4 && "size"@[0] == 's');
        String::lemma_round_trip(v.name);
        u32::lemma_round_trip(v.size);
    }
}

impl DeepCopy for BitRegister {
    fn deep_copy(&self) -> (r: BitRegister) {
        BitRegister {
            name: self.name.deep_copy(),
            size: self.size.deep_copy(),
        }
    }
}

/// A string of bits.
#[derive(Clone, Debug, PartialEq, Eq, Hash)]
pub struct Bitstring {
    /// The bits, in order.
    pub vec: Vec<bool>,
}

impl DeepView for Bitstring {
    type V = Seq<bool>;

    open spec fn deep_view(&self) -> Seq<bool> {
        self.vec.deep_view()
    }
}

/// A bare array of booleans.
impl Codec for Bitstring {
    open spec fn decode_spec(j: JsonView) -> Result<Seq<bool>, ErrorView> {
        Vec::<bool>::decode_spec(j)
    }

    open spec fn encode_spec(v: Seq<bool>) -> JsonView {
        Vec::<bool>::encode_spec(v)
    }

    open spec fn valid(v: Seq<bool>) -> bool {
        Vec::<bool>::valid(v)
    }

    fn decode(j: &Json) -> (r: Result<Bitstring, DecodeError>) {
        match Vec::<bool>::decode(j) {
            Ok(x) => Ok(Bitstring { vec: x }),
            Err(e) => Err(e),
        }
    }

    fn encode(&self) -> (j: Json) {
        self.vec.encode()
    }

    proof fn lemma_round_trip(v: Seq<bool>) {
        Vec::<bool>::lemma_round_trip(v);
    }
}

impl DeepCopy for Bitstring {
    fn deep_copy(&self) -> (r: Bitstring) {
        Bitstring { vec: self.vec.deep_copy() }
    }
}

impl From<Qubit> for ElementId {
    fn from(q: Qubit) -> (r: ElementId) {
        q.id
    }
}

impl FromSpecImpl<Qubit> for ElementId {
    open spec fn obeys_from_spec() -> bool {
        true
    }

    open spec fn from_spec(q: Qubit) -> ElementId {
        q.id
    }
}

impl From<Bit> for ElementId {
    fn from(b: Bit) -> (r: ElementId) {
        b.id
    }
}

impl FromSpecImpl<Bit> for ElementId {
    open spec fn obeys_from_spec() -> bool {
        true
    }

    open spec fn from_spec(b: Bit) -> ElementId {
        b.id
    }
}

impl From<ElementId> for Qubit {
    fn from(id: ElementId) -> (r: Qubit) {
        Qubit { id }
    }
}

impl FromSpecImpl<ElementId> for Qubit {
    open spec fn obeys_from_spec() -> bool {
        true
    }

    open spec fn from_spec(id: ElementId) -> Qubit {
        Qubit { id }
    }
}

impl From<ElementId> for Bit {
    fn from(id: ElementId) -> (r: Bit) {
        Bit { id }
    }
}

impl FromSpecImpl<ElementId> for Bit {
    open spec fn obeys_from_spec() -> bool {
        true
    }

    open spec fn from_spec(id: ElementId) -> Bit {
        Bit { id }
    }
}

/// The character of a decimal digit.
pub open spec fn digit(d: nat) -> char {
    if d == 0 {
        '0'
    } else if d == 1 {
        '1'
    } else if d == 2 {
        '2'
    } else if d == 3 {
        '3'
    } else if d == 4 {
        '4'
    } else if d == 5 {
        '5'
    } else if d == 6 {
        '6'
    } else if d == 7 {
        '7'
    } else if d == 8 {
        '8'
    } else {
        '9'
    }
}

/// The decimal digits of a natural number, most significant first.
pub open spec fn digits(n: nat) -> Seq<char>
    decreases n,
{
    if n < 10 {
        seq![digit(n)]
    } else {
        digits(n / 10).push(digit(n % 10))
    }
}

/// An integer in decimal, with a minus sign below zero.
pub open spec fn decimal(i: int) -> Seq<char> {
    if i < 0 {
        seq!['-'] + digits((-i) as nat)
    } else {
        digits(i as nat)
    }
}

/// Integers in decimal, with a comma and a space between each two.
pub open spec fn listed(index: Seq<i64>) -> Seq<char>
    decreases index.len(),
{
    if index.len() == 0 {
        Seq::empty()
    } else if index.len() == 1 {
        decimal(index[0] as int)
    } else {
        listed(index.drop_last()) + seq![',', ' '] + decimal(index.last() as int)
    }
}

/// A place as text: the name of the register, then the index in brackets.
pub open spec fn place_text(id: (Seq<char>, Seq<i64>)) -> Seq<char> {
    id.0 + seq!['['] + listed(id.1) + seq![']']
}

fn digit_str(d: u64) -> (r: &'static str)
    requires
        d < 10,
    ensures
        r@ == seq![digit(d as nat)],
{
    proof {
        reveal_strlit("0");
        reveal_strlit("1");
        reveal_strlit("2");
        reveal_strlit("3");
        reveal_strlit("4");
        reveal_strlit("5");
        reveal_strlit("6");
        reveal_strlit("7");
        reveal_strlit("8");
        reveal_strlit("9");
    }
    let r = if d == 0 {
        "0"
    } else if d == 1 {
        "1"
    } else if d == 2 {
        "2"
    } else if d == 3 {
        "3"
    } else if d == 4 {
        "4"
    } else if d == 5 {
        "5"
    } else if d == 6 {
        "6"
    } else if d == 7 {
        "7"
    } else if d == 8 {
        "8"
    } else {
        "9"
    };
    assert(r@ =~= seq![digit(d as nat)]);
    r
}

fn push_digits(s: &mut String, n: u64)
    ensures
        final(s)@ == old(s)@ + digits(n as nat),
    decreases n,
{
    if n >= 10 {
        push_digits(s, n / 10);
    }
    s.append(digit_str(n % 10));
    assert(s@ =~= old(s)@ + digits(n as nat));
}

fn push_decimal(s: &mut String, i: i64)
    ensures
        final(s)@ == old(s)@ + decimal(i as int),
{
    if i < 0 {
        proof {
            reveal_strlit("-");
        }
        s.append("-");
        let magnitude: u64 = ((-(i + 1)) as u64) + 1;
        push_digits(s, magnitude);
        assert(s@ =~= old(s)@ + decimal(i as int));
    } else {
        push_digits(s, i as u64);
    }
}

impl ElementId {
    /// The place as text: the name of the register, then the index in
    /// brackets, as in `q[0, 1]`.
    pub fn text(&self) -> (r: String)
        ensures
            r@ == place_text(self.deep_view()),
    {
        proof {
            reveal_strlit("[");
            reveal_strlit("]");
            reveal_strlit(", ");
        }
        let mut s = self.0.clone();
        s.append("[");
        let ghost head = s@;
        let mut i: usize = 0;
        assert(self.1@.take(0) =~= Seq::empty());
        while i < self.1.len()
            invariant
                i <= self.1.len(),
                s@ == head + listed(self.1@.take(i as int)),
            decreases self.1.len() - i,
        {
            let ghost before = s@;
            if i > 0 {
                s.append(", ");
            }
            push_decimal(&mut s, self.1[i]);
            proof {
                let now = self.1@.take(i + 1);
                assert(now.drop_last() =~= self.1@.take(i as int));
                assert(now.last() == self.1@[i as int]);
                if i == 0 {
                    assert(now.len() == 1);
                    assert(listed(self.1@.take(0)) =~= Seq::empty());
                    assert(s@ =~= head + listed(now));
                } else {
                    reveal_strlit(", ");
                    assert(", "@ =~= seq![',', ' ']);
                    assert(s@ =~= head + listed(now));
                }
            }
            i = i + 1;
        }
        assert(self.1@.take(i as int) =~= self.1@);
        s.append("]");
        assert(self.deep_view() == (self.0@, self.1@)) by {
            assert(self.1.deep_view() =~= self.1@);
        }
        assert(s@ =~= place_text(self.deep_view()));
        s
    }
}

impl Qubit {
    /// The qubit as text: its place.
    pub fn text(&self) -> (r: String)
        ensures
            r@ == place_text(self.deep_view()),
    {
        self.id.text()
    }
}

impl Bit {
    /// The bit as text: its place.
    pub fn text(&self) -> (r: String)
        ensures
            r@ == place_text(self.deep_view()),
    {
        self.id.text()
    }
}


} // verus!
