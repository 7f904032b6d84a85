//! The shapes of classical payloads, which carry no tag.

use vstd::prelude::*;
use crate::circuit_json::{Classical, ClassicalView, Operation};
use crate::circuit_json::copy::classical_copied;
use crate::circuit_json::operation::{
    decode_operation, encode_operation, lemma_operation_round_trip, valid_operation,
};
use crate::codec::{
    agrees, Codec, DecodeError, ErrorKind, ErrorView, lift, PathStep, put, put_spec, required,
    required_spec,
};
use crate::json::{Fields, group_field, Json, JsonView, lemma_part_decreases, part};

verus! {

/// A multi-bit operation: an object with the fields `op` and `n`.
#[verifier::opaque]
pub open spec fn decode_multi_bit(j: JsonView) -> Result<ClassicalView, ErrorView>
    decreases j, 0int,
{
    if !(j is Object) {
        Err(ErrorView::mismatch())
    } else {
        let op = match part(j, "op"@) {
            None => Err(ErrorView::missing("op")),
            Some(p) => {
                proof {
                    lemma_part_decreases(j, "op"@);
                }
                match lift(decode_operation::<String>(p), PathStep::Field("op")) {
                    Ok(x) => Ok(Box::new(x)),
                    Err(e) => Err(e),
                }
            },
        };
        let n = required_spec::<u32>(j, "n");
        if op is Err {
            Err(op->Err_0)
        } else if n is Err {
            Err(n->Err_0)
        } else {
            Ok(ClassicalView::MultiBit { op: op->Ok_0, n: n->Ok_0 })
        }
    }
}

/// A range predicate: an object with the fields `n_i`, `lower` and `upper`.
#[verifier::opaque]
pub open spec fn decode_range_predicate(j: JsonView) -> Result<ClassicalView, ErrorView>
    decreases j, 0int,
{
    if !(j is Object) {
        Err(ErrorView::mismatch())
    } else {
        let n_i = required_spec::<u32>(j, "n_i");
        let lower = required_spec::<u64>(j, "lower");
        let upper = required_spec::<u64>(j, "upper");
        if n_i is Err {
            Err(n_i->Err_0)
        } else if lower is Err {
            Err(lower->Err_0)
        } else if upper is Err {
            Err(upper->Err_0)
        } else {
            Ok(ClassicalView::RangePredicate {
                n_i: n_i->Ok_0,
                lower: lower->Ok_0,
                upper: upper->Ok_0,
            })
        }
    }
}

/// An explicit operation: an object with the fields `n_i` and `name`, and
/// `values`, an array of booleans.
#[verifier::opaque]
pub open spec fn decode_explicit(j: JsonView) -> Result<ClassicalView, ErrorView>
    decreases j, 0int,
{
    if !(j is Object) {
        Err(ErrorView::mismatch())
    } else {
        let n_i = required_spec::<u32>(j, "n_i");
        let name = required_spec::<String>(j, "name");
        let values = required_spec::<Vec<bool>>(j, "values");
        if n_i is Err {
            Err(n_i->Err_0)
        } else if name is Err {
            Err(name->Err_0)
        } else if values is Err {
            Err(values->Err_0)
        } else {
            Ok(ClassicalView::Explicit { n_i: n_i->Ok_0, name: name->Ok_0, values: values->Ok_0 })
        }
    }
}

/// A classical transform: an object with the fields `n_io` and `name`, and
/// `values`, an array of integers.
#[verifier::opaque]
pub open spec fn decode_classical_transform(j: JsonView) -> Result<ClassicalView, ErrorView>
    decreases j, 0int,
{
    if !(j is Object) {
        Err(ErrorView::mismatch())
    } else {
        let n_io = required_spec::<u32>(j, "n_io");
        let name = required_spec::<String>(j, "name");
        let values = required_spec::<Vec<u32>>(j, "values");
        if n_io is Err {
            Err(n_io->Err_0)
        } else if name is Err {
            Err(name->Err_0)
        } else if values is Err {
            Err(values->Err_0)
        } else {
            Ok(ClassicalView::ClassicalTransform {
                n_io: n_io->Ok_0,
                name: name->Ok_0,
                values: values->Ok_0,
            })
        }
    }
}

/// A copy of bits: an object with the field `n_i`.
#[verifier::opaque]
pub open spec fn decode_copy_bits(j: JsonView) -> Result<ClassicalView, ErrorView>
    decreases j, 0int,
{
    if !(j is Object) {
        Err(ErrorView::mismatch())
    } else {
        let n_i = required_spec::<u32>(j, "n_i");
        if n_i is Err {
            Err(n_i->Err_0)
        } else {
            Ok(ClassicalView::CopyBits { n_i: n_i->Ok_0 })
        }
    }
}

/// An assignment to bits: an object with the field `values`, an array of
/// booleans.
#[verifier::opaque]
pub open spec fn decode_set_bits(j: JsonView) -> Result<ClassicalView, ErrorView>
    decreases j, 0int,
{
    if !(j is Object) {
        Err(ErrorView::mismatch())
    } else {
        let values = required_spec::<Vec<bool>>(j, "values");
        if values is Err {
            Err(values->Err_0)
        } else {
            Ok(ClassicalView::SetBits { values: values->Ok_0 })
        }
    }
}

/// The classical payload that a document decodes to. The shapes are tried in a fixed
/// order, and the document is the first of them that it decodes as:
/// 1. `MultiBit`, which asks for `op`, `n`;
/// 2. `RangePredicate`, which asks for `n_i`, `lower`, `upper`;
/// 3. `Explicit`, which asks for `n_i`, `name`, `values`;
/// 4. `ClassicalTransform`, which asks for `n_io`, `name`, `values`;
/// 5. `CopyBits`, which asks for `n_i`;
/// 6. `SetBits`, which asks for `values`.
/// Shapes that ask for less come after those that ask for more of the same
/// fields, so that no richer payload is taken for a poorer one.
#[verifier::opaque]
pub open spec fn decode_classical(j: JsonView) -> Result<ClassicalView, ErrorView>
    decreases j, 1int,
{
    match decode_multi_bit(j) {
        Ok(v) => Ok(v),
        Err(_) => match decode_range_predicate(j) {
            Ok(v) => Ok(v),
            Err(_) => match decode_explicit(j) {
                Ok(v) => Ok(v),
                Err(_) => match decode_classical_transform(j) {
                    Ok(v) => Ok(v),
                    Err(_) => match decode_copy_bits(j) {
                        Ok(v) => Ok(v),
                        Err(_) => match decode_set_bits(j) {
                            Ok(v) => Ok(v),
                            Err(_) => Err(ErrorView::here(ErrorKind::UnrecognizedClassicalShape)),
                        },
                    },
                },
            },
        },
    }
}

/// The document that a classical payload encodes to.
#[verifier::opaque]
pub open spec fn encode_classical(v: ClassicalView) -> JsonView
    decreases v,
{
    let e = Seq::empty();
    match v {
        ClassicalView::MultiBit { op, n } => {
            let e = e.push(("op"@, encode_operation::<String>(*op)));
            let e = put_spec::<u32>(e, "n", n);
            JsonView::Object(e)
        },
        ClassicalView::RangePredicate { n_i, lower, upper } => {
            let e = put_spec::<u32>(e, "n_i", n_i);
            let e = put_spec::<u64>(e, "lower", lower);
            let e = put_spec::<u64>(e, "upper", upper);
            JsonView::Object(e)
        },
        ClassicalView::Explicit { n_i, name, values } => {
            let e = put_spec::<u32>(e, "n_i", n_i);
            let e = put_spec::<String>(e, "name", name);
            let e = put_spec::<Vec<bool>>(e, "values", values);
            JsonView::Object(e)
        },
        ClassicalView::ClassicalTransform { n_io, name, values } => {
            let e = put_spec::<u32>(e, "n_io", n_io);
            let e = put_spec::<String>(e, "name", name);
            let e = put_spec::<Vec<u32>>(e, "values", values);
            JsonView::Object(e)
        },
        ClassicalView::CopyBits { n_i } => {
            let e = put_spec::<u32>(e, "n_i", n_i);
            JsonView::Object(e)
        },
        ClassicalView::SetBits { values } => {
            let e = put_spec::<Vec<bool>>(e, "values", values);
            JsonView::Object(e)
        },
    }
}

/// What holds of every decoded classical payload.
#[verifier::opaque]
pub open spec fn valid_classical(v: ClassicalView) -> bool
    decreases v,
{
    match v {
        ClassicalView::MultiBit { op, .. } => {
            &&& valid_operation::<String>(*op)
        },
        ClassicalView::RangePredicate { .. } => true,
        ClassicalView::Explicit { .. } => true,
        ClassicalView::ClassicalTransform { .. } => true,
        ClassicalView::CopyBits { .. } => true,
        ClassicalView::SetBits { .. } => true,
    }
}

/// A classical payload is decoded as the first shape, in the fixed order, that it
/// decodes as, and is refused where it decodes as none.
pub proof fn lemma_classical_first_match(j: JsonView)
    ensures
        decode_multi_bit(j) is Ok ==> decode_classical(j) == decode_multi_bit(j),
        decode_multi_bit(j) is Err
            && decode_range_predicate(j) is Ok
            ==> decode_classical(j) == decode_range_predicate(j),
        decode_multi_bit(j) is Err
            && decode_range_predicate(j) is Err
            && decode_explicit(j) is Ok
            ==> decode_classical(j) == decode_explicit(j),
        decode_multi_bit(j) is Err
            && decode_range_predicate(j) is Err
            && decode_explicit(j) is Err
            && decode_classical_transform(j) is Ok
            ==> decode_classical(j) == decode_classical_transform(j),
        decode_multi_bit(j) is Err
            && decode_range_predicate(j) is Err
            && decode_explicit(j) is Err
            && decode_classical_transform(j) is Err
            && decode_copy_bits(j) is Ok
            ==> decode_classical(j) == decode_copy_bits(j),
        decode_multi_bit(j) is Err
            && decode_range_predicate(j) is Err
            && decode_explicit(j) is Err
            && decode_classical_transform(j) is Err
            && decode_copy_bits(j) is Err
            && decode_set_bits(j) is Ok
            ==> decode_classical(j) == decode_set_bits(j),
        decode_multi_bit(j) is Err
            && decode_range_predicate(j) is Err
            && decode_explicit(j) is Err
            && decode_classical_transform(j) is Err
            && decode_copy_bits(j) is Err
            && decode_set_bits(j) is Err
            ==> decode_classical(j) == Err::<ClassicalView, ErrorView>(
            ErrorView::here(ErrorKind::UnrecognizedClassicalShape),
        ),
{
    reveal(decode_classical);
    reveal(decode_multi_bit);
    reveal(decode_range_predicate);
    reveal(decode_explicit);
    reveal(decode_classical_transform);
    reveal(decode_copy_bits);
    reveal(decode_set_bits);
}

/// An object that has `n_i`, and none of `op`, `lower` and `name`, is a copy
/// of bits.
pub proof fn lemma_copy_bits_shape(j: JsonView, n_i: u32)
    requires
        required_spec::<u32>(j, "n_i") == Ok::<u32, ErrorView>(n_i),
        part(j, "op"@) is None,
        part(j, "lower"@) is None,
        part(j, "name"@) is None,
    ensures
        decode_classical(j) == Ok::<ClassicalView, ErrorView>(ClassicalView::CopyBits { n_i }),
{
    reveal(decode_classical);
    reveal(decode_multi_bit);
    reveal(decode_range_predicate);
    reveal(decode_explicit);
    reveal(decode_classical_transform);
    reveal(decode_copy_bits);
}

/// An object that has `values`, an array of booleans, and none of `op`, `n_i`
/// and `n_io`, is an assignment to bits.
pub proof fn lemma_set_bits_shape(j: JsonView, values: Seq<bool>)
    requires
        required_spec::<Vec<bool>>(j, "values") == Ok::<Seq<bool>, ErrorView>(values),
        part(j, "op"@) is None,
        part(j, "n_i"@) is None,
        part(j, "n_io"@) is None,
    ensures
        decode_classical(j) == Ok::<ClassicalView, ErrorView>(ClassicalView::SetBits { values }),
{
    reveal(decode_classical);
    reveal(decode_multi_bit);
    reveal(decode_range_predicate);
    reveal(decode_explicit);
    reveal(decode_classical_transform);
    reveal(decode_copy_bits);
    reveal(decode_set_bits);
}

/// An object that has `n_i`, `name` and `values`, an array of booleans, and
/// neither `op` nor `lower`, is an explicit operation.
pub proof fn lemma_explicit_shape(j: JsonView, n_i: u32, name: Seq<char>, values: Seq<bool>)
    requires
        required_spec::<u32>(j, "n_i") == Ok::<u32, ErrorView>(n_i),
        required_spec::<String>(j, "name") == Ok::<Seq<char>, ErrorView>(name),
        required_spec::<Vec<bool>>(j, "values") == Ok::<Seq<bool>, ErrorView>(values),
        part(j, "op"@) is None,
        part(j, "lower"@) is None,
    ensures
        decode_classical(j) == Ok::<ClassicalView, ErrorView>(
            ClassicalView::Explicit { n_i, name, values },
        ),
{
    reveal(decode_classical);
    reveal(decode_multi_bit);
    reveal(decode_range_predicate);
    reveal(decode_explicit);
}

/// A classical payload, encoded and decoded, is itself again.
pub proof fn lemma_classical_round_trip(v: ClassicalView)
    requires
        valid_classical(v),
    ensures
        decode_classical(encode_classical(v)) == Ok::<ClassicalView, ErrorView>(v),
        encode_classical(v) is Object,
    decreases v, 1int,
{
    broadcast use group_field;

    reveal(decode_classical);
    reveal(encode_classical);
    reveal(valid_classical);
    reveal(decode_multi_bit);
    reveal(decode_range_predicate);
    reveal(decode_explicit);
    reveal(decode_classical_transform);
    reveal(decode_copy_bits);
    reveal(decode_set_bits);
    reveal_strlit("op");
    reveal_strlit("n");
    reveal_strlit("n_i");
    reveal_strlit("lower");
    reveal_strlit("upper");
    reveal_strlit("name");
    reveal_strlit("values");
    reveal_strlit("n_io");
    assert("op"@.len() == 2 && "op"@[1] == 'p');
    assert("n"@.len() == 1);
    assert("n_i"@.len() == 3 && "n_i"@[1] == '_');
    assert("lower"@.len() == 5 && "lower"@[1] == 'o');
    assert("upper"@.len() == 5 && "upper"@[1] == 'p');
    assert("name"@.len() == 4 && "name"@[1] == 'a');
    assert("values"@.len() == 6 && "values"@[1] == 'a');
    assert("n_io"@.len() == 4 && "n_io"@[1] == '_');
    match v {
        ClassicalView::MultiBit { op, n } => {
            lemma_operation_round_trip::<String>(*op);
            u32::lemma_round_trip(n);
        },
        ClassicalView::RangePredicate { n_i, lower, upper } => {
            u32::lemma_round_trip(n_i);
            u64::lemma_round_trip(lower);
            u64::lemma_round_trip(upper);
        },
        ClassicalView::Explicit { n_i, name, values } => {
            u32::lemma_round_trip(n_i);
            String::lemma_round_trip(name);
            Vec::<bool>::lemma_round_trip(values);
        },
        ClassicalView::ClassicalTransform { n_io, name, values } => {
            u32::lemma_round_trip(n_io);
            String::lemma_round_trip(name);
            Vec::<u32>::lemma_round_trip(values);
        },
        ClassicalView::CopyBits { n_i } => {
            u32::lemma_round_trip(n_i);
        },
        ClassicalView::SetBits { values } => {
            Vec::<bool>::lemma_round_trip(values);
        },
    }
}

/// Decodes a document as `Classical::MultiBit`.
pub fn multi_bit_from_json(j: &Json) -> (r: Result<Classical, DecodeError>)
    ensures
        agrees(r, decode_multi_bit(j.deep_view())),
        r matches Ok(v) ==> valid_classical(v.model()),
    decreases j, 0int,
{
    proof {
        reveal(decode_multi_bit);
        reveal(Classical::model);
        reveal(valid_classical);
    }
    if !j.is_object() {
        return Err(DecodeError::mismatch());
    }
    let op: Box<Operation> = match j.get("op") {
        None => {
            return Err(DecodeError::missing("op"));
        },
        Some(p) => match Operation::<String>::from_json(p) {
            Ok(v) => Box::new(v),
            Err(e) => {
                return Err(e.under(PathStep::Field("op")));
            },
        },
    };
    let n: u32 = match required::<u32>(j, "n") {
        Ok(v) => v,
        Err(e) => {
            return Err(e);
        },
    };
    Ok(Classical::MultiBit { op, n })
}

/// Decodes a document as `Classical::RangePredicate`.
pub fn range_predicate_from_json(j: &Json) -> (r: Result<Classical, DecodeError>)
    ensures
        agrees(r, decode_range_predicate(j.deep_view())),
        r matches Ok(v) ==> valid_classical(v.model()),
    decreases j, 0int,
{
    proof {
        reveal(decode_range_predicate);
        reveal(Classical::model);
        reveal(valid_classical);
    }
    if !j.is_object() {
        return Err(DecodeError::mismatch());
    }
    let n_i: u32 = match required::<u32>(j, "n_i") {
        Ok(v) => v,
        Err(e) => {
            return Err(e);
        },
    };
    let lower: u64 = match required::<u64>(j, "lower") {
        Ok(v) => v,
        Err(e) => {
            return Err(e);
        },
    };
    let upper: u64 = match required::<u64>(j, "upper") {
        Ok(v) => v,
        Err(e) => {
            return Err(e);
        },
    };
    Ok(Classical::RangePredicate { n_i, lower, upper })
}

/// Decodes a document as `Classical::Explicit`.
pub fn explicit_from_json(j: &Json) -> (r: Result<Classical, DecodeError>)
    ensures
        agrees(r, decode_explicit(j.deep_view())),
        r matches Ok(v) ==> valid_classical(v.model()),
    decreases j, 0int,
{
    proof {
        reveal(decode_explicit);
        reveal(Classical::model);
        reveal(valid_classical);
    }
    if !j.is_object() {
        return Err(DecodeError::mismatch());
    }
    let n_i: u32 = match required::<u32>(j, "n_i") {
        Ok(v) => v,
        Err(e) => {
            return Err(e);
        },
    };
    let name: String = match required::<String>(j, "name") {
        Ok(v) => v,
        Err(e) => {
            return Err(e);
        },
    };
    let values: Vec<bool> = match required::<Vec<bool>>(j, "values") {
        Ok(v) => v,
        Err(e) => {
            return Err(e);
        },
    };
    Ok(Classical::Explicit { n_i, name, values })
}

/// Decodes a document as `Classical::ClassicalTransform`.
pub fn classical_transform_from_json(j: &Json) -> (r: Result<Classical, DecodeError>)
    ensures
        agrees(r, decode_classical_transform(j.deep_view())),
        r matches Ok(v) ==> valid_classical(v.model()),
    decreases j, 0int,
{
    proof {
        reveal(decode_classical_transform);
        reveal(Classical::model);
        reveal(valid_classical);
    }
    if !j.is_object() {
        return Err(DecodeError::mismatch());
    }
    let n_io: u32 = match required::<u32>(j, "n_io") {
        Ok(v) => v,
        Err(e) => {
            return Err(e);
        },
    };
    let name: String = match required::<String>(j, "name") {
        Ok(v) => v,
        Err(e) => {
            return Err(e);
        },
    };
    let values: Vec<u32> = match required::<Vec<u32>>(j, "values") {
        Ok(v) => v,
        Err(e) => {
            return Err(e);
        },
    };
    Ok(Classical::ClassicalTransform { n_io, name, values })
}

/// Decodes a document as `Classical::CopyBits`.
pub fn copy_bits_from_json(j: &Json) -> (r: Result<Classical, DecodeError>)
    ensures
        agrees(r, decode_copy_bits(j.deep_view())),
        r matches Ok(v) ==> valid_classical(v.model()),
    decreases j, 0int,
{
    proof {
        reveal(decode_copy_bits);
        reveal(Classical::model);
        reveal(valid_classical);
    }
    if !j.is_object() {
        return Err(DecodeError::mismatch());
    }
    let n_i: u32 = match required::<u32>(j, "n_i") {
        Ok(v) => v,
        Err(e) => {
            return Err(e);
        },
    };
    Ok(Classical::CopyBits { n_i })
}

/// Decodes a document as `Classical::SetBits`.
pub fn set_bits_from_json(j: &Json) -> (r: Result<Classical, DecodeError>)
    ensures
        agrees(r, decode_set_bits(j.deep_view())),
        r matches Ok(v) ==> valid_classical(v.model()),
    decreases j, 0int,
{
    proof {
        reveal(decode_set_bits);
        reveal(Classical::model);
        reveal(valid_classical);
    }
    if !j.is_object() {
        return Err(DecodeError::mismatch());
    }
    let values: Vec<bool> = match required::<Vec<bool>>(j, "values") {
        Ok(v) => v,
        Err(e) => {
            return Err(e);
        },
    };
    Ok(Classical::SetBits { values })
}

impl Classical {
    /// Decodes the value, trying the shapes in their order.
    pub fn from_json(j: &Json) -> (r: Result<Classical, DecodeError>)
        ensures
            agrees(r, decode_classical(j.deep_view())),
            r matches Ok(v) ==> valid_classical(v.model()),
        decreases j, 1int,
    {
        proof {
            reveal(decode_classical);
            reveal(decode_multi_bit);
            reveal(decode_range_predicate);
            reveal(decode_explicit);
            reveal(decode_classical_transform);
            reveal(decode_copy_bits);
            reveal(decode_set_bits);
        }
        match multi_bit_from_json(j) {
            Ok(v) => {
                return Ok(v);
            },
            Err(_) => {},
        }
        match range_predicate_from_json(j) {
            Ok(v) => {
                return Ok(v);
            },
            Err(_) => {},
        }
        match explicit_from_json(j) {
            Ok(v) => {
                return Ok(v);
            },
            Err(_) => {},
        }
        match classical_transform_from_json(j) {
            Ok(v) => {
                return Ok(v);
            },
            Err(_) => {},
        }
        match copy_bits_from_json(j) {
            Ok(v) => {
                return Ok(v);
            },
            Err(_) => {},
        }
        match set_bits_from_json(j) {
            Ok(v) => {
                return Ok(v);
            },
            Err(_) => {},
        }
        Err(DecodeError::here(ErrorKind::UnrecognizedClassicalShape))
    }

    /// Encodes the value.
    pub fn to_json(&self) -> (j: Json)
        ensures
            j.deep_view() == encode_classical(self.model()),
        decreases self,
    {
        proof {
            reveal(encode_classical);
            reveal(Classical::model);
        }
        let mut fields = Fields::new();
        match self {
            Classical::MultiBit { op, n } => {
                fields.put("op", op.to_json());
                put::<u32>(&mut fields, "n", n);
            },
            Classical::RangePredicate { n_i, lower, upper } => {
                put::<u32>(&mut fields, "n_i", n_i);
                put::<u64>(&mut fields, "lower", lower);
                put::<u64>(&mut fields, "upper", upper);
            },
            Classical::Explicit { n_i, name, values } => {
                put::<u32>(&mut fields, "n_i", n_i);
                put::<String>(&mut fields, "name", name);
                put::<Vec<bool>>(&mut fields, "values", values);
            },
            Classical::ClassicalTransform { n_io, name, values } => {
                put::<u32>(&mut fields, "n_io", n_io);
                put::<String>(&mut fields, "name", name);
                put::<Vec<u32>>(&mut fields, "values", values);
            },
            Classical::CopyBits { n_i } => {
                put::<u32>(&mut fields, "n_i", n_i);
            },
            Classical::SetBits { values } => {
                put::<Vec<bool>>(&mut fields, "values", values);
            },
        }
        fields.finish()
    }
}

/// An object without a tag, told apart by its fields.
impl Codec for Classical {
    open spec fn decode_spec(j: JsonView) -> Result<ClassicalView, ErrorView> {
        decode_classical(j)
    }

    open spec fn encode_spec(v: ClassicalView) -> JsonView {
        encode_classical(v)
    }

    open spec fn valid(v: ClassicalView) -> bool {
        valid_classical(v)
    }

    fn decode(j: &Json) -> (r: Result<Classical, DecodeError>) {
        let r = Classical::from_json(j);
        proof {
            if r is Ok {
                lemma_classical_round_trip(r->Ok_0.model());
            }
        }
        r
    }

    fn encode(&self) -> (j: Json) {
        self.to_json()
    }

    proof fn lemma_round_trip(v: ClassicalView) {
        lemma_classical_round_trip(v);
    }
}

/// A copy of a classical payload has the value of what it copies.
pub proof fn lemma_classical_copied(a: Classical, b: Classical)
    requires
        classical_copied(a, b),
    ensures
        b.model() == a.model(),
{
    reveal(Classical::model);
}

} // verus!
