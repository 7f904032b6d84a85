//! The shape of a classical condition.

use vstd::prelude::*;
use crate::circuit_json::{Conditional, ConditionalView, Operation};
use crate::circuit_json::copy::conditional_copied;
use crate::circuit_json::operation::{
    decode_operation, encode_operation, lemma_operation_round_trip, valid_operation,
};
use crate::codec::{
    agrees, Codec, DecodeError, ErrorView, lift, PathStep, put, put_spec, required, required_spec,
};
use crate::json::{Fields, group_field, Json, JsonView, lemma_part_decreases, part};

verus! {

/// The conditional that a document decodes to: an object with the fields
/// `op`, `width` and `value`.
#[verifier::opaque]
pub open spec fn decode_conditional(j: JsonView) -> Result<ConditionalView, ErrorView>
    decreases j, 0int,
{
    if !(j is Object) {
        Err(ErrorView::mismatch())
    } else {
        let op = match part(j, "op"@) {
            None => Err(ErrorView::missing("op")),
            Some(p) => {
                proof {
                    lemma_part_decreases(j, "op"@);
                }
                match lift(decode_operation::<String>(p), PathStep::Field("op")) {
                    Ok(x) => Ok(Box::new(x)),
                    Err(e) => Err(e),
                }
            },
        };
        let width = required_spec::<u32>(j, "width");
        let value = required_spec::<u32>(j, "value");
        if op is Err {
            Err(op->Err_0)
        } else if width is Err {
            Err(width->Err_0)
        } else if value is Err {
            Err(value->Err_0)
        } else {
            Ok(ConditionalView { op: op->Ok_0, width: width->Ok_0, value: value->Ok_0 })
        }
    }
}

/// The document that a conditional encodes to.
#[verifier::opaque]
pub open spec fn encode_conditional(v: ConditionalView) -> JsonView
    decreases v,
{
    let e = Seq::empty();
    let e = e.push(("op"@, encode_operation::<String>(*v.op)));
    let e = put_spec::<u32>(e, "width", v.width);
    let e = put_spec::<u32>(e, "value", v.value);
    JsonView::Object(e)
}

/// What holds of every decoded conditional.
#[verifier::opaque]
pub open spec fn valid_conditional(v: ConditionalView) -> bool
    decreases v,
{
    &&& valid_operation::<String>(*v.op)
}

/// A conditional, encoded and decoded, is itself again.
pub proof fn lemma_conditional_round_trip(v: ConditionalView)
    requires
        valid_conditional(v),
    ensures
        decode_conditional(encode_conditional(v)) == Ok::<ConditionalView, ErrorView>(v),
        encode_conditional(v) is Object,
    decreases v, 0int,
{
    broadcast use group_field;

    reveal(decode_conditional);
    reveal(encode_conditional);
    reveal(valid_conditional);
    reveal_strlit("op");
    reveal_strlit("width");
    reveal_strlit("value");
    assert("op"@.len() == 2 && "op"@[0] == 'o');
    assert("width"@.len() == 5 && "width"@[0] == 'w');
    assert("value"@.len() == 5 && "value"@[0] == 'v');
    lemma_operation_round_trip::<String>(*v.op);
    u32::lemma_round_trip(v.width);
    u32::lemma_round_trip(v.value);
}

impl Conditional {
    /// Decodes a conditional.
    pub fn from_json(j: &Json) -> (r: Result<Conditional, DecodeError>)
        ensures
            agrees(r, decode_conditional(j.deep_view())),
            r matches Ok(v) ==> valid_conditional(v.model()),
        decreases j, 0int,
    {
        proof {
            reveal(decode_conditional);
            reveal(Conditional::model);
            reveal(valid_conditional);
        }
        if !j.is_object() {
            return Err(DecodeError::mismatch());
        }
        let op: Box<Operation> = match j.get("op") {
            None => {
                return Err(DecodeError::missing("op"));
            },
            Some(p) => match Operation::<String>::from_json(p) {
                Ok(v) => Box::new(v),
                Err(e) => {
                    return Err(e.under(PathStep::Field("op")));
                },
            },
        };
        let width: u32 = match required::<u32>(j, "width") {
            Ok(v) => v,
            Err(e) => {
                return Err(e);
            },
        };
        let value: u32 = match required::<u32>(j, "value") {
            Ok(v) => v,
            Err(e) => {
                return Err(e);
            },
        };
        Ok(Conditional { op, width, value })
    }

    /// Encodes a conditional.
    pub fn to_json(&self) -> (j: Json)
        ensures
            j.deep_view() == encode_conditional(self.model()),
        decreases self,
    {
        proof {
            reveal(encode_conditional);
            reveal(Conditional::model);
        }
        let mut fields = Fields::new();
        fields.put("op", self.op.to_json());
        put::<u32>(&mut fields, "width", &self.width);
        put::<u32>(&mut fields, "value", &self.value);
        fields.finish()
    }
}

/// An object with the fields `op`, `width` and `value`.
impl Codec for Conditional {
    open spec fn decode_spec(j: JsonView) -> Result<ConditionalView, ErrorView> {
        decode_conditional(j)
    }

    open spec fn encode_spec(v: ConditionalView) -> JsonView {
        encode_conditional(v)
    }

    open spec fn valid(v: ConditionalView) -> bool {
        valid_conditional(v)
    }

    fn decode(j: &Json) -> (r: Result<Conditional, DecodeError>) {
        let r = Conditional::from_json(j);
        proof {
            if r is Ok {
                lemma_conditional_round_trip(r->Ok_0.model());
            }
        }
        r
    }

    fn encode(&self) -> (j: Json) {
        self.to_json()
    }

    proof fn lemma_round_trip(v: ConditionalView) {
        lemma_conditional_round_trip(v);
    }
}

/// A copy of a condition has the value of what it copies.
pub proof fn lemma_conditional_copied(a: Conditional, b: Conditional)
    requires
        conditional_copied(a, b),
    ensures
        b.model() == a.model(),
{
    reveal(Conditional::model);
}

} // verus!
