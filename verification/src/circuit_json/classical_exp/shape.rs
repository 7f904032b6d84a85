//! The shape of a classical expression of the older form.

use vstd::prelude::*;
use crate::circuit_json::{ClassicalExp, ClassicalExpUnit, ClassicalExpView};
use crate::circuit_json::classical_exp::{
    decode_units, lemma_units_round_trip, unit_documents, units_from_json, units_to_json,
};
use crate::circuit_json::copy::classical_exp_copied;
use crate::codec::{
    agrees, Codec, DecodeError, ErrorView, lift, PathStep, put, put_spec, required, required_spec,
};
use crate::json::{Fields, group_field, Json, JsonView, lemma_part_decreases, part};

verus! {

/// The expression that a document decodes to: an object with the fields `args`
/// and `op`.
#[verifier::opaque]
pub open spec fn decode_classical_exp(j: JsonView) -> Result<ClassicalExpView, ErrorView>
    decreases j, 0int,
{
    if !(j is Object) {
        Err(ErrorView::mismatch())
    } else {
        let args = match part(j, "args"@) {
            None => Err(ErrorView::missing("args")),
            Some(p) => {
                proof {
                    lemma_part_decreases(j, "args"@);
                }
                lift(decode_units(p), PathStep::Field("args"))
            },
        };
        let op = required_spec::<String>(j, "op");
        if args is Err {
            Err(args->Err_0)
        } else if op is Err {
            Err(op->Err_0)
        } else {
            Ok(ClassicalExpView { args: args->Ok_0, op: op->Ok_0 })
        }
    }
}

/// The document that an expression encodes to.
#[verifier::opaque]
pub open spec fn encode_classical_exp(v: ClassicalExpView) -> JsonView
    decreases v,
{
    let e = Seq::empty();
    let e = e.push(("args"@, JsonView::Array(unit_documents(v.args))));
    let e = put_spec::<String>(e, "op", v.op);
    JsonView::Object(e)
}

/// An expression, encoded and decoded, is itself again.
pub proof fn lemma_classical_exp_round_trip(v: ClassicalExpView)
    ensures
        decode_classical_exp(encode_classical_exp(v)) == Ok::<ClassicalExpView, ErrorView>(v),
        encode_classical_exp(v) is Object,
        part(encode_classical_exp(v), "name"@) is None,
    decreases v, 0int,
{
    broadcast use group_field;

    reveal(decode_classical_exp);
    reveal(encode_classical_exp);
    reveal_strlit("args");
    reveal_strlit("op");
    assert("args"@.len() == 4);
    assert("op"@.len() == 2);
    lemma_units_round_trip(v.args);
    String::lemma_round_trip(v.op);
    reveal_strlit("name");
    assert("name"@[0] == 'n' && "args"@[0] == 'a' && "op"@.len() == 2);
}

impl ClassicalExp {
    /// Decodes an expression.
    pub fn from_json(j: &Json) -> (r: Result<ClassicalExp, DecodeError>)
        ensures
            agrees(r, decode_classical_exp(j.deep_view())),
        decreases j, 0int,
    {
        proof {
            reveal(decode_classical_exp);
            reveal(ClassicalExp::model);
        }
        if !j.is_object() {
            return Err(DecodeError::mismatch());
        }
        let args: Vec<ClassicalExpUnit> = match j.get("args") {
            None => {
                return Err(DecodeError::missing("args"));
            },
            Some(p) => match units_from_json(p) {
                Ok(v) => v,
                Err(e) => {
                    return Err(e.under(PathStep::Field("args")));
                },
            },
        };
        let op: String = match required::<String>(j, "op") {
            Ok(v) => v,
            Err(e) => {
                return Err(e);
            },
        };
        Ok(ClassicalExp { args, op })
    }

    /// Encodes an expression.
    pub fn to_json(&self) -> (j: Json)
        ensures
            j.deep_view() == encode_classical_exp(self.model()),
        decreases self,
    {
        proof {
            reveal(encode_classical_exp);
            reveal(ClassicalExp::model);
        }
        let mut fields = Fields::new();
        fields.put("args", units_to_json(&self.args));
        put::<String>(&mut fields, "op", &self.op);
        fields.finish()
    }
}

/// An object with the fields `args` and `op`.
impl Codec for ClassicalExp {
    open spec fn decode_spec(j: JsonView) -> Result<ClassicalExpView, ErrorView> {
        decode_classical_exp(j)
    }

    open spec fn encode_spec(v: ClassicalExpView) -> JsonView {
        encode_classical_exp(v)
    }

    open spec fn valid(v: ClassicalExpView) -> bool {
        true
    }

    fn decode(j: &Json) -> (r: Result<ClassicalExp, DecodeError>) {
        let r = ClassicalExp::from_json(j);
        proof {
            if r is Ok {
                lemma_classical_exp_round_trip(r->Ok_0.model());
            }
        }
        r
    }

    fn encode(&self) -> (j: Json) {
        self.to_json()
    }

    proof fn lemma_round_trip(v: ClassicalExpView) {
        lemma_classical_exp_round_trip(v);
    }
}

/// A copy of an expression has the value of what it copies.
pub proof fn lemma_classical_exp_copied(a: ClassicalExp, b: ClassicalExp)
    requires
        classical_exp_copied(a, b),
    ensures
        b.model() == a.model(),
{
    reveal(ClassicalExp::model);
}

} // verus!
