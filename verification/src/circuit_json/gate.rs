//! The shape of a gate that is defined by a circuit.

use vstd::prelude::*;
use crate::circuit_json::{CompositeGate, CompositeGateView, SerialCircuit};
use crate::circuit_json::circuit::{
    decode_circuit, encode_circuit, lemma_circuit_round_trip, valid_circuit,
};
use crate::circuit_json::copy::composite_gate_copied;
use crate::codec::{
    agrees, Codec, DecodeError, ErrorView, lift, PathStep, put, put_spec, required, required_spec,
};
use crate::json::{Fields, group_field, Json, JsonView, lemma_part_decreases, part};

verus! {

/// The composite gate that a document decodes to: an object with the fields
/// `name`, `args` and `definition`.
#[verifier::opaque]
pub open spec fn decode_composite_gate(j: JsonView) -> Result<CompositeGateView, ErrorView>
    decreases j, 0int,
{
    if !(j is Object) {
        Err(ErrorView::mismatch())
    } else {
        let name = required_spec::<String>(j, "name");
        let args = required_spec::<Vec<String>>(j, "args");
        let definition = match part(j, "definition"@) {
            None => Err(ErrorView::missing("definition")),
            Some(p) => {
                proof {
                    lemma_part_decreases(j, "definition"@);
                }
                match lift(decode_circuit::<String>(p), PathStep::Field("definition")) {
                    Ok(x) => Ok(Box::new(x)),
                    Err(e) => Err(e),
                }
            },
        };
        if name is Err {
            Err(name->Err_0)
        } else if args is Err {
            Err(args->Err_0)
        } else if definition is Err {
            Err(definition->Err_0)
        } else {
            Ok(CompositeGateView {
                name: name->Ok_0,
                args: args->Ok_0,
                definition: definition->Ok_0,
            })
        }
    }
}

/// The document that a composite gate encodes to.
#[verifier::opaque]
pub open spec fn encode_composite_gate(v: CompositeGateView) -> JsonView
    decreases v,
{
    let e = Seq::empty();
    let e = put_spec::<String>(e, "name", v.name);
    let e = put_spec::<Vec<String>>(e, "args", v.args);
    let e = e.push(("definition"@, encode_circuit::<String>(*v.definition)));
    JsonView::Object(e)
}

/// What holds of every decoded composite gate.
#[verifier::opaque]
pub open spec fn valid_composite_gate(v: CompositeGateView) -> bool
    decreases v,
{
    &&& valid_circuit::<String>(*v.definition)
}

/// A composite gate, encoded and decoded, is itself again.
pub proof fn lemma_composite_gate_round_trip(v: CompositeGateView)
    requires
        valid_composite_gate(v),
    ensures
        decode_composite_gate(encode_composite_gate(v)) == Ok::<CompositeGateView, ErrorView>(v),
        encode_composite_gate(v) is Object,
    decreases v, 0int,
{
    broadcast use group_field;

    reveal(decode_composite_gate);
    reveal(encode_composite_gate);
    reveal(valid_composite_gate);
    reveal_strlit("name");
    reveal_strlit("args");
    reveal_strlit("definition");
    assert("name"@.len() == 4 && "name"@[0] == 'n');
    assert("args"@.len() == 4 && "args"@[0] == 'a');
    assert("definition"@.len() == 10 && "definition"@[0] == 'd');
    String::lemma_round_trip(v.name);
    Vec::<String>::lemma_round_trip(v.args);
    lemma_circuit_round_trip::<String>(*v.definition);
}

impl CompositeGate {
    /// Decodes a composite gate.
    pub fn from_json(j: &Json) -> (r: Result<CompositeGate, DecodeError>)
        ensures
            agrees(r, decode_composite_gate(j.deep_view())),
            r matches Ok(v) ==> valid_composite_gate(v.model()),
        decreases j, 0int,
    {
        proof {
            reveal(decode_composite_gate);
            reveal(CompositeGate::model);
            reveal(valid_composite_gate);
        }
        if !j.is_object() {
            return Err(DecodeError::mismatch());
        }
        let name: String = match required::<String>(j, "name") {
            Ok(v) => v,
            Err(e) => {
                return Err(e);
            },
        };
        let args: Vec<String> = match required::<Vec<String>>(j, "args") {
            Ok(v) => v,
            Err(e) => {
                return Err(e);
            },
        };
        let definition: Box<SerialCircuit> = match j.get("definition") {
            None => {
                return Err(DecodeError::missing("definition"));
            },
            Some(p) => match SerialCircuit::<String>::from_json(p) {
                Ok(v) => Box::new(v),
                Err(e) => {
                    return Err(e.under(PathStep::Field("definition")));
                },
            },
        };
        Ok(CompositeGate { name, args, definition })
    }

    /// Encodes a composite gate.
    pub fn to_json(&self) -> (j: Json)
        ensures
            j.deep_view() == encode_composite_gate(self.model()),
        decreases self,
    {
        proof {
            reveal(encode_composite_gate);
            reveal(CompositeGate::model);
        }
        let mut fields = Fields::new();
        put::<String>(&mut fields, "name", &self.name);
        put::<Vec<String>>(&mut fields, "args", &self.args);
        fields.put("definition", self.definition.to_json());
        fields.finish()
    }
}

/// An object with the fields `name`, `args` and `definition`.
impl Codec for CompositeGate {
    open spec fn decode_spec(j: JsonView) -> Result<CompositeGateView, ErrorView> {
        decode_composite_gate(j)
    }

    open spec fn encode_spec(v: CompositeGateView) -> JsonView {
        encode_composite_gate(v)
    }

    open spec fn valid(v: CompositeGateView) -> bool {
        valid_composite_gate(v)
    }

    fn decode(j: &Json) -> (r: Result<CompositeGate, DecodeError>) {
        let r = CompositeGate::from_json(j);
        proof {
            if r is Ok {
                lemma_composite_gate_round_trip(r->Ok_0.model());
            }
        }
        r
    }

    fn encode(&self) -> (j: Json) {
        self.to_json()
    }

    proof fn lemma_round_trip(v: CompositeGateView) {
        lemma_composite_gate_round_trip(v);
    }
}

/// A copy of a gate defined by a circuit has the value of what it copies.
pub proof fn lemma_composite_gate_copied(a: CompositeGate, b: CompositeGate)
    requires
        composite_gate_copied(a, b),
    ensures
        b.model() == a.model(),
{
    reveal(CompositeGate::model);
}

} // verus!
