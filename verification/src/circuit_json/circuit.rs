//! The shape of a circuit.

use vstd::prelude::*;
use crate::circuit_json::{Command, ImplicitPermutation, Register, SerialCircuit, SerialCircuitView};
use crate::circuit_json::commands::{
    command_documents, commands_from_json, commands_to_json, decode_commands, lemma_commands_copied,
    lemma_commands_round_trip, valid_commands,
};
use crate::circuit_json::copy::circuit_copied;
use crate::codec::{
    agrees, Codec, DecodeError, ErrorView, lift, optional, optional_spec, PathStep, put, put_opt,
    put_opt_spec, put_spec, required, required_spec,
};
use crate::json::{Fields, group_field, Json, JsonView, lemma_part_decreases, part};

verus! {

/// The circuit that a document decodes to: an object with the fields
/// `phase`, `commands`, `qubits`, `bits` and `implicit_permutation` and, each of
/// them only where there is a value, the fields `name`, `number_of_ws`,
/// `created_qubits` and `discarded_qubits`.
#[verifier::opaque]
pub open spec fn decode_circuit<P: Codec>(j: JsonView) -> Result<SerialCircuitView<P::V>, ErrorView>
    decreases j, 0int,
{
    if !(j is Object) {
        Err(ErrorView::mismatch())
    } else {
        let name = optional_spec::<String>(j, "name");
        let phase = required_spec::<P>(j, "phase");
        let commands = match part(j, "commands"@) {
            None => Err(ErrorView::missing("commands")),
            Some(p) => {
                proof {
                    lemma_part_decreases(j, "commands"@);
                }
                lift(decode_commands::<P>(p), PathStep::Field("commands"))
            },
        };
        let qubits = required_spec::<Vec<Register>>(j, "qubits");
        let bits = required_spec::<Vec<Register>>(j, "bits");
        let implicit_permutation = required_spec::<Vec<ImplicitPermutation>>(
            j, "implicit_permutation",
        );
        let number_of_ws = optional_spec::<u64>(j, "number_of_ws");
        let created_qubits = optional_spec::<Vec<Register>>(j, "created_qubits");
        let discarded_qubits = optional_spec::<Vec<Register>>(j, "discarded_qubits");
        if name is Err {
            Err(name->Err_0)
        } else if phase is Err {
            Err(phase->Err_0)
        } else if commands is Err {
            Err(commands->Err_0)
        } else if qubits is Err {
            Err(qubits->Err_0)
        } else if bits is Err {
            Err(bits->Err_0)
        } else if implicit_permutation is Err {
            Err(implicit_permutation->Err_0)
        } else if number_of_ws is Err {
            Err(number_of_ws->Err_0)
        } else if created_qubits is Err {
            Err(created_qubits->Err_0)
        } else if discarded_qubits is Err {
            Err(discarded_qubits->Err_0)
        } else {
            Ok(SerialCircuitView {
                name: name->Ok_0,
                phase: phase->Ok_0,
                commands: commands->Ok_0,
                qubits: qubits->Ok_0,
                bits: bits->Ok_0,
                implicit_permutation: implicit_permutation->Ok_0,
                number_of_ws: number_of_ws->Ok_0,
                created_qubits: created_qubits->Ok_0,
                discarded_qubits: discarded_qubits->Ok_0,
            })
        }
    }
}

/// The document that a circuit encodes to.
#[verifier::opaque]
pub open spec fn encode_circuit<P: Codec>(v: SerialCircuitView<P::V>) -> JsonView
    decreases v,
{
    let e = Seq::empty();
    let e = put_opt_spec::<String>(e, "name", v.name);
    let e = put_spec::<P>(e, "phase", v.phase);
    let e = e.push(("commands"@, JsonView::Array(command_documents::<P>(v.commands))));
    let e = put_spec::<Vec<Register>>(e, "qubits", v.qubits);
    let e = put_spec::<Vec<Register>>(e, "bits", v.bits);
    let e = put_spec::<Vec<ImplicitPermutation>>(e, "implicit_permutation", v.implicit_permutation);
    let e = put_opt_spec::<u64>(e, "number_of_ws", v.number_of_ws);
    let e = put_opt_spec::<Vec<Register>>(e, "created_qubits", v.created_qubits);
    let e = put_opt_spec::<Vec<Register>>(e, "discarded_qubits", v.discarded_qubits);
    JsonView::Object(e)
}

/// What holds of every decoded circuit.
#[verifier::opaque]
pub open spec fn valid_circuit<P: Codec>(v: SerialCircuitView<P::V>) -> bool
    decreases v,
{
    &&& P::valid(v.phase)
    &&& valid_commands::<P>(v.commands)
}

/// A circuit, encoded and decoded, is itself again.
pub proof fn lemma_circuit_round_trip<P: Codec>(v: SerialCircuitView<P::V>)
    requires
        valid_circuit::<P>(v),
    ensures
        decode_circuit::<P>(encode_circuit::<P>(v)) == Ok::<SerialCircuitView<P::V>, ErrorView>(v),
        encode_circuit::<P>(v) is Object,
    decreases v, 0int,
{
    broadcast use group_field;

    reveal(decode_circuit);
    reveal(encode_circuit);
    reveal(valid_circuit);
    reveal_strlit("name");
    reveal_strlit("phase");
    reveal_strlit("commands");
    reveal_strlit("qubits");
    reveal_strlit("bits");
    reveal_strlit("implicit_permutation");
    reveal_strlit("number_of_ws");
    reveal_strlit("created_qubits");
    reveal_strlit("discarded_qubits");
    assert("name"@.len() == 4 && "name"@[0] == 'n');
    assert("phase"@.len() == 5 && "phase"@[0] == 'p');
    assert("commands"@.len() == 8 && "commands"@[0] == 'c');
    assert("qubits"@.len() == 6 && "qubits"@[0] == 'q');
    assert("bits"@.len() == 4 && "bits"@[0] == 'b');
    assert("implicit_permutation"@.len() == 20 && "implicit_permutation"@[0] == 'i');
    assert("number_of_ws"@.len() == 12 && "number_of_ws"@[0] == 'n');
    assert("created_qubits"@.len() == 14 && "created_qubits"@[0] == 'c');
    assert("discarded_qubits"@.len() == 16 && "discarded_qubits"@[0] == 'd');
    if v.name is Some {
        String::lemma_round_trip(v.name->Some_0);
    }
    P::lemma_round_trip(v.phase);
    lemma_commands_round_trip::<P>(v.commands);
    Vec::<Register>::lemma_round_trip(v.qubits);
    Vec::<Register>::lemma_round_trip(v.bits);
    Vec::<ImplicitPermutation>::lemma_round_trip(v.implicit_permutation);
    if v.number_of_ws is Some {
        u64::lemma_round_trip(v.number_of_ws->Some_0);
    }
    if v.created_qubits is Some {
        Vec::<Register>::lemma_round_trip(v.created_qubits->Some_0);
    }
    if v.discarded_qubits is Some {
        Vec::<Register>::lemma_round_trip(v.discarded_qubits->Some_0);
    }
}

impl<P: Codec> SerialCircuit<P> {
    /// Decodes a circuit.
    pub fn from_json(j: &Json) -> (r: Result<SerialCircuit<P>, DecodeError>)
        ensures
            agrees(r, decode_circuit::<P>(j.deep_view())),
            r matches Ok(v) ==> valid_circuit::<P>(v.model()),
        decreases j, 0int,
    {
        proof {
            reveal(decode_circuit);
            reveal(SerialCircuit::model);
            reveal(valid_circuit);
        }
        if !j.is_object() {
            return Err(DecodeError::mismatch());
        }
        let name: Option<String> = match optional::<String>(j, "name") {
            Ok(v) => v,
            Err(e) => {
                return Err(e);
            },
        };
        let phase: P = match required::<P>(j, "phase") {
            Ok(v) => v,
            Err(e) => {
                return Err(e);
            },
        };
        let commands: Vec<Command<P>> = match j.get("commands") {
            None => {
                return Err(DecodeError::missing("commands"));
            },
            Some(p) => match commands_from_json::<P>(p) {
                Ok(v) => v,
                Err(e) => {
                    return Err(e.under(PathStep::Field("commands")));
                },
            },
        };
        let qubits: Vec<Register> = match required::<Vec<Register>>(j, "qubits") {
            Ok(v) => v,
            Err(e) => {
                return Err(e);
            },
        };
        let bits: Vec<Register> = match required::<Vec<Register>>(j, "bits") {
            Ok(v) => v,
            Err(e) => {
                return Err(e);
            },
        };
        let implicit_permutation: Vec<ImplicitPermutation> = match required::<Vec<ImplicitPermutation>>(j, "implicit_permutation") {
            Ok(v) => v,
            Err(e) => {
                return Err(e);
            },
        };
        let number_of_ws: Option<u64> = match optional::<u64>(j, "number_of_ws") {
            Ok(v) => v,
            Err(e) => {
                return Err(e);
            },
        };
        let created_qubits: Option<Vec<Register>> = match optional::<Vec<Register>>(
            j, "created_qubits",
        ) {
            Ok(v) => v,
            Err(e) => {
                return Err(e);
            },
        };
        let discarded_qubits: Option<Vec<Register>> = match optional::<Vec<Register>>(
            j, "discarded_qubits",
        ) {
            Ok(v) => v,
            Err(e) => {
                return Err(e);
            },
        };
        Ok(SerialCircuit {
            name,
            phase,
            commands,
            qubits,
            bits,
            implicit_permutation,
            number_of_ws,
            created_qubits,
            discarded_qubits,
        })
    }

    /// Encodes a circuit.
    pub fn to_json(&self) -> (j: Json)
        ensures
            j.deep_view() == encode_circuit::<P>(self.model()),
        decreases self,
    {
        proof {
            reveal(encode_circuit);
            reveal(SerialCircuit::model);
        }
        let mut fields = Fields::new();
        put_opt::<String>(&mut fields, "name", &self.name);
        put::<P>(&mut fields, "phase", &self.phase);
        fields.put("commands", commands_to_json::<P>(&self.commands));
        put::<Vec<Register>>(&mut fields, "qubits", &self.qubits);
        put::<Vec<Register>>(&mut fields, "bits", &self.bits);
        put::<Vec<ImplicitPermutation>>(
            &mut fields, "implicit_permutation", &self.implicit_permutation,
        );
        put_opt::<u64>(&mut fields, "number_of_ws", &self.number_of_ws);
        put_opt::<Vec<Register>>(&mut fields, "created_qubits", &self.created_qubits);
        put_opt::<Vec<Register>>(&mut fields, "discarded_qubits", &self.discarded_qubits);
        fields.finish()
    }
}

/// The object that a document is.
impl<P: Codec> Codec for SerialCircuit<P> {
    open spec fn decode_spec(j: JsonView) -> Result<SerialCircuitView<P::V>, ErrorView> {
        decode_circuit::<P>(j)
    }

    open spec fn encode_spec(v: SerialCircuitView<P::V>) -> JsonView {
        encode_circuit::<P>(v)
    }

    open spec fn valid(v: SerialCircuitView<P::V>) -> bool {
        valid_circuit::<P>(v)
    }

    fn decode(j: &Json) -> (r: Result<SerialCircuit<P>, DecodeError>) {
        let r = SerialCircuit::<P>::from_json(j);
        proof {
            if r is Ok {
                lemma_circuit_round_trip::<P>(r->Ok_0.model());
            }
        }
        r
    }

    fn encode(&self) -> (j: Json) {
        self.to_json()
    }

    proof fn lemma_round_trip(v: SerialCircuitView<P::V>) {
        lemma_circuit_round_trip::<P>(v);
    }
}

/// A copy of a circuit whose parameters are strings has the value of what it
/// copies.
pub proof fn lemma_circuit_copied(a: SerialCircuit<String>, b: SerialCircuit<String>)
    requires
        circuit_copied(a, b),
    ensures
        b.model() == a.model(),
{
    reveal(SerialCircuit::model);
    lemma_commands_copied(a.commands@, b.commands@);
}

} // verus!
