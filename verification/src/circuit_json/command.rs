//! The shape of a command.

use vstd::prelude::*;
use crate::circuit_json::{Command, CommandView, Operation, Register};
use crate::circuit_json::copy::command_copied;
use crate::circuit_json::operation::{
    decode_operation, encode_operation, lemma_operation_copied, lemma_operation_round_trip,
    valid_operation,
};
use crate::codec::{
    agrees, Codec, DecodeError, ErrorView, lift, optional, optional_spec, PathStep, put, put_opt,
    put_opt_spec, put_spec, required, required_spec,
};
use crate::json::{Fields, group_field, Json, JsonView, lemma_part_decreases, part};

verus! {

/// The command that a document decodes to: an object with the fields `op`
/// and `args` and, where there is one, `opgroup`.
#[verifier::opaque]
pub open spec fn decode_command<P: Codec>(j: JsonView) -> Result<CommandView<P::V>, ErrorView>
    decreases j, 0int,
{
    if !(j is Object) {
        Err(ErrorView::mismatch())
    } else {
        let op = match part(j, "op"@) {
            None => Err(ErrorView::missing("op")),
            Some(p) => {
                proof {
                    lemma_part_decreases(j, "op"@);
                }
                lift(decode_operation::<P>(p), PathStep::Field("op"))
            },
        };
        let args = required_spec::<Vec<Register>>(j, "args");
        let opgroup = optional_spec::<String>(j, "opgroup");
        if op is Err {
            Err(op->Err_0)
        } else if args is Err {
            Err(args->Err_0)
        } else if opgroup is Err {
            Err(opgroup->Err_0)
        } else {
            Ok(CommandView { op: op->Ok_0, args: args->Ok_0, opgroup: opgroup->Ok_0 })
        }
    }
}

/// The document that a command encodes to.
#[verifier::opaque]
pub open spec fn encode_command<P: Codec>(v: CommandView<P::V>) -> JsonView
    decreases v,
{
    let e = Seq::empty();
    let e = e.push(("op"@, encode_operation::<P>(v.op)));
    let e = put_spec::<Vec<Register>>(e, "args", v.args);
    let e = put_opt_spec::<String>(e, "opgroup", v.opgroup);
    JsonView::Object(e)
}

/// What holds of every decoded command.
#[verifier::opaque]
pub open spec fn valid_command<P: Codec>(v: CommandView<P::V>) -> bool
    decreases v,
{
    &&& valid_operation::<P>(v.op)
}

/// A command, encoded and decoded, is itself again.
pub proof fn lemma_command_round_trip<P: Codec>(v: CommandView<P::V>)
    requires
        valid_command::<P>(v),
    ensures
        decode_command::<P>(encode_command::<P>(v)) == Ok::<CommandView<P::V>, ErrorView>(v),
        encode_command::<P>(v) is Object,
    decreases v, 0int,
{
    broadcast use group_field;

    reveal(decode_command);
    reveal(encode_command);
    reveal(valid_command);
    reveal_strlit("op");
    reveal_strlit("args");
    reveal_strlit("opgroup");
    assert("op"@.len() == 2);
    assert("args"@.len() == 4);
    assert("opgroup"@.len() == 7);
    lemma_operation_round_trip::<P>(v.op);
    Vec::<Register>::lemma_round_trip(v.args);
    if v.opgroup is Some {
        String::lemma_round_trip(v.opgroup->Some_0);
    }
}

impl<P: Codec> Command<P> {
    /// Decodes a command.
    pub fn from_json(j: &Json) -> (r: Result<Command<P>, DecodeError>)
        ensures
            agrees(r, decode_command::<P>(j.deep_view())),
            r matches Ok(v) ==> valid_command::<P>(v.model()),
        decreases j, 0int,
    {
        proof {
            reveal(decode_command);
            reveal(Command::model);
            reveal(valid_command);
        }
        if !j.is_object() {
            return Err(DecodeError::mismatch());
        }
        let op: Operation<P> = match j.get("op") {
            None => {
                return Err(DecodeError::missing("op"));
            },
            Some(p) => match Operation::<P>::from_json(p) {
                Ok(v) => v,
                Err(e) => {
                    return Err(e.under(PathStep::Field("op")));
                },
            },
        };
        let args: Vec<Register> = match required::<Vec<Register>>(j, "args") {
            Ok(v) => v,
            Err(e) => {
                return Err(e);
            },
        };
        let opgroup: Option<String> = match optional::<String>(j, "opgroup") {
            Ok(v) => v,
            Err(e) => {
                return Err(e);
            },
        };
        Ok(Command { op, args, opgroup })
    }

    /// Encodes a command.
    pub fn to_json(&self) -> (j: Json)
        ensures
            j.deep_view() == encode_command::<P>(self.model()),
        decreases self,
    {
        proof {
            reveal(encode_command);
            reveal(Command::model);
        }
        let mut fields = Fields::new();
        fields.put("op", self.op.to_json());
        put::<Vec<Register>>(&mut fields, "args", &self.args);
        put_opt::<String>(&mut fields, "opgroup", &self.opgroup);
        fields.finish()
    }
}

/// An object with the fields `op`, `args` and `opgroup`.
impl<P: Codec> Codec for Command<P> {
    open spec fn decode_spec(j: JsonView) -> Result<CommandView<P::V>, ErrorView> {
        decode_command::<P>(j)
    }

    open spec fn encode_spec(v: CommandView<P::V>) -> JsonView {
        encode_command::<P>(v)
    }

    open spec fn valid(v: CommandView<P::V>) -> bool {
        valid_command::<P>(v)
    }

    fn decode(j: &Json) -> (r: Result<Command<P>, DecodeError>) {
        let r = Command::<P>::from_json(j);
        proof {
            if r is Ok {
                lemma_command_round_trip::<P>(r->Ok_0.model());
            }
        }
        r
    }

    fn encode(&self) -> (j: Json) {
        self.to_json()
    }

    proof fn lemma_round_trip(v: CommandView<P::V>) {
        lemma_command_round_trip::<P>(v);
    }
}

/// A copy of a command whose parameters are strings has the value of what it
/// copies.
pub proof fn lemma_command_copied(a: Command<String>, b: Command<String>)
    requires
        command_copied(a, b),
    ensures
        b.model() == a.model(),
{
    reveal(Command::model);
    lemma_operation_copied(a.op, b.op);
}

} // verus!
