//! The shape of an operation.

use vstd::prelude::*;
use crate::circuit_json::{Classical, Conditional, Operation, OperationView, Wasm};
use crate::circuit_json::classical::{
    decode_classical, encode_classical, lemma_classical_round_trip, valid_classical,
};
use crate::circuit_json::conditional::{
    decode_conditional, encode_conditional, lemma_conditional_round_trip, valid_conditional,
};
use crate::circuit_json::copy::operation_copied;
use crate::clexpr::ClExpr;
use crate::codec::{
    agrees, Codec, DecodeError, ErrorView, lift, optional, optional_spec, PathStep, put, put_opt,
    put_opt_spec, put_spec, required, required_spec,
};
use crate::json::{Fields, group_field, Json, JsonView, lemma_part_decreases, part, push_opt};
use crate::opbox::OpBox;
use crate::opbox::decode::decode_box;
use crate::opbox::encode::{encode_box, valid_box};
use crate::opbox::round_trip::lemma_box_round_trip;
use crate::optype::OpType;

verus! {

/// The operation that a document decodes to: an object with the field
/// `type` and, each of them only where there is a value, the fields `n_qb`,
/// `data`, `params`, `box`, `expr`, `signature`, `conditional`, `classical` and
/// `wasm`.
#[verifier::opaque]
pub open spec fn decode_operation<P: Codec>(j: JsonView) -> Result<OperationView<P::V>, ErrorView>
    decreases j, 0int,
{
    if !(j is Object) {
        Err(ErrorView::mismatch())
    } else {
        let op_type = required_spec::<OpType>(j, "type");
        let n_qb = optional_spec::<u32>(j, "n_qb");
        let data = optional_spec::<String>(j, "data");
        let params = optional_spec::<Vec<P>>(j, "params");
        let op_box = match part(j, "box"@) {
            None => Ok(None),
            Some(JsonView::Null) => Ok(None),
            Some(p) => {
                proof {
                    lemma_part_decreases(j, "box"@);
                }
                match lift(decode_box(p), PathStep::Field("box")) {
                    Ok(x) => Ok(Some(x)),
                    Err(e) => Err(e),
                }
            },
        };
        let classical_expr = optional_spec::<ClExpr>(j, "expr");
        let signature = optional_spec::<Vec<String>>(j, "signature");
        let conditional = match part(j, "conditional"@) {
            None => Ok(None),
            Some(JsonView::Null) => Ok(None),
            Some(p) => {
                proof {
                    lemma_part_decreases(j, "conditional"@);
                }
                match lift(decode_conditional(p), PathStep::Field("conditional")) {
                    Ok(x) => Ok(Some(x)),
                    Err(e) => Err(e),
                }
            },
        };
        let classical = match part(j, "classical"@) {
            None => Ok(None),
            Some(JsonView::Null) => Ok(None),
            Some(p) => {
                proof {
                    lemma_part_decreases(j, "classical"@);
                }
                match lift(decode_classical(p), PathStep::Field("classical")) {
                    Ok(x) => Ok(Some(Box::new(x))),
                    Err(e) => Err(e),
                }
            },
        };
        let wasm = optional_spec::<Box<Wasm>>(j, "wasm");
        if op_type is Err {
            Err(op_type->Err_0)
        } else if n_qb is Err {
            Err(n_qb->Err_0)
        } else if data is Err {
            Err(data->Err_0)
        } else if params is Err {
            Err(params->Err_0)
        } else if op_box is Err {
            Err(op_box->Err_0)
        } else if classical_expr is Err {
            Err(classical_expr->Err_0)
        } else if signature is Err {
            Err(signature->Err_0)
        } else if conditional is Err {
            Err(conditional->Err_0)
        } else if classical is Err {
            Err(classical->Err_0)
        } else if wasm is Err {
            Err(wasm->Err_0)
        } else {
            Ok(OperationView {
                op_type: op_type->Ok_0,
                n_qb: n_qb->Ok_0,
                data: data->Ok_0,
                params: params->Ok_0,
                op_box: op_box->Ok_0,
                classical_expr: classical_expr->Ok_0,
                signature: signature->Ok_0,
                conditional: conditional->Ok_0,
                classical: classical->Ok_0,
                wasm: wasm->Ok_0,
            })
        }
    }
}

/// The document that an operation encodes to.
#[verifier::opaque]
pub open spec fn encode_operation<P: Codec>(v: OperationView<P::V>) -> JsonView
    decreases v,
{
    let e = Seq::empty();
    let e = put_spec::<OpType>(e, "type", v.op_type);
    let e = put_opt_spec::<u32>(e, "n_qb", v.n_qb);
    let e = put_opt_spec::<String>(e, "data", v.data);
    let e = put_opt_spec::<Vec<P>>(e, "params", v.params);
    let e = push_opt(
        e,
        "box"@,
        match v.op_box {
            Some(x) => Some(encode_box(x)),
            None => None,
        },
    );
    let e = put_opt_spec::<ClExpr>(e, "expr", v.classical_expr);
    let e = put_opt_spec::<Vec<String>>(e, "signature", v.signature);
    let e = push_opt(
        e,
        "conditional"@,
        match v.conditional {
            Some(x) => Some(encode_conditional(x)),
            None => None,
        },
    );
    let e = push_opt(
        e,
        "classical"@,
        match v.classical {
            Some(x) => Some(encode_classical(*x)),
            None => None,
        },
    );
    let e = put_opt_spec::<Box<Wasm>>(e, "wasm", v.wasm);
    JsonView::Object(e)
}

/// What holds of every decoded operation.
#[verifier::opaque]
pub open spec fn valid_operation<P: Codec>(v: OperationView<P::V>) -> bool
    decreases v,
{
    &&& (v.params matches Some(x) ==> Vec::<P>::valid(x))
    &&& (v.op_box matches Some(x) ==> valid_box(x))
    &&& (v.conditional matches Some(x) ==> valid_conditional(x))
    &&& (v.classical matches Some(x) ==> valid_classical(*x))
}

/// An operation, encoded and decoded, is itself again.
pub proof fn lemma_operation_round_trip<P: Codec>(v: OperationView<P::V>)
    requires
        valid_operation::<P>(v),
    ensures
        decode_operation::<P>(encode_operation::<P>(v)) == Ok::<OperationView<P::V>, ErrorView>(v),
        encode_operation::<P>(v) is Object,
    decreases v, 0int,
{
    broadcast use group_field;

    reveal(decode_operation);
    reveal(encode_operation);
    reveal(valid_operation);
    reveal_strlit("type");
    reveal_strlit("n_qb");
    reveal_strlit("data");
    reveal_strlit("params");
    reveal_strlit("box");
    reveal_strlit("expr");
    reveal_strlit("signature");
    reveal_strlit("conditional");
    reveal_strlit("classical");
    reveal_strlit("wasm");
    assert("type"@.len() == 4 && "type"@[0] == 't');
    assert("n_qb"@.len() == 4 && "n_qb"@[0] == 'n');
    assert("data"@.len() == 4 && "data"@[0] == 'd');
    assert("params"@.len() == 6 && "params"@[0] == 'p');
    assert("box"@.len() == 3 && "box"@[0] == 'b');
    assert("expr"@.len() == 4 && "expr"@[0] == 'e');
    assert("signature"@.len() == 9 && "signature"@[0] == 's');
    assert("conditional"@.len() == 11 && "conditional"@[0] == 'c');
    assert("classical"@.len() == 9 && "classical"@[0] == 'c');
    assert("wasm"@.len() == 4 && "wasm"@[0] == 'w');
    OpType::lemma_round_trip(v.op_type);
    if v.n_qb is Some {
        u32::lemma_round_trip(v.n_qb->Some_0);
    }
    if v.data is Some {
        String::lemma_round_trip(v.data->Some_0);
    }
    if v.params is Some {
        Vec::<P>::lemma_round_trip(v.params->Some_0);
    }
    if v.op_box is Some {
        lemma_box_round_trip(v.op_box->Some_0);
    }
    if v.classical_expr is Some {
        ClExpr::lemma_round_trip(v.classical_expr->Some_0);
    }
    if v.signature is Some {
        Vec::<String>::lemma_round_trip(v.signature->Some_0);
    }
    if v.conditional is Some {
        lemma_conditional_round_trip(v.conditional->Some_0);
    }
    if v.classical is Some {
        lemma_classical_round_trip(*v.classical->Some_0);
    }
    if v.wasm is Some {
        Box::<Wasm>::lemma_round_trip(v.wasm->Some_0);
    }
}

impl<P: Codec> Operation<P> {
    /// Decodes an operation.
    pub fn from_json(j: &Json) -> (r: Result<Operation<P>, DecodeError>)
        ensures
            agrees(r, decode_operation::<P>(j.deep_view())),
            r matches Ok(v) ==> valid_operation::<P>(v.model()),
        decreases j, 0int,
    {
        proof {
            reveal(decode_operation);
            reveal(Operation::model);
            reveal(valid_operation);
        }
        if !j.is_object() {
            return Err(DecodeError::mismatch());
        }
        let op_type: OpType = match required::<OpType>(j, "type") {
            Ok(v) => v,
            Err(e) => {
                return Err(e);
            },
        };
        let n_qb: Option<u32> = match optional::<u32>(j, "n_qb") {
            Ok(v) => v,
            Err(e) => {
                return Err(e);
            },
        };
        let data: Option<String> = match optional::<String>(j, "data") {
            Ok(v) => v,
            Err(e) => {
                return Err(e);
            },
        };
        let params: Option<Vec<P>> = match optional::<Vec<P>>(j, "params") {
            Ok(v) => v,
            Err(e) => {
                return Err(e);
            },
        };
        let op_box: Option<OpBox> = match j.get("box") {
            None => None,
            Some(Json::Null) => None,
            Some(p) => match OpBox::from_json(p) {
                Ok(v) => Some(v),
                Err(e) => {
                    return Err(e.under(PathStep::Field("box")));
                },
            },
        };
        let classical_expr: Option<ClExpr> = match optional::<ClExpr>(j, "expr") {
            Ok(v) => v,
            Err(e) => {
                return Err(e);
            },
        };
        let signature: Option<Vec<String>> = match optional::<Vec<String>>(j, "signature") {
            Ok(v) => v,
            Err(e) => {
                return Err(e);
            },
        };
        let conditional: Option<Conditional> = match j.get("conditional") {
            None => None,
            Some(Json::Null) => None,
            Some(p) => match Conditional::from_json(p) {
                Ok(v) => Some(v),
                Err(e) => {
                    return Err(e.under(PathStep::Field("conditional")));
                },
            },
        };
        let classical: Option<Box<Classical>> = match j.get("classical") {
            None => None,
            Some(Json::Null) => None,
            Some(p) => match Classical::from_json(p) {
                Ok(v) => Some(Box::new(v)),
                Err(e) => {
                    return Err(e.under(PathStep::Field("classical")));
                },
            },
        };
        let wasm: Option<Box<Wasm>> = match optional::<Box<Wasm>>(j, "wasm") {
            Ok(v) => v,
            Err(e) => {
                return Err(e);
            },
        };
        Ok(Operation {
            op_type,
            n_qb,
            data,
            params,
            op_box,
            classical_expr,
            signature,
            conditional,
            classical,
            wasm,
        })
    }

    /// Encodes an operation.
    pub fn to_json(&self) -> (j: Json)
        ensures
            j.deep_view() == encode_operation::<P>(self.model()),
        decreases self,
    {
        proof {
            reveal(encode_operation);
            reveal(Operation::model);
        }
        let mut fields = Fields::new();
        put::<OpType>(&mut fields, "type", &self.op_type);
        put_opt::<u32>(&mut fields, "n_qb", &self.n_qb);
        put_opt::<String>(&mut fields, "data", &self.data);
        put_opt::<Vec<P>>(&mut fields, "params", &self.params);
        match &self.op_box {
            Some(x) => {
                fields.put_opt("box", Some(x.to_json()));
            },
            None => {
                fields.put_opt("box", None);
            },
        }
        put_opt::<ClExpr>(&mut fields, "expr", &self.classical_expr);
        put_opt::<Vec<String>>(&mut fields, "signature", &self.signature);
        match &self.conditional {
            Some(x) => {
                fields.put_opt("conditional", Some(x.to_json()));
            },
            None => {
                fields.put_opt("conditional", None);
            },
        }
        match &self.classical {
            Some(x) => {
                fields.put_opt("classical", Some(x.to_json()));
            },
            None => {
                fields.put_opt("classical", None);
            },
        }
        put_opt::<Box<Wasm>>(&mut fields, "wasm", &self.wasm);
        fields.finish()
    }
}

/// An object with the field `type` and the fields that the type calls for.
impl<P: Codec> Codec for Operation<P> {
    open spec fn decode_spec(j: JsonView) -> Result<OperationView<P::V>, ErrorView> {
        decode_operation::<P>(j)
    }

    open spec fn encode_spec(v: OperationView<P::V>) -> JsonView {
        encode_operation::<P>(v)
    }

    open spec fn valid(v: OperationView<P::V>) -> bool {
        valid_operation::<P>(v)
    }

    fn decode(j: &Json) -> (r: Result<Operation<P>, DecodeError>) {
        let r = Operation::<P>::from_json(j);
        proof {
            if r is Ok {
                lemma_operation_round_trip::<P>(r->Ok_0.model());
            }
        }
        r
    }

    fn encode(&self) -> (j: Json) {
        self.to_json()
    }

    proof fn lemma_round_trip(v: OperationView<P::V>) {
        lemma_operation_round_trip::<P>(v);
    }
}

/// A copy of an operation whose parameters are strings has the value of what it
/// copies.
pub proof fn lemma_operation_copied(a: Operation<String>, b: Operation<String>)
    requires
        operation_copied(a, b),
    ensures
        b.model() == a.model(),
{
    reveal(Operation::model);
    if a.params is Some {
        assert(b.params->Some_0.deep_view() =~= a.params->Some_0.deep_view());
    }
}

} // verus!
