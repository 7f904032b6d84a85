//! Classical expressions: trees of operations over the bits and registers
//! that an operation is applied to.

pub mod op;
pub mod operator;

use vstd::prelude::*;
use crate::clexpr::operator::{ClOperator, ClOperatorView};
use crate::codec::{
    put, put_spec, required, required_spec, Codec, DecodeError, DeepCopy, ErrorView,
};
use crate::json::{group_field, Fields, Json, JsonView, Number};

verus! {

/// A classical expression with the tables that bind its variables.
#[derive(Clone, Debug, PartialEq)]
#[non_exhaustive]
pub struct ClExpr {
    /// For each bit variable of the expression, its identifier and the
    /// position of the bit among the arguments of the operation.
    pub bit_posn: Vec<(u32, u32)>,
    /// The expression. It names bits and registers by their identifiers in
    /// `bit_posn` and `reg_posn`.
    pub expr: ClOperator,
    /// The registers of the expression, each made of bits of `bit_posn`.
    pub reg_posn: Vec<InputClRegister>,
    /// The bits that receive the result.
    pub output_posn: ClRegisterBits,
}

/// The mathematical value of a [`ClExpr`].
pub struct ClExprView {
    pub bit_posn: Seq<(u32, u32)>,
    pub expr: ClOperatorView,
    pub reg_posn: Seq<InputClRegisterView>,
    pub output_posn: Seq<u32>,
}

impl DeepView for ClExpr {
    type V = ClExprView;

    open spec fn deep_view(&self) -> ClExprView {
        ClExprView {
            bit_posn: self.bit_posn.deep_view(),
            expr: self.expr.deep_view(),
            reg_posn: self.reg_posn.deep_view(),
            output_posn: self.output_posn.deep_view(),
        }
    }
}

/// An object with the fields `bit_posn`, `expr`, `reg_posn` and `output_posn`.
impl Codec for ClExpr {
    #[verifier::opaque]
    open spec fn decode_spec(j: JsonView) -> Result<ClExprView, ErrorView> {
        match required_spec::<Vec<(u32, u32)>>(j, "bit_posn") {
            Err(e) => Err(e),
            Ok(bit_posn) => match required_spec::<ClOperator>(j, "expr") {
                Err(e) => Err(e),
                Ok(expr) => match required_spec::<Vec<InputClRegister>>(j, "reg_posn") {
                    Err(e) => Err(e),
                    Ok(reg_posn) => match required_spec::<ClRegisterBits>(j, "output_posn") {
                        Err(e) => Err(e),
                        Ok(output_posn) => Ok(ClExprView { bit_posn, expr, reg_posn, output_posn }),
                    },
                },
            },
        }
    }

    #[verifier::opaque]
    open spec fn encode_spec(v: ClExprView) -> JsonView {
        let e = Seq::empty();
        let e = put_spec::<Vec<(u32, u32)>>(e, "bit_posn", v.bit_posn);
        let e = put_spec::<ClOperator>(e, "expr", v.expr);
        let e = put_spec::<Vec<InputClRegister>>(e, "reg_posn", v.reg_posn);
        let e = put_spec::<ClRegisterBits>(e, "output_posn", v.output_posn);
        JsonView::Object(e)
    }

    open spec fn valid(v: ClExprView) -> bool {
        true
    }

    fn decode(j: &Json) -> (r: Result<ClExpr, DecodeError>) {
        proof {
            reveal(<ClExpr as Codec>::decode_spec);
        }
        let bit_posn: Vec<(u32, u32)> = match required::<Vec<(u32, u32)>>(j, "bit_posn") {
            Ok(v) => v,
            Err(e) => {
                return Err(e);
            },
        };
        let expr: ClOperator = match required::<ClOperator>(j, "expr") {
            Ok(v) => v,
            Err(e) => {
                return Err(e);
            },
        };
        let reg_posn: Vec<InputClRegister> = match required::<Vec<InputClRegister>>(j, "reg_posn") {
            Ok(v) => v,
            Err(e) => {
                return Err(e);
            },
        };
        let output_posn: ClRegisterBits = match required::<ClRegisterBits>(j, "output_posn") {
            Ok(v) => v,
            Err(e) => {
                return Err(e);
            },
        };
        let r = ClExpr { bit_posn, expr, reg_posn, output_posn };
        proof {
            Self::lemma_round_trip(r.deep_view());
        }
        Ok(r)
    }

    fn encode(&self) -> (j: Json) {
        proof {
            reveal(<ClExpr as Codec>::encode_spec);
        }
        let mut fields = Fields::new();
        put::<Vec<(u32, u32)>>(&mut fields, "bit_posn", &self.bit_posn);
        put::<ClOperator>(&mut fields, "expr", &self.expr);
        put::<Vec<InputClRegister>>(&mut fields, "reg_posn", &self.reg_posn);
        put::<ClRegisterBits>(&mut fields, "output_posn", &self.output_posn);
        fields.finish()
    }

    proof fn lemma_round_trip(v: ClExprView) {
        reveal(<ClExpr as Codec>::decode_spec);
        reveal(<ClExpr as Codec>::encode_spec);
        broadcast use group_field;

        reveal_strlit("bit_posn");
        reveal_strlit("expr");
        reveal_strlit("reg_posn");
        reveal_strlit("output_posn");
        assert("bit_posn"@.len() == 8 && "bit_posn"@[0] == 'b');
        assert("expr"@.len() == 4 && "expr"@[0] == 'e');
        assert("reg_posn"@.len() == 8 && "reg_posn"@[0] == 'r');
        assert("output_posn"@.len() == 11 && "output_posn"@[0] == 'o');
        Vec::<(u32, u32)>::lemma_round_trip(v.bit_posn);
        ClOperator::lemma_round_trip(v.expr);
        Vec::<InputClRegister>::lemma_round_trip(v.reg_posn);
        ClRegisterBits::lemma_round_trip(v.output_posn);
    }
}

impl DeepCopy for ClExpr {
    fn deep_copy(&self) -> (r: ClExpr) {
        ClExpr {
            bit_posn: self.bit_posn.deep_copy(),
            expr: self.expr.deep_copy(),
            reg_posn: self.reg_posn.deep_copy(),
            output_posn: self.output_posn.deep_copy(),
        }
    }
}

/// A register of a classical expression: its identifier and its bits.
#[derive(Clone, Debug, Default, PartialEq)]
pub struct InputClRegister {
    /// The identifier by which the expression names the register.
    pub index: u32,
    /// The bits of the register, least significant first.
    pub bits: ClRegisterBits,
}

/// The mathematical value of an [`InputClRegister`].
pub struct InputClRegisterView {
    pub index: u32,
    pub bits: Seq<u32>,
}

impl DeepView for InputClRegister {
    type V = InputClRegisterView;

    open spec fn deep_view(&self) -> InputClRegisterView {
        InputClRegisterView { index: self.index, bits: self.bits.deep_view() }
    }
}

/// A pair `[index, bits]`, not an object.
impl Codec for InputClRegister {
    open spec fn decode_spec(j: JsonView) -> Result<InputClRegisterView, ErrorView> {
        match <(u32, ClRegisterBits)>::decode_spec(j) {
            Ok(p) => Ok(InputClRegisterView { index: p.0, bits: p.1 }),
            Err(e) => Err(e),
        }
    }

    open spec fn encode_spec(v: InputClRegisterView) -> JsonView {
        <(u32, ClRegisterBits)>::encode_spec((v.index, v.bits))
    }

    open spec fn valid(v: InputClRegisterView) -> bool {
        true
    }

    fn decode(j: &Json) -> (r: Result<InputClRegister, DecodeError>) {
        match <(u32, ClRegisterBits)>::decode(j) {
            Ok(p) => {
                let r = InputClRegister { index: p.0, bits: p.1 };
                proof {
                    Self::lemma_round_trip(r.deep_view());
                }
                Ok(r)
            },
            Err(e) => Err(e),
        }
    }

    fn encode(&self) -> (j: Json) {
        let mut out: Vec<Json> = Vec::new();
        out.push(self.index.encode());
        out.push(self.bits.encode());
        let j = Json::Array(out);
        assert(j.deep_view()->Array_0 =~= seq![
            u32::encode_spec(self.index),
            ClRegisterBits::encode_spec(self.bits.deep_view()),
        ]);
        j
    }

    proof fn lemma_round_trip(v: InputClRegisterView) {
        <(u32, ClRegisterBits)>::lemma_round_trip((v.index, v.bits));
    }
}

impl DeepCopy for InputClRegister {
    fn deep_copy(&self) -> (r: InputClRegister) {
        InputClRegister { index: self.index, bits: self.bits.deep_copy() }
    }
}

/// A register encodes to the array of its identifier and of the array of its
/// bits, and to nothing else.
pub proof fn lemma_input_register_shape(v: InputClRegisterView)
    ensures
        InputClRegister::encode_spec(v) == JsonView::Array(
            seq![
                JsonView::Number(Number::PosInt(v.index as u64)),
                JsonView::Array(
                    Seq::new(
                        v.bits.len(), |i: int| JsonView::Number(Number::PosInt(v.bits[i] as u64)),
                    ),
                ),
            ],
        ),
{
    let bits = Vec::<u32>::encode_spec(v.bits)->Array_0;
    assert(bits =~= Seq::new(
        v.bits.len(),
        |i: int| JsonView::Number(Number::PosInt(v.bits[i] as u64)),
    ));
}

/// Positions of bits that make up a register, least significant first.
#[derive(Clone, Debug, Default, PartialEq)]
pub struct ClRegisterBits(pub Vec<u32>);

impl DeepView for ClRegisterBits {
    type V = Seq<u32>;

    open spec fn deep_view(&self) -> Seq<u32> {
        self.0.deep_view()
    }
}

/// A bare array of integers.
impl Codec for ClRegisterBits {
    open spec fn decode_spec(j: JsonView) -> Result<Seq<u32>, ErrorView> {
        Vec::<u32>::decode_spec(j)
    }

    open spec fn encode_spec(v: Seq<u32>) -> JsonView {
        Vec::<u32>::encode_spec(v)
    }

    open spec fn valid(v: Seq<u32>) -> bool {
        Vec::<u32>::valid(v)
    }

    fn decode(j: &Json) -> (r: Result<ClRegisterBits, DecodeError>) {
        match Vec::<u32>::decode(j) {
            Ok(x) => Ok(ClRegisterBits(x)),
            Err(e) => Err(e),
        }
    }

    fn encode(&self) -> (j: Json) {
        self.0.encode()
    }

    proof fn lemma_round_trip(v: Seq<u32>) {
        Vec::<u32>::lemma_round_trip(v);
    }
}

impl DeepCopy for ClRegisterBits {
    fn deep_copy(&self) -> (r: ClRegisterBits) {
        ClRegisterBits(self.0.deep_copy())
    }
}

impl Default for ClExpr {
    fn default() -> (r: ClExpr)
        ensures
            r.bit_posn@.len() == 0,
            r.expr.op == op::ClOp::INVALID,
            r.expr.args@.len() == 0,
            r.reg_posn@.len() == 0,
            r.output_posn.0@.len() == 0,
    {
        ClExpr {
            bit_posn: Vec::new(),
            expr: ClOperator { op: op::ClOp::INVALID, args: Vec::new() },
            reg_posn: Vec::new(),
            output_posn: ClRegisterBits(Vec::new()),
        }
    }
}

} // verus!
