//! Classical expressions of the older form, which a box holds.

pub mod shape;

use vstd::prelude::*;
use crate::circuit_json::{
    BitRegister, ClassicalExp, ClassicalExpUnit, ClassicalExpUnitView, lemma_bit_register_is_object,
    lemma_bit_register_needs_name, Register,
};
use crate::circuit_json::classical_exp::shape::{
    decode_classical_exp, encode_classical_exp, lemma_classical_exp_round_trip,
};
use crate::codec::{
    agrees, Codec, collect, DecodeError, ErrorKind, ErrorView, lemma_collect_all_ok,
    lemma_collect_prefix_err, lemma_collect_step, PathStep,
};
use crate::json::{Json, JsonView};

verus! {

/// The argument that a document decodes to. A document is tried as a
/// constant, as a bit, as a register and as an expression, in this order, and
/// is the first of these that it decodes as.
pub open spec fn decode_unit(j: JsonView) -> Result<ClassicalExpUnitView, ErrorView>
    decreases j, 1int,
{
    match u32::decode_spec(j) {
        Ok(x) => Ok(ClassicalExpUnitView::U32(x)),
        Err(_) => match Register::decode_spec(j) {
            Ok(x) => Ok(ClassicalExpUnitView::Register(x)),
            Err(_) => match BitRegister::decode_spec(j) {
                Ok(x) => Ok(ClassicalExpUnitView::BitRegister(x)),
                Err(_) => match decode_classical_exp(j) {
                    Ok(x) => Ok(ClassicalExpUnitView::ClassicalExpUnit(x)),
                    Err(_) => Err(ErrorView::here(ErrorKind::UnrecognizedClassicalShape)),
                },
            },
        },
    }
}

/// The document that an argument encodes to: that of what it holds.
pub open spec fn encode_unit(v: ClassicalExpUnitView) -> JsonView
    decreases v,
{
    match v {
        ClassicalExpUnitView::U32(x) => u32::encode_spec(x),
        ClassicalExpUnitView::Register(x) => Register::encode_spec(x),
        ClassicalExpUnitView::BitRegister(x) => BitRegister::encode_spec(x),
        ClassicalExpUnitView::ClassicalExpUnit(x) => encode_classical_exp(x),
    }
}

/// An argument, encoded and decoded, is itself again.
pub proof fn lemma_unit_round_trip(v: ClassicalExpUnitView)
    ensures
        decode_unit(encode_unit(v)) == Ok::<ClassicalExpUnitView, ErrorView>(v),
        !(encode_unit(v) is Null),
    decreases v, 1int,
{
    match v {
        ClassicalExpUnitView::U32(x) => {
            u32::lemma_round_trip(x);
        },
        ClassicalExpUnitView::Register(x) => {
            Register::lemma_round_trip(x);
        },
        ClassicalExpUnitView::BitRegister(x) => {
            BitRegister::lemma_round_trip(x);
            lemma_bit_register_is_object(x);
        },
        ClassicalExpUnitView::ClassicalExpUnit(x) => {
            lemma_classical_exp_round_trip(x);
            lemma_bit_register_needs_name(encode_classical_exp(x));
        },
    }
}

impl ClassicalExpUnit {
    /// Decodes an argument.
    pub fn from_json(j: &Json) -> (r: Result<ClassicalExpUnit, DecodeError>)
        ensures
            agrees(r, decode_unit(j.deep_view())),
        decreases j, 1int,
    {
        match u32::decode(j) {
            Ok(x) => {
                return Ok(ClassicalExpUnit::U32(x));
            },
            Err(_) => {},
        }
        match Register::decode(j) {
            Ok(x) => {
                return Ok(ClassicalExpUnit::Register(x));
            },
            Err(_) => {},
        }
        match BitRegister::decode(j) {
            Ok(x) => {
                return Ok(ClassicalExpUnit::BitRegister(x));
            },
            Err(_) => {},
        }
        match ClassicalExp::from_json(j) {
            Ok(x) => Ok(ClassicalExpUnit::ClassicalExpUnit(x)),
            Err(_) => Err(DecodeError::here(ErrorKind::UnrecognizedClassicalShape)),
        }
    }

    /// Encodes an argument.
    pub fn to_json(&self) -> (j: Json)
        ensures
            j.deep_view() == encode_unit(self.model()),
        decreases self,
    {
        match self {
            ClassicalExpUnit::U32(x) => x.encode(),
            ClassicalExpUnit::Register(x) => x.encode(),
            ClassicalExpUnit::BitRegister(x) => x.encode(),
            ClassicalExpUnit::ClassicalExpUnit(x) => x.to_json(),
        }
    }
}

/// The mathematical values of a list of arguments.
pub open spec fn unit_models(xs: Seq<ClassicalExpUnit>) -> Seq<ClassicalExpUnitView>
    decreases xs,
{
    Seq::new(
        xs.len(),
        |i: int|
            if 0 <= i < xs.len() {
                xs[i].model()
            } else {
                arbitrary()
            },
    )
}

/// What each item of a list decodes to.
pub open spec fn unit_results(items: Seq<JsonView>) -> Seq<Result<ClassicalExpUnitView, ErrorView>>
    decreases items, 0int,
{
    Seq::new(
        items.len(),
        |i: int|
            if 0 <= i < items.len() {
                decode_unit(items[i])
            } else {
                Err(ErrorView::mismatch())
            },
    )
}

/// The list of arguments that a document decodes to: an array of them.
pub open spec fn decode_units(j: JsonView) -> Result<Seq<ClassicalExpUnitView>, ErrorView>
    decreases j, 0int,
{
    match j {
        JsonView::Array(items) => collect(unit_results(items)),
        _ => Err(ErrorView::mismatch()),
    }
}

/// The documents that the items of a list encode to.
pub open spec fn unit_documents(v: Seq<ClassicalExpUnitView>) -> Seq<JsonView>
    decreases v,
{
    Seq::new(
        v.len(),
        |i: int|
            if 0 <= i < v.len() {
                encode_unit(v[i])
            } else {
                JsonView::Null
            },
    )
}

/// A list of arguments, encoded and decoded, is itself again.
pub proof fn lemma_units_round_trip(v: Seq<ClassicalExpUnitView>)
    ensures
        decode_units(JsonView::Array(unit_documents(v))) == Ok::<Seq<ClassicalExpUnitView>, ErrorView>(
            v,
        ),
    decreases v, 0int,
{
    let rs = unit_results(unit_documents(v));
    assert forall|i: int| 0 <= i < rs.len() implies rs[i] == Ok::<ClassicalExpUnitView, ErrorView>(v[i]) by {
        lemma_unit_round_trip(v[i]);
    }
    lemma_collect_all_ok(rs, v);
}

/// Decodes a list of arguments.
#[verifier::loop_isolation(false)]
pub fn units_from_json(j: &Json) -> (r: Result<Vec<ClassicalExpUnit>, DecodeError>)
    ensures
        match r {
            Ok(xs) => decode_units(j.deep_view()) == Ok::<Seq<ClassicalExpUnitView>, ErrorView>(
                unit_models(xs@),
            ),
            Err(e) => decode_units(j.deep_view()) == Err::<Seq<ClassicalExpUnitView>, ErrorView>(
                e.deep_view(),
            ),
        },
    decreases j, 0int,
{
    match j {
        Json::Array(items) => {
            let ghost all = j.deep_view()->Array_0;
            let ghost rs = unit_results(all);
            let mut xs: Vec<ClassicalExpUnit> = Vec::new();
            let mut i: usize = 0;
            assert(rs.take(0) =~= Seq::empty());
            assert(unit_models(xs@) =~= Seq::empty());
            while i < items.len()
                invariant
                    i <= items.len(),
                    decreases_to!(j => items),
                    xs@.len() == i,
                    collect(rs.take(i as int)) == Ok::<Seq<ClassicalExpUnitView>, ErrorView>(
                        unit_models(xs@),
                    ),
                decreases items.len() - i,
            {
                let ghost before = unit_models(xs@);
                proof {
                    lemma_collect_step(rs, i as int);
                    assert(decreases_to!(items => items[i as int]));
                    assert(all[i as int] == items@[i as int].model());
                }
                match ClassicalExpUnit::from_json(&items[i]) {
                    Ok(v) => {
                        xs.push(v);
                        assert(unit_models(xs@) =~= before.push(v.model()));
                    },
                    Err(e) => {
                        proof {
                            lemma_collect_prefix_err(rs, i + 1);
                        }
                        return Err(e.under(PathStep::Index(i)));
                    },
                }
                i = i + 1;
            }
            assert(rs.take(i as int) =~= rs);
            Ok(xs)
        },
        _ => Err(DecodeError::mismatch()),
    }
}

/// Encodes a list of arguments.
#[verifier::loop_isolation(false)]
pub fn units_to_json(xs: &Vec<ClassicalExpUnit>) -> (j: Json)
    ensures
        j.deep_view() == JsonView::Array(unit_documents(unit_models(xs@))),
    decreases xs,
{
    let mut items: Vec<Json> = Vec::new();
    let mut i: usize = 0;
    while i < xs.len()
        invariant
            i <= xs.len(),
            items.len() == i,
            forall|k: int| 0 <= k < i ==> (#[trigger] items@[k]).model() == encode_unit(
                xs@[k].model(),
            ),
        decreases xs.len() - i,
    {
        proof {
            assert(decreases_to!(xs => xs[i as int]));
        }
        items.push(xs[i].to_json());
        i = i + 1;
    }
    let j = Json::Array(items);
    assert(j.model()->Array_0 =~= unit_documents(unit_models(xs@)));
    j
}

/// A constant, a bit, a register or an expression, told apart by shape.
impl Codec for ClassicalExpUnit {
    open spec fn decode_spec(j: JsonView) -> Result<ClassicalExpUnitView, ErrorView> {
        decode_unit(j)
    }

    open spec fn encode_spec(v: ClassicalExpUnitView) -> JsonView {
        encode_unit(v)
    }

    open spec fn valid(v: ClassicalExpUnitView) -> bool {
        true
    }

    fn decode(j: &Json) -> (r: Result<ClassicalExpUnit, DecodeError>) {
        let r = ClassicalExpUnit::from_json(j);
        proof {
            if r is Ok {
                lemma_unit_round_trip(r->Ok_0.model());
            }
        }
        r
    }

    fn encode(&self) -> (j: Json) {
        self.to_json()
    }

    proof fn lemma_round_trip(v: ClassicalExpUnitView) {
        lemma_unit_round_trip(v);
    }
}

} // verus!
