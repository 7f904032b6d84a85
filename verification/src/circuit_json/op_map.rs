//! Tables from bit patterns to operations.

use vstd::prelude::*;
use crate::circuit_json::{Bitstring, Operation, OperationView};
use crate::circuit_json::operation::{
    decode_operation, encode_operation, lemma_operation_round_trip, valid_operation,
};
use crate::codec::{
    Codec, collect, DecodeError, ErrorKind, ErrorView, lemma_collect_all_ok,
    lemma_collect_prefix_err, lemma_collect_step, lift, PathStep,
};
use crate::json::{Json, JsonView};

verus! {

/// What holds of every decoded pair of a bit pattern and an operation.
pub open spec fn valid_map_entry(v: (Seq<bool>, OperationView<Seq<char>>)) -> bool
    decreases v,
{
    valid_operation::<String>(v.1)
}

/// The pair of a bit pattern and an operation that a document decodes to: an
/// array of exactly the two.
pub open spec fn decode_map_entry(j: JsonView) -> Result<(Seq<bool>, OperationView<Seq<char>>), ErrorView>
    decreases j, 0int,
{
    match j {
        JsonView::Array(items) => if items.len() != 2 {
            Err(ErrorView::here(ErrorKind::InvalidFixedSize))
        } else {
            match lift(Bitstring::decode_spec(items[0]), PathStep::Index(0)) {
                Err(e) => Err(e),
                Ok(b) => match lift(decode_operation::<String>(items[1]), PathStep::Index(1)) {
                    Err(e) => Err(e),
                    Ok(o) => Ok((b, o)),
                },
            }
        },
        _ => Err(ErrorView::mismatch()),
    }
}

/// The document that a pair of a bit pattern and an operation encodes to.
pub open spec fn encode_map_entry(v: (Seq<bool>, OperationView<Seq<char>>)) -> JsonView
    decreases v,
{
    JsonView::Array(seq![Bitstring::encode_spec(v.0), encode_operation::<String>(v.1)])
}

/// A pair of a bit pattern and an operation, encoded and decoded, is itself
/// again.
pub proof fn lemma_map_entry_round_trip(v: (Seq<bool>, OperationView<Seq<char>>))
    requires
        valid_map_entry(v),
    ensures
        decode_map_entry(encode_map_entry(v)) == Ok::<(Seq<bool>, OperationView<Seq<char>>), ErrorView>(
            v,
        ),
        !(encode_map_entry(v) is Null),
    decreases v, 0int,
{
    Bitstring::lemma_round_trip(v.0);
    lemma_operation_round_trip::<String>(v.1);
}

/// Decodes a pair of a bit pattern and an operation.
pub fn map_entry_from_json(j: &Json) -> (r: Result<(Bitstring, Operation), DecodeError>)
    ensures
        match r {
            Ok(x) => decode_map_entry(j.deep_view()) == Ok::<
                (Seq<bool>, OperationView<Seq<char>>),
                ErrorView,
            >((x.0.deep_view(), x.1.model())) && valid_map_entry((x.0.deep_view(), x.1.model())),
            Err(e) => decode_map_entry(j.deep_view()) == Err::<
                (Seq<bool>, OperationView<Seq<char>>),
                ErrorView,
            >(e.deep_view()),
        },
    decreases j, 0int,
{
    match j {
        Json::Array(items) => {
            if items.len() != 2 {
                return Err(DecodeError::here(ErrorKind::InvalidFixedSize));
            }
            proof {
                assert(decreases_to!(items => items[1]));
            }
            let b: Bitstring = match Bitstring::decode(&items[0]) {
                Ok(b) => b,
                Err(e) => {
                    return Err(e.under(PathStep::Index(0)));
                },
            };
            let o: Operation = match Operation::<String>::from_json(&items[1]) {
                Ok(o) => o,
                Err(e) => {
                    return Err(e.under(PathStep::Index(1)));
                },
            };
            Ok((b, o))
        },
        _ => Err(DecodeError::mismatch()),
    }
}

/// Encodes a pair of a bit pattern and an operation.
pub fn map_entry_to_json(x: &(Bitstring, Operation)) -> (j: Json)
    ensures
        j.deep_view() == encode_map_entry((x.0.deep_view(), x.1.model())),
    decreases x,
{
    let mut out: Vec<Json> = Vec::new();
    out.push(x.0.encode());
    out.push(x.1.to_json());
    let j = Json::Array(out);
    assert(j.model()->Array_0 =~= seq![
        Bitstring::encode_spec(x.0.deep_view()),
        encode_operation::<String>(x.1.model()),
    ]);
    j
}

/// The mathematical values of a list of pairs of a bit pattern and an operation.
pub open spec fn map_entry_models(xs: Seq<(Bitstring, Operation)>) -> Seq<(Seq<bool>, OperationView<Seq<char>>)>
    decreases xs,
{
    Seq::new(
        xs.len(),
        |i: int|
            if 0 <= i < xs.len() {
                (xs[i].0.deep_view(), xs[i].1.model())
            } else {
                arbitrary()
            },
    )
}

/// What each item of a list decodes to.
pub open spec fn map_entry_results(items: Seq<JsonView>) -> Seq<Result<(Seq<bool>, OperationView<Seq<char>>), ErrorView>>
    decreases items, 0int,
{
    Seq::new(
        items.len(),
        |i: int|
            if 0 <= i < items.len() {
                decode_map_entry(items[i])
            } else {
                Err(ErrorView::mismatch())
            },
    )
}

/// The list of pairs of a bit pattern and an operation that a document decodes to: an array of them.
pub open spec fn decode_op_map(j: JsonView) -> Result<Seq<(Seq<bool>, OperationView<Seq<char>>)>, ErrorView>
    decreases j, 0int,
{
    match j {
        JsonView::Array(items) => collect(map_entry_results(items)),
        _ => Err(ErrorView::mismatch()),
    }
}

/// The documents that the items of a list encode to.
pub open spec fn map_entry_documents(v: Seq<(Seq<bool>, OperationView<Seq<char>>)>) -> Seq<JsonView>
    decreases v,
{
    Seq::new(
        v.len(),
        |i: int|
            if 0 <= i < v.len() {
                encode_map_entry(v[i])
            } else {
                JsonView::Null
            },
    )
}

/// What holds of every decoded list of pairs of a bit pattern and an operation.
pub open spec fn valid_op_map(v: Seq<(Seq<bool>, OperationView<Seq<char>>)>) -> bool
    decreases v,
{
    forall|i: int| 0 <= i < v.len() ==> valid_map_entry(#[trigger] v[i])
}

/// A list of pairs of a bit pattern and an operation, encoded and decoded, is itself again.
pub proof fn lemma_op_map_round_trip(v: Seq<(Seq<bool>, OperationView<Seq<char>>)>)
    requires
        valid_op_map(v),
    ensures
        decode_op_map(JsonView::Array(map_entry_documents(v))) == Ok::<Seq<(Seq<bool>, OperationView<Seq<char>>)>, ErrorView>(
            v,
        ),
    decreases v, 0int,
{
    let rs = map_entry_results(map_entry_documents(v));
    assert forall|i: int| 0 <= i < rs.len() implies rs[i] == Ok::<(Seq<bool>, OperationView<Seq<char>>), ErrorView>(v[i]) by {
        lemma_map_entry_round_trip(v[i]);
    }
    lemma_collect_all_ok(rs, v);
}

/// Decodes a list of pairs of a bit pattern and an operation.
#[verifier::loop_isolation(false)]
pub fn op_map_from_json(j: &Json) -> (r: Result<Vec<(Bitstring, Operation)>, DecodeError>)
    ensures
        match r {
            Ok(xs) => decode_op_map(j.deep_view()) == Ok::<Seq<(Seq<bool>, OperationView<Seq<char>>)>, ErrorView>(
                map_entry_models(xs@),
            ) && valid_op_map(map_entry_models(xs@)),
            Err(e) => decode_op_map(j.deep_view()) == Err::<Seq<(Seq<bool>, OperationView<Seq<char>>)>, ErrorView>(
                e.deep_view(),
            ),
        },
    decreases j, 0int,
{
    match j {
        Json::Array(items) => {
            let ghost all = j.deep_view()->Array_0;
            let ghost rs = map_entry_results(all);
            let mut xs: Vec<(Bitstring, Operation)> = Vec::new();
            let mut i: usize = 0;
            assert(rs.take(0) =~= Seq::empty());
            assert(map_entry_models(xs@) =~= Seq::empty());
            while i < items.len()
                invariant
                    i <= items.len(),
                    decreases_to!(j => items),
                    xs@.len() == i,
                    collect(rs.take(i as int)) == Ok::<Seq<(Seq<bool>, OperationView<Seq<char>>)>, ErrorView>(
                        map_entry_models(xs@),
                    ),
                    valid_op_map(map_entry_models(xs@)),
                decreases items.len() - i,
            {
                let ghost before = map_entry_models(xs@);
                proof {
                    lemma_collect_step(rs, i as int);
                    assert(decreases_to!(items => items[i as int]));
                    assert(all[i as int] == items@[i as int].model());
                }
                match map_entry_from_json(&items[i]) {
                    Ok(v) => {
                        xs.push(v);
                        assert(map_entry_models(xs@) =~= before.push((v.0.deep_view(), v.1.model())));
                    },
                    Err(e) => {
                        proof {
                            lemma_collect_prefix_err(rs, i + 1);
                        }
                        return Err(e.under(PathStep::Index(i)));
                    },
                }
                i = i + 1;
            }
            assert(rs.take(i as int) =~= rs);
            Ok(xs)
        },
        _ => Err(DecodeError::mismatch()),
    }
}

/// Encodes a list of pairs of a bit pattern and an operation.
#[verifier::loop_isolation(false)]
pub fn op_map_to_json(xs: &Vec<(Bitstring, Operation)>) -> (j: Json)
    ensures
        j.deep_view() == JsonView::Array(map_entry_documents(map_entry_models(xs@))),
    decreases xs,
{
    let mut items: Vec<Json> = Vec::new();
    let mut i: usize = 0;
    while i < xs.len()
        invariant
            i <= xs.len(),
            items.len() == i,
            forall|k: int| 0 <= k < i ==> (#[trigger] items@[k]).model() == encode_map_entry(
                (xs@[k].0.deep_view(), xs@[k].1.model()),
            ),
        decreases xs.len() - i,
    {
        proof {
            assert(decreases_to!(xs => xs[i as int]));
        }
        items.push(map_entry_to_json(&xs[i]));
        i = i + 1;
    }
    let j = Json::Array(items);
    assert(j.model()->Array_0 =~= map_entry_documents(map_entry_models(xs@)));
    j
}

} // verus!
