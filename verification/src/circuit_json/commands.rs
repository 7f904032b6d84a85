//! The shape of a list of commands.

use vstd::prelude::*;
use crate::circuit_json::{Command, CommandView};
use crate::circuit_json::command::{
    decode_command, encode_command, lemma_command_copied, lemma_command_round_trip, valid_command,
};
use crate::circuit_json::copy::commands_copied;
use crate::codec::{
    Codec, collect, DecodeError, ErrorView, lemma_collect_all_ok, lemma_collect_prefix_err,
    lemma_collect_step, PathStep,
};
use crate::json::{Json, JsonView};

verus! {

/// The mathematical values of a list of commands.
pub open spec fn command_models<P: Codec>(xs: Seq<Command<P>>) -> Seq<CommandView<P::V>>
    decreases xs,
{
    Seq::new(
        xs.len(),
        |i: int|
            if 0 <= i < xs.len() {
                xs[i].model()
            } else {
                arbitrary()
            },
    )
}

/// What each item of a list decodes to.
pub open spec fn command_results<P: Codec>(items: Seq<JsonView>) -> Seq<Result<CommandView<P::V>, ErrorView>>
    decreases items, 0int,
{
    Seq::new(
        items.len(),
        |i: int|
            if 0 <= i < items.len() {
                decode_command::<P>(items[i])
            } else {
                Err(ErrorView::mismatch())
            },
    )
}

/// The list of commands that a document decodes to: an array of them.
pub open spec fn decode_commands<P: Codec>(j: JsonView) -> Result<Seq<CommandView<P::V>>, ErrorView>
    decreases j, 0int,
{
    match j {
        JsonView::Array(items) => collect(command_results::<P>(items)),
        _ => Err(ErrorView::mismatch()),
    }
}

/// The documents that the items of a list encode to.
pub open spec fn command_documents<P: Codec>(v: Seq<CommandView<P::V>>) -> Seq<JsonView>
    decreases v,
{
    Seq::new(
        v.len(),
        |i: int|
            if 0 <= i < v.len() {
                encode_command::<P>(v[i])
            } else {
                JsonView::Null
            },
    )
}

/// What holds of every decoded list of commands.
pub open spec fn valid_commands<P: Codec>(v: Seq<CommandView<P::V>>) -> bool
    decreases v,
{
    forall|i: int| 0 <= i < v.len() ==> valid_command::<P>(#[trigger] v[i])
}

/// A list of commands, encoded and decoded, is itself again.
pub proof fn lemma_commands_round_trip<P: Codec>(v: Seq<CommandView<P::V>>)
    requires
        valid_commands::<P>(v),
    ensures
        decode_commands::<P>(JsonView::Array(command_documents::<P>(v))) == Ok::<Seq<CommandView<P::V>>, ErrorView>(
            v,
        ),
    decreases v, 0int,
{
    let rs = command_results::<P>(command_documents::<P>(v));
    assert forall|i: int| 0 <= i < rs.len() implies rs[i] == Ok::<CommandView<P::V>, ErrorView>(v[i]) by {
        lemma_command_round_trip::<P>(v[i]);
    }
    lemma_collect_all_ok(rs, v);
}

/// Decodes a list of commands.
#[verifier::loop_isolation(false)]
pub fn commands_from_json<P: Codec>(j: &Json) -> (r: Result<Vec<Command<P>>, DecodeError>)
    ensures
        match r {
            Ok(xs) => decode_commands::<P>(j.deep_view()) == Ok::<Seq<CommandView<P::V>>, ErrorView>(
                command_models::<P>(xs@),
            ) && valid_commands::<P>(command_models::<P>(xs@)),
            Err(e) => decode_commands::<P>(j.deep_view()) == Err::<Seq<CommandView<P::V>>, ErrorView>(
                e.deep_view(),
            ),
        },
    decreases j, 0int,
{
    match j {
        Json::Array(items) => {
            let ghost all = j.deep_view()->Array_0;
            let ghost rs = command_results::<P>(all);
            let mut xs: Vec<Command<P>> = Vec::new();
            let mut i: usize = 0;
            assert(rs.take(0) =~= Seq::empty());
            assert(command_models::<P>(xs@) =~= Seq::empty());
            while i < items.len()
                invariant
                    i <= items.len(),
                    decreases_to!(j => items),
                    xs@.len() == i,
                    collect(rs.take(i as int)) == Ok::<Seq<CommandView<P::V>>, ErrorView>(
                        command_models::<P>(xs@),
                    ),
                    valid_commands::<P>(command_models::<P>(xs@)),
                decreases items.len() - i,
            {
                let ghost before = command_models::<P>(xs@);
                proof {
                    lemma_collect_step(rs, i as int);
                    assert(decreases_to!(items => items[i as int]));
                    assert(all[i as int] == items@[i as int].model());
                }
                match Command::<P>::from_json(&items[i]) {
                    Ok(v) => {
                        xs.push(v);
                        assert(command_models::<P>(xs@) =~= before.push(v.model()));
                    },
                    Err(e) => {
                        proof {
                            lemma_collect_prefix_err(rs, i + 1);
                        }
                        return Err(e.under(PathStep::Index(i)));
                    },
                }
                i = i + 1;
            }
            assert(rs.take(i as int) =~= rs);
            Ok(xs)
        },
        _ => Err(DecodeError::mismatch()),
    }
}

/// Encodes a list of commands.
#[verifier::loop_isolation(false)]
pub fn commands_to_json<P: Codec>(xs: &Vec<Command<P>>) -> (j: Json)
    ensures
        j.deep_view() == JsonView::Array(command_documents::<P>(command_models::<P>(xs@))),
    decreases xs,
{
    let mut items: Vec<Json> = Vec::new();
    let mut i: usize = 0;
    while i < xs.len()
        invariant
            i <= xs.len(),
            items.len() == i,
            forall|k: int| 0 <= k < i ==> (#[trigger] items@[k]).model() == encode_command::<P>(
                xs@[k].model(),
            ),
        decreases xs.len() - i,
    {
        proof {
            assert(decreases_to!(xs => xs[i as int]));
        }
        items.push(xs[i].to_json());
        i = i + 1;
    }
    let j = Json::Array(items);
    assert(j.model()->Array_0 =~= command_documents::<P>(command_models::<P>(xs@)));
    j
}

/// A copy of a list of commands whose parameters are strings has the values
/// of what it copies.
pub proof fn lemma_commands_copied(xs: Seq<Command<String>>, ys: Seq<Command<String>>)
    requires
        commands_copied(xs, ys),
    ensures
        command_models::<String>(ys) == command_models::<String>(xs),
{
    assert forall|i: int| 0 <= i < xs.len() implies ys[i].model() == xs[i].model() by {
        lemma_command_copied(xs[i], ys[i]);
    }
    assert(command_models::<String>(ys) =~= command_models::<String>(xs));
}

} // verus!
