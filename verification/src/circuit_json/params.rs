//! Making circuits, and changing the type of their parameters.

use vstd::prelude::*;
use crate::circuit_json::{Command, Operation, SerialCircuit};
use crate::optype::OpType;

verus! {

impl<P> Default for Operation<P> {
    fn default() -> (r: Operation<P>)
        ensures
            r.op_type == OpType::noop,
            r.n_qb is None,
            r.data is None,
            r.params is None,
            r.op_box is None,
            r.classical_expr is None,
            r.signature is None,
            r.conditional is None,
            r.classical is None,
            r.wasm is None,
    {
        Operation {
            op_type: OpType::noop,
            n_qb: None,
            data: None,
            params: None,
            op_box: None,
            classical_expr: None,
            signature: None,
            conditional: None,
            classical: None,
            wasm: None,
        }
    }
}

impl<P: Default> Default for SerialCircuit<P> {
    fn default() -> (r: SerialCircuit<P>)
        ensures
            r.name is None,
            call_ensures(P::default, (), r.phase),
            r.commands@.len() == 0,
            r.qubits@.len() == 0,
            r.bits@.len() == 0,
            r.implicit_permutation@.len() == 0,
            r.number_of_ws is None,
            r.created_qubits is None,
            r.discarded_qubits is None,
    {
        SerialCircuit {
            name: None,
            phase: P::default(),
            commands: Vec::new(),
            qubits: Vec::new(),
            bits: Vec::new(),
            implicit_permutation: Vec::new(),
            number_of_ws: None,
            created_qubits: None,
            discarded_qubits: None,
        }
    }
}

/// Whether one list is another with a function applied to each item.
pub open spec fn mapped<P, Q, F: Fn(P) -> Q>(f: F, ps: Seq<P>, qs: Seq<Q>) -> bool {
    qs.len() == ps.len() && forall|i: int| 0 <= i < ps.len() ==> call_ensures(
        f, (ps[i],), #[trigger] qs[i],
    )
}

/// Whether a function may be applied to each item of a list.
pub open spec fn mappable<P, Q, F: Fn(P) -> Q>(f: F, ps: Seq<P>) -> bool {
    forall|i: int| 0 <= i < ps.len() ==> call_requires(f, (#[trigger] ps[i],))
}

/// Whether one operation is another with a function applied to each of its
/// parameters, and nothing else changed.
pub open spec fn operation_mapped<P, Q, F: Fn(P) -> Q>(f: F, a: Operation<P>, b: Operation<Q>) -> bool {
    &&& b.op_type == a.op_type
    &&& b.n_qb == a.n_qb
    &&& b.data == a.data
    &&& match a.params {
        Some(ps) => b.params matches Some(qs) && mapped(f, ps@, qs@),
        None => b.params is None,
    }
    &&& b.op_box == a.op_box
    &&& b.classical_expr == a.classical_expr
    &&& b.signature == a.signature
    &&& b.conditional == a.conditional
    &&& b.classical == a.classical
    &&& b.wasm == a.wasm
}

/// Whether a function may be applied to each parameter of an operation.
pub open spec fn operation_mappable<P, Q, F: Fn(P) -> Q>(f: F, a: Operation<P>) -> bool {
    a.params matches Some(ps) ==> mappable(f, ps@)
}

/// Whether one command is another with a function applied to each parameter
/// of its operation, and nothing else changed.
pub open spec fn command_mapped<P, Q, F: Fn(P) -> Q>(f: F, a: Command<P>, b: Command<Q>) -> bool {
    &&& operation_mapped(f, a.op, b.op)
    &&& b.args == a.args
    &&& b.opgroup == a.opgroup
}

/// Whether one circuit is another with a function applied to its phase and to
/// each parameter of each of its operations, and nothing else changed.
pub open spec fn circuit_mapped<P, Q, F: Fn(P) -> Q>(f: F, a: SerialCircuit<P>, b: SerialCircuit<Q>) -> bool {
    &&& b.name == a.name
    &&& call_ensures(f, (a.phase,), b.phase)
    &&& b.commands@.len() == a.commands@.len()
    &&& forall|i: int|
        0 <= i < a.commands@.len() ==> command_mapped(f, a.commands@[i], #[trigger] b.commands@[i])
    &&& b.qubits == a.qubits
    &&& b.bits == a.bits
    &&& b.implicit_permutation == a.implicit_permutation
    &&& b.number_of_ws == a.number_of_ws
    &&& b.created_qubits == a.created_qubits
    &&& b.discarded_qubits == a.discarded_qubits
}

/// Whether a function may be applied to the phase of a circuit and to each
/// parameter of each of its operations.
pub open spec fn circuit_mappable<P, Q, F: Fn(P) -> Q>(f: F, a: SerialCircuit<P>) -> bool {
    &&& call_requires(f, (a.phase,))
    &&& forall|i: int| 0 <= i < a.commands@.len() ==> operation_mappable(
        f, (#[trigger] a.commands@[i]).op,
    )
}

/// Applies a function to each item of a list, first item first.
fn map_each<P, Q, F: Fn(P) -> Q>(ps: Vec<P>, f: &F) -> (qs: Vec<Q>)
    requires
        mappable(*f, ps@),
    ensures
        mapped(*f, ps@, qs@),
{
    let ghost all = ps@;
    let mut qs: Vec<Q> = Vec::new();
    for p in it: ps.into_iter()
        invariant
            it.seq() == all,
            mappable(*f, all),
            qs@.len() == it.index(),
            forall|k: int| 0 <= k < it.index() ==> call_ensures(*f, (all[k],), #[trigger] qs@[k]),
    {
        qs.push(f(p));
    }
    qs
}

fn map_operation<P, Q, F: Fn(P) -> Q>(op: Operation<P>, f: &F) -> (r: Operation<Q>)
    requires
        operation_mappable(*f, op),
    ensures
        operation_mapped(*f, op, r),
{
    let params = match op.params {
        Some(ps) => Some(map_each(ps, f)),
        None => None,
    };
    Operation {
        op_type: op.op_type,
        n_qb: op.n_qb,
        data: op.data,
        params,
        op_box: op.op_box,
        classical_expr: op.classical_expr,
        signature: op.signature,
        conditional: op.conditional,
        classical: op.classical,
        wasm: op.wasm,
    }
}

fn map_command<P, Q, F: Fn(P) -> Q>(c: Command<P>, f: &F) -> (r: Command<Q>)
    requires
        operation_mappable(*f, c.op),
    ensures
        command_mapped(*f, c, r),
{
    Command { op: map_operation(c.op, f), args: c.args, opgroup: c.opgroup }
}

impl<P> Operation<P> {
    /// An operation of a type, with nothing else.
    pub fn from_optype(op_type: OpType) -> (r: Operation<P>)
        ensures
            r.op_type == op_type,
            r.n_qb is None,
            r.data is None,
            r.params is None,
            r.op_box is None,
            r.classical_expr is None,
            r.signature is None,
            r.conditional is None,
            r.classical is None,
            r.wasm is None,
    {
        Operation {
            op_type,
            n_qb: None,
            data: None,
            params: None,
            op_box: None,
            classical_expr: None,
            signature: None,
            conditional: None,
            classical: None,
            wasm: None,
        }
    }

    /// The operation with a function applied to each of its parameters, in
    /// order.
    pub fn map_params<Q>(self, f: impl Fn(P) -> Q) -> (r: Operation<Q>)
        requires
            operation_mappable(f, self),
        ensures
            operation_mapped(f, self, r),
    {
        map_operation(self, &f)
    }
}

impl<P> Command<P> {
    /// The command with a function applied to each parameter of its
    /// operation, in order.
    pub fn map_params<Q>(self, f: impl Fn(P) -> Q) -> (r: Command<Q>)
        requires
            operation_mappable(f, self.op),
        ensures
            command_mapped(f, self, r),
    {
        map_command(self, &f)
    }
}

impl<P> SerialCircuit<P> {
    /// A circuit with a name and a phase, and nothing else.
    pub fn new(name: Option<String>, phase: P) -> (r: SerialCircuit<P>)
        ensures
            r.name == name,
            r.phase == phase,
            r.commands@.len() == 0,
            r.qubits@.len() == 0,
            r.bits@.len() == 0,
            r.implicit_permutation@.len() == 0,
            r.number_of_ws is None,
            r.created_qubits is None,
            r.discarded_qubits is None,
    {
        SerialCircuit {
            name,
            phase,
            commands: Vec::new(),
            qubits: Vec::new(),
            bits: Vec::new(),
            implicit_permutation: Vec::new(),
            number_of_ws: None,
            created_qubits: None,
            discarded_qubits: None,
        }
    }

    /// The circuit with a function applied to its phase and then to each
    /// parameter of each of its operations, in order.
    pub fn map_params<Q>(self, f: impl Fn(P) -> Q) -> (r: SerialCircuit<Q>)
        requires
            circuit_mappable(f, self),
        ensures
            circuit_mapped(f, self, r),
    {
        let ghost all = self.commands@;
        let phase = f(self.phase);
        let mut commands: Vec<Command<Q>> = Vec::new();
        for c in it: self.commands.into_iter()
            invariant
                it.seq() == all,
                forall|i: int| 0 <= i < all.len() ==> operation_mappable(f, (#[trigger] all[i]).op),
                commands@.len() == it.index(),
                forall|k: int| 0 <= k < it.index() ==> command_mapped(
                    f, all[k], #[trigger] commands@[k],
                ),
        {
            commands.push(map_command(c, &f));
        }
        SerialCircuit {
            name: self.name,
            phase,
            commands,
            qubits: self.qubits,
            bits: self.bits,
            implicit_permutation: self.implicit_permutation,
            number_of_ws: self.number_of_ws,
            created_qubits: self.created_qubits,
            discarded_qubits: self.discarded_qubits,
        }
    }
}

} // verus!
