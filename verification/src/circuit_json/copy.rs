//! Copies of operations, boxes and circuits.

use vstd::pervasive::cloned;
use vstd::prelude::*;
use crate::circuit_json::{
    Bitstring, Classical, ClassicalExp, ClassicalExpUnit, Command, CompositeGate, Conditional,
    Operation, SerialCircuit,
};
use crate::circuit_json::circuit::lemma_circuit_copied;
use crate::circuit_json::classical::lemma_classical_copied;
use crate::circuit_json::classical_exp::unit_models;
use crate::circuit_json::classical_exp::shape::lemma_classical_exp_copied;
use crate::circuit_json::conditional::lemma_conditional_copied;
use crate::circuit_json::gate::lemma_composite_gate_copied;
use crate::circuit_json::op_map::map_entry_models;
use crate::circuit_json::operation::lemma_operation_copied;
use crate::codec::DeepCopy;
use crate::opbox::OpBox;
use crate::opbox::encode::lemma_box_copied;

verus! {

/// Whether one list is a copy of another, item by item.
pub open spec fn clones<P: Clone>(ps: Seq<P>, qs: Seq<P>) -> bool {
    qs.len() == ps.len() && forall|i: int| 0 <= i < ps.len() ==> cloned(ps[i], #[trigger] qs[i])
}

/// Whether one list of commands is a copy of another, command by command.
pub open spec fn commands_copied<P: Clone>(xs: Seq<Command<P>>, ys: Seq<Command<P>>) -> bool {
    ys.len() == xs.len() && forall|i: int|
        0 <= i < xs.len() ==> command_copied(xs[i], #[trigger] ys[i])
}

/// Whether one expression is a copy of another: whether each part of it is a
/// copy of the same part of the other.
pub open spec fn classical_exp_copied(a: ClassicalExp, b: ClassicalExp) -> bool {
    &&& unit_models(b.args@) == unit_models(a.args@)
    &&& b.op.deep_view() == a.op.deep_view()
}

/// Whether one gate defined by a circuit is a copy of another: whether each
/// part of it is a copy of the same part of the other.
pub open spec fn composite_gate_copied(a: CompositeGate, b: CompositeGate) -> bool {
    &&& b.name.deep_view() == a.name.deep_view()
    &&& b.args.deep_view() == a.args.deep_view()
    &&& b.definition.model() == a.definition.model()
}

/// Whether one condition is a copy of another: whether each part of it is a
/// copy of the same part of the other.
pub open spec fn conditional_copied(a: Conditional, b: Conditional) -> bool {
    &&& b.op.model() == a.op.model()
    &&& b.width.deep_view() == a.width.deep_view()
    &&& b.value.deep_view() == a.value.deep_view()
}

/// Whether one classical payload is a copy of another: whether it is of the
/// same kind, and each part of it is a copy of the same part of the other.
pub open spec fn classical_copied(a: Classical, b: Classical) -> bool {
    match (a, b) {
        (Classical::MultiBit { op: op_a, n: n_a }, Classical::MultiBit { op: op_b, n: n_b }) => {
            &&& op_b.model() == op_a.model()
            &&& n_b.deep_view() == n_a.deep_view()
        },
        (
            Classical::RangePredicate { n_i: n_i_a, lower: lower_a, upper: upper_a },
            Classical::RangePredicate { n_i: n_i_b, lower: lower_b, upper: upper_b },
        ) => {
            &&& n_i_b.deep_view() == n_i_a.deep_view()
            &&& lower_b.deep_view() == lower_a.deep_view()
            &&& upper_b.deep_view() == upper_a.deep_view()
        },
        (
            Classical::Explicit { n_i: n_i_a, name: name_a, values: values_a },
            Classical::Explicit { n_i: n_i_b, name: name_b, values: values_b },
        ) => {
            &&& n_i_b.deep_view() == n_i_a.deep_view()
            &&& name_b.deep_view() == name_a.deep_view()
            &&& values_b.deep_view() == values_a.deep_view()
        },
        (
            Classical::ClassicalTransform { n_io: n_io_a, name: name_a, values: values_a },
            Classical::ClassicalTransform { n_io: n_io_b, name: name_b, values: values_b },
        ) => {
            &&& n_io_b.deep_view() == n_io_a.deep_view()
            &&& name_b.deep_view() == name_a.deep_view()
            &&& values_b.deep_view() == values_a.deep_view()
        },
        (Classical::CopyBits { n_i: n_i_a }, Classical::CopyBits { n_i: n_i_b }) => {
            &&& n_i_b.deep_view() == n_i_a.deep_view()
        },
        (Classical::SetBits { values: values_a }, Classical::SetBits { values: values_b }) => {
            &&& values_b.deep_view() == values_a.deep_view()
        },
        _ => false,
    }
}

/// Whether one operation is a copy of another: whether each part of it is a
/// copy of the same part of the other.
pub open spec fn operation_copied<P: Clone>(a: Operation<P>, b: Operation<P>) -> bool {
    &&& b.op_type.deep_view() == a.op_type.deep_view()
    &&& b.n_qb.deep_view() == a.n_qb.deep_view()
    &&& b.data.deep_view() == a.data.deep_view()
    &&& match (a.params, b.params) {
        (Some(ps), Some(qs)) => clones(ps@, qs@),
        (None, None) => true,
        _ => false,
    }
    &&& match (a.op_box, b.op_box) {
        (Some(p), Some(q)) => q.model() == p.model(),
        (None, None) => true,
        _ => false,
    }
    &&& b.classical_expr.deep_view() == a.classical_expr.deep_view()
    &&& b.signature.deep_view() == a.signature.deep_view()
    &&& match (a.conditional, b.conditional) {
        (Some(p), Some(q)) => q.model() == p.model(),
        (None, None) => true,
        _ => false,
    }
    &&& match (a.classical, b.classical) {
        (Some(p), Some(q)) => q.model() == p.model(),
        (None, None) => true,
        _ => false,
    }
    &&& b.wasm.deep_view() == a.wasm.deep_view()
}

/// Whether one command is a copy of another: whether each part of it is a copy
/// of the same part of the other.
pub open spec fn command_copied<P: Clone>(a: Command<P>, b: Command<P>) -> bool {
    &&& operation_copied(a.op, b.op)
    &&& b.args.deep_view() == a.args.deep_view()
    &&& b.opgroup.deep_view() == a.opgroup.deep_view()
}

/// Whether one circuit is a copy of another: whether each part of it is a copy
/// of the same part of the other.
pub open spec fn circuit_copied<P: Clone>(a: SerialCircuit<P>, b: SerialCircuit<P>) -> bool {
    &&& b.name.deep_view() == a.name.deep_view()
    &&& cloned(a.phase, b.phase)
    &&& commands_copied(a.commands@, b.commands@)
    &&& b.qubits.deep_view() == a.qubits.deep_view()
    &&& b.bits.deep_view() == a.bits.deep_view()
    &&& b.implicit_permutation.deep_view() == a.implicit_permutation.deep_view()
    &&& b.number_of_ws.deep_view() == a.number_of_ws.deep_view()
    &&& b.created_qubits.deep_view() == a.created_qubits.deep_view()
    &&& b.discarded_qubits.deep_view() == a.discarded_qubits.deep_view()
}

/// Whether one box is a copy of another: whether it is of the same kind, and
/// each part of it is a copy of the same part of the other.
pub open spec fn box_copied(a: OpBox, b: OpBox) -> bool {
    match (a, b) {
        (
            OpBox::CircBox { id: id_a, circuit: circuit_a },
            OpBox::CircBox { id: id_b, circuit: circuit_b },
        ) => {
            &&& id_b.deep_view() == id_a.deep_view()
            &&& circuit_b.model() == circuit_a.model()
        },
        (
            OpBox::Unitary1qBox { id: id_a, matrix: matrix_a },
            OpBox::Unitary1qBox { id: id_b, matrix: matrix_b },
        ) => {
            &&& id_b.deep_view() == id_a.deep_view()
            &&& matrix_b.deep_view() == matrix_a.deep_view()
        },
        (
            OpBox::Unitary2qBox { id: id_a, matrix: matrix_a },
            OpBox::Unitary2qBox { id: id_b, matrix: matrix_b },
        ) => {
            &&& id_b.deep_view() == id_a.deep_view()
            &&& matrix_b.deep_view() == matrix_a.deep_view()
        },
        (
            OpBox::Unitary3qBox { id: id_a, matrix: matrix_a },
            OpBox::Unitary3qBox { id: id_b, matrix: matrix_b },
        ) => {
            &&& id_b.deep_view() == id_a.deep_view()
            &&& matrix_b.deep_view() == matrix_a.deep_view()
        },
        (
            OpBox::ExpBox { id: id_a, matrix: matrix_a, phase: phase_a },
            OpBox::ExpBox { id: id_b, matrix: matrix_b, phase: phase_b },
        ) => {
            &&& id_b.deep_view() == id_a.deep_view()
            &&& matrix_b.deep_view() == matrix_a.deep_view()
            &&& phase_b.deep_view() == phase_a.deep_view()
        },
        (
            OpBox::PauliExpBox {
                id: id_a,
                paulis: paulis_a,
                phase: phase_a,
                cx_config: cx_config_a,
            },
            OpBox::PauliExpBox {
                id: id_b,
                paulis: paulis_b,
                phase: phase_b,
                cx_config: cx_config_b,
            },
        ) => {
            &&& id_b.deep_view() == id_a.deep_view()
            &&& paulis_b.deep_view() == paulis_a.deep_view()
            &&& phase_b.deep_view() == phase_a.deep_view()
            &&& cx_config_b.deep_view() == cx_config_a.deep_view()
        },
        (
            OpBox::PauliExpPairBox {
                id: id_a,
                paulis_pair: paulis_pair_a,
                phase_pair: phase_pair_a,
                cx_config: cx_config_a,
            },
            OpBox::PauliExpPairBox {
                id: id_b,
                paulis_pair: paulis_pair_b,
                phase_pair: phase_pair_b,
                cx_config: cx_config_b,
            },
        ) => {
            &&& id_b.deep_view() == id_a.deep_view()
            &&& paulis_pair_b.deep_view() == paulis_pair_a.deep_view()
            &&& phase_pair_b.deep_view() == phase_pair_a.deep_view()
            &&& cx_config_b.deep_view() == cx_config_a.deep_view()
        },
        (
            OpBox::PauliExpCommutingSetBox {
                id: id_a,
                pauli_gadgets: pauli_gadgets_a,
                cx_config: cx_config_a,
            },
            OpBox::PauliExpCommutingSetBox {
                id: id_b,
                pauli_gadgets: pauli_gadgets_b,
                cx_config: cx_config_b,
            },
        ) => {
            &&& id_b.deep_view() == id_a.deep_view()
            &&& pauli_gadgets_b.deep_view() == pauli_gadgets_a.deep_view()
            &&& cx_config_b.deep_view() == cx_config_a.deep_view()
        },
        (
            OpBox::TermSequenceBox {
                id: id_a,
                pauli_gadgets: pauli_gadgets_a,
                synth_strategy: synth_strategy_a,
                partition_strategy: partition_strategy_a,
                graph_colouring: graph_colouring_a,
                cx_config: cx_config_a,
            },
            OpBox::TermSequenceBox {
                id: id_b,
                pauli_gadgets: pauli_gadgets_b,
                synth_strategy: synth_strategy_b,
                partition_strategy: partition_strategy_b,
                graph_colouring: graph_colouring_b,
                cx_config: cx_config_b,
            },
        ) => {
            &&& id_b.deep_view() == id_a.deep_view()
            &&& pauli_gadgets_b.deep_view() == pauli_gadgets_a.deep_view()
            &&& synth_strategy_b.deep_view() == synth_strategy_a.deep_view()
            &&& partition_strategy_b.deep_view() == partition_strategy_a.deep_view()
            &&& graph_colouring_b.deep_view() == graph_colouring_a.deep_view()
            &&& cx_config_b.deep_view() == cx_config_a.deep_view()
        },
        (
            OpBox::PhasePolyBox {
                id: id_a,
                n_qubits: n_qubits_a,
                qubit_indices: qubit_indices_a,
                phase_polynomial: phase_polynomial_a,
                linear_transformation: linear_transformation_a,
            },
            OpBox::PhasePolyBox {
                id: id_b,
                n_qubits: n_qubits_b,
                qubit_indices: qubit_indices_b,
                phase_polynomial: phase_polynomial_b,
                linear_transformation: linear_transformation_b,
            },
        ) => {
            &&& id_b.deep_view() == id_a.deep_view()
            &&& n_qubits_b.deep_view() == n_qubits_a.deep_view()
            &&& qubit_indices_b.deep_view() == qubit_indices_a.deep_view()
            &&& phase_polynomial_b.deep_view() == phase_polynomial_a.deep_view()
            &&& linear_transformation_b.deep_view() == linear_transformation_a.deep_view()
        },
        (
            OpBox::StabiliserAssertionBox { id: id_a, stabilisers: stabilisers_a },
            OpBox::StabiliserAssertionBox { id: id_b, stabilisers: stabilisers_b },
        ) => {
            &&& id_b.deep_view() == id_a.deep_view()
            &&& stabilisers_b.deep_view() == stabilisers_a.deep_view()
        },
        (
            OpBox::ProjectorAssertionBox { id: id_a, matrix: matrix_a },
            OpBox::ProjectorAssertionBox { id: id_b, matrix: matrix_b },
        ) => {
            &&& id_b.deep_view() == id_a.deep_view()
            &&& matrix_b.deep_view() == matrix_a.deep_view()
        },
        (
            OpBox::CustomGate { id: id_a, gate: gate_a, params: params_a },
            OpBox::CustomGate { id: id_b, gate: gate_b, params: params_b },
        ) => {
            &&& id_b.deep_view() == id_a.deep_view()
            &&& gate_b.model() == gate_a.model()
            &&& params_b.deep_view() == params_a.deep_view()
        },
        (
            OpBox::QControlBox {
                id: id_a,
                n_controls: n_controls_a,
                op: op_a,
                control_state: control_state_a,
            },
            OpBox::QControlBox {
                id: id_b,
                n_controls: n_controls_b,
                op: op_b,
                control_state: control_state_b,
            },
        ) => {
            &&& id_b.deep_view() == id_a.deep_view()
            &&& n_controls_b.deep_view() == n_controls_a.deep_view()
            &&& op_b.model() == op_a.model()
            &&& control_state_b.deep_view() == control_state_a.deep_view()
        },
        (
            OpBox::ClassicalExpBox { id: id_a, n_i: n_i_a, n_io: n_io_a, n_o: n_o_a, exp: exp_a },
            OpBox::ClassicalExpBox { id: id_b, n_i: n_i_b, n_io: n_io_b, n_o: n_o_b, exp: exp_b },
        ) => {
            &&& id_b.deep_view() == id_a.deep_view()
            &&& n_i_b.deep_view() == n_i_a.deep_view()
            &&& n_io_b.deep_view() == n_io_a.deep_view()
            &&& n_o_b.deep_view() == n_o_a.deep_view()
            &&& exp_b.model() == exp_a.model()
        },
        (
            OpBox::UnitaryTableauBox { id: id_a, tab: tab_a },
            OpBox::UnitaryTableauBox { id: id_b, tab: tab_b },
        ) => {
            &&& id_b.deep_view() == id_a.deep_view()
            &&& tab_b.deep_view() == tab_a.deep_view()
        },
        (
            OpBox::MultiplexorBox { id: id_a, op_map: op_map_a },
            OpBox::MultiplexorBox { id: id_b, op_map: op_map_b },
        ) => {
            &&& id_b.deep_view() == id_a.deep_view()
            &&& map_entry_models(op_map_b@) == map_entry_models(op_map_a@)
        },
        (
            OpBox::MultiplexedRotationBox { id: id_a, op_map: op_map_a },
            OpBox::MultiplexedRotationBox { id: id_b, op_map: op_map_b },
        ) => {
            &&& id_b.deep_view() == id_a.deep_view()
            &&& map_entry_models(op_map_b@) == map_entry_models(op_map_a@)
        },
        (
            OpBox::MultiplexedU2Box { id: id_a, op_map: op_map_a, impl_diag: impl_diag_a },
            OpBox::MultiplexedU2Box { id: id_b, op_map: op_map_b, impl_diag: impl_diag_b },
        ) => {
            &&& id_b.deep_view() == id_a.deep_view()
            &&& map_entry_models(op_map_b@) == map_entry_models(op_map_a@)
            &&& impl_diag_b.deep_view() == impl_diag_a.deep_view()
        },
        (
            OpBox::MultiplexedTensoredU2Box { id: id_a, op_map: op_map_a },
            OpBox::MultiplexedTensoredU2Box { id: id_b, op_map: op_map_b },
        ) => {
            &&& id_b.deep_view() == id_a.deep_view()
            &&& map_entry_models(op_map_b@) == map_entry_models(op_map_a@)
        },
        (
            OpBox::ToffoliBox {
                id: id_a,
                permutation: permutation_a,
                strat: strat_a,
                rotation_axis: rotation_axis_a,
            },
            OpBox::ToffoliBox {
                id: id_b,
                permutation: permutation_b,
                strat: strat_b,
                rotation_axis: rotation_axis_b,
            },
        ) => {
            &&& id_b.deep_view() == id_a.deep_view()
            &&& permutation_b.deep_view() == permutation_a.deep_view()
            &&& strat_b.deep_view() == strat_a.deep_view()
            &&& rotation_axis_b.deep_view() == rotation_axis_a.deep_view()
        },
        (
            OpBox::ConjugationBox {
                id: id_a,
                compute: compute_a,
                action: action_a,
                uncompute: uncompute_a,
            },
            OpBox::ConjugationBox {
                id: id_b,
                compute: compute_b,
                action: action_b,
                uncompute: uncompute_b,
            },
        ) => {
            &&& id_b.deep_view() == id_a.deep_view()
            &&& compute_b.model() == compute_a.model()
            &&& action_b.model() == action_a.model()
            &&& match (uncompute_a, uncompute_b) {
                (Some(p), Some(q)) => q.model() == p.model(),
                (None, None) => true,
                _ => false,
            }
        },
        (
            OpBox::DummyBox {
                id: id_a,
                n_qubits: n_qubits_a,
                n_bits: n_bits_a,
                resource_data: resource_data_a,
            },
            OpBox::DummyBox {
                id: id_b,
                n_qubits: n_qubits_b,
                n_bits: n_bits_b,
                resource_data: resource_data_b,
            },
        ) => {
            &&& id_b.deep_view() == id_a.deep_view()
            &&& n_qubits_b.deep_view() == n_qubits_a.deep_view()
            &&& n_bits_b.deep_view() == n_bits_a.deep_view()
            &&& resource_data_b.deep_view() == resource_data_a.deep_view()
        },
        (
            OpBox::StatePreparationBox {
                id: id_a,
                statevector: statevector_a,
                is_inverse: is_inverse_a,
                with_initial_reset: with_initial_reset_a,
            },
            OpBox::StatePreparationBox {
                id: id_b,
                statevector: statevector_b,
                is_inverse: is_inverse_b,
                with_initial_reset: with_initial_reset_b,
            },
        ) => {
            &&& id_b.deep_view() == id_a.deep_view()
            &&& statevector_b.deep_view() == statevector_a.deep_view()
            &&& is_inverse_b.deep_view() == is_inverse_a.deep_view()
            &&& with_initial_reset_b.deep_view() == with_initial_reset_a.deep_view()
        },
        (
            OpBox::DiagonalBox {
                id: id_a,
                diagonal: diagonal_a,
                upper_triangle: upper_triangle_a,
            },
            OpBox::DiagonalBox {
                id: id_b,
                diagonal: diagonal_b,
                upper_triangle: upper_triangle_b,
            },
        ) => {
            &&& id_b.deep_view() == id_a.deep_view()
            &&& diagonal_b.deep_view() == diagonal_a.deep_view()
            &&& upper_triangle_b.deep_view() == upper_triangle_a.deep_view()
        },
        _ => false,
    }
}

impl ClassicalExpUnit {
    /// A copy of the value.
    pub(crate) fn duplicate(&self) -> (r: ClassicalExpUnit)
        ensures
            r.model() == self.model(),
        decreases self, 0int,
    {
        match self {
            ClassicalExpUnit::U32(x) => ClassicalExpUnit::U32(*x),
            ClassicalExpUnit::Register(x) => ClassicalExpUnit::Register(x.deep_copy()),
            ClassicalExpUnit::BitRegister(x) => ClassicalExpUnit::BitRegister(x.deep_copy()),
            ClassicalExpUnit::ClassicalExpUnit(x) => ClassicalExpUnit::ClassicalExpUnit(
                x.duplicate(),
            ),
        }
    }
}

impl Clone for ClassicalExpUnit {
    fn clone(&self) -> (r: ClassicalExpUnit)
        ensures
            r.model() == self.model(),
    {
        self.duplicate()
    }
}

/// A copy of a list of arguments.
#[verifier::loop_isolation(false)]
pub(crate) fn copy_units(xs: &Vec<ClassicalExpUnit>) -> (r: Vec<ClassicalExpUnit>)
    ensures
        unit_models(r@) == unit_models(xs@),
    decreases xs, 0int,
{
    let mut out: Vec<ClassicalExpUnit> = Vec::new();
    let mut i: usize = 0;
    while i < xs.len()
        invariant
            i <= xs.len(),
            out@.len() == i,
            forall|k: int| 0 <= k < i ==> (#[trigger] out@[k]).model() == xs@[k].model(),
        decreases xs.len() - i,
    {
        proof {
            assert(decreases_to!(xs => xs[i as int]));
        }
        out.push(xs[i].duplicate());
        i = i + 1;
    }
    assert(unit_models(out@) =~= unit_models(xs@));
    out
}

impl ClassicalExp {
    /// A copy of the value.
    pub(crate) fn duplicate(&self) -> (r: ClassicalExp)
        ensures
            r.model() == self.model(),
        decreases self, 0int,
    {
        let r = ClassicalExp {
            args: copy_units(&self.args),
            op: self.op.deep_copy(),
        };
        proof {
            lemma_classical_exp_copied(*self, r);
        }
        r
    }
}

impl Clone for ClassicalExp {
    fn clone(&self) -> (r: ClassicalExp)
        ensures
            r.model() == self.model(),
    {
        self.duplicate()
    }
}

/// A copy of a list of pairs of a bit pattern and an operation.
#[verifier::loop_isolation(false)]
pub(crate) fn copy_op_map(xs: &Vec<(Bitstring, Operation)>) -> (r: Vec<(Bitstring, Operation)>)
    ensures
        map_entry_models(r@) == map_entry_models(xs@),
    decreases xs, 0int,
{
    let mut out: Vec<(Bitstring, Operation)> = Vec::new();
    let mut i: usize = 0;
    while i < xs.len()
        invariant
            i <= xs.len(),
            out@.len() == i,
            forall|k: int| 0 <= k < i ==> (#[trigger] out@[k]).0.deep_view() == xs@[k].0.deep_view() && out@[k].1.model()
                == xs@[k].1.model(),
        decreases xs.len() - i,
    {
        proof {
            assert(decreases_to!(xs => xs[i as int]));
        }
        out.push((xs[i].0.deep_copy(), xs[i].1.replica()));
        i = i + 1;
    }
    assert(map_entry_models(out@) =~= map_entry_models(xs@));
    out
}

/// A copy of a list of commands.
#[verifier::loop_isolation(false)]
pub(crate) fn copy_commands<P: Clone>(xs: &Vec<Command<P>>) -> (r: Vec<Command<P>>)
    ensures
        commands_copied(xs@, r@),
    decreases xs, 0int,
{
    let mut out: Vec<Command<P>> = Vec::new();
    let mut i: usize = 0;
    while i < xs.len()
        invariant
            i <= xs.len(),
            out@.len() == i,
            forall|k: int| 0 <= k < i ==> command_copied(xs@[k], #[trigger] out@[k]),
        decreases xs.len() - i,
    {
        proof {
            assert(decreases_to!(xs => xs[i as int]));
        }
        out.push(xs[i].duplicate());
        i = i + 1;
    }
    out
}

impl CompositeGate {
    /// A copy of the value.
    pub(crate) fn duplicate(&self) -> (r: CompositeGate)
        ensures
            r.model() == self.model(),
        decreases self, 0int,
    {
        let r = CompositeGate {
            name: self.name.deep_copy(),
            args: self.args.deep_copy(),
            definition: Box::new(self.definition.replica()),
        };
        proof {
            lemma_composite_gate_copied(*self, r);
        }
        r
    }
}

impl Clone for CompositeGate {
    fn clone(&self) -> (r: CompositeGate)
        ensures
            r.model() == self.model(),
    {
        self.duplicate()
    }
}

impl Conditional {
    /// A copy of the value.
    pub(crate) fn duplicate(&self) -> (r: Conditional)
        ensures
            r.model() == self.model(),
        decreases self, 0int,
    {
        let r = Conditional {
            op: Box::new(self.op.replica()),
            width: self.width.deep_copy(),
            value: self.value.deep_copy(),
        };
        proof {
            lemma_conditional_copied(*self, r);
        }
        r
    }
}

impl Clone for Conditional {
    fn clone(&self) -> (r: Conditional)
        ensures
            r.model() == self.model(),
    {
        self.duplicate()
    }
}

impl Classical {
    /// A copy of the value.
    pub(crate) fn duplicate(&self) -> (r: Classical)
        ensures
            r.model() == self.model(),
        decreases self, 0int,
    {
        let r = match self {
            Classical::MultiBit { op, n } => Classical::MultiBit {
                op: Box::new(op.replica()),
                n: n.deep_copy(),
            },
            Classical::RangePredicate { n_i, lower, upper } => Classical::RangePredicate {
                n_i: n_i.deep_copy(),
                lower: lower.deep_copy(),
                upper: upper.deep_copy(),
            },
            Classical::Explicit { n_i, name, values } => Classical::Explicit {
                n_i: n_i.deep_copy(),
                name: name.deep_copy(),
                values: values.deep_copy(),
            },
            Classical::ClassicalTransform { n_io, name, values } => Classical::ClassicalTransform {
                n_io: n_io.deep_copy(),
                name: name.deep_copy(),
                values: values.deep_copy(),
            },
            Classical::CopyBits { n_i } => Classical::CopyBits {
                n_i: n_i.deep_copy(),
            },
            Classical::SetBits { values } => Classical::SetBits {
                values: values.deep_copy(),
            },
        };
        proof {
            lemma_classical_copied(*self, r);
        }
        r
    }
}

impl Clone for Classical {
    fn clone(&self) -> (r: Classical)
        ensures
            r.model() == self.model(),
    {
        self.duplicate()
    }
}

impl<P: Clone> Operation<P> {
    /// A copy of the value.
    pub(crate) fn duplicate(&self) -> (r: Operation<P>)
        ensures
            operation_copied(*self, r),
        decreases self, 0int,
    {
        let r = Operation {
            op_type: self.op_type.deep_copy(),
            n_qb: self.n_qb.deep_copy(),
            data: self.data.deep_copy(),
            params: match &self.params {
                Some(ps) => Some(ps.clone()),
                None => None,
            },
            op_box: match &self.op_box {
                Some(x) => Some(x.duplicate()),
                None => None,
            },
            classical_expr: self.classical_expr.deep_copy(),
            signature: self.signature.deep_copy(),
            conditional: match &self.conditional {
                Some(x) => Some(x.duplicate()),
                None => None,
            },
            classical: match &self.classical {
                Some(x) => Some(Box::new(x.duplicate())),
                None => None,
            },
            wasm: self.wasm.deep_copy(),
        };
        r
    }
}

impl<P: Clone> Clone for Operation<P> {
    fn clone(&self) -> (r: Operation<P>)
        ensures
            operation_copied(*self, r),
    {
        self.duplicate()
    }
}

impl Operation<String> {
    /// A copy of the value, where its parameters are strings.
    pub(crate) fn replica(&self) -> (r: Operation<String>)
        ensures
            r.model() == self.model(),
        decreases self, 1int,
    {
        let r = self.duplicate();
        proof {
            lemma_operation_copied(*self, r);
        }
        r
    }
}

impl<P: Clone> Command<P> {
    /// A copy of the value.
    pub(crate) fn duplicate(&self) -> (r: Command<P>)
        ensures
            command_copied(*self, r),
        decreases self, 0int,
    {
        let r = Command {
            op: self.op.duplicate(),
            args: self.args.deep_copy(),
            opgroup: self.opgroup.deep_copy(),
        };
        r
    }
}

impl<P: Clone> Clone for Command<P> {
    fn clone(&self) -> (r: Command<P>)
        ensures
            command_copied(*self, r),
    {
        self.duplicate()
    }
}

impl<P: Clone> SerialCircuit<P> {
    /// A copy of the value.
    pub(crate) fn duplicate(&self) -> (r: SerialCircuit<P>)
        ensures
            circuit_copied(*self, r),
        decreases self, 0int,
    {
        let r = SerialCircuit {
            name: self.name.deep_copy(),
            phase: self.phase.clone(),
            commands: copy_commands(&self.commands),
            qubits: self.qubits.deep_copy(),
            bits: self.bits.deep_copy(),
            implicit_permutation: self.implicit_permutation.deep_copy(),
            number_of_ws: self.number_of_ws.deep_copy(),
            created_qubits: self.created_qubits.deep_copy(),
            discarded_qubits: self.discarded_qubits.deep_copy(),
        };
        r
    }
}

impl<P: Clone> Clone for SerialCircuit<P> {
    fn clone(&self) -> (r: SerialCircuit<P>)
        ensures
            circuit_copied(*self, r),
    {
        self.duplicate()
    }
}

impl SerialCircuit<String> {
    /// A copy of the value, where its parameters are strings.
    pub(crate) fn replica(&self) -> (r: SerialCircuit<String>)
        ensures
            r.model() == self.model(),
        decreases self, 1int,
    {
        let r = self.duplicate();
        proof {
            lemma_circuit_copied(*self, r);
        }
        r
    }
}

impl OpBox {
    /// A copy of the value.
    pub(crate) fn duplicate(&self) -> (r: OpBox)
        ensures
            r.model() == self.model(),
        decreases self, 0int,
    {
        let r = match self {
            OpBox::CircBox { id, circuit } => OpBox::CircBox {
                id: id.deep_copy(),
                circuit: circuit.replica(),
            },
            OpBox::Unitary1qBox { id, matrix } => OpBox::Unitary1qBox {
                id: id.deep_copy(),
                matrix: matrix.deep_copy(),
            },
            OpBox::Unitary2qBox { id, matrix } => OpBox::Unitary2qBox {
                id: id.deep_copy(),
                matrix: matrix.deep_copy(),
            },
            OpBox::Unitary3qBox { id, matrix } => OpBox::Unitary3qBox {
                id: id.deep_copy(),
                matrix: matrix.deep_copy(),
            },
            OpBox::ExpBox { id, matrix, phase } => OpBox::ExpBox {
                id: id.deep_copy(),
                matrix: matrix.deep_copy(),
                phase: phase.deep_copy(),
            },
            OpBox::PauliExpBox { id, paulis, phase, cx_config } => OpBox::PauliExpBox {
                id: id.deep_copy(),
                paulis: paulis.deep_copy(),
                phase: phase.deep_copy(),
                cx_config: cx_config.deep_copy(),
            },
            OpBox::PauliExpPairBox {
                id,
                paulis_pair,
                phase_pair,
                cx_config,
            } => OpBox::PauliExpPairBox {
                id: id.deep_copy(),
                paulis_pair: paulis_pair.deep_copy(),
                phase_pair: phase_pair.deep_copy(),
                cx_config: cx_config.deep_copy(),
            },
            OpBox::PauliExpCommutingSetBox {
                id,
                pauli_gadgets,
                cx_config,
            } => OpBox::PauliExpCommutingSetBox {
                id: id.deep_copy(),
                pauli_gadgets: pauli_gadgets.deep_copy(),
                cx_config: cx_config.deep_copy(),
            },
            OpBox::TermSequenceBox {
                id,
                pauli_gadgets,
                synth_strategy,
                partition_strategy,
                graph_colouring,
                cx_config,
            } => OpBox::TermSequenceBox {
                id: id.deep_copy(),
                pauli_gadgets: pauli_gadgets.deep_copy(),
                synth_strategy: synth_strategy.deep_copy(),
                partition_strategy: partition_strategy.deep_copy(),
                graph_colouring: graph_colouring.deep_copy(),
                cx_config: cx_config.deep_copy(),
            },
            OpBox::PhasePolyBox {
                id,
                n_qubits,
                qubit_indices,
                phase_polynomial,
                linear_transformation,
            } => OpBox::PhasePolyBox {
                id: id.deep_copy(),
                n_qubits: n_qubits.deep_copy(),
                qubit_indices: qubit_indices.deep_copy(),
                phase_polynomial: phase_polynomial.deep_copy(),
                linear_transformation: linear_transformation.deep_copy(),
            },
            OpBox::StabiliserAssertionBox { id, stabilisers } => OpBox::StabiliserAssertionBox {
                id: id.deep_copy(),
                stabilisers: stabilisers.deep_copy(),
            },
            OpBox::ProjectorAssertionBox { id, matrix } => OpBox::ProjectorAssertionBox {
                id: id.deep_copy(),
                matrix: matrix.deep_copy(),
            },
            OpBox::CustomGate { id, gate, params } => OpBox::CustomGate {
                id: id.deep_copy(),
                gate: gate.duplicate(),
                params: params.deep_copy(),
            },
            OpBox::QControlBox { id, n_controls, op, control_state } => OpBox::QControlBox {
                id: id.deep_copy(),
                n_controls: n_controls.deep_copy(),
                op: Box::new(op.replica()),
                control_state: control_state.deep_copy(),
            },
            OpBox::ClassicalExpBox { id, n_i, n_io, n_o, exp } => OpBox::ClassicalExpBox {
                id: id.deep_copy(),
                n_i: n_i.deep_copy(),
                n_io: n_io.deep_copy(),
                n_o: n_o.deep_copy(),
                exp: exp.duplicate(),
            },
            OpBox::UnitaryTableauBox { id, tab } => OpBox::UnitaryTableauBox {
                id: id.deep_copy(),
                tab: tab.deep_copy(),
            },
            OpBox::MultiplexorBox { id, op_map } => OpBox::MultiplexorBox {
                id: id.deep_copy(),
                op_map: copy_op_map(op_map),
            },
            OpBox::MultiplexedRotationBox { id, op_map } => OpBox::MultiplexedRotationBox {
                id: id.deep_copy(),
                op_map: copy_op_map(op_map),
            },
            OpBox::MultiplexedU2Box { id, op_map, impl_diag } => OpBox::MultiplexedU2Box {
                id: id.deep_copy(),
                op_map: copy_op_map(op_map),
                impl_diag: impl_diag.deep_copy(),
            },
            OpBox::MultiplexedTensoredU2Box { id, op_map } => OpBox::MultiplexedTensoredU2Box {
                id: id.deep_copy(),
                op_map: copy_op_map(op_map),
            },
            OpBox::ToffoliBox { id, permutation, strat, rotation_axis } => OpBox::ToffoliBox {
                id: id.deep_copy(),
                permutation: permutation.deep_copy(),
                strat: strat.deep_copy(),
                rotation_axis: rotation_axis.deep_copy(),
            },
            OpBox::ConjugationBox { id, compute, action, uncompute } => OpBox::ConjugationBox {
                id: id.deep_copy(),
                compute: Box::new(compute.replica()),
                action: Box::new(action.replica()),
                uncompute: match uncompute {
                    Some(x) => Some(Box::new(x.replica())),
                    None => None,
                },
            },
            OpBox::DummyBox { id, n_qubits, n_bits, resource_data } => OpBox::DummyBox {
                id: id.deep_copy(),
                n_qubits: n_qubits.deep_copy(),
                n_bits: n_bits.deep_copy(),
                resource_data: resource_data.deep_copy(),
            },
            OpBox::StatePreparationBox {
                id,
                statevector,
                is_inverse,
                with_initial_reset,
            } => OpBox::StatePreparationBox {
                id: id.deep_copy(),
                statevector: statevector.deep_copy(),
                is_inverse: is_inverse.deep_copy(),
                with_initial_reset: with_initial_reset.deep_copy(),
            },
            OpBox::DiagonalBox { id, diagonal, upper_triangle } => OpBox::DiagonalBox {
                id: id.deep_copy(),
                diagonal: diagonal.deep_copy(),
                upper_triangle: upper_triangle.deep_copy(),
            },
        };
        proof {
            lemma_box_copied(*self, r);
        }
        r
    }
}

impl Clone for OpBox {
    fn clone(&self) -> (r: OpBox)
        ensures
            r.model() == self.model(),
    {
        self.duplicate()
    }
}

} // verus!
