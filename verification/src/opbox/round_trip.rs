//! Decoding a box undoes encoding it.

use vstd::prelude::*;
use crate::circuit_json::{Bitstring, ClassicalExp, Register};
use crate::circuit_json::circuit::lemma_circuit_round_trip;
use crate::circuit_json::gate::lemma_composite_gate_round_trip;
use crate::circuit_json::matrix::Matrix;
use crate::circuit_json::op_map::lemma_op_map_round_trip;
use crate::circuit_json::operation::lemma_operation_round_trip;
use crate::codec::{Codec, DecodeError, ErrorView, required_spec};
use crate::json::{group_field, Json, JsonView, Number, part};
use crate::opbox::{OpBox, OpBoxView};
use crate::opbox::decode::{
    decode_box, decode_circ_box, decode_classical_exp_box, decode_conjugation_box,
    decode_custom_gate, decode_diagonal_box, decode_dummy_box, decode_exp_box,
    decode_multiplexed_rotation_box, decode_multiplexed_tensored_u2box, decode_multiplexed_u2box,
    decode_multiplexor_box, decode_pauli_exp_box, decode_pauli_exp_commuting_set_box,
    decode_pauli_exp_pair_box, decode_phase_poly_box, decode_projector_assertion_box,
    decode_q_control_box, decode_stabiliser_assertion_box, decode_state_preparation_box,
    decode_term_sequence_box, decode_toffoli_box, decode_unitary1q_box, decode_unitary2q_box,
    decode_unitary3q_box, decode_unitary_tableau_box,
};
use crate::opbox::encode::{encode_box, valid_box};
use crate::opbox::id::BoxID;
use crate::opbox::kind::{BoxKind, kind_of};
use crate::opbox::resource::ResourceData;
use crate::opbox::strategy::{
    CXConfigType, GraphColourMethod, PauliPartitionStrat, PauliSynthStrat, ToffoliBoxSynthStrat,
};
use crate::opbox::tableau::{PauliStabiliser, UnitaryTableau};
use crate::optype::OpType;

verus! {

/// A box of the kind `CircBox`, encoded and decoded, is itself again.
pub proof fn lemma_circ_box_round_trip(v: OpBoxView)
    requires
        v is CircBox,
        valid_box(v),
    ensures
        decode_circ_box(encode_box(v)) == Ok::<OpBoxView, ErrorView>(v),
        required_spec::<String>(encode_box(v), "type") == Ok::<Seq<char>, ErrorView>("CircBox"@),
        encode_box(v) is Object,
    decreases v, 0int,
{
    broadcast use group_field;

    reveal(decode_circ_box);
    reveal(encode_box);
    reveal(valid_box);
    reveal_strlit("type");
    reveal_strlit("id");
    reveal_strlit("circuit");
    assert("type"@.len() == 4);
    assert("id"@.len() == 2);
    assert("circuit"@.len() == 7);
    match v {
        OpBoxView::CircBox { id, circuit } => {
            BoxID::lemma_round_trip(id);
            lemma_circuit_round_trip::<String>(circuit);
        },
        _ => {},
    }
}

/// A box of the kind `Unitary1qBox`, encoded and decoded, is itself again.
pub proof fn lemma_unitary1q_box_round_trip(v: OpBoxView)
    requires
        v is Unitary1qBox,
        valid_box(v),
    ensures
        decode_unitary1q_box(encode_box(v)) == Ok::<OpBoxView, ErrorView>(v),
        required_spec::<String>(encode_box(v), "type") == Ok::<Seq<char>, ErrorView>(
            "Unitary1qBox"@,
        ),
        encode_box(v) is Object,
    decreases v, 0int,
{
    broadcast use group_field;

    reveal(decode_unitary1q_box);
    reveal(encode_box);
    reveal(valid_box);
    reveal_strlit("type");
    reveal_strlit("id");
    reveal_strlit("matrix");
    assert("type"@.len() == 4);
    assert("id"@.len() == 2);
    assert("matrix"@.len() == 6);
    match v {
        OpBoxView::Unitary1qBox { id, matrix } => {
            BoxID::lemma_round_trip(id);
            Matrix::<Number>::lemma_round_trip(matrix);
        },
        _ => {},
    }
}

/// A box of the kind `Unitary2qBox`, encoded and decoded, is itself again.
pub proof fn lemma_unitary2q_box_round_trip(v: OpBoxView)
    requires
        v is Unitary2qBox,
        valid_box(v),
    ensures
        decode_unitary2q_box(encode_box(v)) == Ok::<OpBoxView, ErrorView>(v),
        required_spec::<String>(encode_box(v), "type") == Ok::<Seq<char>, ErrorView>(
            "Unitary2qBox"@,
        ),
        encode_box(v) is Object,
    decreases v, 0int,
{
    broadcast use group_field;

    reveal(decode_unitary2q_box);
    reveal(encode_box);
    reveal(valid_box);
    reveal_strlit("type");
    reveal_strlit("id");
    reveal_strlit("matrix");
    assert("type"@.len() == 4);
    assert("id"@.len() == 2);
    assert("matrix"@.len() == 6);
    match v {
        OpBoxView::Unitary2qBox { id, matrix } => {
            BoxID::lemma_round_trip(id);
            Matrix::<Number>::lemma_round_trip(matrix);
        },
        _ => {},
    }
}

/// A box of the kind `Unitary3qBox`, encoded and decoded, is itself again.
pub proof fn lemma_unitary3q_box_round_trip(v: OpBoxView)
    requires
        v is Unitary3qBox,
        valid_box(v),
    ensures
        decode_unitary3q_box(encode_box(v)) == Ok::<OpBoxView, ErrorView>(v),
        required_spec::<String>(encode_box(v), "type") == Ok::<Seq<char>, ErrorView>(
            "Unitary3qBox"@,
        ),
        encode_box(v) is Object,
    decreases v, 0int,
{
    broadcast use group_field;

    reveal(decode_unitary3q_box);
    reveal(encode_box);
    reveal(valid_box);
    reveal_strlit("type");
    reveal_strlit("id");
    reveal_strlit("matrix");
    assert("type"@.len() == 4);
    assert("id"@.len() == 2);
    assert("matrix"@.len() == 6);
    match v {
        OpBoxView::Unitary3qBox { id, matrix } => {
            BoxID::lemma_round_trip(id);
            Matrix::<Number>::lemma_round_trip(matrix);
        },
        _ => {},
    }
}

/// A box of the kind `ExpBox`, encoded and decoded, is itself again.
pub proof fn lemma_exp_box_round_trip(v: OpBoxView)
    requires
        v is ExpBox,
        valid_box(v),
    ensures
        decode_exp_box(encode_box(v)) == Ok::<OpBoxView, ErrorView>(v),
        required_spec::<String>(encode_box(v), "type") == Ok::<Seq<char>, ErrorView>("ExpBox"@),
        encode_box(v) is Object,
    decreases v, 0int,
{
    broadcast use group_field;

    reveal(decode_exp_box);
    reveal(encode_box);
    reveal(valid_box);
    reveal_strlit("type");
    reveal_strlit("id");
    reveal_strlit("matrix");
    reveal_strlit("phase");
    assert("type"@.len() == 4);
    assert("id"@.len() == 2);
    assert("matrix"@.len() == 6);
    assert("phase"@.len() == 5);
    match v {
        OpBoxView::ExpBox { id, matrix, phase } => {
            BoxID::lemma_round_trip(id);
            Matrix::<Number>::lemma_round_trip(matrix);
            Number::lemma_round_trip(phase);
        },
        _ => {},
    }
}

/// A box of the kind `PauliExpBox`, encoded and decoded, is itself again.
pub proof fn lemma_pauli_exp_box_round_trip(v: OpBoxView)
    requires
        v is PauliExpBox,
        valid_box(v),
    ensures
        decode_pauli_exp_box(encode_box(v)) == Ok::<OpBoxView, ErrorView>(v),
        required_spec::<String>(encode_box(v), "type") == Ok::<Seq<char>, ErrorView>(
            "PauliExpBox"@,
        ),
        encode_box(v) is Object,
    decreases v, 0int,
{
    broadcast use group_field;

    reveal(decode_pauli_exp_box);
    reveal(encode_box);
    reveal(valid_box);
    reveal_strlit("type");
    reveal_strlit("id");
    reveal_strlit("paulis");
    reveal_strlit("phase");
    reveal_strlit("cx_config");
    assert("type"@.len() == 4);
    assert("id"@.len() == 2);
    assert("paulis"@.len() == 6);
    assert("phase"@.len() == 5);
    assert("cx_config"@.len() == 9);
    match v {
        OpBoxView::PauliExpBox { id, paulis, phase, cx_config } => {
            BoxID::lemma_round_trip(id);
            Vec::<String>::lemma_round_trip(paulis);
            String::lemma_round_trip(phase);
            String::lemma_round_trip(cx_config);
        },
        _ => {},
    }
}

/// A box of the kind `PauliExpPairBox`, encoded and decoded, is itself again.
pub proof fn lemma_pauli_exp_pair_box_round_trip(v: OpBoxView)
    requires
        v is PauliExpPairBox,
        valid_box(v),
    ensures
        decode_pauli_exp_pair_box(encode_box(v)) == Ok::<OpBoxView, ErrorView>(v),
        required_spec::<String>(encode_box(v), "type") == Ok::<Seq<char>, ErrorView>(
            "PauliExpPairBox"@,
        ),
        encode_box(v) is Object,
    decreases v, 0int,
{
    broadcast use group_field;

    reveal(decode_pauli_exp_pair_box);
    reveal(encode_box);
    reveal(valid_box);
    reveal_strlit("type");
    reveal_strlit("id");
    reveal_strlit("paulis_pair");
    reveal_strlit("phase_pair");
    reveal_strlit("cx_config");
    assert("type"@.len() == 4);
    assert("id"@.len() == 2);
    assert("paulis_pair"@.len() == 11);
    assert("phase_pair"@.len() == 10);
    assert("cx_config"@.len() == 9);
    match v {
        OpBoxView::PauliExpPairBox { id, paulis_pair, phase_pair, cx_config } => {
            BoxID::lemma_round_trip(id);
            Vec::<Vec<String>>::lemma_round_trip(paulis_pair);
            Vec::<String>::lemma_round_trip(phase_pair);
            String::lemma_round_trip(cx_config);
        },
        _ => {},
    }
}

/// A box of the kind `PauliExpCommutingSetBox`, encoded and decoded, is itself again.
pub proof fn lemma_pauli_exp_commuting_set_box_round_trip(v: OpBoxView)
    requires
        v is PauliExpCommutingSetBox,
        valid_box(v),
    ensures
        decode_pauli_exp_commuting_set_box(encode_box(v)) == Ok::<OpBoxView, ErrorView>(v),
        required_spec::<String>(encode_box(v), "type") == Ok::<Seq<char>, ErrorView>(
            "PauliExpCommutingSetBox"@,
        ),
        encode_box(v) is Object,
    decreases v, 0int,
{
    broadcast use group_field;

    reveal(decode_pauli_exp_commuting_set_box);
    reveal(encode_box);
    reveal(valid_box);
    reveal_strlit("type");
    reveal_strlit("id");
    reveal_strlit("pauli_gadgets");
    reveal_strlit("cx_config");
    assert("type"@.len() == 4);
    assert("id"@.len() == 2);
    assert("pauli_gadgets"@.len() == 13);
    assert("cx_config"@.len() == 9);
    match v {
        OpBoxView::PauliExpCommutingSetBox { id, pauli_gadgets, cx_config } => {
            BoxID::lemma_round_trip(id);
            Vec::<(Vec<String>, String)>::lemma_round_trip(pauli_gadgets);
            String::lemma_round_trip(cx_config);
        },
        _ => {},
    }
}

/// A box of the kind `TermSequenceBox`, encoded and decoded, is itself again.
pub proof fn lemma_term_sequence_box_round_trip(v: OpBoxView)
    requires
        v is TermSequenceBox,
        valid_box(v),
    ensures
        decode_term_sequence_box(encode_box(v)) == Ok::<OpBoxView, ErrorView>(v),
        required_spec::<String>(encode_box(v), "type") == Ok::<Seq<char>, ErrorView>(
            "TermSequenceBox"@,
        ),
        encode_box(v) is Object,
    decreases v, 0int,
{
    broadcast use group_field;

    reveal(decode_term_sequence_box);
    reveal(encode_box);
    reveal(valid_box);
    reveal_strlit("type");
    reveal_strlit("id");
    reveal_strlit("pauli_gadgets");
    reveal_strlit("synth_strategy");
    reveal_strlit("partition_strategy");
    reveal_strlit("graph_colouring");
    reveal_strlit("cx_config");
    assert("type"@.len() == 4);
    assert("id"@.len() == 2);
    assert("pauli_gadgets"@.len() == 13);
    assert("synth_strategy"@.len() == 14);
    assert("partition_strategy"@.len() == 18);
    assert("graph_colouring"@.len() == 15);
    assert("cx_config"@.len() == 9);
    match v {
        OpBoxView::TermSequenceBox {
            id,
            pauli_gadgets,
            synth_strategy,
            partition_strategy,
            graph_colouring,
            cx_config,
        } => {
            BoxID::lemma_round_trip(id);
            Vec::<(Vec<String>, String)>::lemma_round_trip(pauli_gadgets);
            PauliSynthStrat::lemma_round_trip(synth_strategy);
            PauliPartitionStrat::lemma_round_trip(partition_strategy);
            GraphColourMethod::lemma_round_trip(graph_colouring);
            CXConfigType::lemma_round_trip(cx_config);
        },
        _ => {},
    }
}

/// A box of the kind `PhasePolyBox`, encoded and decoded, is itself again.
pub proof fn lemma_phase_poly_box_round_trip(v: OpBoxView)
    requires
        v is PhasePolyBox,
        valid_box(v),
    ensures
        decode_phase_poly_box(encode_box(v)) == Ok::<OpBoxView, ErrorView>(v),
        required_spec::<String>(encode_box(v), "type") == Ok::<Seq<char>, ErrorView>(
            "PhasePolyBox"@,
        ),
        encode_box(v) is Object,
    decreases v, 0int,
{
    broadcast use group_field;

    reveal(decode_phase_poly_box);
    reveal(encode_box);
    reveal(valid_box);
    reveal_strlit("type");
    reveal_strlit("id");
    reveal_strlit("n_qubits");
    reveal_strlit("qubit_indices");
    reveal_strlit("phase_polynomial");
    reveal_strlit("linear_transformation");
    assert("type"@.len() == 4);
    assert("id"@.len() == 2);
    assert("n_qubits"@.len() == 8);
    assert("qubit_indices"@.len() == 13);
    assert("phase_polynomial"@.len() == 16);
    assert("linear_transformation"@.len() == 21);
    match v {
        OpBoxView::PhasePolyBox {
            id,
            n_qubits,
            qubit_indices,
            phase_polynomial,
            linear_transformation,
        } => {
            BoxID::lemma_round_trip(id);
            u32::lemma_round_trip(n_qubits);
            Vec::<(Register, u32)>::lemma_round_trip(qubit_indices);
            Vec::<Vec<(Bitstring, String)>>::lemma_round_trip(phase_polynomial);
            Matrix::<bool>::lemma_round_trip(linear_transformation);
        },
        _ => {},
    }
}

/// A box of the kind `StabiliserAssertionBox`, encoded and decoded, is itself again.
pub proof fn lemma_stabiliser_assertion_box_round_trip(v: OpBoxView)
    requires
        v is StabiliserAssertionBox,
        valid_box(v),
    ensures
        decode_stabiliser_assertion_box(encode_box(v)) == Ok::<OpBoxView, ErrorView>(v),
        required_spec::<String>(encode_box(v), "type") == Ok::<Seq<char>, ErrorView>(
            "StabiliserAssertionBox"@,
        ),
        encode_box(v) is Object,
    decreases v, 0int,
{
    broadcast use group_field;

    reveal(decode_stabiliser_assertion_box);
    reveal(encode_box);
    reveal(valid_box);
    reveal_strlit("type");
    reveal_strlit("id");
    reveal_strlit("stabilisers");
    assert("type"@.len() == 4);
    assert("id"@.len() == 2);
    assert("stabilisers"@.len() == 11);
    match v {
        OpBoxView::StabiliserAssertionBox { id, stabilisers } => {
            BoxID::lemma_round_trip(id);
            Vec::<PauliStabiliser>::lemma_round_trip(stabilisers);
        },
        _ => {},
    }
}

/// A box of the kind `ProjectorAssertionBox`, encoded and decoded, is itself again.
pub proof fn lemma_projector_assertion_box_round_trip(v: OpBoxView)
    requires
        v is ProjectorAssertionBox,
        valid_box(v),
    ensures
        decode_projector_assertion_box(encode_box(v)) == Ok::<OpBoxView, ErrorView>(v),
        required_spec::<String>(encode_box(v), "type") == Ok::<Seq<char>, ErrorView>(
            "ProjectorAssertionBox"@,
        ),
        encode_box(v) is Object,
    decreases v, 0int,
{
    broadcast use group_field;

    reveal(decode_projector_assertion_box);
    reveal(encode_box);
    reveal(valid_box);
    reveal_strlit("type");
    reveal_strlit("id");
    reveal_strlit("matrix");
    assert("type"@.len() == 4);
    assert("id"@.len() == 2);
    assert("matrix"@.len() == 6);
    match v {
        OpBoxView::ProjectorAssertionBox { id, matrix } => {
            BoxID::lemma_round_trip(id);
            Matrix::<Number>::lemma_round_trip(matrix);
        },
        _ => {},
    }
}

/// A box of the kind `CustomGate`, encoded and decoded, is itself again.
pub proof fn lemma_custom_gate_round_trip(v: OpBoxView)
    requires
        v is CustomGate,
        valid_box(v),
    ensures
        decode_custom_gate(encode_box(v)) == Ok::<OpBoxView, ErrorView>(v),
        required_spec::<String>(encode_box(v), "type") == Ok::<Seq<char>, ErrorView>("CustomGate"@),
        encode_box(v) is Object,
    decreases v, 0int,
{
    broadcast use group_field;

    reveal(decode_custom_gate);
    reveal(encode_box);
    reveal(valid_box);
    reveal_strlit("type");
    reveal_strlit("id");
    reveal_strlit("gate");
    reveal_strlit("params");
    assert("type"@.len() == 4 && "type"@[0] == 't');
    assert("id"@.len() == 2 && "id"@[0] == 'i');
    assert("gate"@.len() == 4 && "gate"@[0] == 'g');
    assert("params"@.len() == 6 && "params"@[0] == 'p');
    match v {
        OpBoxView::CustomGate { id, gate, params } => {
            BoxID::lemma_round_trip(id);
            lemma_composite_gate_round_trip(gate);
            Vec::<String>::lemma_round_trip(params);
        },
        _ => {},
    }
}

/// A box of the kind `QControlBox`, encoded and decoded, is itself again.
pub proof fn lemma_q_control_box_round_trip(v: OpBoxView)
    requires
        v is QControlBox,
        valid_box(v),
    ensures
        decode_q_control_box(encode_box(v)) == Ok::<OpBoxView, ErrorView>(v),
        required_spec::<String>(encode_box(v), "type") == Ok::<Seq<char>, ErrorView>(
            "QControlBox"@,
        ),
        encode_box(v) is Object,
    decreases v, 0int,
{
    broadcast use group_field;

    reveal(decode_q_control_box);
    reveal(encode_box);
    reveal(valid_box);
    reveal_strlit("type");
    reveal_strlit("id");
    reveal_strlit("n_controls");
    reveal_strlit("op");
    reveal_strlit("control_state");
    assert("type"@.len() == 4 && "type"@[0] == 't');
    assert("id"@.len() == 2 && "id"@[0] == 'i');
    assert("n_controls"@.len() == 10 && "n_controls"@[0] == 'n');
    assert("op"@.len() == 2 && "op"@[0] == 'o');
    assert("control_state"@.len() == 13 && "control_state"@[0] == 'c');
    match v {
        OpBoxView::QControlBox { id, n_controls, op, control_state } => {
            BoxID::lemma_round_trip(id);
            u32::lemma_round_trip(n_controls);
            lemma_operation_round_trip::<String>(*op);
            u32::lemma_round_trip(control_state);
        },
        _ => {},
    }
}

/// A box of the kind `ClassicalExpBox`, encoded and decoded, is itself again.
pub proof fn lemma_classical_exp_box_round_trip(v: OpBoxView)
    requires
        v is ClassicalExpBox,
        valid_box(v),
    ensures
        decode_classical_exp_box(encode_box(v)) == Ok::<OpBoxView, ErrorView>(v),
        required_spec::<String>(encode_box(v), "type") == Ok::<Seq<char>, ErrorView>(
            "ClassicalExpBox"@,
        ),
        encode_box(v) is Object,
    decreases v, 0int,
{
    broadcast use group_field;

    reveal(decode_classical_exp_box);
    reveal(encode_box);
    reveal(valid_box);
    reveal_strlit("type");
    reveal_strlit("id");
    reveal_strlit("n_i");
    reveal_strlit("n_io");
    reveal_strlit("n_o");
    reveal_strlit("exp");
    assert("type"@.len() == 4 && "type"@[2] == 'p');
    assert("id"@.len() == 2);
    assert("n_i"@.len() == 3 && "n_i"@[2] == 'i');
    assert("n_io"@.len() == 4 && "n_io"@[2] == 'i');
    assert("n_o"@.len() == 3 && "n_o"@[2] == 'o');
    assert("exp"@.len() == 3 && "exp"@[2] == 'p');
    match v {
        OpBoxView::ClassicalExpBox { id, n_i, n_io, n_o, exp } => {
            BoxID::lemma_round_trip(id);
            u32::lemma_round_trip(n_i);
            u32::lemma_round_trip(n_io);
            u32::lemma_round_trip(n_o);
            ClassicalExp::lemma_round_trip(exp);
        },
        _ => {},
    }
}

/// A box of the kind `UnitaryTableauBox`, encoded and decoded, is itself again.
pub proof fn lemma_unitary_tableau_box_round_trip(v: OpBoxView)
    requires
        v is UnitaryTableauBox,
        valid_box(v),
    ensures
        decode_unitary_tableau_box(encode_box(v)) == Ok::<OpBoxView, ErrorView>(v),
        required_spec::<String>(encode_box(v), "type") == Ok::<Seq<char>, ErrorView>(
            "UnitaryTableauBox"@,
        ),
        encode_box(v) is Object,
    decreases v, 0int,
{
    broadcast use group_field;

    reveal(decode_unitary_tableau_box);
    reveal(encode_box);
    reveal(valid_box);
    reveal_strlit("type");
    reveal_strlit("id");
    reveal_strlit("tab");
    assert("type"@.len() == 4);
    assert("id"@.len() == 2);
    assert("tab"@.len() == 3);
    match v {
        OpBoxView::UnitaryTableauBox { id, tab } => {
            BoxID::lemma_round_trip(id);
            UnitaryTableau::lemma_round_trip(tab);
        },
        _ => {},
    }
}

/// A box of the kind `MultiplexorBox`, encoded and decoded, is itself again.
pub proof fn lemma_multiplexor_box_round_trip(v: OpBoxView)
    requires
        v is MultiplexorBox,
        valid_box(v),
    ensures
        decode_multiplexor_box(encode_box(v)) == Ok::<OpBoxView, ErrorView>(v),
        required_spec::<String>(encode_box(v), "type") == Ok::<Seq<char>, ErrorView>(
            "MultiplexorBox"@,
        ),
        encode_box(v) is Object,
    decreases v, 0int,
{
    broadcast use group_field;

    reveal(decode_multiplexor_box);
    reveal(encode_box);
    reveal(valid_box);
    reveal_strlit("type");
    reveal_strlit("id");
    reveal_strlit("op_map");
    assert("type"@.len() == 4);
    assert("id"@.len() == 2);
    assert("op_map"@.len() == 6);
    match v {
        OpBoxView::MultiplexorBox { id, op_map } => {
            BoxID::lemma_round_trip(id);
            lemma_op_map_round_trip(op_map);
        },
        _ => {},
    }
}

/// A box of the kind `MultiplexedRotationBox`, encoded and decoded, is itself again.
pub proof fn lemma_multiplexed_rotation_box_round_trip(v: OpBoxView)
    requires
        v is MultiplexedRotationBox,
        valid_box(v),
    ensures
        decode_multiplexed_rotation_box(encode_box(v)) == Ok::<OpBoxView, ErrorView>(v),
        required_spec::<String>(encode_box(v), "type") == Ok::<Seq<char>, ErrorView>(
            "MultiplexedRotationBox"@,
        ),
        encode_box(v) is Object,
    decreases v, 0int,
{
    broadcast use group_field;

    reveal(decode_multiplexed_rotation_box);
    reveal(encode_box);
    reveal(valid_box);
    reveal_strlit("type");
    reveal_strlit("id");
    reveal_strlit("op_map");
    assert("type"@.len() == 4);
    assert("id"@.len() == 2);
    assert("op_map"@.len() == 6);
    match v {
        OpBoxView::MultiplexedRotationBox { id, op_map } => {
            BoxID::lemma_round_trip(id);
            lemma_op_map_round_trip(op_map);
        },
        _ => {},
    }
}

/// A box of the kind `MultiplexedU2Box`, encoded and decoded, is itself again.
pub proof fn lemma_multiplexed_u2box_round_trip(v: OpBoxView)
    requires
        v is MultiplexedU2Box,
        valid_box(v),
    ensures
        decode_multiplexed_u2box(encode_box(v)) == Ok::<OpBoxView, ErrorView>(v),
        required_spec::<String>(encode_box(v), "type") == Ok::<Seq<char>, ErrorView>(
            "MultiplexedU2Box"@,
        ),
        encode_box(v) is Object,
    decreases v, 0int,
{
    broadcast use group_field;

    reveal(decode_multiplexed_u2box);
    reveal(encode_box);
    reveal(valid_box);
    reveal_strlit("type");
    reveal_strlit("id");
    reveal_strlit("op_map");
    reveal_strlit("impl_diag");
    assert("type"@.len() == 4);
    assert("id"@.len() == 2);
    assert("op_map"@.len() == 6);
    assert("impl_diag"@.len() == 9);
    match v {
        OpBoxView::MultiplexedU2Box { id, op_map, impl_diag } => {
            BoxID::lemma_round_trip(id);
            lemma_op_map_round_trip(op_map);
            bool::lemma_round_trip(impl_diag);
        },
        _ => {},
    }
}

/// A box of the kind `MultiplexedTensoredU2Box`, encoded and decoded, is itself again.
pub proof fn lemma_multiplexed_tensored_u2box_round_trip(v: OpBoxView)
    requires
        v is MultiplexedTensoredU2Box,
        valid_box(v),
    ensures
        decode_multiplexed_tensored_u2box(encode_box(v)) == Ok::<OpBoxView, ErrorView>(v),
        required_spec::<String>(encode_box(v), "type") == Ok::<Seq<char>, ErrorView>(
            "MultiplexedTensoredU2Box"@,
        ),
        encode_box(v) is Object,
    decreases v, 0int,
{
    broadcast use group_field;

    reveal(decode_multiplexed_tensored_u2box);
    reveal(encode_box);
    reveal(valid_box);
    reveal_strlit("type");
    reveal_strlit("id");
    reveal_strlit("op_map");
    assert("type"@.len() == 4);
    assert("id"@.len() == 2);
    assert("op_map"@.len() == 6);
    match v {
        OpBoxView::MultiplexedTensoredU2Box { id, op_map } => {
            BoxID::lemma_round_trip(id);
            lemma_op_map_round_trip(op_map);
        },
        _ => {},
    }
}

/// A box of the kind `ToffoliBox`, encoded and decoded, is itself again.
pub proof fn lemma_toffoli_box_round_trip(v: OpBoxView)
    requires
        v is ToffoliBox,
        valid_box(v),
    ensures
        decode_toffoli_box(encode_box(v)) == Ok::<OpBoxView, ErrorView>(v),
        required_spec::<String>(encode_box(v), "type") == Ok::<Seq<char>, ErrorView>("ToffoliBox"@),
        encode_box(v) is Object,
    decreases v, 0int,
{
    broadcast use group_field;

    reveal(decode_toffoli_box);
    reveal(encode_box);
    reveal(valid_box);
    reveal_strlit("type");
    reveal_strlit("id");
    reveal_strlit("permutation");
    reveal_strlit("strat");
    reveal_strlit("rotation_axis");
    assert("type"@.len() == 4);
    assert("id"@.len() == 2);
    assert("permutation"@.len() == 11);
    assert("strat"@.len() == 5);
    assert("rotation_axis"@.len() == 13);
    match v {
        OpBoxView::ToffoliBox { id, permutation, strat, rotation_axis } => {
            BoxID::lemma_round_trip(id);
            Vec::<(Vec<bool>, Vec<bool>)>::lemma_round_trip(permutation);
            ToffoliBoxSynthStrat::lemma_round_trip(strat);
            if rotation_axis is Some {
                OpType::lemma_round_trip(rotation_axis->Some_0);
            }
        },
        _ => {},
    }
}

/// A box of the kind `ConjugationBox`, encoded and decoded, is itself again.
pub proof fn lemma_conjugation_box_round_trip(v: OpBoxView)
    requires
        v is ConjugationBox,
        valid_box(v),
    ensures
        decode_conjugation_box(encode_box(v)) == Ok::<OpBoxView, ErrorView>(v),
        required_spec::<String>(encode_box(v), "type") == Ok::<Seq<char>, ErrorView>(
            "ConjugationBox"@,
        ),
        encode_box(v) is Object,
    decreases v, 0int,
{
    broadcast use group_field;

    reveal(decode_conjugation_box);
    reveal(encode_box);
    reveal(valid_box);
    reveal_strlit("type");
    reveal_strlit("id");
    reveal_strlit("compute");
    reveal_strlit("action");
    reveal_strlit("uncompute");
    assert("type"@.len() == 4);
    assert("id"@.len() == 2);
    assert("compute"@.len() == 7);
    assert("action"@.len() == 6);
    assert("uncompute"@.len() == 9);
    match v {
        OpBoxView::ConjugationBox { id, compute, action, uncompute } => {
            BoxID::lemma_round_trip(id);
            lemma_operation_round_trip::<String>(*compute);
            lemma_operation_round_trip::<String>(*action);
            if uncompute is Some {
                lemma_operation_round_trip::<String>(*uncompute->Some_0);
            }
        },
        _ => {},
    }
}

/// A box of the kind `DummyBox`, encoded and decoded, is itself again.
pub proof fn lemma_dummy_box_round_trip(v: OpBoxView)
    requires
        v is DummyBox,
        valid_box(v),
    ensures
        decode_dummy_box(encode_box(v)) == Ok::<OpBoxView, ErrorView>(v),
        required_spec::<String>(encode_box(v), "type") == Ok::<Seq<char>, ErrorView>("DummyBox"@),
        encode_box(v) is Object,
    decreases v, 0int,
{
    broadcast use group_field;

    reveal(decode_dummy_box);
    reveal(encode_box);
    reveal(valid_box);
    reveal_strlit("type");
    reveal_strlit("id");
    reveal_strlit("n_qubits");
    reveal_strlit("n_bits");
    reveal_strlit("resource_data");
    assert("type"@.len() == 4);
    assert("id"@.len() == 2);
    assert("n_qubits"@.len() == 8);
    assert("n_bits"@.len() == 6);
    assert("resource_data"@.len() == 13);
    match v {
        OpBoxView::DummyBox { id, n_qubits, n_bits, resource_data } => {
            BoxID::lemma_round_trip(id);
            u32::lemma_round_trip(n_qubits);
            u32::lemma_round_trip(n_bits);
            ResourceData::lemma_round_trip(resource_data);
        },
        _ => {},
    }
}

/// A box of the kind `StatePreparationBox`, encoded and decoded, is itself again.
pub proof fn lemma_state_preparation_box_round_trip(v: OpBoxView)
    requires
        v is StatePreparationBox,
        valid_box(v),
    ensures
        decode_state_preparation_box(encode_box(v)) == Ok::<OpBoxView, ErrorView>(v),
        required_spec::<String>(encode_box(v), "type") == Ok::<Seq<char>, ErrorView>(
            "StatePreparationBox"@,
        ),
        encode_box(v) is Object,
    decreases v, 0int,
{
    broadcast use group_field;

    reveal(decode_state_preparation_box);
    reveal(encode_box);
    reveal(valid_box);
    reveal_strlit("type");
    reveal_strlit("id");
    reveal_strlit("statevector");
    reveal_strlit("is_inverse");
    reveal_strlit("with_initial_reset");
    assert("type"@.len() == 4);
    assert("id"@.len() == 2);
    assert("statevector"@.len() == 11);
    assert("is_inverse"@.len() == 10);
    assert("with_initial_reset"@.len() == 18);
    match v {
        OpBoxView::StatePreparationBox { id, statevector, is_inverse, with_initial_reset } => {
            BoxID::lemma_round_trip(id);
            Matrix::<Number>::lemma_round_trip(statevector);
            bool::lemma_round_trip(is_inverse);
            bool::lemma_round_trip(with_initial_reset);
        },
        _ => {},
    }
}

/// A box of the kind `DiagonalBox`, encoded and decoded, is itself again.
pub proof fn lemma_diagonal_box_round_trip(v: OpBoxView)
    requires
        v is DiagonalBox,
        valid_box(v),
    ensures
        decode_diagonal_box(encode_box(v)) == Ok::<OpBoxView, ErrorView>(v),
        required_spec::<String>(encode_box(v), "type") == Ok::<Seq<char>, ErrorView>(
            "DiagonalBox"@,
        ),
        encode_box(v) is Object,
    decreases v, 0int,
{
    broadcast use group_field;

    reveal(decode_diagonal_box);
    reveal(encode_box);
    reveal(valid_box);
    reveal_strlit("type");
    reveal_strlit("id");
    reveal_strlit("diagonal");
    reveal_strlit("upper_triangle");
    assert("type"@.len() == 4);
    assert("id"@.len() == 2);
    assert("diagonal"@.len() == 8);
    assert("upper_triangle"@.len() == 14);
    match v {
        OpBoxView::DiagonalBox { id, diagonal, upper_triangle } => {
            BoxID::lemma_round_trip(id);
            Matrix::<Number>::lemma_round_trip(diagonal);
            bool::lemma_round_trip(upper_triangle);
        },
        _ => {},
    }
}

/// A box, encoded and decoded, is itself again.
pub proof fn lemma_box_round_trip(v: OpBoxView)
    requires
        valid_box(v),
    ensures
        decode_box(encode_box(v)) == Ok::<OpBoxView, ErrorView>(v),
        encode_box(v) is Object,
    decreases v, 1int,
{
    reveal(decode_box);
    reveal(BoxKind::name);
    BoxKind::lemma_name_round_trip(kind_of(v));
    match v {
        OpBoxView::CircBox { .. } => {
            reveal(decode_circ_box);
            lemma_circ_box_round_trip(v);
        },
        OpBoxView::Unitary1qBox { .. } => {
            reveal(decode_unitary1q_box);
            lemma_unitary1q_box_round_trip(v);
        },
        OpBoxView::Unitary2qBox { .. } => {
            reveal(decode_unitary2q_box);
            lemma_unitary2q_box_round_trip(v);
        },
        OpBoxView::Unitary3qBox { .. } => {
            reveal(decode_unitary3q_box);
            lemma_unitary3q_box_round_trip(v);
        },
        OpBoxView::ExpBox { .. } => {
            reveal(decode_exp_box);
            lemma_exp_box_round_trip(v);
        },
        OpBoxView::PauliExpBox { .. } => {
            reveal(decode_pauli_exp_box);
            lemma_pauli_exp_box_round_trip(v);
        },
        OpBoxView::PauliExpPairBox { .. } => {
            reveal(decode_pauli_exp_pair_box);
            lemma_pauli_exp_pair_box_round_trip(v);
        },
        OpBoxView::PauliExpCommutingSetBox { .. } => {
            reveal(decode_pauli_exp_commuting_set_box);
            lemma_pauli_exp_commuting_set_box_round_trip(v);
        },
        OpBoxView::TermSequenceBox { .. } => {
            reveal(decode_term_sequence_box);
            lemma_term_sequence_box_round_trip(v);
        },
        OpBoxView::PhasePolyBox { .. } => {
            reveal(decode_phase_poly_box);
            lemma_phase_poly_box_round_trip(v);
        },
        OpBoxView::StabiliserAssertionBox { .. } => {
            reveal(decode_stabiliser_assertion_box);
            lemma_stabiliser_assertion_box_round_trip(v);
        },
        OpBoxView::ProjectorAssertionBox { .. } => {
            reveal(decode_projector_assertion_box);
            lemma_projector_assertion_box_round_trip(v);
        },
        OpBoxView::CustomGate { .. } => {
            reveal(decode_custom_gate);
            lemma_custom_gate_round_trip(v);
        },
        OpBoxView::QControlBox { .. } => {
            reveal(decode_q_control_box);
            lemma_q_control_box_round_trip(v);
        },
        OpBoxView::ClassicalExpBox { .. } => {
            reveal(decode_classical_exp_box);
            lemma_classical_exp_box_round_trip(v);
        },
        OpBoxView::UnitaryTableauBox { .. } => {
            reveal(decode_unitary_tableau_box);
            lemma_unitary_tableau_box_round_trip(v);
        },
        OpBoxView::MultiplexorBox { .. } => {
            reveal(decode_multiplexor_box);
            lemma_multiplexor_box_round_trip(v);
        },
        OpBoxView::MultiplexedRotationBox { .. } => {
            reveal(decode_multiplexed_rotation_box);
            lemma_multiplexed_rotation_box_round_trip(v);
        },
        OpBoxView::MultiplexedU2Box { .. } => {
            reveal(decode_multiplexed_u2box);
            lemma_multiplexed_u2box_round_trip(v);
        },
        OpBoxView::MultiplexedTensoredU2Box { .. } => {
            reveal(decode_multiplexed_tensored_u2box);
            lemma_multiplexed_tensored_u2box_round_trip(v);
        },
        OpBoxView::ToffoliBox { .. } => {
            reveal(decode_toffoli_box);
            lemma_toffoli_box_round_trip(v);
        },
        OpBoxView::ConjugationBox { .. } => {
            reveal(decode_conjugation_box);
            lemma_conjugation_box_round_trip(v);
        },
        OpBoxView::DummyBox { .. } => {
            reveal(decode_dummy_box);
            lemma_dummy_box_round_trip(v);
        },
        OpBoxView::StatePreparationBox { .. } => {
            reveal(decode_state_preparation_box);
            lemma_state_preparation_box_round_trip(v);
        },
        OpBoxView::DiagonalBox { .. } => {
            reveal(decode_diagonal_box);
            lemma_diagonal_box_round_trip(v);
        },
    }
}

/// A box whose tag names no kind is refused as an unknown variant.
pub proof fn lemma_unknown_tag_refused(j: JsonView, tag: Seq<char>)
    requires
        required_spec::<String>(j, "type") == Ok::<Seq<char>, ErrorView>(tag),
        BoxKind::from_wire_name(tag) is None,
    ensures
        decode_box(j) == Err::<OpBoxView, ErrorView>(ErrorView::unknown_tag()),
{
    reveal(decode_box);
}

/// A box of a Pauli exponential that names no layout of its CX gates is
/// decoded with the empty layout, and is encoded with that layout written
/// out.
pub proof fn lemma_cx_config_default(j: JsonView)
    requires
        decode_pauli_exp_box(j) is Ok,
        part(j, "cx_config"@) is None,
    ensures
        decode_pauli_exp_box(j)->Ok_0 matches OpBoxView::PauliExpBox { cx_config, .. }
            && cx_config == Seq::<char>::empty(),
        part(encode_box(decode_pauli_exp_box(j)->Ok_0), "cx_config"@) == Some(
            JsonView::String(Seq::empty()),
        ),
{
    broadcast use group_field;

    reveal(decode_pauli_exp_box);
    reveal(encode_box);
}

/// An object whose field `type` names the kind of box.
impl Codec for OpBox {
    open spec fn decode_spec(j: JsonView) -> Result<OpBoxView, ErrorView> {
        decode_box(j)
    }

    open spec fn encode_spec(v: OpBoxView) -> JsonView {
        encode_box(v)
    }

    open spec fn valid(v: OpBoxView) -> bool {
        valid_box(v)
    }

    fn decode(j: &Json) -> (r: Result<OpBox, DecodeError>) {
        let r = OpBox::from_json(j);
        proof {
            if r is Ok {
                lemma_box_round_trip(r->Ok_0.model());
            }
        }
        r
    }

    fn encode(&self) -> (j: Json) {
        self.to_json()
    }

    proof fn lemma_round_trip(v: OpBoxView) {
        lemma_box_round_trip(v);
    }
}

} // verus!
