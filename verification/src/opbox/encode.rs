//! How a box is encoded, and what holds of a decoded box.

use vstd::prelude::*;
use crate::circuit_json::{Bitstring, ClassicalExp, Register};
use crate::circuit_json::circuit::{encode_circuit, valid_circuit};
use crate::circuit_json::copy::box_copied;
use crate::circuit_json::gate::{encode_composite_gate, valid_composite_gate};
use crate::circuit_json::matrix::{Matrix, square};
use crate::circuit_json::op_map::{map_entry_documents, op_map_to_json, valid_op_map};
use crate::circuit_json::operation::{encode_operation, valid_operation};
use crate::codec::{Codec, put, put_opt, put_opt_spec, put_spec};
use crate::json::{Fields, Json, JsonView, Number, push_opt};
use crate::opbox::{OpBox, OpBoxView};
use crate::opbox::id::BoxID;
use crate::opbox::resource::ResourceData;
use crate::opbox::strategy::{
    CXConfigType, GraphColourMethod, PauliPartitionStrat, PauliSynthStrat, ToffoliBoxSynthStrat,
};
use crate::opbox::tableau::{PauliStabiliser, UnitaryTableau};
use crate::optype::OpType;

verus! {

/// The document that a box encodes to.
#[verifier::opaque]
pub open spec fn encode_box(v: OpBoxView) -> JsonView
    decreases v,
{
    let e = Seq::empty();
    match v {
        OpBoxView::CircBox { id, circuit } => {
            let e = put_spec::<String>(e, "type", "CircBox"@);
            let e = put_spec::<BoxID>(e, "id", id);
            let e = e.push(("circuit"@, encode_circuit::<String>(circuit)));
            JsonView::Object(e)
        },
        OpBoxView::Unitary1qBox { id, matrix } => {
            let e = put_spec::<String>(e, "type", "Unitary1qBox"@);
            let e = put_spec::<BoxID>(e, "id", id);
            let e = put_spec::<Matrix<Number>>(e, "matrix", matrix);
            JsonView::Object(e)
        },
        OpBoxView::Unitary2qBox { id, matrix } => {
            let e = put_spec::<String>(e, "type", "Unitary2qBox"@);
            let e = put_spec::<BoxID>(e, "id", id);
            let e = put_spec::<Matrix<Number>>(e, "matrix", matrix);
            JsonView::Object(e)
        },
        OpBoxView::Unitary3qBox { id, matrix } => {
            let e = put_spec::<String>(e, "type", "Unitary3qBox"@);
            let e = put_spec::<BoxID>(e, "id", id);
            let e = put_spec::<Matrix<Number>>(e, "matrix", matrix);
            JsonView::Object(e)
        },
        OpBoxView::ExpBox { id, matrix, phase } => {
            let e = put_spec::<String>(e, "type", "ExpBox"@);
            let e = put_spec::<BoxID>(e, "id", id);
            let e = put_spec::<Matrix<Number>>(e, "matrix", matrix);
            let e = put_spec::<Number>(e, "phase", phase);
            JsonView::Object(e)
        },
        OpBoxView::PauliExpBox { id, paulis, phase, cx_config } => {
            let e = put_spec::<String>(e, "type", "PauliExpBox"@);
            let e = put_spec::<BoxID>(e, "id", id);
            let e = put_spec::<Vec<String>>(e, "paulis", paulis);
            let e = put_spec::<String>(e, "phase", phase);
            let e = put_spec::<String>(e, "cx_config", cx_config);
            JsonView::Object(e)
        },
        OpBoxView::PauliExpPairBox { id, paulis_pair, phase_pair, cx_config } => {
            let e = put_spec::<String>(e, "type", "PauliExpPairBox"@);
            let e = put_spec::<BoxID>(e, "id", id);
            let e = put_spec::<Vec<Vec<String>>>(e, "paulis_pair", paulis_pair);
            let e = put_spec::<Vec<String>>(e, "phase_pair", phase_pair);
            let e = put_spec::<String>(e, "cx_config", cx_config);
            JsonView::Object(e)
        },
        OpBoxView::PauliExpCommutingSetBox { id, pauli_gadgets, cx_config } => {
            let e = put_spec::<String>(e, "type", "PauliExpCommutingSetBox"@);
            let e = put_spec::<BoxID>(e, "id", id);
            let e = put_spec::<Vec<(Vec<String>, String)>>(e, "pauli_gadgets", pauli_gadgets);
            let e = put_spec::<String>(e, "cx_config", cx_config);
            JsonView::Object(e)
        },
        OpBoxView::TermSequenceBox {
            id,
            pauli_gadgets,
            synth_strategy,
            partition_strategy,
            graph_colouring,
            cx_config,
        } => {
            let e = put_spec::<String>(e, "type", "TermSequenceBox"@);
            let e = put_spec::<BoxID>(e, "id", id);
            let e = put_spec::<Vec<(Vec<String>, String)>>(e, "pauli_gadgets", pauli_gadgets);
            let e = put_spec::<PauliSynthStrat>(e, "synth_strategy", synth_strategy);
            let e = put_spec::<PauliPartitionStrat>(e, "partition_strategy", partition_strategy);
            let e = put_spec::<GraphColourMethod>(e, "graph_colouring", graph_colouring);
            let e = put_spec::<CXConfigType>(e, "cx_config", cx_config);
            JsonView::Object(e)
        },
        OpBoxView::PhasePolyBox {
            id,
            n_qubits,
            qubit_indices,
            phase_polynomial,
            linear_transformation,
        } => {
            let e = put_spec::<String>(e, "type", "PhasePolyBox"@);
            let e = put_spec::<BoxID>(e, "id", id);
            let e = put_spec::<u32>(e, "n_qubits", n_qubits);
            let e = put_spec::<Vec<(Register, u32)>>(e, "qubit_indices", qubit_indices);
            let e = put_spec::<Vec<Vec<(Bitstring, String)>>>(
                e, "phase_polynomial", phase_polynomial,
            );
            let e = put_spec::<Matrix<bool>>(e, "linear_transformation", linear_transformation);
            JsonView::Object(e)
        },
        OpBoxView::StabiliserAssertionBox { id, stabilisers } => {
            let e = put_spec::<String>(e, "type", "StabiliserAssertionBox"@);
            let e = put_spec::<BoxID>(e, "id", id);
            let e = put_spec::<Vec<PauliStabiliser>>(e, "stabilisers", stabilisers);
            JsonView::Object(e)
        },
        OpBoxView::ProjectorAssertionBox { id, matrix } => {
            let e = put_spec::<String>(e, "type", "ProjectorAssertionBox"@);
            let e = put_spec::<BoxID>(e, "id", id);
            let e = put_spec::<Matrix<Number>>(e, "matrix", matrix);
            JsonView::Object(e)
        },
        OpBoxView::CustomGate { id, gate, params } => {
            let e = put_spec::<String>(e, "type", "CustomGate"@);
            let e = put_spec::<BoxID>(e, "id", id);
            let e = e.push(("gate"@, encode_composite_gate(gate)));
            let e = put_spec::<Vec<String>>(e, "params", params);
            JsonView::Object(e)
        },
        OpBoxView::QControlBox { id, n_controls, op, control_state } => {
            let e = put_spec::<String>(e, "type", "QControlBox"@);
            let e = put_spec::<BoxID>(e, "id", id);
            let e = put_spec::<u32>(e, "n_controls", n_controls);
            let e = e.push(("op"@, encode_operation::<String>(*op)));
            let e = put_spec::<u32>(e, "control_state", control_state);
            JsonView::Object(e)
        },
        OpBoxView::ClassicalExpBox { id, n_i, n_io, n_o, exp } => {
            let e = put_spec::<String>(e, "type", "ClassicalExpBox"@);
            let e = put_spec::<BoxID>(e, "id", id);
            let e = put_spec::<u32>(e, "n_i", n_i);
            let e = put_spec::<u32>(e, "n_io", n_io);
            let e = put_spec::<u32>(e, "n_o", n_o);
            let e = put_spec::<ClassicalExp>(e, "exp", exp);
            JsonView::Object(e)
        },
        OpBoxView::UnitaryTableauBox { id, tab } => {
            let e = put_spec::<String>(e, "type", "UnitaryTableauBox"@);
            let e = put_spec::<BoxID>(e, "id", id);
            let e = put_spec::<UnitaryTableau>(e, "tab", tab);
            JsonView::Object(e)
        },
        OpBoxView::MultiplexorBox { id, op_map } => {
            let e = put_spec::<String>(e, "type", "MultiplexorBox"@);
            let e = put_spec::<BoxID>(e, "id", id);
            let e = e.push(("op_map"@, JsonView::Array(map_entry_documents(op_map))));
            JsonView::Object(e)
        },
        OpBoxView::MultiplexedRotationBox { id, op_map } => {
            let e = put_spec::<String>(e, "type", "MultiplexedRotationBox"@);
            let e = put_spec::<BoxID>(e, "id", id);
            let e = e.push(("op_map"@, JsonView::Array(map_entry_documents(op_map))));
            JsonView::Object(e)
        },
        OpBoxView::MultiplexedU2Box { id, op_map, impl_diag } => {
            let e = put_spec::<String>(e, "type", "MultiplexedU2Box"@);
            let e = put_spec::<BoxID>(e, "id", id);
            let e = e.push(("op_map"@, JsonView::Array(map_entry_documents(op_map))));
            let e = put_spec::<bool>(e, "impl_diag", impl_diag);
            JsonView::Object(e)
        },
        OpBoxView::MultiplexedTensoredU2Box { id, op_map } => {
            let e = put_spec::<String>(e, "type", "MultiplexedTensoredU2Box"@);
            let e = put_spec::<BoxID>(e, "id", id);
            let e = e.push(("op_map"@, JsonView::Array(map_entry_documents(op_map))));
            JsonView::Object(e)
        },
        OpBoxView::ToffoliBox { id, permutation, strat, rotation_axis } => {
            let e = put_spec::<String>(e, "type", "ToffoliBox"@);
            let e = put_spec::<BoxID>(e, "id", id);
            let e = put_spec::<Vec<(Vec<bool>, Vec<bool>)>>(e, "permutation", permutation);
            let e = put_spec::<ToffoliBoxSynthStrat>(e, "strat", strat);
            let e = put_opt_spec::<OpType>(e, "rotation_axis", rotation_axis);
            JsonView::Object(e)
        },
        OpBoxView::ConjugationBox { id, compute, action, uncompute } => {
            let e = put_spec::<String>(e, "type", "ConjugationBox"@);
            let e = put_spec::<BoxID>(e, "id", id);
            let e = e.push(("compute"@, encode_operation::<String>(*compute)));
            let e = e.push(("action"@, encode_operation::<String>(*action)));
            let e = push_opt(
                e,
                "uncompute"@,
                match uncompute {
                    Some(x) => Some(encode_operation::<String>(*x)),
                    None => None,
                },
            );
            JsonView::Object(e)
        },
        OpBoxView::DummyBox { id, n_qubits, n_bits, resource_data } => {
            let e = put_spec::<String>(e, "type", "DummyBox"@);
            let e = put_spec::<BoxID>(e, "id", id);
            let e = put_spec::<u32>(e, "n_qubits", n_qubits);
            let e = put_spec::<u32>(e, "n_bits", n_bits);
            let e = put_spec::<ResourceData>(e, "resource_data", resource_data);
            JsonView::Object(e)
        },
        OpBoxView::StatePreparationBox { id, statevector, is_inverse, with_initial_reset } => {
            let e = put_spec::<String>(e, "type", "StatePreparationBox"@);
            let e = put_spec::<BoxID>(e, "id", id);
            let e = put_spec::<Matrix<Number>>(e, "statevector", statevector);
            let e = put_spec::<bool>(e, "is_inverse", is_inverse);
            let e = put_spec::<bool>(e, "with_initial_reset", with_initial_reset);
            JsonView::Object(e)
        },
        OpBoxView::DiagonalBox { id, diagonal, upper_triangle } => {
            let e = put_spec::<String>(e, "type", "DiagonalBox"@);
            let e = put_spec::<BoxID>(e, "id", id);
            let e = put_spec::<Matrix<Number>>(e, "diagonal", diagonal);
            let e = put_spec::<bool>(e, "upper_triangle", upper_triangle);
            JsonView::Object(e)
        },
    }
}

/// What holds of every decoded box.
#[verifier::opaque]
pub open spec fn valid_box(v: OpBoxView) -> bool
    decreases v,
{
    match v {
        OpBoxView::CircBox { id, circuit } => {
            &&& BoxID::valid(id)
            &&& valid_circuit::<String>(circuit)
        },
        OpBoxView::Unitary1qBox { id, matrix } => {
            &&& BoxID::valid(id)
            &&& square(matrix, 2)
        },
        OpBoxView::Unitary2qBox { id, matrix } => {
            &&& BoxID::valid(id)
            &&& square(matrix, 4)
        },
        OpBoxView::Unitary3qBox { id, matrix } => {
            &&& BoxID::valid(id)
            &&& square(matrix, 8)
        },
        OpBoxView::ExpBox { id, matrix, .. } => {
            &&& BoxID::valid(id)
            &&& square(matrix, 4)
        },
        OpBoxView::PauliExpBox { id, .. } => {
            &&& BoxID::valid(id)
        },
        OpBoxView::PauliExpPairBox { id, .. } => {
            &&& BoxID::valid(id)
        },
        OpBoxView::PauliExpCommutingSetBox { id, .. } => {
            &&& BoxID::valid(id)
        },
        OpBoxView::TermSequenceBox { id, .. } => {
            &&& BoxID::valid(id)
        },
        OpBoxView::PhasePolyBox { id, .. } => {
            &&& BoxID::valid(id)
        },
        OpBoxView::StabiliserAssertionBox { id, .. } => {
            &&& BoxID::valid(id)
        },
        OpBoxView::ProjectorAssertionBox { id, .. } => {
            &&& BoxID::valid(id)
        },
        OpBoxView::CustomGate { id, gate, .. } => {
            &&& BoxID::valid(id)
            &&& valid_composite_gate(gate)
        },
        OpBoxView::QControlBox { id, op, .. } => {
            &&& BoxID::valid(id)
            &&& valid_operation::<String>(*op)
        },
        OpBoxView::ClassicalExpBox { id, .. } => {
            &&& BoxID::valid(id)
        },
        OpBoxView::UnitaryTableauBox { id, .. } => {
            &&& BoxID::valid(id)
        },
        OpBoxView::MultiplexorBox { id, op_map } => {
            &&& BoxID::valid(id)
            &&& valid_op_map(op_map)
        },
        OpBoxView::MultiplexedRotationBox { id, op_map } => {
            &&& BoxID::valid(id)
            &&& valid_op_map(op_map)
        },
        OpBoxView::MultiplexedU2Box { id, op_map, .. } => {
            &&& BoxID::valid(id)
            &&& valid_op_map(op_map)
        },
        OpBoxView::MultiplexedTensoredU2Box { id, op_map } => {
            &&& BoxID::valid(id)
            &&& valid_op_map(op_map)
        },
        OpBoxView::ToffoliBox { id, .. } => {
            &&& BoxID::valid(id)
        },
        OpBoxView::ConjugationBox { id, compute, action, uncompute } => {
            &&& BoxID::valid(id)
            &&& valid_operation::<String>(*compute)
            &&& valid_operation::<String>(*action)
            &&& (uncompute matches Some(x) ==> valid_operation::<String>(*x))
        },
        OpBoxView::DummyBox { id, resource_data, .. } => {
            &&& BoxID::valid(id)
            &&& ResourceData::valid(resource_data)
        },
        OpBoxView::StatePreparationBox { id, .. } => {
            &&& BoxID::valid(id)
        },
        OpBoxView::DiagonalBox { id, .. } => {
            &&& BoxID::valid(id)
        },
    }
}

impl OpBox {
    /// Encodes the value.
    pub fn to_json(&self) -> (j: Json)
        ensures
            j.deep_view() == encode_box(self.model()),
        decreases self,
    {
        proof {
            reveal(encode_box);
            reveal(OpBox::model);
        }
        let mut fields = Fields::new();
        match self {
            OpBox::CircBox { id, circuit } => {
                fields.put("type", Json::String("CircBox".to_owned()));
                put::<BoxID>(&mut fields, "id", id);
                fields.put("circuit", circuit.to_json());
            },
            OpBox::Unitary1qBox { id, matrix } => {
                fields.put("type", Json::String("Unitary1qBox".to_owned()));
                put::<BoxID>(&mut fields, "id", id);
                put::<Matrix<Number>>(&mut fields, "matrix", matrix);
            },
            OpBox::Unitary2qBox { id, matrix } => {
                fields.put("type", Json::String("Unitary2qBox".to_owned()));
                put::<BoxID>(&mut fields, "id", id);
                put::<Matrix<Number>>(&mut fields, "matrix", matrix);
            },
            OpBox::Unitary3qBox { id, matrix } => {
                fields.put("type", Json::String("Unitary3qBox".to_owned()));
                put::<BoxID>(&mut fields, "id", id);
                put::<Matrix<Number>>(&mut fields, "matrix", matrix);
            },
            OpBox::ExpBox { id, matrix, phase } => {
                fields.put("type", Json::String("ExpBox".to_owned()));
                put::<BoxID>(&mut fields, "id", id);
                put::<Matrix<Number>>(&mut fields, "matrix", matrix);
                put::<Number>(&mut fields, "phase", phase);
            },
            OpBox::PauliExpBox { id, paulis, phase, cx_config } => {
                fields.put("type", Json::String("PauliExpBox".to_owned()));
                put::<BoxID>(&mut fields, "id", id);
                put::<Vec<String>>(&mut fields, "paulis", paulis);
                put::<String>(&mut fields, "phase", phase);
                put::<String>(&mut fields, "cx_config", cx_config);
            },
            OpBox::PauliExpPairBox { id, paulis_pair, phase_pair, cx_config } => {
                fields.put("type", Json::String("PauliExpPairBox".to_owned()));
                put::<BoxID>(&mut fields, "id", id);
                put::<Vec<Vec<String>>>(&mut fields, "paulis_pair", paulis_pair);
                put::<Vec<String>>(&mut fields, "phase_pair", phase_pair);
                put::<String>(&mut fields, "cx_config", cx_config);
            },
            OpBox::PauliExpCommutingSetBox { id, pauli_gadgets, cx_config } => {
                fields.put("type", Json::String("PauliExpCommutingSetBox".to_owned()));
                put::<BoxID>(&mut fields, "id", id);
                put::<Vec<(Vec<String>, String)>>(&mut fields, "pauli_gadgets", pauli_gadgets);
                put::<String>(&mut fields, "cx_config", cx_config);
            },
            OpBox::TermSequenceBox {
                id,
                pauli_gadgets,
                synth_strategy,
                partition_strategy,
                graph_colouring,
                cx_config,
            } => {
                fields.put("type", Json::String("TermSequenceBox".to_owned()));
                put::<BoxID>(&mut fields, "id", id);
                put::<Vec<(Vec<String>, String)>>(&mut fields, "pauli_gadgets", pauli_gadgets);
                put::<PauliSynthStrat>(&mut fields, "synth_strategy", synth_strategy);
                put::<PauliPartitionStrat>(&mut fields, "partition_strategy", partition_strategy);
                put::<GraphColourMethod>(&mut fields, "graph_colouring", graph_colouring);
                put::<CXConfigType>(&mut fields, "cx_config", cx_config);
            },
            OpBox::PhasePolyBox {
                id,
                n_qubits,
                qubit_indices,
                phase_polynomial,
                linear_transformation,
            } => {
                fields.put("type", Json::String("PhasePolyBox".to_owned()));
                put::<BoxID>(&mut fields, "id", id);
                put::<u32>(&mut fields, "n_qubits", n_qubits);
                put::<Vec<(Register, u32)>>(&mut fields, "qubit_indices", qubit_indices);
                put::<Vec<Vec<(Bitstring, String)>>>(
                    &mut fields, "phase_polynomial", phase_polynomial,
                );
                put::<Matrix<bool>>(&mut fields, "linear_transformation", linear_transformation);
            },
            OpBox::StabiliserAssertionBox { id, stabilisers } => {
                fields.put("type", Json::String("StabiliserAssertionBox".to_owned()));
                put::<BoxID>(&mut fields, "id", id);
                put::<Vec<PauliStabiliser>>(&mut fields, "stabilisers", stabilisers);
            },
            OpBox::ProjectorAssertionBox { id, matrix } => {
                fields.put("type", Json::String("ProjectorAssertionBox".to_owned()));
                put::<BoxID>(&mut fields, "id", id);
                put::<Matrix<Number>>(&mut fields, "matrix", matrix);
            },
            OpBox::CustomGate { id, gate, params } => {
                fields.put("type", Json::String("CustomGate".to_owned()));
                put::<BoxID>(&mut fields, "id", id);
                fields.put("gate", gate.to_json());
                put::<Vec<String>>(&mut fields, "params", params);
            },
            OpBox::QControlBox { id, n_controls, op, control_state } => {
                fields.put("type", Json::String("QControlBox".to_owned()));
                put::<BoxID>(&mut fields, "id", id);
                put::<u32>(&mut fields, "n_controls", n_controls);
                fields.put("op", op.to_json());
                put::<u32>(&mut fields, "control_state", control_state);
            },
            OpBox::ClassicalExpBox { id, n_i, n_io, n_o, exp } => {
                fields.put("type", Json::String("ClassicalExpBox".to_owned()));
                put::<BoxID>(&mut fields, "id", id);
                put::<u32>(&mut fields, "n_i", n_i);
                put::<u32>(&mut fields, "n_io", n_io);
                put::<u32>(&mut fields, "n_o", n_o);
                put::<ClassicalExp>(&mut fields, "exp", exp);
            },
            OpBox::UnitaryTableauBox { id, tab } => {
                fields.put("type", Json::String("UnitaryTableauBox".to_owned()));
                put::<BoxID>(&mut fields, "id", id);
                put::<UnitaryTableau>(&mut fields, "tab", tab);
            },
            OpBox::MultiplexorBox { id, op_map } => {
                fields.put("type", Json::String("MultiplexorBox".to_owned()));
                put::<BoxID>(&mut fields, "id", id);
                fields.put("op_map", op_map_to_json(op_map));
            },
            OpBox::MultiplexedRotationBox { id, op_map } => {
                fields.put("type", Json::String("MultiplexedRotationBox".to_owned()));
                put::<BoxID>(&mut fields, "id", id);
                fields.put("op_map", op_map_to_json(op_map));
            },
            OpBox::MultiplexedU2Box { id, op_map, impl_diag } => {
                fields.put("type", Json::String("MultiplexedU2Box".to_owned()));
                put::<BoxID>(&mut fields, "id", id);
                fields.put("op_map", op_map_to_json(op_map));
                put::<bool>(&mut fields, "impl_diag", impl_diag);
            },
            OpBox::MultiplexedTensoredU2Box { id, op_map } => {
                fields.put("type", Json::String("MultiplexedTensoredU2Box".to_owned()));
                put::<BoxID>(&mut fields, "id", id);
                fields.put("op_map", op_map_to_json(op_map));
            },
            OpBox::ToffoliBox { id, permutation, strat, rotation_axis } => {
                fields.put("type", Json::String("ToffoliBox".to_owned()));
                put::<BoxID>(&mut fields, "id", id);
                put::<Vec<(Vec<bool>, Vec<bool>)>>(&mut fields, "permutation", permutation);
                put::<ToffoliBoxSynthStrat>(&mut fields, "strat", strat);
                put_opt::<OpType>(&mut fields, "rotation_axis", rotation_axis);
            },
            OpBox::ConjugationBox { id, compute, action, uncompute } => {
                fields.put("type", Json::String("ConjugationBox".to_owned()));
                put::<BoxID>(&mut fields, "id", id);
                fields.put("compute", compute.to_json());
                fields.put("action", action.to_json());
                match uncompute {
                    Some(x) => {
                        fields.put_opt("uncompute", Some(x.to_json()));
                    },
                    None => {
                        fields.put_opt("uncompute", None);
                    },
                }
            },
            OpBox::DummyBox { id, n_qubits, n_bits, resource_data } => {
                fields.put("type", Json::String("DummyBox".to_owned()));
                put::<BoxID>(&mut fields, "id", id);
                put::<u32>(&mut fields, "n_qubits", n_qubits);
                put::<u32>(&mut fields, "n_bits", n_bits);
                put::<ResourceData>(&mut fields, "resource_data", resource_data);
            },
            OpBox::StatePreparationBox { id, statevector, is_inverse, with_initial_reset } => {
                fields.put("type", Json::String("StatePreparationBox".to_owned()));
                put::<BoxID>(&mut fields, "id", id);
                put::<Matrix<Number>>(&mut fields, "statevector", statevector);
                put::<bool>(&mut fields, "is_inverse", is_inverse);
                put::<bool>(&mut fields, "with_initial_reset", with_initial_reset);
            },
            OpBox::DiagonalBox { id, diagonal, upper_triangle } => {
                fields.put("type", Json::String("DiagonalBox".to_owned()));
                put::<BoxID>(&mut fields, "id", id);
                put::<Matrix<Number>>(&mut fields, "diagonal", diagonal);
                put::<bool>(&mut fields, "upper_triangle", upper_triangle);
            },
        }
        fields.finish()
    }
}

/// A copy of a box has the value of what it copies.
pub proof fn lemma_box_copied(a: OpBox, b: OpBox)
    requires
        box_copied(a, b),
    ensures
        b.model() == a.model(),
{
    reveal(OpBox::model);
}

} // verus!
