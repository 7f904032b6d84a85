//! How a box is decoded.

use vstd::prelude::*;
use crate::circuit_json::{
    Bitstring, ClassicalExp, CompositeGate, Operation, Register, SerialCircuit,
};
use crate::circuit_json::circuit::decode_circuit;
use crate::circuit_json::gate::decode_composite_gate;
use crate::circuit_json::matrix::{Matrix, square_matrix, square_spec};
use crate::circuit_json::op_map::{decode_op_map, op_map_from_json};
use crate::circuit_json::operation::decode_operation;
use crate::codec::{
    agrees, DecodeError, defaulted, defaulted_spec, ErrorView, lift, optional, optional_spec,
    PathStep, required, required_spec,
};
use crate::json::{Json, JsonView, lemma_part_decreases, Number, part};
use crate::opbox::{OpBox, OpBoxView};
use crate::opbox::encode::valid_box;
use crate::opbox::id::BoxID;
use crate::opbox::kind::{BoxKind, default_true};
use crate::opbox::resource::ResourceData;
use crate::opbox::strategy::{
    CXConfigType, GraphColourMethod, PauliPartitionStrat, PauliSynthStrat, ToffoliBoxSynthStrat,
};
use crate::opbox::tableau::{PauliStabiliser, UnitaryTableau};
use crate::optype::OpType;

verus! {

/// The box that a document decodes to where its tag is `CircBox`.
#[verifier::opaque]
pub open spec fn decode_circ_box(j: JsonView) -> Result<OpBoxView, ErrorView>
    decreases j, 0int,
{
    if !(j is Object) {
        Err(ErrorView::mismatch())
    } else {
        let id = required_spec::<BoxID>(j, "id");
        let circuit = match part(j, "circuit"@) {
            None => Err(ErrorView::missing("circuit")),
            Some(p) => {
                proof {
                    lemma_part_decreases(j, "circuit"@);
                }
                lift(decode_circuit::<String>(p), PathStep::Field("circuit"))
            },
        };
        if id is Err {
            Err(id->Err_0)
        } else if circuit is Err {
            Err(circuit->Err_0)
        } else {
            Ok(OpBoxView::CircBox { id: id->Ok_0, circuit: circuit->Ok_0 })
        }
    }
}

/// The box that a document decodes to where its tag is `Unitary1qBox`.
#[verifier::opaque]
pub open spec fn decode_unitary1q_box(j: JsonView) -> Result<OpBoxView, ErrorView>
    decreases j, 0int,
{
    if !(j is Object) {
        Err(ErrorView::mismatch())
    } else {
        let id = required_spec::<BoxID>(j, "id");
        let matrix = square_spec(j, "matrix", 2);
        if id is Err {
            Err(id->Err_0)
        } else if matrix is Err {
            Err(matrix->Err_0)
        } else {
            Ok(OpBoxView::Unitary1qBox { id: id->Ok_0, matrix: matrix->Ok_0 })
        }
    }
}

/// The box that a document decodes to where its tag is `Unitary2qBox`.
#[verifier::opaque]
pub open spec fn decode_unitary2q_box(j: JsonView) -> Result<OpBoxView, ErrorView>
    decreases j, 0int,
{
    if !(j is Object) {
        Err(ErrorView::mismatch())
    } else {
        let id = required_spec::<BoxID>(j, "id");
        let matrix = square_spec(j, "matrix", 4);
        if id is Err {
            Err(id->Err_0)
        } else if matrix is Err {
            Err(matrix->Err_0)
        } else {
            Ok(OpBoxView::Unitary2qBox { id: id->Ok_0, matrix: matrix->Ok_0 })
        }
    }
}

/// The box that a document decodes to where its tag is `Unitary3qBox`.
#[verifier::opaque]
pub open spec fn decode_unitary3q_box(j: JsonView) -> Result<OpBoxView, ErrorView>
    decreases j, 0int,
{
    if !(j is Object) {
        Err(ErrorView::mismatch())
    } else {
        let id = required_spec::<BoxID>(j, "id");
        let matrix = square_spec(j, "matrix", 8);
        if id is Err {
            Err(id->Err_0)
        } else if matrix is Err {
            Err(matrix->Err_0)
        } else {
            Ok(OpBoxView::Unitary3qBox { id: id->Ok_0, matrix: matrix->Ok_0 })
        }
    }
}

/// The box that a document decodes to where its tag is `ExpBox`.
#[verifier::opaque]
pub open spec fn decode_exp_box(j: JsonView) -> Result<OpBoxView, ErrorView>
    decreases j, 0int,
{
    if !(j is Object) {
        Err(ErrorView::mismatch())
    } else {
        let id = required_spec::<BoxID>(j, "id");
        let matrix = square_spec(j, "matrix", 4);
        let phase = required_spec::<Number>(j, "phase");
        if id is Err {
            Err(id->Err_0)
        } else if matrix is Err {
            Err(matrix->Err_0)
        } else if phase is Err {
            Err(phase->Err_0)
        } else {
            Ok(OpBoxView::ExpBox { id: id->Ok_0, matrix: matrix->Ok_0, phase: phase->Ok_0 })
        }
    }
}

/// The box that a document decodes to where its tag is `PauliExpBox`.
#[verifier::opaque]
pub open spec fn decode_pauli_exp_box(j: JsonView) -> Result<OpBoxView, ErrorView>
    decreases j, 0int,
{
    if !(j is Object) {
        Err(ErrorView::mismatch())
    } else {
        let id = required_spec::<BoxID>(j, "id");
        let paulis = required_spec::<Vec<String>>(j, "paulis");
        let phase = required_spec::<String>(j, "phase");
        let cx_config = defaulted_spec::<String>(j, "cx_config", Seq::empty());
        if id is Err {
            Err(id->Err_0)
        } else if paulis is Err {
            Err(paulis->Err_0)
        } else if phase is Err {
            Err(phase->Err_0)
        } else if cx_config is Err {
            Err(cx_config->Err_0)
        } else {
            Ok(OpBoxView::PauliExpBox {
                id: id->Ok_0,
                paulis: paulis->Ok_0,
                phase: phase->Ok_0,
                cx_config: cx_config->Ok_0,
            })
        }
    }
}

/// The box that a document decodes to where its tag is `PauliExpPairBox`.
#[verifier::opaque]
pub open spec fn decode_pauli_exp_pair_box(j: JsonView) -> Result<OpBoxView, ErrorView>
    decreases j, 0int,
{
    if !(j is Object) {
        Err(ErrorView::mismatch())
    } else {
        let id = required_spec::<BoxID>(j, "id");
        let paulis_pair = required_spec::<Vec<Vec<String>>>(j, "paulis_pair");
        let phase_pair = required_spec::<Vec<String>>(j, "phase_pair");
        let cx_config = required_spec::<String>(j, "cx_config");
        if id is Err {
            Err(id->Err_0)
        } else if paulis_pair is Err {
            Err(paulis_pair->Err_0)
        } else if phase_pair is Err {
            Err(phase_pair->Err_0)
        } else if cx_config is Err {
            Err(cx_config->Err_0)
        } else {
            Ok(OpBoxView::PauliExpPairBox {
                id: id->Ok_0,
                paulis_pair: paulis_pair->Ok_0,
                phase_pair: phase_pair->Ok_0,
                cx_config: cx_config->Ok_0,
            })
        }
    }
}

/// The box that a document decodes to where its tag is `PauliExpCommutingSetBox`.
#[verifier::opaque]
pub open spec fn decode_pauli_exp_commuting_set_box(j: JsonView) -> Result<OpBoxView, ErrorView>
    decreases j, 0int,
{
    if !(j is Object) {
        Err(ErrorView::mismatch())
    } else {
        let id = required_spec::<BoxID>(j, "id");
        let pauli_gadgets = required_spec::<Vec<(Vec<String>, String)>>(j, "pauli_gadgets");
        let cx_config = required_spec::<String>(j, "cx_config");
        if id is Err {
            Err(id->Err_0)
        } else if pauli_gadgets is Err {
            Err(pauli_gadgets->Err_0)
        } else if cx_config is Err {
            Err(cx_config->Err_0)
        } else {
            Ok(OpBoxView::PauliExpCommutingSetBox {
                id: id->Ok_0,
                pauli_gadgets: pauli_gadgets->Ok_0,
                cx_config: cx_config->Ok_0,
            })
        }
    }
}

/// The box that a document decodes to where its tag is `TermSequenceBox`.
#[verifier::opaque]
pub open spec fn decode_term_sequence_box(j: JsonView) -> Result<OpBoxView, ErrorView>
    decreases j, 0int,
{
    if !(j is Object) {
        Err(ErrorView::mismatch())
    } else {
        let id = required_spec::<BoxID>(j, "id");
        let pauli_gadgets = required_spec::<Vec<(Vec<String>, String)>>(j, "pauli_gadgets");
        let synth_strategy = defaulted_spec::<PauliSynthStrat>(
            j, "synth_strategy", PauliSynthStrat::Sets,
        );
        let partition_strategy = defaulted_spec::<PauliPartitionStrat>(
            j, "partition_strategy", PauliPartitionStrat::CommutingSets,
        );
        let graph_colouring = defaulted_spec::<GraphColourMethod>(
            j, "graph_colouring", GraphColourMethod::Lazy,
        );
        let cx_config = defaulted_spec::<CXConfigType>(j, "cx_config", CXConfigType::Tree);
        if id is Err {
            Err(id->Err_0)
        } else if pauli_gadgets is Err {
            Err(pauli_gadgets->Err_0)
        } else if synth_strategy is Err {
            Err(synth_strategy->Err_0)
        } else if partition_strategy is Err {
            Err(partition_strategy->Err_0)
        } else if graph_colouring is Err {
            Err(graph_colouring->Err_0)
        } else if cx_config is Err {
            Err(cx_config->Err_0)
        } else {
            Ok(OpBoxView::TermSequenceBox {
                id: id->Ok_0,
                pauli_gadgets: pauli_gadgets->Ok_0,
                synth_strategy: synth_strategy->Ok_0,
                partition_strategy: partition_strategy->Ok_0,
                graph_colouring: graph_colouring->Ok_0,
                cx_config: cx_config->Ok_0,
            })
        }
    }
}

/// The box that a document decodes to where its tag is `PhasePolyBox`.
#[verifier::opaque]
pub open spec fn decode_phase_poly_box(j: JsonView) -> Result<OpBoxView, ErrorView>
    decreases j, 0int,
{
    if !(j is Object) {
        Err(ErrorView::mismatch())
    } else {
        let id = required_spec::<BoxID>(j, "id");
        let n_qubits = required_spec::<u32>(j, "n_qubits");
        let qubit_indices = required_spec::<Vec<(Register, u32)>>(j, "qubit_indices");
        let phase_polynomial = required_spec::<Vec<Vec<(Bitstring, String)>>>(
            j, "phase_polynomial",
        );
        let linear_transformation = required_spec::<Matrix<bool>>(j, "linear_transformation");
        if id is Err {
            Err(id->Err_0)
        } else if n_qubits is Err {
            Err(n_qubits->Err_0)
        } else if qubit_indices is Err {
            Err(qubit_indices->Err_0)
        } else if phase_polynomial is Err {
            Err(phase_polynomial->Err_0)
        } else if linear_transformation is Err {
            Err(linear_transformation->Err_0)
        } else {
            Ok(OpBoxView::PhasePolyBox {
                id: id->Ok_0,
                n_qubits: n_qubits->Ok_0,
                qubit_indices: qubit_indices->Ok_0,
                phase_polynomial: phase_polynomial->Ok_0,
                linear_transformation: linear_transformation->Ok_0,
            })
        }
    }
}

/// The box that a document decodes to where its tag is `StabiliserAssertionBox`.
#[verifier::opaque]
pub open spec fn decode_stabiliser_assertion_box(j: JsonView) -> Result<OpBoxView, ErrorView>
    decreases j, 0int,
{
    if !(j is Object) {
        Err(ErrorView::mismatch())
    } else {
        let id = required_spec::<BoxID>(j, "id");
        let stabilisers = required_spec::<Vec<PauliStabiliser>>(j, "stabilisers");
        if id is Err {
            Err(id->Err_0)
        } else if stabilisers is Err {
            Err(stabilisers->Err_0)
        } else {
            Ok(OpBoxView::StabiliserAssertionBox { id: id->Ok_0, stabilisers: stabilisers->Ok_0 })
        }
    }
}

/// The box that a document decodes to where its tag is `ProjectorAssertionBox`.
#[verifier::opaque]
pub open spec fn decode_projector_assertion_box(j: JsonView) -> Result<OpBoxView, ErrorView>
    decreases j, 0int,
{
    if !(j is Object) {
        Err(ErrorView::mismatch())
    } else {
        let id = required_spec::<BoxID>(j, "id");
        let matrix = required_spec::<Matrix<Number>>(j, "matrix");
        if id is Err {
            Err(id->Err_0)
        } else if matrix is Err {
            Err(matrix->Err_0)
        } else {
            Ok(OpBoxView::ProjectorAssertionBox { id: id->Ok_0, matrix: matrix->Ok_0 })
        }
    }
}

/// The box that a document decodes to where its tag is `CustomGate`.
#[verifier::opaque]
pub open spec fn decode_custom_gate(j: JsonView) -> Result<OpBoxView, ErrorView>
    decreases j, 0int,
{
    if !(j is Object) {
        Err(ErrorView::mismatch())
    } else {
        let id = required_spec::<BoxID>(j, "id");
        let gate = match part(j, "gate"@) {
            None => Err(ErrorView::missing("gate")),
            Some(p) => {
                proof {
                    lemma_part_decreases(j, "gate"@);
                }
                lift(decode_composite_gate(p), PathStep::Field("gate"))
            },
        };
        let params = required_spec::<Vec<String>>(j, "params");
        if id is Err {
            Err(id->Err_0)
        } else if gate is Err {
            Err(gate->Err_0)
        } else if params is Err {
            Err(params->Err_0)
        } else {
            Ok(OpBoxView::CustomGate { id: id->Ok_0, gate: gate->Ok_0, params: params->Ok_0 })
        }
    }
}

/// The box that a document decodes to where its tag is `QControlBox`.
#[verifier::opaque]
pub open spec fn decode_q_control_box(j: JsonView) -> Result<OpBoxView, ErrorView>
    decreases j, 0int,
{
    if !(j is Object) {
        Err(ErrorView::mismatch())
    } else {
        let id = required_spec::<BoxID>(j, "id");
        let n_controls = required_spec::<u32>(j, "n_controls");
        let op = match part(j, "op"@) {
            None => Err(ErrorView::missing("op")),
            Some(p) => {
                proof {
                    lemma_part_decreases(j, "op"@);
                }
                match lift(decode_operation::<String>(p), PathStep::Field("op")) {
                    Ok(x) => Ok(Box::new(x)),
                    Err(e) => Err(e),
                }
            },
        };
        let control_state = defaulted_spec::<u32>(j, "control_state", 0);
        if id is Err {
            Err(id->Err_0)
        } else if n_controls is Err {
            Err(n_controls->Err_0)
        } else if op is Err {
            Err(op->Err_0)
        } else if control_state is Err {
            Err(control_state->Err_0)
        } else {
            Ok(OpBoxView::QControlBox {
                id: id->Ok_0,
                n_controls: n_controls->Ok_0,
                op: op->Ok_0,
                control_state: control_state->Ok_0,
            })
        }
    }
}

/// The box that a document decodes to where its tag is `ClassicalExpBox`.
#[verifier::opaque]
pub open spec fn decode_classical_exp_box(j: JsonView) -> Result<OpBoxView, ErrorView>
    decreases j, 0int,
{
    if !(j is Object) {
        Err(ErrorView::mismatch())
    } else {
        let id = required_spec::<BoxID>(j, "id");
        let n_i = required_spec::<u32>(j, "n_i");
        let n_io = required_spec::<u32>(j, "n_io");
        let n_o = required_spec::<u32>(j, "n_o");
        let exp = required_spec::<ClassicalExp>(j, "exp");
        if id is Err {
            Err(id->Err_0)
        } else if n_i is Err {
            Err(n_i->Err_0)
        } else if n_io is Err {
            Err(n_io->Err_0)
        } else if n_o is Err {
            Err(n_o->Err_0)
        } else if exp is Err {
            Err(exp->Err_0)
        } else {
            Ok(OpBoxView::ClassicalExpBox {
                id: id->Ok_0,
                n_i: n_i->Ok_0,
                n_io: n_io->Ok_0,
                n_o: n_o->Ok_0,
                exp: exp->Ok_0,
            })
        }
    }
}

/// The box that a document decodes to where its tag is `UnitaryTableauBox`.
#[verifier::opaque]
pub open spec fn decode_unitary_tableau_box(j: JsonView) -> Result<OpBoxView, ErrorView>
    decreases j, 0int,
{
    if !(j is Object) {
        Err(ErrorView::mismatch())
    } else {
        let id = required_spec::<BoxID>(j, "id");
        let tab = required_spec::<UnitaryTableau>(j, "tab");
        if id is Err {
            Err(id->Err_0)
        } else if tab is Err {
            Err(tab->Err_0)
        } else {
            Ok(OpBoxView::UnitaryTableauBox { id: id->Ok_0, tab: tab->Ok_0 })
        }
    }
}

/// The box that a document decodes to where its tag is `MultiplexorBox`.
#[verifier::opaque]
pub open spec fn decode_multiplexor_box(j: JsonView) -> Result<OpBoxView, ErrorView>
    decreases j, 0int,
{
    if !(j is Object) {
        Err(ErrorView::mismatch())
    } else {
        let id = required_spec::<BoxID>(j, "id");
        let op_map = match part(j, "op_map"@) {
            None => Err(ErrorView::missing("op_map")),
            Some(p) => {
                proof {
                    lemma_part_decreases(j, "op_map"@);
                }
                lift(decode_op_map(p), PathStep::Field("op_map"))
            },
        };
        if id is Err {
            Err(id->Err_0)
        } else if op_map is Err {
            Err(op_map->Err_0)
        } else {
            Ok(OpBoxView::MultiplexorBox { id: id->Ok_0, op_map: op_map->Ok_0 })
        }
    }
}

/// The box that a document decodes to where its tag is `MultiplexedRotationBox`.
#[verifier::opaque]
pub open spec fn decode_multiplexed_rotation_box(j: JsonView) -> Result<OpBoxView, ErrorView>
    decreases j, 0int,
{
    if !(j is Object) {
        Err(ErrorView::mismatch())
    } else {
        let id = required_spec::<BoxID>(j, "id");
        let op_map = match part(j, "op_map"@) {
            None => Err(ErrorView::missing("op_map")),
            Some(p) => {
                proof {
                    lemma_part_decreases(j, "op_map"@);
                }
                lift(decode_op_map(p), PathStep::Field("op_map"))
            },
        };
        if id is Err {
            Err(id->Err_0)
        } else if op_map is Err {
            Err(op_map->Err_0)
        } else {
            Ok(OpBoxView::MultiplexedRotationBox { id: id->Ok_0, op_map: op_map->Ok_0 })
        }
    }
}

/// The box that a document decodes to where its tag is `MultiplexedU2Box`.
#[verifier::opaque]
pub open spec fn decode_multiplexed_u2box(j: JsonView) -> Result<OpBoxView, ErrorView>
    decreases j, 0int,
{
    if !(j is Object) {
        Err(ErrorView::mismatch())
    } else {
        let id = required_spec::<BoxID>(j, "id");
        let op_map = match part(j, "op_map"@) {
            None => Err(ErrorView::missing("op_map")),
            Some(p) => {
                proof {
                    lemma_part_decreases(j, "op_map"@);
                }
                lift(decode_op_map(p), PathStep::Field("op_map"))
            },
        };
        let impl_diag = defaulted_spec::<bool>(j, "impl_diag", true);
        if id is Err {
            Err(id->Err_0)
        } else if op_map is Err {
            Err(op_map->Err_0)
        } else if impl_diag is Err {
            Err(impl_diag->Err_0)
        } else {
            Ok(OpBoxView::MultiplexedU2Box {
                id: id->Ok_0,
                op_map: op_map->Ok_0,
                impl_diag: impl_diag->Ok_0,
            })
        }
    }
}

/// The box that a document decodes to where its tag is `MultiplexedTensoredU2Box`.
#[verifier::opaque]
pub open spec fn decode_multiplexed_tensored_u2box(j: JsonView) -> Result<OpBoxView, ErrorView>
    decreases j, 0int,
{
    if !(j is Object) {
        Err(ErrorView::mismatch())
    } else {
        let id = required_spec::<BoxID>(j, "id");
        let op_map = match part(j, "op_map"@) {
            None => Err(ErrorView::missing("op_map")),
            Some(p) => {
                proof {
                    lemma_part_decreases(j, "op_map"@);
                }
                lift(decode_op_map(p), PathStep::Field("op_map"))
            },
        };
        if id is Err {
            Err(id->Err_0)
        } else if op_map is Err {
            Err(op_map->Err_0)
        } else {
            Ok(OpBoxView::MultiplexedTensoredU2Box { id: id->Ok_0, op_map: op_map->Ok_0 })
        }
    }
}

/// The box that a document decodes to where its tag is `ToffoliBox`.
#[verifier::opaque]
pub open spec fn decode_toffoli_box(j: JsonView) -> Result<OpBoxView, ErrorView>
    decreases j, 0int,
{
    if !(j is Object) {
        Err(ErrorView::mismatch())
    } else {
        let id = required_spec::<BoxID>(j, "id");
        let permutation = required_spec::<Vec<(Vec<bool>, Vec<bool>)>>(j, "permutation");
        let strat = required_spec::<ToffoliBoxSynthStrat>(j, "strat");
        let rotation_axis = optional_spec::<OpType>(j, "rotation_axis");
        if id is Err {
            Err(id->Err_0)
        } else if permutation is Err {
            Err(permutation->Err_0)
        } else if strat is Err {
            Err(strat->Err_0)
        } else if rotation_axis is Err {
            Err(rotation_axis->Err_0)
        } else {
            Ok(OpBoxView::ToffoliBox {
                id: id->Ok_0,
                permutation: permutation->Ok_0,
                strat: strat->Ok_0,
                rotation_axis: rotation_axis->Ok_0,
            })
        }
    }
}

/// The box that a document decodes to where its tag is `ConjugationBox`.
#[verifier::opaque]
pub open spec fn decode_conjugation_box(j: JsonView) -> Result<OpBoxView, ErrorView>
    decreases j, 0int,
{
    if !(j is Object) {
        Err(ErrorView::mismatch())
    } else {
        let id = required_spec::<BoxID>(j, "id");
        let compute = match part(j, "compute"@) {
            None => Err(ErrorView::missing("compute")),
            Some(p) => {
                proof {
                    lemma_part_decreases(j, "compute"@);
                }
                match lift(decode_operation::<String>(p), PathStep::Field("compute")) {
                    Ok(x) => Ok(Box::new(x)),
                    Err(e) => Err(e),
                }
            },
        };
        let action = match part(j, "action"@) {
            None => Err(ErrorView::missing("action")),
            Some(p) => {
                proof {
                    lemma_part_decreases(j, "action"@);
                }
                match lift(decode_operation::<String>(p), PathStep::Field("action")) {
                    Ok(x) => Ok(Box::new(x)),
                    Err(e) => Err(e),
                }
            },
        };
        let uncompute = match part(j, "uncompute"@) {
            None => Ok(None),
            Some(JsonView::Null) => Ok(None),
            Some(p) => {
                proof {
                    lemma_part_decreases(j, "uncompute"@);
                }
                match lift(decode_operation::<String>(p), PathStep::Field("uncompute")) {
                    Ok(x) => Ok(Some(Box::new(x))),
                    Err(e) => Err(e),
                }
            },
        };
        if id is Err {
            Err(id->Err_0)
        } else if compute is Err {
            Err(compute->Err_0)
        } else if action is Err {
            Err(action->Err_0)
        } else if uncompute is Err {
            Err(uncompute->Err_0)
        } else {
            Ok(OpBoxView::ConjugationBox {
                id: id->Ok_0,
                compute: compute->Ok_0,
                action: action->Ok_0,
                uncompute: uncompute->Ok_0,
            })
        }
    }
}

/// The box that a document decodes to where its tag is `DummyBox`.
#[verifier::opaque]
pub open spec fn decode_dummy_box(j: JsonView) -> Result<OpBoxView, ErrorView>
    decreases j, 0int,
{
    if !(j is Object) {
        Err(ErrorView::mismatch())
    } else {
        let id = required_spec::<BoxID>(j, "id");
        let n_qubits = required_spec::<u32>(j, "n_qubits");
        let n_bits = required_spec::<u32>(j, "n_bits");
        let resource_data = required_spec::<ResourceData>(j, "resource_data");
        if id is Err {
            Err(id->Err_0)
        } else if n_qubits is Err {
            Err(n_qubits->Err_0)
        } else if n_bits is Err {
            Err(n_bits->Err_0)
        } else if resource_data is Err {
            Err(resource_data->Err_0)
        } else {
            Ok(OpBoxView::DummyBox {
                id: id->Ok_0,
                n_qubits: n_qubits->Ok_0,
                n_bits: n_bits->Ok_0,
                resource_data: resource_data->Ok_0,
            })
        }
    }
}

/// The box that a document decodes to where its tag is `StatePreparationBox`.
#[verifier::opaque]
pub open spec fn decode_state_preparation_box(j: JsonView) -> Result<OpBoxView, ErrorView>
    decreases j, 0int,
{
    if !(j is Object) {
        Err(ErrorView::mismatch())
    } else {
        let id = required_spec::<BoxID>(j, "id");
        let statevector = required_spec::<Matrix<Number>>(j, "statevector");
        let is_inverse = defaulted_spec::<bool>(j, "is_inverse", true);
        let with_initial_reset = defaulted_spec::<bool>(j, "with_initial_reset", true);
        if id is Err {
            Err(id->Err_0)
        } else if statevector is Err {
            Err(statevector->Err_0)
        } else if is_inverse is Err {
            Err(is_inverse->Err_0)
        } else if with_initial_reset is Err {
            Err(with_initial_reset->Err_0)
        } else {
            Ok(OpBoxView::StatePreparationBox {
                id: id->Ok_0,
                statevector: statevector->Ok_0,
                is_inverse: is_inverse->Ok_0,
                with_initial_reset: with_initial_reset->Ok_0,
            })
        }
    }
}

/// The box that a document decodes to where its tag is `DiagonalBox`.
#[verifier::opaque]
pub open spec fn decode_diagonal_box(j: JsonView) -> Result<OpBoxView, ErrorView>
    decreases j, 0int,
{
    if !(j is Object) {
        Err(ErrorView::mismatch())
    } else {
        let id = required_spec::<BoxID>(j, "id");
        let diagonal = required_spec::<Matrix<Number>>(j, "diagonal");
        let upper_triangle = defaulted_spec::<bool>(j, "upper_triangle", true);
        if id is Err {
            Err(id->Err_0)
        } else if diagonal is Err {
            Err(diagonal->Err_0)
        } else if upper_triangle is Err {
            Err(upper_triangle->Err_0)
        } else {
            Ok(OpBoxView::DiagonalBox {
                id: id->Ok_0,
                diagonal: diagonal->Ok_0,
                upper_triangle: upper_triangle->Ok_0,
            })
        }
    }
}

/// The box that a document decodes to: an object whose field `type` names the
/// kind of box, with the fields of that kind beside it.
#[verifier::opaque]
pub open spec fn decode_box(j: JsonView) -> Result<OpBoxView, ErrorView>
    decreases j, 1int,
{
    match required_spec::<String>(j, "type") {
        Err(e) => Err(e),
        Ok(tag) => match BoxKind::from_wire_name(tag) {
            None => Err(ErrorView::unknown_tag()),
            Some(kind) => match kind {
                BoxKind::CircBox => decode_circ_box(j),
                BoxKind::Unitary1qBox => decode_unitary1q_box(j),
                BoxKind::Unitary2qBox => decode_unitary2q_box(j),
                BoxKind::Unitary3qBox => decode_unitary3q_box(j),
                BoxKind::ExpBox => decode_exp_box(j),
                BoxKind::PauliExpBox => decode_pauli_exp_box(j),
                BoxKind::PauliExpPairBox => decode_pauli_exp_pair_box(j),
                BoxKind::PauliExpCommutingSetBox => decode_pauli_exp_commuting_set_box(j),
                BoxKind::TermSequenceBox => decode_term_sequence_box(j),
                BoxKind::PhasePolyBox => decode_phase_poly_box(j),
                BoxKind::StabiliserAssertionBox => decode_stabiliser_assertion_box(j),
                BoxKind::ProjectorAssertionBox => decode_projector_assertion_box(j),
                BoxKind::CustomGate => decode_custom_gate(j),
                BoxKind::QControlBox => decode_q_control_box(j),
                BoxKind::ClassicalExpBox => decode_classical_exp_box(j),
                BoxKind::UnitaryTableauBox => decode_unitary_tableau_box(j),
                BoxKind::MultiplexorBox => decode_multiplexor_box(j),
                BoxKind::MultiplexedRotationBox => decode_multiplexed_rotation_box(j),
                BoxKind::MultiplexedU2Box => decode_multiplexed_u2box(j),
                BoxKind::MultiplexedTensoredU2Box => decode_multiplexed_tensored_u2box(j),
                BoxKind::ToffoliBox => decode_toffoli_box(j),
                BoxKind::ConjugationBox => decode_conjugation_box(j),
                BoxKind::DummyBox => decode_dummy_box(j),
                BoxKind::StatePreparationBox => decode_state_preparation_box(j),
                BoxKind::DiagonalBox => decode_diagonal_box(j),
            },
        },
    }
}

/// Decodes a document as `OpBox::CircBox`.
pub fn circ_box_from_json(j: &Json) -> (r: Result<OpBox, DecodeError>)
    ensures
        agrees(r, decode_circ_box(j.deep_view())),
        r matches Ok(v) ==> valid_box(v.model()),
    decreases j, 0int,
{
    proof {
        reveal(decode_circ_box);
        reveal(OpBox::model);
        reveal(valid_box);
    }
    if !j.is_object() {
        return Err(DecodeError::mismatch());
    }
    let id: BoxID = match required::<BoxID>(j, "id") {
        Ok(v) => v,
        Err(e) => {
            return Err(e);
        },
    };
    let circuit: SerialCircuit = match j.get("circuit") {
        None => {
            return Err(DecodeError::missing("circuit"));
        },
        Some(p) => match SerialCircuit::<String>::from_json(p) {
            Ok(v) => v,
            Err(e) => {
                return Err(e.under(PathStep::Field("circuit")));
            },
        },
    };
    Ok(OpBox::CircBox { id, circuit })
}

/// Decodes a document as `OpBox::Unitary1qBox`.
pub fn unitary1q_box_from_json(j: &Json) -> (r: Result<OpBox, DecodeError>)
    ensures
        agrees(r, decode_unitary1q_box(j.deep_view())),
        r matches Ok(v) ==> valid_box(v.model()),
    decreases j, 0int,
{
    proof {
        reveal(decode_unitary1q_box);
        reveal(OpBox::model);
        reveal(valid_box);
    }
    if !j.is_object() {
        return Err(DecodeError::mismatch());
    }
    let id: BoxID = match required::<BoxID>(j, "id") {
        Ok(v) => v,
        Err(e) => {
            return Err(e);
        },
    };
    let matrix: Matrix<Number> = match square_matrix(j, "matrix", 2) {
        Ok(v) => v,
        Err(e) => {
            return Err(e);
        },
    };
    Ok(OpBox::Unitary1qBox { id, matrix })
}

/// Decodes a document as `OpBox::Unitary2qBox`.
pub fn unitary2q_box_from_json(j: &Json) -> (r: Result<OpBox, DecodeError>)
    ensures
        agrees(r, decode_unitary2q_box(j.deep_view())),
        r matches Ok(v) ==> valid_box(v.model()),
    decreases j, 0int,
{
    proof {
        reveal(decode_unitary2q_box);
        reveal(OpBox::model);
        reveal(valid_box);
    }
    if !j.is_object() {
        return Err(DecodeError::mismatch());
    }
    let id: BoxID = match required::<BoxID>(j, "id") {
        Ok(v) => v,
        Err(e) => {
            return Err(e);
        },
    };
    let matrix: Matrix<Number> = match square_matrix(j, "matrix", 4) {
        Ok(v) => v,
        Err(e) => {
            return Err(e);
        },
    };
    Ok(OpBox::Unitary2qBox { id, matrix })
}

/// Decodes a document as `OpBox::Unitary3qBox`.
pub fn unitary3q_box_from_json(j: &Json) -> (r: Result<OpBox, DecodeError>)
    ensures
        agrees(r, decode_unitary3q_box(j.deep_view())),
        r matches Ok(v) ==> valid_box(v.model()),
    decreases j, 0int,
{
    proof {
        reveal(decode_unitary3q_box);
        reveal(OpBox::model);
        reveal(valid_box);
    }
    if !j.is_object() {
        return Err(DecodeError::mismatch());
    }
    let id: BoxID = match required::<BoxID>(j, "id") {
        Ok(v) => v,
        Err(e) => {
            return Err(e);
        },
    };
    let matrix: Matrix<Number> = match square_matrix(j, "matrix", 8) {
        Ok(v) => v,
        Err(e) => {
            return Err(e);
        },
    };
    Ok(OpBox::Unitary3qBox { id, matrix })
}

/// Decodes a document as `OpBox::ExpBox`.
pub fn exp_box_from_json(j: &Json) -> (r: Result<OpBox, DecodeError>)
    ensures
        agrees(r, decode_exp_box(j.deep_view())),
        r matches Ok(v) ==> valid_box(v.model()),
    decreases j, 0int,
{
    proof {
        reveal(decode_exp_box);
        reveal(OpBox::model);
        reveal(valid_box);
    }
    if !j.is_object() {
        return Err(DecodeError::mismatch());
    }
    let id: BoxID = match required::<BoxID>(j, "id") {
        Ok(v) => v,
        Err(e) => {
            return Err(e);
        },
    };
    let matrix: Matrix<Number> = match square_matrix(j, "matrix", 4) {
        Ok(v) => v,
        Err(e) => {
            return Err(e);
        },
    };
    let phase: Number = match required::<Number>(j, "phase") {
        Ok(v) => v,
        Err(e) => {
            return Err(e);
        },
    };
    Ok(OpBox::ExpBox { id, matrix, phase })
}

/// Decodes a document as `OpBox::PauliExpBox`.
pub fn pauli_exp_box_from_json(j: &Json) -> (r: Result<OpBox, DecodeError>)
    ensures
        agrees(r, decode_pauli_exp_box(j.deep_view())),
        r matches Ok(v) ==> valid_box(v.model()),
    decreases j, 0int,
{
    proof {
        reveal(decode_pauli_exp_box);
        reveal(OpBox::model);
        reveal(valid_box);
    }
    if !j.is_object() {
        return Err(DecodeError::mismatch());
    }
    let id: BoxID = match required::<BoxID>(j, "id") {
        Ok(v) => v,
        Err(e) => {
            return Err(e);
        },
    };
    let paulis: Vec<String> = match required::<Vec<String>>(j, "paulis") {
        Ok(v) => v,
        Err(e) => {
            return Err(e);
        },
    };
    let phase: String = match required::<String>(j, "phase") {
        Ok(v) => v,
        Err(e) => {
            return Err(e);
        },
    };
    let cx_config: String = match defaulted::<String>(j, "cx_config", String::new()) {
        Ok(v) => v,
        Err(e) => {
            return Err(e);
        },
    };
    Ok(OpBox::PauliExpBox { id, paulis, phase, cx_config })
}

/// Decodes a document as `OpBox::PauliExpPairBox`.
pub fn pauli_exp_pair_box_from_json(j: &Json) -> (r: Result<OpBox, DecodeError>)
    ensures
        agrees(r, decode_pauli_exp_pair_box(j.deep_view())),
        r matches Ok(v) ==> valid_box(v.model()),
    decreases j, 0int,
{
    proof {
        reveal(decode_pauli_exp_pair_box);
        reveal(OpBox::model);
        reveal(valid_box);
    }
    if !j.is_object() {
        return Err(DecodeError::mismatch());
    }
    let id: BoxID = match required::<BoxID>(j, "id") {
        Ok(v) => v,
        Err(e) => {
            return Err(e);
        },
    };
    let paulis_pair: Vec<Vec<String>> = match required::<Vec<Vec<String>>>(j, "paulis_pair") {
        Ok(v) => v,
        Err(e) => {
            return Err(e);
        },
    };
    let phase_pair: Vec<String> = match required::<Vec<String>>(j, "phase_pair") {
        Ok(v) => v,
        Err(e) => {
            return Err(e);
        },
    };
    let cx_config: String = match required::<String>(j, "cx_config") {
        Ok(v) => v,
        Err(e) => {
            return Err(e);
        },
    };
    Ok(OpBox::PauliExpPairBox { id, paulis_pair, phase_pair, cx_config })
}

/// Decodes a document as `OpBox::PauliExpCommutingSetBox`.
pub fn pauli_exp_commuting_set_box_from_json(j: &Json) -> (r: Result<OpBox, DecodeError>)
    ensures
        agrees(r, decode_pauli_exp_commuting_set_box(j.deep_view())),
        r matches Ok(v) ==> valid_box(v.model()),
    decreases j, 0int,
{
    proof {
        reveal(decode_pauli_exp_commuting_set_box);
        reveal(OpBox::model);
        reveal(valid_box);
    }
    if !j.is_object() {
        return Err(DecodeError::mismatch());
    }
    let id: BoxID = match required::<BoxID>(j, "id") {
        Ok(v) => v,
        Err(e) => {
            return Err(e);
        },
    };
    let pauli_gadgets: Vec<(Vec<String>, String)> = match required::<Vec<(Vec<String>, String)>>(
        j, "pauli_gadgets",
    ) {
        Ok(v) => v,
        Err(e) => {
            return Err(e);
        },
    };
    let cx_config: String = match required::<String>(j, "cx_config") {
        Ok(v) => v,
        Err(e) => {
            return Err(e);
        },
    };
    Ok(OpBox::PauliExpCommutingSetBox { id, pauli_gadgets, cx_config })
}

/// Decodes a document as `OpBox::TermSequenceBox`.
pub fn term_sequence_box_from_json(j: &Json) -> (r: Result<OpBox, DecodeError>)
    ensures
        agrees(r, decode_term_sequence_box(j.deep_view())),
        r matches Ok(v) ==> valid_box(v.model()),
    decreases j, 0int,
{
    proof {
        reveal(decode_term_sequence_box);
        reveal(OpBox::model);
        reveal(valid_box);
    }
    if !j.is_object() {
        return Err(DecodeError::mismatch());
    }
    let id: BoxID = match required::<BoxID>(j, "id") {
        Ok(v) => v,
        Err(e) => {
            return Err(e);
        },
    };
    let pauli_gadgets: Vec<(Vec<String>, String)> = match required::<Vec<(Vec<String>, String)>>(
        j, "pauli_gadgets",
    ) {
        Ok(v) => v,
        Err(e) => {
            return Err(e);
        },
    };
    let synth_strategy: PauliSynthStrat = match defaulted::<PauliSynthStrat>(
        j, "synth_strategy", PauliSynthStrat::Sets,
    ) {
        Ok(v) => v,
        Err(e) => {
            return Err(e);
        },
    };
    let partition_strategy: PauliPartitionStrat = match defaulted::<PauliPartitionStrat>(
        j, "partition_strategy", PauliPartitionStrat::CommutingSets,
    ) {
        Ok(v) => v,
        Err(e) => {
            return Err(e);
        },
    };
    let graph_colouring: GraphColourMethod = match defaulted::<GraphColourMethod>(
        j, "graph_colouring", GraphColourMethod::Lazy,
    ) {
        Ok(v) => v,
        Err(e) => {
            return Err(e);
        },
    };
    let cx_config: CXConfigType = match defaulted::<CXConfigType>(
        j, "cx_config", CXConfigType::Tree,
    ) {
        Ok(v) => v,
        Err(e) => {
            return Err(e);
        },
    };
    Ok(OpBox::TermSequenceBox {
        id,
        pauli_gadgets,
        synth_strategy,
        partition_strategy,
        graph_colouring,
        cx_config,
    })
}

/// Decodes a document as `OpBox::PhasePolyBox`.
pub fn phase_poly_box_from_json(j: &Json) -> (r: Result<OpBox, DecodeError>)
    ensures
        agrees(r, decode_phase_poly_box(j.deep_view())),
        r matches Ok(v) ==> valid_box(v.model()),
    decreases j, 0int,
{
    proof {
        reveal(decode_phase_poly_box);
        reveal(OpBox::model);
        reveal(valid_box);
    }
    if !j.is_object() {
        return Err(DecodeError::mismatch());
    }
    let id: BoxID = match required::<BoxID>(j, "id") {
        Ok(v) => v,
        Err(e) => {
            return Err(e);
        },
    };
    let n_qubits: u32 = match required::<u32>(j, "n_qubits") {
        Ok(v) => v,
        Err(e) => {
            return Err(e);
        },
    };
    let qubit_indices: Vec<(Register, u32)> = match required::<Vec<(Register, u32)>>(
        j, "qubit_indices",
    ) {
        Ok(v) => v,
        Err(e) => {
            return Err(e);
        },
    };
    let phase_polynomial: Vec<Vec<(Bitstring, String)>> = match required::<Vec<Vec<(Bitstring, String)>>>(j, "phase_polynomial") {
        Ok(v) => v,
        Err(e) => {
            return Err(e);
        },
    };
    let linear_transformation: Matrix<bool> = match required::<Matrix<bool>>(
        j, "linear_transformation",
    ) {
        Ok(v) => v,
        Err(e) => {
            return Err(e);
        },
    };
    Ok(OpBox::PhasePolyBox { id, n_qubits, qubit_indices, phase_polynomial, linear_transformation })
}

/// Decodes a document as `OpBox::StabiliserAssertionBox`.
pub fn stabiliser_assertion_box_from_json(j: &Json) -> (r: Result<OpBox, DecodeError>)
    ensures
        agrees(r, decode_stabiliser_assertion_box(j.deep_view())),
        r matches Ok(v) ==> valid_box(v.model()),
    decreases j, 0int,
{
    proof {
        reveal(decode_stabiliser_assertion_box);
        reveal(OpBox::model);
        reveal(valid_box);
    }
    if !j.is_object() {
        return Err(DecodeError::mismatch());
    }
    let id: BoxID = match required::<BoxID>(j, "id") {
        Ok(v) => v,
        Err(e) => {
            return Err(e);
        },
    };
    let stabilisers: Vec<PauliStabiliser> = match required::<Vec<PauliStabiliser>>(
        j, "stabilisers",
    ) {
        Ok(v) => v,
        Err(e) => {
            return Err(e);
        },
    };
    Ok(OpBox::StabiliserAssertionBox { id, stabilisers })
}

/// Decodes a document as `OpBox::ProjectorAssertionBox`.
pub fn projector_assertion_box_from_json(j: &Json) -> (r: Result<OpBox, DecodeError>)
    ensures
        agrees(r, decode_projector_assertion_box(j.deep_view())),
        r matches Ok(v) ==> valid_box(v.model()),
    decreases j, 0int,
{
    proof {
        reveal(decode_projector_assertion_box);
        reveal(OpBox::model);
        reveal(valid_box);
    }
    if !j.is_object() {
        return Err(DecodeError::mismatch());
    }
    let id: BoxID = match required::<BoxID>(j, "id") {
        Ok(v) => v,
        Err(e) => {
            return Err(e);
        },
    };
    let matrix: Matrix<Number> = match required::<Matrix<Number>>(j, "matrix") {
        Ok(v) => v,
        Err(e) => {
            return Err(e);
        },
    };
    Ok(OpBox::ProjectorAssertionBox { id, matrix })
}

/// Decodes a document as `OpBox::CustomGate`.
pub fn custom_gate_from_json(j: &Json) -> (r: Result<OpBox, DecodeError>)
    ensures
        agrees(r, decode_custom_gate(j.deep_view())),
        r matches Ok(v) ==> valid_box(v.model()),
    decreases j, 0int,
{
    proof {
        reveal(decode_custom_gate);
        reveal(OpBox::model);
        reveal(valid_box);
    }
    if !j.is_object() {
        return Err(DecodeError::mismatch());
    }
    let id: BoxID = match required::<BoxID>(j, "id") {
        Ok(v) => v,
        Err(e) => {
            return Err(e);
        },
    };
    let gate: CompositeGate = match j.get("gate") {
        None => {
            return Err(DecodeError::missing("gate"));
        },
        Some(p) => match CompositeGate::from_json(p) {
            Ok(v) => v,
            Err(e) => {
                return Err(e.under(PathStep::Field("gate")));
            },
        },
    };
    let params: Vec<String> = match required::<Vec<String>>(j, "params") {
        Ok(v) => v,
        Err(e) => {
            return Err(e);
        },
    };
    Ok(OpBox::CustomGate { id, gate, params })
}

/// Decodes a document as `OpBox::QControlBox`.
pub fn q_control_box_from_json(j: &Json) -> (r: Result<OpBox, DecodeError>)
    ensures
        agrees(r, decode_q_control_box(j.deep_view())),
        r matches Ok(v) ==> valid_box(v.model()),
    decreases j, 0int,
{
    proof {
        reveal(decode_q_control_box);
        reveal(OpBox::model);
        reveal(valid_box);
    }
    if !j.is_object() {
        return Err(DecodeError::mismatch());
    }
    let id: BoxID = match required::<BoxID>(j, "id") {
        Ok(v) => v,
        Err(e) => {
            return Err(e);
        },
    };
    let n_controls: u32 = match required::<u32>(j, "n_controls") {
        Ok(v) => v,
        Err(e) => {
            return Err(e);
        },
    };
    let op: Box<Operation> = match j.get("op") {
        None => {
            return Err(DecodeError::missing("op"));
        },
        Some(p) => match Operation::<String>::from_json(p) {
            Ok(v) => Box::new(v),
            Err(e) => {
                return Err(e.under(PathStep::Field("op")));
            },
        },
    };
    let control_state: u32 = match defaulted::<u32>(j, "control_state", 0) {
        Ok(v) => v,
        Err(e) => {
            return Err(e);
        },
    };
    Ok(OpBox::QControlBox { id, n_controls, op, control_state })
}

/// Decodes a document as `OpBox::ClassicalExpBox`.
pub fn classical_exp_box_from_json(j: &Json) -> (r: Result<OpBox, DecodeError>)
    ensures
        agrees(r, decode_classical_exp_box(j.deep_view())),
        r matches Ok(v) ==> valid_box(v.model()),
    decreases j, 0int,
{
    proof {
        reveal(decode_classical_exp_box);
        reveal(OpBox::model);
        reveal(valid_box);
    }
    if !j.is_object() {
        return Err(DecodeError::mismatch());
    }
    let id: BoxID = match required::<BoxID>(j, "id") {
        Ok(v) => v,
        Err(e) => {
            return Err(e);
        },
    };
    let n_i: u32 = match required::<u32>(j, "n_i") {
        Ok(v) => v,
        Err(e) => {
            return Err(e);
        },
    };
    let n_io: u32 = match required::<u32>(j, "n_io") {
        Ok(v) => v,
        Err(e) => {
            return Err(e);
        },
    };
    let n_o: u32 = match required::<u32>(j, "n_o") {
        Ok(v) => v,
        Err(e) => {
            return Err(e);
        },
    };
    let exp: ClassicalExp = match required::<ClassicalExp>(j, "exp") {
        Ok(v) => v,
        Err(e) => {
            return Err(e);
        },
    };
    Ok(OpBox::ClassicalExpBox { id, n_i, n_io, n_o, exp })
}

/// Decodes a document as `OpBox::UnitaryTableauBox`.
pub fn unitary_tableau_box_from_json(j: &Json) -> (r: Result<OpBox, DecodeError>)
    ensures
        agrees(r, decode_unitary_tableau_box(j.deep_view())),
        r matches Ok(v) ==> valid_box(v.model()),
    decreases j, 0int,
{
    proof {
        reveal(decode_unitary_tableau_box);
        reveal(OpBox::model);
        reveal(valid_box);
    }
    if !j.is_object() {
        return Err(DecodeError::mismatch());
    }
    let id: BoxID = match required::<BoxID>(j, "id") {
        Ok(v) => v,
        Err(e) => {
            return Err(e);
        },
    };
    let tab: UnitaryTableau = match required::<UnitaryTableau>(j, "tab") {
        Ok(v) => v,
        Err(e) => {
            return Err(e);
        },
    };
    Ok(OpBox::UnitaryTableauBox { id, tab })
}

/// Decodes a document as `OpBox::MultiplexorBox`.
pub fn multiplexor_box_from_json(j: &Json) -> (r: Result<OpBox, DecodeError>)
    ensures
        agrees(r, decode_multiplexor_box(j.deep_view())),
        r matches Ok(v) ==> valid_box(v.model()),
    decreases j, 0int,
{
    proof {
        reveal(decode_multiplexor_box);
        reveal(OpBox::model);
        reveal(valid_box);
    }
    if !j.is_object() {
        return Err(DecodeError::mismatch());
    }
    let id: BoxID = match required::<BoxID>(j, "id") {
        Ok(v) => v,
        Err(e) => {
            return Err(e);
        },
    };
    let op_map: Vec<(Bitstring, Operation)> = match j.get("op_map") {
        None => {
            return Err(DecodeError::missing("op_map"));
        },
        Some(p) => match op_map_from_json(p) {
            Ok(v) => v,
            Err(e) => {
                return Err(e.under(PathStep::Field("op_map")));
            },
        },
    };
    Ok(OpBox::MultiplexorBox { id, op_map })
}

/// Decodes a document as `OpBox::MultiplexedRotationBox`.
pub fn multiplexed_rotation_box_from_json(j: &Json) -> (r: Result<OpBox, DecodeError>)
    ensures
        agrees(r, decode_multiplexed_rotation_box(j.deep_view())),
        r matches Ok(v) ==> valid_box(v.model()),
    decreases j, 0int,
{
    proof {
        reveal(decode_multiplexed_rotation_box);
        reveal(OpBox::model);
        reveal(valid_box);
    }
    if !j.is_object() {
        return Err(DecodeError::mismatch());
    }
    let id: BoxID = match required::<BoxID>(j, "id") {
        Ok(v) => v,
        Err(e) => {
            return Err(e);
        },
    };
    let op_map: Vec<(Bitstring, Operation)> = match j.get("op_map") {
        None => {
            return Err(DecodeError::missing("op_map"));
        },
        Some(p) => match op_map_from_json(p) {
            Ok(v) => v,
            Err(e) => {
                return Err(e.under(PathStep::Field("op_map")));
            },
        },
    };
    Ok(OpBox::MultiplexedRotationBox { id, op_map })
}

/// Decodes a document as `OpBox::MultiplexedU2Box`.
pub fn multiplexed_u2box_from_json(j: &Json) -> (r: Result<OpBox, DecodeError>)
    ensures
        agrees(r, decode_multiplexed_u2box(j.deep_view())),
        r matches Ok(v) ==> valid_box(v.model()),
    decreases j, 0int,
{
    proof {
        reveal(decode_multiplexed_u2box);
        reveal(OpBox::model);
        reveal(valid_box);
    }
    if !j.is_object() {
        return Err(DecodeError::mismatch());
    }
    let id: BoxID = match required::<BoxID>(j, "id") {
        Ok(v) => v,
        Err(e) => {
            return Err(e);
        },
    };
    let op_map: Vec<(Bitstring, Operation)> = match j.get("op_map") {
        None => {
            return Err(DecodeError::missing("op_map"));
        },
        Some(p) => match op_map_from_json(p) {
            Ok(v) => v,
            Err(e) => {
                return Err(e.under(PathStep::Field("op_map")));
            },
        },
    };
    let impl_diag: bool = match defaulted::<bool>(j, "impl_diag", default_true()) {
        Ok(v) => v,
        Err(e) => {
            return Err(e);
        },
    };
    Ok(OpBox::MultiplexedU2Box { id, op_map, impl_diag })
}

/// Decodes a document as `OpBox::MultiplexedTensoredU2Box`.
pub fn multiplexed_tensored_u2box_from_json(j: &Json) -> (r: Result<OpBox, DecodeError>)
    ensures
        agrees(r, decode_multiplexed_tensored_u2box(j.deep_view())),
        r matches Ok(v) ==> valid_box(v.model()),
    decreases j, 0int,
{
    proof {
        reveal(decode_multiplexed_tensored_u2box);
        reveal(OpBox::model);
        reveal(valid_box);
    }
    if !j.is_object() {
        return Err(DecodeError::mismatch());
    }
    let id: BoxID = match required::<BoxID>(j, "id") {
        Ok(v) => v,
        Err(e) => {
            return Err(e);
        },
    };
    let op_map: Vec<(Bitstring, Operation)> = match j.get("op_map") {
        None => {
            return Err(DecodeError::missing("op_map"));
        },
        Some(p) => match op_map_from_json(p) {
            Ok(v) => v,
            Err(e) => {
                return Err(e.under(PathStep::Field("op_map")));
            },
        },
    };
    Ok(OpBox::MultiplexedTensoredU2Box { id, op_map })
}

/// Decodes a document as `OpBox::ToffoliBox`.
pub fn toffoli_box_from_json(j: &Json) -> (r: Result<OpBox, DecodeError>)
    ensures
        agrees(r, decode_toffoli_box(j.deep_view())),
        r matches Ok(v) ==> valid_box(v.model()),
    decreases j, 0int,
{
    proof {
        reveal(decode_toffoli_box);
        reveal(OpBox::model);
        reveal(valid_box);
    }
    if !j.is_object() {
        return Err(DecodeError::mismatch());
    }
    let id: BoxID = match required::<BoxID>(j, "id") {
        Ok(v) => v,
        Err(e) => {
            return Err(e);
        },
    };
    let permutation: Vec<(Vec<bool>, Vec<bool>)> = match required::<Vec<(Vec<bool>, Vec<bool>)>>(
        j, "permutation",
    ) {
        Ok(v) => v,
        Err(e) => {
            return Err(e);
        },
    };
    let strat: ToffoliBoxSynthStrat = match required::<ToffoliBoxSynthStrat>(j, "strat") {
        Ok(v) => v,
        Err(e) => {
            return Err(e);
        },
    };
    let rotation_axis: Option<OpType> = match optional::<OpType>(j, "rotation_axis") {
        Ok(v) => v,
        Err(e) => {
            return Err(e);
        },
    };
    Ok(OpBox::ToffoliBox { id, permutation, strat, rotation_axis })
}

/// Decodes a document as `OpBox::ConjugationBox`.
pub fn conjugation_box_from_json(j: &Json) -> (r: Result<OpBox, DecodeError>)
    ensures
        agrees(r, decode_conjugation_box(j.deep_view())),
        r matches Ok(v) ==> valid_box(v.model()),
    decreases j, 0int,
{
    proof {
        reveal(decode_conjugation_box);
        reveal(OpBox::model);
        reveal(valid_box);
    }
    if !j.is_object() {
        return Err(DecodeError::mismatch());
    }
    let id: BoxID = match required::<BoxID>(j, "id") {
        Ok(v) => v,
        Err(e) => {
            return Err(e);
        },
    };
    let compute: Box<Operation> = match j.get("compute") {
        None => {
            return Err(DecodeError::missing("compute"));
        },
        Some(p) => match Operation::<String>::from_json(p) {
            Ok(v) => Box::new(v),
            Err(e) => {
                return Err(e.under(PathStep::Field("compute")));
            },
        },
    };
    let action: Box<Operation> = match j.get("action") {
        None => {
            return Err(DecodeError::missing("action"));
        },
        Some(p) => match Operation::<String>::from_json(p) {
            Ok(v) => Box::new(v),
            Err(e) => {
                return Err(e.under(PathStep::Field("action")));
            },
        },
    };
    let uncompute: Option<Box<Operation>> = match j.get("uncompute") {
        None => None,
        Some(Json::Null) => None,
        Some(p) => match Operation::<String>::from_json(p) {
            Ok(v) => Some(Box::new(v)),
            Err(e) => {
                return Err(e.under(PathStep::Field("uncompute")));
            },
        },
    };
    Ok(OpBox::ConjugationBox { id, compute, action, uncompute })
}

/// Decodes a document as `OpBox::DummyBox`.
pub fn dummy_box_from_json(j: &Json) -> (r: Result<OpBox, DecodeError>)
    ensures
        agrees(r, decode_dummy_box(j.deep_view())),
        r matches Ok(v) ==> valid_box(v.model()),
    decreases j, 0int,
{
    proof {
        reveal(decode_dummy_box);
        reveal(OpBox::model);
        reveal(valid_box);
    }
    if !j.is_object() {
        return Err(DecodeError::mismatch());
    }
    let id: BoxID = match required::<BoxID>(j, "id") {
        Ok(v) => v,
        Err(e) => {
            return Err(e);
        },
    };
    let n_qubits: u32 = match required::<u32>(j, "n_qubits") {
        Ok(v) => v,
        Err(e) => {
            return Err(e);
        },
    };
    let n_bits: u32 = match required::<u32>(j, "n_bits") {
        Ok(v) => v,
        Err(e) => {
            return Err(e);
        },
    };
    let resource_data: ResourceData = match required::<ResourceData>(j, "resource_data") {
        Ok(v) => v,
        Err(e) => {
            return Err(e);
        },
    };
    Ok(OpBox::DummyBox { id, n_qubits, n_bits, resource_data })
}

/// Decodes a document as `OpBox::StatePreparationBox`.
pub fn state_preparation_box_from_json(j: &Json) -> (r: Result<OpBox, DecodeError>)
    ensures
        agrees(r, decode_state_preparation_box(j.deep_view())),
        r matches Ok(v) ==> valid_box(v.model()),
    decreases j, 0int,
{
    proof {
        reveal(decode_state_preparation_box);
        reveal(OpBox::model);
        reveal(valid_box);
    }
    if !j.is_object() {
        return Err(DecodeError::mismatch());
    }
    let id: BoxID = match required::<BoxID>(j, "id") {
        Ok(v) => v,
        Err(e) => {
            return Err(e);
        },
    };
    let statevector: Matrix<Number> = match required::<Matrix<Number>>(j, "statevector") {
        Ok(v) => v,
        Err(e) => {
            return Err(e);
        },
    };
    let is_inverse: bool = match defaulted::<bool>(j, "is_inverse", default_true()) {
        Ok(v) => v,
        Err(e) => {
            return Err(e);
        },
    };
    let with_initial_reset: bool = match defaulted::<bool>(
        j, "with_initial_reset", default_true(),
    ) {
        Ok(v) => v,
        Err(e) => {
            return Err(e);
        },
    };
    Ok(OpBox::StatePreparationBox { id, statevector, is_inverse, with_initial_reset })
}

/// Decodes a document as `OpBox::DiagonalBox`.
pub fn diagonal_box_from_json(j: &Json) -> (r: Result<OpBox, DecodeError>)
    ensures
        agrees(r, decode_diagonal_box(j.deep_view())),
        r matches Ok(v) ==> valid_box(v.model()),
    decreases j, 0int,
{
    proof {
        reveal(decode_diagonal_box);
        reveal(OpBox::model);
        reveal(valid_box);
    }
    if !j.is_object() {
        return Err(DecodeError::mismatch());
    }
    let id: BoxID = match required::<BoxID>(j, "id") {
        Ok(v) => v,
        Err(e) => {
            return Err(e);
        },
    };
    let diagonal: Matrix<Number> = match required::<Matrix<Number>>(j, "diagonal") {
        Ok(v) => v,
        Err(e) => {
            return Err(e);
        },
    };
    let upper_triangle: bool = match defaulted::<bool>(j, "upper_triangle", default_true()) {
        Ok(v) => v,
        Err(e) => {
            return Err(e);
        },
    };
    Ok(OpBox::DiagonalBox { id, diagonal, upper_triangle })
}

impl OpBox {
    /// Decodes a box.
    pub fn from_json(j: &Json) -> (r: Result<OpBox, DecodeError>)
        ensures
            agrees(r, decode_box(j.deep_view())),
            r matches Ok(v) ==> valid_box(v.model()),
        decreases j, 1int,
    {
        proof {
            reveal(decode_box);
        }
        let tag: String = match required::<String>(j, "type") {
            Ok(v) => v,
            Err(e) => {
                return Err(e);
            },
        };
        match BoxKind::parse_wire(tag.as_str()) {
            None => Err(DecodeError::unknown_tag()),
            Some(kind) => match kind {
                BoxKind::CircBox => {
                    proof {
                        reveal(decode_circ_box);
                    }
                    circ_box_from_json(j)
                },
                BoxKind::Unitary1qBox => {
                    proof {
                        reveal(decode_unitary1q_box);
                    }
                    unitary1q_box_from_json(j)
                },
                BoxKind::Unitary2qBox => {
                    proof {
                        reveal(decode_unitary2q_box);
                    }
                    unitary2q_box_from_json(j)
                },
                BoxKind::Unitary3qBox => {
                    proof {
                        reveal(decode_unitary3q_box);
                    }
                    unitary3q_box_from_json(j)
                },
                BoxKind::ExpBox => {
                    proof {
                        reveal(decode_exp_box);
                    }
                    exp_box_from_json(j)
                },
                BoxKind::PauliExpBox => {
                    proof {
                        reveal(decode_pauli_exp_box);
                    }
                    pauli_exp_box_from_json(j)
                },
                BoxKind::PauliExpPairBox => {
                    proof {
                        reveal(decode_pauli_exp_pair_box);
                    }
                    pauli_exp_pair_box_from_json(j)
                },
                BoxKind::PauliExpCommutingSetBox => {
                    proof {
                        reveal(decode_pauli_exp_commuting_set_box);
                    }
                    pauli_exp_commuting_set_box_from_json(j)
                },
                BoxKind::TermSequenceBox => {
                    proof {
                        reveal(decode_term_sequence_box);
                    }
                    term_sequence_box_from_json(j)
                },
                BoxKind::PhasePolyBox => {
                    proof {
                        reveal(decode_phase_poly_box);
                    }
                    phase_poly_box_from_json(j)
                },
                BoxKind::StabiliserAssertionBox => {
                    proof {
                        reveal(decode_stabiliser_assertion_box);
                    }
                    stabiliser_assertion_box_from_json(j)
                },
                BoxKind::ProjectorAssertionBox => {
                    proof {
                        reveal(decode_projector_assertion_box);
                    }
                    projector_assertion_box_from_json(j)
                },
                BoxKind::CustomGate => {
                    proof {
                        reveal(decode_custom_gate);
                    }
                    custom_gate_from_json(j)
                },
                BoxKind::QControlBox => {
                    proof {
                        reveal(decode_q_control_box);
                    }
                    q_control_box_from_json(j)
                },
                BoxKind::ClassicalExpBox => {
                    proof {
                        reveal(decode_classical_exp_box);
                    }
                    classical_exp_box_from_json(j)
                },
                BoxKind::UnitaryTableauBox => {
                    proof {
                        reveal(decode_unitary_tableau_box);
                    }
                    unitary_tableau_box_from_json(j)
                },
                BoxKind::MultiplexorBox => {
                    proof {
                        reveal(decode_multiplexor_box);
                    }
                    multiplexor_box_from_json(j)
                },
                BoxKind::MultiplexedRotationBox => {
                    proof {
                        reveal(decode_multiplexed_rotation_box);
                    }
                    multiplexed_rotation_box_from_json(j)
                },
                BoxKind::MultiplexedU2Box => {
                    proof {
                        reveal(decode_multiplexed_u2box);
                    }
                    multiplexed_u2box_from_json(j)
                },
                BoxKind::MultiplexedTensoredU2Box => {
                    proof {
                        reveal(decode_multiplexed_tensored_u2box);
                    }
                    multiplexed_tensored_u2box_from_json(j)
                },
                BoxKind::ToffoliBox => {
                    proof {
                        reveal(decode_toffoli_box);
                    }
                    toffoli_box_from_json(j)
                },
                BoxKind::ConjugationBox => {
                    proof {
                        reveal(decode_conjugation_box);
                    }
                    conjugation_box_from_json(j)
                },
                BoxKind::DummyBox => {
                    proof {
                        reveal(decode_dummy_box);
                    }
                    dummy_box_from_json(j)
                },
                BoxKind::StatePreparationBox => {
                    proof {
                        reveal(decode_state_preparation_box);
                    }
                    state_preparation_box_from_json(j)
                },
                BoxKind::DiagonalBox => {
                    proof {
                        reveal(decode_diagonal_box);
                    }
                    diagonal_box_from_json(j)
                },
            },
        }
    }
}

} // verus!
