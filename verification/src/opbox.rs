//! Boxes: the payloads of operations that are defined by data of their own.

pub mod decode;
pub mod encode;
pub mod id;
pub mod kind;
pub mod resource;
pub mod round_trip;
pub mod strategy;
pub mod tableau;

pub use id::BoxID;
pub use kind::default_true;
pub use resource::{OpTypeBounds, ResourceBounds, ResourceData, ResourceDataView};
pub use strategy::{
    CXConfigType, GraphColourMethod, PauliPartitionStrat, PauliSynthStrat, ToffoliBoxSynthStrat,
};
pub use tableau::{
    PauliStabiliser, PauliStabiliserView, SymplecticTableau, SymplecticTableauView, UnitaryTableau,
    UnitaryTableauView,
};

use vstd::prelude::*;
use crate::circuit_json::{
    Bitstring, ClassicalExp, ClassicalExpView, CompositeGate, CompositeGateView, Operation,
    OperationView, Register, SerialCircuit, SerialCircuitView,
};
use crate::circuit_json::matrix::Matrix;
use crate::circuit_json::op_map::map_entry_models;
use crate::json::Number;
use crate::optype::OpType;

verus! {

/// A box: the payload of an operation that is defined by data of its own.
/// Every box has an identifier.
#[derive(Debug, PartialEq)]
#[non_exhaustive]
pub enum OpBox {
    /// An operation defined by a circuit.
    CircBox {
        /// The identifier of the box.
        id: BoxID,
        /// The circuit.
        circuit: SerialCircuit,
    },
    /// An operation on one qubit, defined by its matrix.
    Unitary1qBox {
        /// The identifier of the box.
        id: BoxID,
        /// The matrix, of 2 rows and 2 columns.
        matrix: Matrix<Number>,
    },
    /// An operation on two qubits, defined by its matrix.
    Unitary2qBox {
        /// The identifier of the box.
        id: BoxID,
        /// The matrix, of 4 rows and 4 columns.
        matrix: Matrix<Number>,
    },
    /// An operation on three qubits, defined by its matrix.
    Unitary3qBox {
        /// The identifier of the box.
        id: BoxID,
        /// The matrix, of 8 rows and 8 columns.
        matrix: Matrix<Number>,
    },
    /// An operation on two qubits, defined as the exponential of a hermitian
    /// matrix times a phase.
    ExpBox {
        /// The identifier of the box.
        id: BoxID,
        /// The matrix, of 4 rows and 4 columns.
        matrix: Matrix<Number>,
        /// The phase.
        phase: Number,
    },
    /// The exponential of a tensor of Pauli operators.
    PauliExpBox {
        /// The identifier of the box.
        id: BoxID,
        /// The Pauli operators, one for each qubit.
        paulis: Vec<String>,
        /// The phase, as an expression.
        phase: String,
        /// How the CX gates are laid out. Empty where the document names none.
        cx_config: String,
    },
    /// Two exponentials of Pauli tensors, one after the other.
    PauliExpPairBox {
        /// The identifier of the box.
        id: BoxID,
        /// The Pauli operators of each of the two.
        paulis_pair: Vec<Vec<String>>,
        /// The phase of each of the two, as an expression.
        phase_pair: Vec<String>,
        /// How the CX gates are laid out.
        cx_config: String,
    },
    /// Exponentials of Pauli tensors that commute.
    PauliExpCommutingSetBox {
        /// The identifier of the box.
        id: BoxID,
        /// The gadgets: Pauli strings, each with its phase.
        pauli_gadgets: Vec<(Vec<String>, String)>,
        /// How the CX gates are laid out.
        cx_config: String,
    },
    /// Exponentials of Pauli tensors that may be built in any order.
    TermSequenceBox {
        /// The identifier of the box.
        id: BoxID,
        /// The gadgets: Pauli strings, each with its phase.
        pauli_gadgets: Vec<(Vec<String>, String)>,
        /// How the gadgets are built. `Sets` where the document names none.
        synth_strategy: PauliSynthStrat,
        /// How the tensors are gathered. `CommutingSets` where the document
        /// names none.
        partition_strategy: PauliPartitionStrat,
        /// How the graph is coloured. `Lazy` where the document names none.
        graph_colouring: GraphColourMethod,
        /// How the CX gates are laid out. `Tree` where the document names none.
        cx_config: CXConfigType,
    },
    /// A circuit of CX and Rz gates, as a phase polynomial and a linear
    /// transformation.
    PhasePolyBox {
        /// The identifier of the box.
        id: BoxID,
        /// Number of qubits.
        n_qubits: u32,
        /// For each qubit, its position.
        qubit_indices: Vec<(Register, u32)>,
        /// The phase polynomial: strings of bits, each with its coefficient.
        phase_polynomial: Vec<Vec<(Bitstring, String)>>,
        /// The linear transformation, a matrix of bits.
        linear_transformation: Matrix<bool>,
    },
    /// An assertion that a state is stabilised by given Pauli strings.
    StabiliserAssertionBox {
        /// The identifier of the box.
        id: BoxID,
        /// The Pauli strings.
        stabilisers: Vec<PauliStabiliser>,
    },
    /// An assertion that a state lies in the range of a projector.
    ProjectorAssertionBox {
        /// The identifier of the box.
        id: BoxID,
        /// The projector.
        matrix: Matrix<Number>,
    },
    /// A gate defined by a circuit with parameters.
    CustomGate {
        /// The identifier of the box.
        id: BoxID,
        /// The definition.
        gate: CompositeGate,
        /// The values of the parameters, as expressions.
        params: Vec<String>,
    },
    /// An operation under quantum control.
    QControlBox {
        /// The identifier of the box.
        id: BoxID,
        /// Number of control qubits.
        n_controls: u32,
        /// The operation.
        op: Box<Operation>,
        /// The state of the controls at which the operation applies. Zero
        /// where the document names none.
        control_state: u32,
    },
    /// A classical expression of the older form.
    ClassicalExpBox {
        /// The identifier of the box.
        id: BoxID,
        /// Number of bits that are only read.
        n_i: u32,
        /// Number of bits that are read and written.
        n_io: u32,
        /// Number of bits that are only written.
        n_o: u32,
        /// The expression.
        exp: ClassicalExp,
    },
    /// A Clifford operation, defined by its tableau.
    UnitaryTableauBox {
        /// The identifier of the box.
        id: BoxID,
        /// The tableau.
        tab: UnitaryTableau,
    },
    /// An operation chosen by the state of control qubits.
    MultiplexorBox {
        /// The identifier of the box.
        id: BoxID,
        /// For each pattern of the control bits, the operation that is applied.
        op_map: Vec<(Bitstring, Operation)>,
    },
    /// A rotation chosen by the state of control qubits.
    MultiplexedRotationBox {
        /// The identifier of the box.
        id: BoxID,
        /// For each pattern of the control bits, the operation that is applied.
        op_map: Vec<(Bitstring, Operation)>,
    },
    /// A one-qubit operation chosen by the state of control qubits.
    MultiplexedU2Box {
        /// The identifier of the box.
        id: BoxID,
        /// For each pattern of the control bits, the operation that is applied.
        op_map: Vec<(Bitstring, Operation)>,
        /// Whether the last diagonal is built. True where the document says
        /// nothing.
        impl_diag: bool,
    },
    /// A tensor of one-qubit operations chosen by the state of control qubits.
    MultiplexedTensoredU2Box {
        /// The identifier of the box.
        id: BoxID,
        /// For each pattern of the control bits, the operation that is applied.
        op_map: Vec<(Bitstring, Operation)>,
    },
    /// A permutation of classical basis states.
    ToffoliBox {
        /// The identifier of the box.
        id: BoxID,
        /// The permutation: pairs of a state and its image.
        permutation: Vec<(Vec<bool>, Vec<bool>)>,
        /// How the box is built.
        strat: ToffoliBoxSynthStrat,
        /// The axis of the multiplexed rotations, `Rx` or `Ry`, for the
        /// strategy `Matching`.
        rotation_axis: Option<OpType>,
    },
    /// A computation, an action, and the computation undone.
    ConjugationBox {
        /// The identifier of the box.
        id: BoxID,
        /// The computation.
        compute: Box<Operation>,
        /// The action.
        action: Box<Operation>,
        /// What undoes the computation, where it is not the inverse.
        uncompute: Option<Box<Operation>>,
    },
    /// A stand-in that only records resources. A circuit that holds one
    /// cannot be run.
    DummyBox {
        /// The identifier of the box.
        id: BoxID,
        /// Number of qubits.
        n_qubits: u32,
        /// Number of bits.
        n_bits: u32,
        /// The resources.
        resource_data: ResourceData,
    },
    /// A preparation of a state from the zero state.
    StatePreparationBox {
        /// The identifier of the box.
        id: BoxID,
        /// The state.
        statevector: Matrix<Number>,
        /// Whether the inverse of the preparation is meant. True where the
        /// document says nothing.
        is_inverse: bool,
        /// Whether the qubits are reset first. True where the document says
        /// nothing.
        with_initial_reset: bool,
    },
    /// A diagonal operation.
    DiagonalBox {
        /// The identifier of the box.
        id: BoxID,
        /// The entries of the diagonal.
        diagonal: Matrix<Number>,
        /// Whether the rotations form an upper triangle. True where the
        /// document says nothing.
        upper_triangle: bool,
    },
}

/// The mathematical value of an [`OpBox`].
pub enum OpBoxView {
    CircBox { id: u128, circuit: SerialCircuitView<Seq<char>> },
    Unitary1qBox { id: u128, matrix: Seq<Seq<(Number, Number)>> },
    Unitary2qBox { id: u128, matrix: Seq<Seq<(Number, Number)>> },
    Unitary3qBox { id: u128, matrix: Seq<Seq<(Number, Number)>> },
    ExpBox { id: u128, matrix: Seq<Seq<(Number, Number)>>, phase: Number },
    PauliExpBox { id: u128, paulis: Seq<Seq<char>>, phase: Seq<char>, cx_config: Seq<char> },
    PauliExpPairBox {
        id: u128,
        paulis_pair: Seq<Seq<Seq<char>>>,
        phase_pair: Seq<Seq<char>>,
        cx_config: Seq<char>,
    },
    PauliExpCommutingSetBox {
        id: u128,
        pauli_gadgets: Seq<(Seq<Seq<char>>, Seq<char>)>,
        cx_config: Seq<char>,
    },
    TermSequenceBox {
        id: u128,
        pauli_gadgets: Seq<(Seq<Seq<char>>, Seq<char>)>,
        synth_strategy: PauliSynthStrat,
        partition_strategy: PauliPartitionStrat,
        graph_colouring: GraphColourMethod,
        cx_config: CXConfigType,
    },
    PhasePolyBox {
        id: u128,
        n_qubits: u32,
        qubit_indices: Seq<((Seq<char>, Seq<i64>), u32)>,
        phase_polynomial: Seq<Seq<(Seq<bool>, Seq<char>)>>,
        linear_transformation: Seq<Seq<(bool, bool)>>,
    },
    StabiliserAssertionBox { id: u128, stabilisers: Seq<PauliStabiliserView> },
    ProjectorAssertionBox { id: u128, matrix: Seq<Seq<(Number, Number)>> },
    CustomGate { id: u128, gate: CompositeGateView, params: Seq<Seq<char>> },
    QControlBox {
        id: u128,
        n_controls: u32,
        op: Box<OperationView<Seq<char>>>,
        control_state: u32,
    },
    ClassicalExpBox { id: u128, n_i: u32, n_io: u32, n_o: u32, exp: ClassicalExpView },
    UnitaryTableauBox { id: u128, tab: UnitaryTableauView },
    MultiplexorBox { id: u128, op_map: Seq<(Seq<bool>, OperationView<Seq<char>>)> },
    MultiplexedRotationBox { id: u128, op_map: Seq<(Seq<bool>, OperationView<Seq<char>>)> },
    MultiplexedU2Box {
        id: u128,
        op_map: Seq<(Seq<bool>, OperationView<Seq<char>>)>,
        impl_diag: bool,
    },
    MultiplexedTensoredU2Box { id: u128, op_map: Seq<(Seq<bool>, OperationView<Seq<char>>)> },
    ToffoliBox {
        id: u128,
        permutation: Seq<(Seq<bool>, Seq<bool>)>,
        strat: ToffoliBoxSynthStrat,
        rotation_axis: Option<OpType>,
    },
    ConjugationBox {
        id: u128,
        compute: Box<OperationView<Seq<char>>>,
        action: Box<OperationView<Seq<char>>>,
        uncompute: Option<Box<OperationView<Seq<char>>>>,
    },
    DummyBox { id: u128, n_qubits: u32, n_bits: u32, resource_data: ResourceDataView },
    StatePreparationBox {
        id: u128,
        statevector: Seq<Seq<(Number, Number)>>,
        is_inverse: bool,
        with_initial_reset: bool,
    },
    DiagonalBox { id: u128, diagonal: Seq<Seq<(Number, Number)>>, upper_triangle: bool },
}

impl OpBox {
    /// The mathematical value.
    #[verifier::opaque]
    pub open spec fn model(&self) -> OpBoxView
        decreases self,
    {
        match self {
            OpBox::CircBox { id, circuit } => OpBoxView::CircBox {
                id: id.deep_view(),
                circuit: circuit.model(),
            },
            OpBox::Unitary1qBox { id, matrix } => OpBoxView::Unitary1qBox {
                id: id.deep_view(),
                matrix: matrix.deep_view(),
            },
            OpBox::Unitary2qBox { id, matrix } => OpBoxView::Unitary2qBox {
                id: id.deep_view(),
                matrix: matrix.deep_view(),
            },
            OpBox::Unitary3qBox { id, matrix } => OpBoxView::Unitary3qBox {
                id: id.deep_view(),
                matrix: matrix.deep_view(),
            },
            OpBox::ExpBox { id, matrix, phase } => OpBoxView::ExpBox {
                id: id.deep_view(),
                matrix: matrix.deep_view(),
                phase: phase.deep_view(),
            },
            OpBox::PauliExpBox { id, paulis, phase, cx_config } => OpBoxView::PauliExpBox {
                id: id.deep_view(),
                paulis: paulis.deep_view(),
                phase: phase.deep_view(),
                cx_config: cx_config.deep_view(),
            },
            OpBox::PauliExpPairBox {
                id,
                paulis_pair,
                phase_pair,
                cx_config,
            } => OpBoxView::PauliExpPairBox {
                id: id.deep_view(),
                paulis_pair: paulis_pair.deep_view(),
                phase_pair: phase_pair.deep_view(),
                cx_config: cx_config.deep_view(),
            },
            OpBox::PauliExpCommutingSetBox {
                id,
                pauli_gadgets,
                cx_config,
            } => OpBoxView::PauliExpCommutingSetBox {
                id: id.deep_view(),
                pauli_gadgets: pauli_gadgets.deep_view(),
                cx_config: cx_config.deep_view(),
            },
            OpBox::TermSequenceBox {
                id,
                pauli_gadgets,
                synth_strategy,
                partition_strategy,
                graph_colouring,
                cx_config,
            } => OpBoxView::TermSequenceBox {
                id: id.deep_view(),
                pauli_gadgets: pauli_gadgets.deep_view(),
                synth_strategy: synth_strategy.deep_view(),
                partition_strategy: partition_strategy.deep_view(),
                graph_colouring: graph_colouring.deep_view(),
                cx_config: cx_config.deep_view(),
            },
            OpBox::PhasePolyBox {
                id,
                n_qubits,
                qubit_indices,
                phase_polynomial,
                linear_transformation,
            } => OpBoxView::PhasePolyBox {
                id: id.deep_view(),
                n_qubits: n_qubits.deep_view(),
                qubit_indices: qubit_indices.deep_view(),
                phase_polynomial: phase_polynomial.deep_view(),
                linear_transformation: linear_transformation.deep_view(),
            },
            OpBox::StabiliserAssertionBox { id, stabilisers } => OpBoxView::StabiliserAssertionBox {
                id: id.deep_view(),
                stabilisers: stabilisers.deep_view(),
            },
            OpBox::ProjectorAssertionBox { id, matrix } => OpBoxView::ProjectorAssertionBox {
                id: id.deep_view(),
                matrix: matrix.deep_view(),
            },
            OpBox::CustomGate { id, gate, params } => OpBoxView::CustomGate {
                id: id.deep_view(),
                gate: gate.model(),
                params: params.deep_view(),
            },
            OpBox::QControlBox { id, n_controls, op, control_state } => OpBoxView::QControlBox {
                id: id.deep_view(),
                n_controls: n_controls.deep_view(),
                op: Box::new(op.model()),
                control_state: control_state.deep_view(),
            },
            OpBox::ClassicalExpBox { id, n_i, n_io, n_o, exp } => OpBoxView::ClassicalExpBox {
                id: id.deep_view(),
                n_i: n_i.deep_view(),
                n_io: n_io.deep_view(),
                n_o: n_o.deep_view(),
                exp: exp.deep_view(),
            },
            OpBox::UnitaryTableauBox { id, tab } => OpBoxView::UnitaryTableauBox {
                id: id.deep_view(),
                tab: tab.deep_view(),
            },
            OpBox::MultiplexorBox { id, op_map } => OpBoxView::MultiplexorBox {
                id: id.deep_view(),
                op_map: map_entry_models(op_map@),
            },
            OpBox::MultiplexedRotationBox { id, op_map } => OpBoxView::MultiplexedRotationBox {
                id: id.deep_view(),
                op_map: map_entry_models(op_map@),
            },
            OpBox::MultiplexedU2Box { id, op_map, impl_diag } => OpBoxView::MultiplexedU2Box {
                id: id.deep_view(),
                op_map: map_entry_models(op_map@),
                impl_diag: impl_diag.deep_view(),
            },
            OpBox::MultiplexedTensoredU2Box { id, op_map } => OpBoxView::MultiplexedTensoredU2Box {
                id: id.deep_view(),
                op_map: map_entry_models(op_map@),
            },
            OpBox::ToffoliBox { id, permutation, strat, rotation_axis } => OpBoxView::ToffoliBox {
                id: id.deep_view(),
                permutation: permutation.deep_view(),
                strat: strat.deep_view(),
                rotation_axis: rotation_axis.deep_view(),
            },
            OpBox::ConjugationBox { id, compute, action, uncompute } => OpBoxView::ConjugationBox {
                id: id.deep_view(),
                compute: Box::new(compute.model()),
                action: Box::new(action.model()),
                uncompute: match uncompute {
                    Some(x) => Some(Box::new(x.model())),
                    None => None,
                },
            },
            OpBox::DummyBox { id, n_qubits, n_bits, resource_data } => OpBoxView::DummyBox {
                id: id.deep_view(),
                n_qubits: n_qubits.deep_view(),
                n_bits: n_bits.deep_view(),
                resource_data: resource_data.deep_view(),
            },
            OpBox::StatePreparationBox {
                id,
                statevector,
                is_inverse,
                with_initial_reset,
            } => OpBoxView::StatePreparationBox {
                id: id.deep_view(),
                statevector: statevector.deep_view(),
                is_inverse: is_inverse.deep_view(),
                with_initial_reset: with_initial_reset.deep_view(),
            },
            OpBox::DiagonalBox { id, diagonal, upper_triangle } => OpBoxView::DiagonalBox {
                id: id.deep_view(),
                diagonal: diagonal.deep_view(),
                upper_triangle: upper_triangle.deep_view(),
            },
        }
    }
}

impl DeepView for OpBox {
    type V = OpBoxView;

    open spec fn deep_view(&self) -> OpBoxView {
        self.model()
    }
}

} // verus!
