//! The types of operations that a circuit can hold.

use vstd::prelude::*;
use crate::clexpr::op::UnknownName;
use crate::codec::{Codec, DecodeError, DeepCopy, ErrorKind, ErrorView};
use crate::json::{str_eq, Json, JsonView};

verus! {

/// The type of an operation.
#[derive(Clone, Copy, Debug, PartialEq, Eq, Hash, Structural)]
#[non_exhaustive]
pub enum OpType {
    /// Where a qubit enters the circuit.
    Input,
    /// Where a qubit leaves the circuit.
    Output,
    /// Where a qubit starts, in the zero state.
    Create,
    /// Where a qubit ends and is given up.
    Discard,
    /// Where a bit enters the circuit.
    ClInput,
    /// Where a bit leaves the circuit.
    ClOutput,
    /// Does nothing, and must stay where it is.
    Barrier,
    /// A target for `Branch` and `Goto`.
    Label,
    /// Jumps to a label if a condition bit is set.
    Branch,
    /// Jumps to a label.
    Goto,
    /// Ends the program.
    Stop,
    /// A classical operation whose inputs are all outputs too.
    ClassicalTransform,
    /// A call of a classical function held in a WASM module.
    WASM,
    /// Sets bits to given values.
    SetBits,
    /// Copies the values of bits.
    CopyBits,
    /// Tests whether an integer lies in a range.
    RangePredicate,
    /// A predicate given by its truth table.
    ExplicitPredicate,
    /// A change of one bit given by a truth table.
    ExplicitModifier,
    /// One classical operation applied to several bits at once.
    MultiBit,
    /// A global phase.
    Phase,
    /// The Pauli Z gate.
    Z,
    /// The Pauli X gate.
    X,
    /// The Pauli Y gate.
    Y,
    /// The square root of Z.
    S,
    /// The inverse of `S`.
    Sdg,
    /// The fourth root of Z.
    T,
    /// The inverse of `T`.
    Tdg,
    /// The square root of X, up to phase: `Rx(1/2)`.
    V,
    /// The inverse of `V`.
    Vdg,
    /// The square root of X.
    SX,
    /// The inverse of `SX`.
    SXdg,
    /// The Hadamard gate.
    H,
    /// Rotation about X by an angle in half-turns.
    Rx,
    /// Rotation about Y by an angle in half-turns.
    Ry,
    /// Rotation about Z by an angle in half-turns.
    Rz,
    /// The general one-qubit gate of three angles.
    U3,
    /// `U3` with its first angle fixed at one half.
    U2,
    /// `U3` with its first two angles fixed at zero.
    U1,
    /// `Rz`, `Rx`, `Rz` in sequence, with three angles.
    TK1,
    /// `XXPhase`, `YYPhase`, `ZZPhase` in sequence, with three angles.
    TK2,
    /// Controlled `X`.
    CX,
    /// Controlled `Y`.
    CY,
    /// Controlled `Z`.
    CZ,
    /// Controlled `H`.
    CH,
    /// Controlled `V`.
    CV,
    /// Controlled `Vdg`.
    CVdg,
    /// Controlled `SX`.
    CSX,
    /// Controlled `SXdg`.
    CSXdg,
    /// Controlled `S`.
    CS,
    /// Controlled `Sdg`.
    CSdg,
    /// Controlled `Rz`.
    CRz,
    /// Controlled `Rx`.
    CRx,
    /// Controlled `Ry`.
    CRy,
    /// Controlled `U1`.
    CU1,
    /// Controlled `U3`.
    CU3,
    /// The exponential of a tensor of Z on any number of qubits.
    PhaseGadget,
    /// Controlled `CX`.
    CCX,
    /// Exchanges two qubits.
    SWAP,
    /// Controlled `SWAP`.
    CSWAP,
    /// A `CX` between the first and third of three qubits.
    BRIDGE,
    /// The identity.
    #[allow(non_camel_case_types)]
    noop,
    /// Measures a qubit into a bit.
    Measure,
    /// Measures a qubit and drops the outcome.
    Collapse,
    /// Puts a qubit back into the zero state.
    Reset,
    /// The echoed cross-resonance gate.
    ECR,
    /// The exponential of XX + YY, also called XY.
    ISWAP,
    /// `Rx` conjugated by `Rz`.
    PhasedX,
    /// `PhasedX` on several qubits.
    NPhasedX,
    /// `ZZPhase` at one half.
    ZZMax,
    /// The exponential of XX.
    XXPhase,
    /// The exponential of YY.
    YYPhase,
    /// The exponential of ZZ.
    ZZPhase,
    /// The exponential of XX on each pair of three qubits.
    XXPhase3,
    /// The exponential of `SWAP`.
    ESWAP,
    /// The fermionic simulation gate of two angles.
    FSim,
    /// `FSim` at one half and one sixth.
    Sycamore,
    /// `ISWAP` at one.
    ISWAPMax,
    /// `ISWAP` with an `Rz` on each qubit.
    PhasedISWAP,
    /// `Rx` with any number of controls.
    CnRx,
    /// `Ry` with any number of controls.
    CnRy,
    /// `Rz` with any number of controls.
    CnRz,
    /// `X` with any number of controls.
    CnX,
    /// `Y` with any number of controls.
    CnY,
    /// `Z` with any number of controls.
    CnZ,
    /// The GPi gate of one angle.
    GPI,
    /// The GPi2 gate of one angle.
    GPI2,
    /// The arbitrary-angle Molmer-Sorensen gate of three angles.
    AAMS,
    /// An operation held in a box of that name.
    CircBox,
    /// An operation held in a box of that name.
    Unitary1qBox,
    /// An operation held in a box of that name.
    Unitary2qBox,
    /// An operation held in a box of that name.
    Unitary3qBox,
    /// An operation held in a box of that name.
    ExpBox,
    /// An operation held in a box of that name.
    PauliExpBox,
    /// An operation held in a box of that name.
    PauliExpPairBox,
    /// An operation held in a box of that name.
    PauliExpCommutingSetBox,
    /// An operation held in a box of that name.
    TermSequenceBox,
    /// A Clifford operation held as a box.
    CliffBox,
    /// An operation held in a box of that name.
    PhasePolyBox,
    /// An operation under a classical condition.
    Conditional,
    /// An operation held in a box of that name.
    StabiliserAssertionBox,
    /// An operation held in a box of that name.
    ProjectorAssertionBox,
    /// An operation held in a box of that name.
    CustomGate,
    /// An operation held in a box of that name.
    QControlBox,
    /// An operation held in a box of that name.
    UnitaryTableauBox,
    /// An operation held in a box of that name. Newer documents use `ClExpr`.
    ClassicalExpBox,
    /// An operation held in a box of that name.
    MultiplexorBox,
    /// An operation held in a box of that name.
    MultiplexedRotationBox,
    /// An operation held in a box of that name.
    MultiplexedU2Box,
    /// An operation held in a box of that name.
    MultiplexedTensoredU2Box,
    /// An operation held in a box of that name.
    ToffoliBox,
    /// An operation held in a box of that name.
    ConjugationBox,
    /// An operation held in a box of that name.
    DummyBox,
    /// An operation held in a box of that name.
    StatePreparationBox,
    /// An operation held in a box of that name.
    DiagonalBox,
    /// A classical expression, which the operation carries with it.
    ClExpr,
}

impl Default for OpType {
    fn default() -> (r: OpType)
        ensures
            r == OpType::noop,
    {
        OpType::noop
    }
}

impl OpType {
    /// The name that the variant goes by.
    #[verifier::opaque]
    pub open spec fn name(self) -> Seq<char> {
        match self {
            OpType::Input => "Input"@,
            OpType::Output => "Output"@,
            OpType::Create => "Create"@,
            OpType::Discard => "Discard"@,
            OpType::ClInput => "ClInput"@,
            OpType::ClOutput => "ClOutput"@,
            OpType::Barrier => "Barrier"@,
            OpType::Label => "Label"@,
            OpType::Branch => "Branch"@,
            OpType::Goto => "Goto"@,
            OpType::Stop => "Stop"@,
            OpType::ClassicalTransform => "ClassicalTransform"@,
            OpType::WASM => "WASM"@,
            OpType::SetBits => "SetBits"@,
            OpType::CopyBits => "CopyBits"@,
            OpType::RangePredicate => "RangePredicate"@,
            OpType::ExplicitPredicate => "ExplicitPredicate"@,
            OpType::ExplicitModifier => "ExplicitModifier"@,
            OpType::MultiBit => "MultiBit"@,
            OpType::Phase => "Phase"@,
            OpType::Z => "Z"@,
            OpType::X => "X"@,
            OpType::Y => "Y"@,
            OpType::S => "S"@,
            OpType::Sdg => "Sdg"@,
            OpType::T => "T"@,
            OpType::Tdg => "Tdg"@,
            OpType::V => "V"@,
            OpType::Vdg => "Vdg"@,
            OpType::SX => "SX"@,
            OpType::SXdg => "SXdg"@,
            OpType::H => "H"@,
            OpType::Rx => "Rx"@,
            OpType::Ry => "Ry"@,
            OpType::Rz => "Rz"@,
            OpType::U3 => "U3"@,
            OpType::U2 => "U2"@,
            OpType::U1 => "U1"@,
            OpType::TK1 => "TK1"@,
            OpType::TK2 => "TK2"@,
            OpType::CX => "CX"@,
            OpType::CY => "CY"@,
            OpType::CZ => "CZ"@,
            OpType::CH => "CH"@,
            OpType::CV => "CV"@,
            OpType::CVdg => "CVdg"@,
            OpType::CSX => "CSX"@,
            OpType::CSXdg => "CSXdg"@,
            OpType::CS => "CS"@,
            OpType::CSdg => "CSdg"@,
            OpType::CRz => "CRz"@,
            OpType::CRx => "CRx"@,
            OpType::CRy => "CRy"@,
            OpType::CU1 => "CU1"@,
            OpType::CU3 => "CU3"@,
            OpType::PhaseGadget => "PhaseGadget"@,
            OpType::CCX => "CCX"@,
            OpType::SWAP => "SWAP"@,
            OpType::CSWAP => "CSWAP"@,
            OpType::BRIDGE => "BRIDGE"@,
            OpType::noop => "noop"@,
            OpType::Measure => "Measure"@,
            OpType::Collapse => "Collapse"@,
            OpType::Reset => "Reset"@,
            OpType::ECR => "ECR"@,
            OpType::ISWAP => "ISWAP"@,
            OpType::PhasedX => "PhasedX"@,
            OpType::NPhasedX => "NPhasedX"@,
            OpType::ZZMax => "ZZMax"@,
            OpType::XXPhase => "XXPhase"@,
            OpType::YYPhase => "YYPhase"@,
            OpType::ZZPhase => "ZZPhase"@,
            OpType::XXPhase3 => "XXPhase3"@,
            OpType::ESWAP => "ESWAP"@,
            OpType::FSim => "FSim"@,
            OpType::Sycamore => "Sycamore"@,
            OpType::ISWAPMax => "ISWAPMax"@,
            OpType::PhasedISWAP => "PhasedISWAP"@,
            OpType::CnRx => "CnRx"@,
            OpType::CnRy => "CnRy"@,
            OpType::CnRz => "CnRz"@,
            OpType::CnX => "CnX"@,
            OpType::CnY => "CnY"@,
            OpType::CnZ => "CnZ"@,
            OpType::GPI => "GPI"@,
            OpType::GPI2 => "GPI2"@,
            OpType::AAMS => "AAMS"@,
            OpType::CircBox => "CircBox"@,
            OpType::Unitary1qBox => "Unitary1qBox"@,
            OpType::Unitary2qBox => "Unitary2qBox"@,
            OpType::Unitary3qBox => "Unitary3qBox"@,
            OpType::ExpBox => "ExpBox"@,
            OpType::PauliExpBox => "PauliExpBox"@,
            OpType::PauliExpPairBox => "PauliExpPairBox"@,
            OpType::PauliExpCommutingSetBox => "PauliExpCommutingSetBox"@,
            OpType::TermSequenceBox => "TermSequenceBox"@,
            OpType::CliffBox => "CliffBox"@,
            OpType::PhasePolyBox => "PhasePolyBox"@,
            OpType::Conditional => "Conditional"@,
            OpType::StabiliserAssertionBox => "StabiliserAssertionBox"@,
            OpType::ProjectorAssertionBox => "ProjectorAssertionBox"@,
            OpType::CustomGate => "CustomGate"@,
            OpType::QControlBox => "QControlBox"@,
            OpType::UnitaryTableauBox => "UnitaryTableauBox"@,
            OpType::ClassicalExpBox => "ClassicalExpBox"@,
            OpType::MultiplexorBox => "MultiplexorBox"@,
            OpType::MultiplexedRotationBox => "MultiplexedRotationBox"@,
            OpType::MultiplexedU2Box => "MultiplexedU2Box"@,
            OpType::MultiplexedTensoredU2Box => "MultiplexedTensoredU2Box"@,
            OpType::ToffoliBox => "ToffoliBox"@,
            OpType::ConjugationBox => "ConjugationBox"@,
            OpType::DummyBox => "DummyBox"@,
            OpType::StatePreparationBox => "StatePreparationBox"@,
            OpType::DiagonalBox => "DiagonalBox"@,
            OpType::ClExpr => "ClExpr"@,
        }
    }

    /// The variant that goes by a name.
    #[verifier::opaque]
    pub open spec fn from_name(s: Seq<char>) -> Option<OpType> {
        if s == "Input"@ {
            Some(OpType::Input)
        } else if s == "Output"@ {
            Some(OpType::Output)
        } else if s == "Create"@ {
            Some(OpType::Create)
        } else if s == "Discard"@ {
            Some(OpType::Discard)
        } else if s == "ClInput"@ {
            Some(OpType::ClInput)
        } else if s == "ClOutput"@ {
            Some(OpType::ClOutput)
        } else if s == "Barrier"@ {
            Some(OpType::Barrier)
        } else if s == "Label"@ {
            Some(OpType::Label)
        } else if s == "Branch"@ {
            Some(OpType::Branch)
        } else if s == "Goto"@ {
            Some(OpType::Goto)
        } else if s == "Stop"@ {
            Some(OpType::Stop)
        } else if s == "ClassicalTransform"@ {
            Some(OpType::ClassicalTransform)
        } else if s == "WASM"@ {
            Some(OpType::WASM)
        } else if s == "SetBits"@ {
            Some(OpType::SetBits)
        } else if s == "CopyBits"@ {
            Some(OpType::CopyBits)
        } else if s == "RangePredicate"@ {
            Some(OpType::RangePredicate)
        } else if s == "ExplicitPredicate"@ {
            Some(OpType::ExplicitPredicate)
        } else if s == "ExplicitModifier"@ {
            Some(OpType::ExplicitModifier)
        } else if s == "MultiBit"@ {
            Some(OpType::MultiBit)
        } else if s == "Phase"@ {
            Some(OpType::Phase)
        } else if s == "Z"@ {
            Some(OpType::Z)
        } else if s == "X"@ {
            Some(OpType::X)
        } else if s == "Y"@ {
            Some(OpType::Y)
        } else if s == "S"@ {
            Some(OpType::S)
        } else if s == "Sdg"@ {
            Some(OpType::Sdg)
        } else if s == "T"@ {
            Some(OpType::T)
        } else if s == "Tdg"@ {
            Some(OpType::Tdg)
        } else if s == "V"@ {
            Some(OpType::V)
        } else if s == "Vdg"@ {
            Some(OpType::Vdg)
        } else if s == "SX"@ {
            Some(OpType::SX)
        } else if s == "SXdg"@ {
            Some(OpType::SXdg)
        } else if s == "H"@ {
            Some(OpType::H)
        } else if s == "Rx"@ {
            Some(OpType::Rx)
        } else if s == "Ry"@ {
            Some(OpType::Ry)
        } else if s == "Rz"@ {
            Some(OpType::Rz)
        } else if s == "U3"@ {
            Some(OpType::U3)
        } else if s == "U2"@ {
            Some(OpType::U2)
        } else if s == "U1"@ {
            Some(OpType::U1)
        } else if s == "TK1"@ {
            Some(OpType::TK1)
        } else if s == "TK2"@ {
            Some(OpType::TK2)
        } else if s == "CX"@ {
            Some(OpType::CX)
        } else if s == "CY"@ {
            Some(OpType::CY)
        } else if s == "CZ"@ {
            Some(OpType::CZ)
        } else if s == "CH"@ {
            Some(OpType::CH)
        } else if s == "CV"@ {
            Some(OpType::CV)
        } else if s == "CVdg"@ {
            Some(OpType::CVdg)
        } else if s == "CSX"@ {
            Some(OpType::CSX)
        } else if s == "CSXdg"@ {
            Some(OpType::CSXdg)
        } else if s == "CS"@ {
            Some(OpType::CS)
        } else if s == "CSdg"@ {
            Some(OpType::CSdg)
        } else if s == "CRz"@ {
            Some(OpType::CRz)
        } else if s == "CRx"@ {
            Some(OpType::CRx)
        } else if s == "CRy"@ {
            Some(OpType::CRy)
        } else if s == "CU1"@ {
            Some(OpType::CU1)
        } else if s == "CU3"@ {
            Some(OpType::CU3)
        } else if s == "PhaseGadget"@ {
            Some(OpType::PhaseGadget)
        } else if s == "CCX"@ {
            Some(OpType::CCX)
        } else if s == "SWAP"@ {
            Some(OpType::SWAP)
        } else if s == "CSWAP"@ {
            Some(OpType::CSWAP)
        } else if s == "BRIDGE"@ {
            Some(OpType::BRIDGE)
        } else if s == "noop"@ {
            Some(OpType::noop)
        } else if s == "Measure"@ {
            Some(OpType::Measure)
        } else if s == "Collapse"@ {
            Some(OpType::Collapse)
        } else if s == "Reset"@ {
            Some(OpType::Reset)
        } else if s == "ECR"@ {
            Some(OpType::ECR)
        } else if s == "ISWAP"@ {
            Some(OpType::ISWAP)
        } else if s == "PhasedX"@ {
            Some(OpType::PhasedX)
        } else if s == "NPhasedX"@ {
            Some(OpType::NPhasedX)
        } else if s == "ZZMax"@ {
            Some(OpType::ZZMax)
        } else if s == "XXPhase"@ {
            Some(OpType::XXPhase)
        } else if s == "YYPhase"@ {
            Some(OpType::YYPhase)
        } else if s == "ZZPhase"@ {
            Some(OpType::ZZPhase)
        } else if s == "XXPhase3"@ {
            Some(OpType::XXPhase3)
        } else if s == "ESWAP"@ {
            Some(OpType::ESWAP)
        } else if s == "FSim"@ {
            Some(OpType::FSim)
        } else if s == "Sycamore"@ {
            Some(OpType::Sycamore)
        } else if s == "ISWAPMax"@ {
            Some(OpType::ISWAPMax)
        } else if s == "PhasedISWAP"@ {
            Some(OpType::PhasedISWAP)
        } else if s == "CnRx"@ {
            Some(OpType::CnRx)
        } else if s == "CnRy"@ {
            Some(OpType::CnRy)
        } else if s == "CnRz"@ {
            Some(OpType::CnRz)
        } else if s == "CnX"@ {
            Some(OpType::CnX)
        } else if s == "CnY"@ {
            Some(OpType::CnY)
        } else if s == "CnZ"@ {
            Some(OpType::CnZ)
        } else if s == "GPI"@ {
            Some(OpType::GPI)
        } else if s == "GPI2"@ {
            Some(OpType::GPI2)
        } else if s == "AAMS"@ {
            Some(OpType::AAMS)
        } else if s == "CircBox"@ {
            Some(OpType::CircBox)
        } else if s == "Unitary1qBox"@ {
            Some(OpType::Unitary1qBox)
        } else if s == "Unitary2qBox"@ {
            Some(OpType::Unitary2qBox)
        } else if s == "Unitary3qBox"@ {
            Some(OpType::Unitary3qBox)
        } else if s == "ExpBox"@ {
            Some(OpType::ExpBox)
        } else if s == "PauliExpBox"@ {
            Some(OpType::PauliExpBox)
        } else if s == "PauliExpPairBox"@ {
            Some(OpType::PauliExpPairBox)
        } else if s == "PauliExpCommutingSetBox"@ {
            Some(OpType::PauliExpCommutingSetBox)
        } else if s == "TermSequenceBox"@ {
            Some(OpType::TermSequenceBox)
        } else if s == "CliffBox"@ {
            Some(OpType::CliffBox)
        } else if s == "PhasePolyBox"@ {
            Some(OpType::PhasePolyBox)
        } else if s == "Conditional"@ {
            Some(OpType::Conditional)
        } else if s == "StabiliserAssertionBox"@ {
            Some(OpType::StabiliserAssertionBox)
        } else if s == "ProjectorAssertionBox"@ {
            Some(OpType::ProjectorAssertionBox)
        } else if s == "CustomGate"@ {
            Some(OpType::CustomGate)
        } else if s == "QControlBox"@ {
            Some(OpType::QControlBox)
        } else if s == "UnitaryTableauBox"@ {
            Some(OpType::UnitaryTableauBox)
        } else if s == "ClassicalExpBox"@ {
            Some(OpType::ClassicalExpBox)
        } else if s == "MultiplexorBox"@ {
            Some(OpType::MultiplexorBox)
        } else if s == "MultiplexedRotationBox"@ {
            Some(OpType::MultiplexedRotationBox)
        } else if s == "MultiplexedU2Box"@ {
            Some(OpType::MultiplexedU2Box)
        } else if s == "MultiplexedTensoredU2Box"@ {
            Some(OpType::MultiplexedTensoredU2Box)
        } else if s == "ToffoliBox"@ {
            Some(OpType::ToffoliBox)
        } else if s == "ConjugationBox"@ {
            Some(OpType::ConjugationBox)
        } else if s == "DummyBox"@ {
            Some(OpType::DummyBox)
        } else if s == "StatePreparationBox"@ {
            Some(OpType::StatePreparationBox)
        } else if s == "DiagonalBox"@ {
            Some(OpType::DiagonalBox)
        } else if s == "ClExpr"@ {
            Some(OpType::ClExpr)
        } else {
            None
        }
    }

    /// The variant that a document names: by its name, or by one of the
    /// names that earlier documents gave it.
    #[verifier::opaque]
    pub open spec fn from_wire_name(s: Seq<char>) -> Option<OpType> {
        if s == "tk1"@ {
            Some(OpType::TK1)
        } else if s == "tk2"@ {
            Some(OpType::TK2)
        } else if s == "Condition"@ {
            Some(OpType::Conditional)
        } else if s == "Composite"@ {
            Some(OpType::CustomGate)
        } else {
            OpType::from_name(s)
        }
    }

    /// The name that the variant goes by.
    pub fn as_str(&self) -> (r: &'static str)
        ensures
            r@ == self.name(),
    {
        proof {
            reveal(OpType::name);
        }
        match self {
            OpType::Input => "Input",
            OpType::Output => "Output",
            OpType::Create => "Create",
            OpType::Discard => "Discard",
            OpType::ClInput => "ClInput",
            OpType::ClOutput => "ClOutput",
            OpType::Barrier => "Barrier",
            OpType::Label => "Label",
            OpType::Branch => "Branch",
            OpType::Goto => "Goto",
            OpType::Stop => "Stop",
            OpType::ClassicalTransform => "ClassicalTransform",
            OpType::WASM => "WASM",
            OpType::SetBits => "SetBits",
            OpType::CopyBits => "CopyBits",
            OpType::RangePredicate => "RangePredicate",
            OpType::ExplicitPredicate => "ExplicitPredicate",
            OpType::ExplicitModifier => "ExplicitModifier",
            OpType::MultiBit => "MultiBit",
            OpType::Phase => "Phase",
            OpType::Z => "Z",
            OpType::X => "X",
            OpType::Y => "Y",
            OpType::S => "S",
            OpType::Sdg => "Sdg",
            OpType::T => "T",
            OpType::Tdg => "Tdg",
            OpType::V => "V",
            OpType::Vdg => "Vdg",
            OpType::SX => "SX",
            OpType::SXdg => "SXdg",
            OpType::H => "H",
            OpType::Rx => "Rx",
            OpType::Ry => "Ry",
            OpType::Rz => "Rz",
            OpType::U3 => "U3",
            OpType::U2 => "U2",
            OpType::U1 => "U1",
            OpType::TK1 => "TK1",
            OpType::TK2 => "TK2",
            OpType::CX => "CX",
            OpType::CY => "CY",
            OpType::CZ => "CZ",
            OpType::CH => "CH",
            OpType::CV => "CV",
            OpType::CVdg => "CVdg",
            OpType::CSX => "CSX",
            OpType::CSXdg => "CSXdg",
            OpType::CS => "CS",
            OpType::CSdg => "CSdg",
            OpType::CRz => "CRz",
            OpType::CRx => "CRx",
            OpType::CRy => "CRy",
            OpType::CU1 => "CU1",
            OpType::CU3 => "CU3",
            OpType::PhaseGadget => "PhaseGadget",
            OpType::CCX => "CCX",
            OpType::SWAP => "SWAP",
            OpType::CSWAP => "CSWAP",
            OpType::BRIDGE => "BRIDGE",
            OpType::noop => "noop",
            OpType::Measure => "Measure",
            OpType::Collapse => "Collapse",
            OpType::Reset => "Reset",
            OpType::ECR => "ECR",
            OpType::ISWAP => "ISWAP",
            OpType::PhasedX => "PhasedX",
            OpType::NPhasedX => "NPhasedX",
            OpType::ZZMax => "ZZMax",
            OpType::XXPhase => "XXPhase",
            OpType::YYPhase => "YYPhase",
            OpType::ZZPhase => "ZZPhase",
            OpType::XXPhase3 => "XXPhase3",
            OpType::ESWAP => "ESWAP",
            OpType::FSim => "FSim",
            OpType::Sycamore => "Sycamore",
            OpType::ISWAPMax => "ISWAPMax",
            OpType::PhasedISWAP => "PhasedISWAP",
            OpType::CnRx => "CnRx",
            OpType::CnRy => "CnRy",
            OpType::CnRz => "CnRz",
            OpType::CnX => "CnX",
            OpType::CnY => "CnY",
            OpType::CnZ => "CnZ",
            OpType::GPI => "GPI",
            OpType::GPI2 => "GPI2",
            OpType::AAMS => "AAMS",
            OpType::CircBox => "CircBox",
            OpType::Unitary1qBox => "Unitary1qBox",
            OpType::Unitary2qBox => "Unitary2qBox",
            OpType::Unitary3qBox => "Unitary3qBox",
            OpType::ExpBox => "ExpBox",
            OpType::PauliExpBox => "PauliExpBox",
            OpType::PauliExpPairBox => "PauliExpPairBox",
            OpType::PauliExpCommutingSetBox => "PauliExpCommutingSetBox",
            OpType::TermSequenceBox => "TermSequenceBox",
            OpType::CliffBox => "CliffBox",
            OpType::PhasePolyBox => "PhasePolyBox",
            OpType::Conditional => "Conditional",
            OpType::StabiliserAssertionBox => "StabiliserAssertionBox",
            OpType::ProjectorAssertionBox => "ProjectorAssertionBox",
            OpType::CustomGate => "CustomGate",
            OpType::QControlBox => "QControlBox",
            OpType::UnitaryTableauBox => "UnitaryTableauBox",
            OpType::ClassicalExpBox => "ClassicalExpBox",
            OpType::MultiplexorBox => "MultiplexorBox",
            OpType::MultiplexedRotationBox => "MultiplexedRotationBox",
            OpType::MultiplexedU2Box => "MultiplexedU2Box",
            OpType::MultiplexedTensoredU2Box => "MultiplexedTensoredU2Box",
            OpType::ToffoliBox => "ToffoliBox",
            OpType::ConjugationBox => "ConjugationBox",
            OpType::DummyBox => "DummyBox",
            OpType::StatePreparationBox => "StatePreparationBox",
            OpType::DiagonalBox => "DiagonalBox",
            OpType::ClExpr => "ClExpr",
        }
    }

    /// The variant that goes by a name, if there is one.
    pub fn parse(s: &str) -> (r: Option<OpType>)
        ensures
            r == OpType::from_name(s@),
    {
        proof {
            reveal(OpType::from_name);
        }
        if str_eq(s, "Input") {
            Some(OpType::Input)
        } else if str_eq(s, "Output") {
            Some(OpType::Output)
        } else if str_eq(s, "Create") {
            Some(OpType::Create)
        } else if str_eq(s, "Discard") {
            Some(OpType::Discard)
        } else if str_eq(s, "ClInput") {
            Some(OpType::ClInput)
        } else if str_eq(s, "ClOutput") {
            Some(OpType::ClOutput)
        } else if str_eq(s, "Barrier") {
            Some(OpType::Barrier)
        } else if str_eq(s, "Label") {
            Some(OpType::Label)
        } else if str_eq(s, "Branch") {
            Some(OpType::Branch)
        } else if str_eq(s, "Goto") {
            Some(OpType::Goto)
        } else if str_eq(s, "Stop") {
            Some(OpType::Stop)
        } else if str_eq(s, "ClassicalTransform") {
            Some(OpType::ClassicalTransform)
        } else if str_eq(s, "WASM") {
            Some(OpType::WASM)
        } else if str_eq(s, "SetBits") {
            Some(OpType::SetBits)
        } else if str_eq(s, "CopyBits") {
            Some(OpType::CopyBits)
        } else if str_eq(s, "RangePredicate") {
            Some(OpType::RangePredicate)
        } else if str_eq(s, "ExplicitPredicate") {
            Some(OpType::ExplicitPredicate)
        } else if str_eq(s, "ExplicitModifier") {
            Some(OpType::ExplicitModifier)
        } else if str_eq(s, "MultiBit") {
            Some(OpType::MultiBit)
        } else if str_eq(s, "Phase") {
            Some(OpType::Phase)
        } else if str_eq(s, "Z") {
            Some(OpType::Z)
        } else if str_eq(s, "X") {
            Some(OpType::X)
        } else if str_eq(s, "Y") {
            Some(OpType::Y)
        } else if str_eq(s, "S") {
            Some(OpType::S)
        } else if str_eq(s, "Sdg") {
            Some(OpType::Sdg)
        } else if str_eq(s, "T") {
            Some(OpType::T)
        } else if str_eq(s, "Tdg") {
            Some(OpType::Tdg)
        } else if str_eq(s, "V") {
            Some(OpType::V)
        } else if str_eq(s, "Vdg") {
            Some(OpType::Vdg)
        } else if str_eq(s, "SX") {
            Some(OpType::SX)
        } else if str_eq(s, "SXdg") {
            Some(OpType::SXdg)
        } else if str_eq(s, "H") {
            Some(OpType::H)
        } else if str_eq(s, "Rx") {
            Some(OpType::Rx)
        } else if str_eq(s, "Ry") {
            Some(OpType::Ry)
        } else if str_eq(s, "Rz") {
            Some(OpType::Rz)
        } else if str_eq(s, "U3") {
            Some(OpType::U3)
        } else if str_eq(s, "U2") {
            Some(OpType::U2)
        } else if str_eq(s, "U1") {
            Some(OpType::U1)
        } else if str_eq(s, "TK1") {
            Some(OpType::TK1)
        } else if str_eq(s, "TK2") {
            Some(OpType::TK2)
        } else if str_eq(s, "CX") {
            Some(OpType::CX)
        } else if str_eq(s, "CY") {
            Some(OpType::CY)
        } else if str_eq(s, "CZ") {
            Some(OpType::CZ)
        } else if str_eq(s, "CH") {
            Some(OpType::CH)
        } else if str_eq(s, "CV") {
            Some(OpType::CV)
        } else if str_eq(s, "CVdg") {
            Some(OpType::CVdg)
        } else if str_eq(s, "CSX") {
            Some(OpType::CSX)
        } else if str_eq(s, "CSXdg") {
            Some(OpType::CSXdg)
        } else if str_eq(s, "CS") {
            Some(OpType::CS)
        } else if str_eq(s, "CSdg") {
            Some(OpType::CSdg)
        } else if str_eq(s, "CRz") {
            Some(OpType::CRz)
        } else if str_eq(s, "CRx") {
            Some(OpType::CRx)
        } else if str_eq(s, "CRy") {
            Some(OpType::CRy)
        } else if str_eq(s, "CU1") {
            Some(OpType::CU1)
        } else if str_eq(s, "CU3") {
            Some(OpType::CU3)
        } else if str_eq(s, "PhaseGadget") {
            Some(OpType::PhaseGadget)
        } else if str_eq(s, "CCX") {
            Some(OpType::CCX)
        } else if str_eq(s, "SWAP") {
            Some(OpType::SWAP)
        } else if str_eq(s, "CSWAP") {
            Some(OpType::CSWAP)
        } else if str_eq(s, "BRIDGE") {
            Some(OpType::BRIDGE)
        } else if str_eq(s, "noop") {
            Some(OpType::noop)
        } else if str_eq(s, "Measure") {
            Some(OpType::Measure)
        } else if str_eq(s, "Collapse") {
            Some(OpType::Collapse)
        } else if str_eq(s, "Reset") {
            Some(OpType::Reset)
        } else if str_eq(s, "ECR") {
            Some(OpType::ECR)
        } else if str_eq(s, "ISWAP") {
            Some(OpType::ISWAP)
        } else if str_eq(s, "PhasedX") {
            Some(OpType::PhasedX)
        } else if str_eq(s, "NPhasedX") {
            Some(OpType::NPhasedX)
        } else if str_eq(s, "ZZMax") {
            Some(OpType::ZZMax)
        } else if str_eq(s, "XXPhase") {
            Some(OpType::XXPhase)
        } else if str_eq(s, "YYPhase") {
            Some(OpType::YYPhase)
        } else if str_eq(s, "ZZPhase") {
            Some(OpType::ZZPhase)
        } else if str_eq(s, "XXPhase3") {
            Some(OpType::XXPhase3)
        } else if str_eq(s, "ESWAP") {
            Some(OpType::ESWAP)
        } else if str_eq(s, "FSim") {
            Some(OpType::FSim)
        } else if str_eq(s, "Sycamore") {
            Some(OpType::Sycamore)
        } else if str_eq(s, "ISWAPMax") {
            Some(OpType::ISWAPMax)
        } else if str_eq(s, "PhasedISWAP") {
            Some(OpType::PhasedISWAP)
        } else if str_eq(s, "CnRx") {
            Some(OpType::CnRx)
        } else if str_eq(s, "CnRy") {
            Some(OpType::CnRy)
        } else if str_eq(s, "CnRz") {
            Some(OpType::CnRz)
        } else if str_eq(s, "CnX") {
            Some(OpType::CnX)
        } else if str_eq(s, "CnY") {
            Some(OpType::CnY)
        } else if str_eq(s, "CnZ") {
            Some(OpType::CnZ)
        } else if str_eq(s, "GPI") {
            Some(OpType::GPI)
        } else if str_eq(s, "GPI2") {
            Some(OpType::GPI2)
        } else if str_eq(s, "AAMS") {
            Some(OpType::AAMS)
        } else if str_eq(s, "CircBox") {
            Some(OpType::CircBox)
        } else if str_eq(s, "Unitary1qBox") {
            Some(OpType::Unitary1qBox)
        } else if str_eq(s, "Unitary2qBox") {
            Some(OpType::Unitary2qBox)
        } else if str_eq(s, "Unitary3qBox") {
            Some(OpType::Unitary3qBox)
        } else if str_eq(s, "ExpBox") {
            Some(OpType::ExpBox)
        } else if str_eq(s, "PauliExpBox") {
            Some(OpType::PauliExpBox)
        } else if str_eq(s, "PauliExpPairBox") {
            Some(OpType::PauliExpPairBox)
        } else if str_eq(s, "PauliExpCommutingSetBox") {
            Some(OpType::PauliExpCommutingSetBox)
        } else if str_eq(s, "TermSequenceBox") {
            Some(OpType::TermSequenceBox)
        } else if str_eq(s, "CliffBox") {
            Some(OpType::CliffBox)
        } else if str_eq(s, "PhasePolyBox") {
            Some(OpType::PhasePolyBox)
        } else if str_eq(s, "Conditional") {
            Some(OpType::Conditional)
        } else if str_eq(s, "StabiliserAssertionBox") {
            Some(OpType::StabiliserAssertionBox)
        } else if str_eq(s, "ProjectorAssertionBox") {
            Some(OpType::ProjectorAssertionBox)
        } else if str_eq(s, "CustomGate") {
            Some(OpType::CustomGate)
        } else if str_eq(s, "QControlBox") {
            Some(OpType::QControlBox)
        } else if str_eq(s, "UnitaryTableauBox") {
            Some(OpType::UnitaryTableauBox)
        } else if str_eq(s, "ClassicalExpBox") {
            Some(OpType::ClassicalExpBox)
        } else if str_eq(s, "MultiplexorBox") {
            Some(OpType::MultiplexorBox)
        } else if str_eq(s, "MultiplexedRotationBox") {
            Some(OpType::MultiplexedRotationBox)
        } else if str_eq(s, "MultiplexedU2Box") {
            Some(OpType::MultiplexedU2Box)
        } else if str_eq(s, "MultiplexedTensoredU2Box") {
            Some(OpType::MultiplexedTensoredU2Box)
        } else if str_eq(s, "ToffoliBox") {
            Some(OpType::ToffoliBox)
        } else if str_eq(s, "ConjugationBox") {
            Some(OpType::ConjugationBox)
        } else if str_eq(s, "DummyBox") {
            Some(OpType::DummyBox)
        } else if str_eq(s, "StatePreparationBox") {
            Some(OpType::StatePreparationBox)
        } else if str_eq(s, "DiagonalBox") {
            Some(OpType::DiagonalBox)
        } else if str_eq(s, "ClExpr") {
            Some(OpType::ClExpr)
        } else {
            None
        }
    }

    /// The variant that a document names, if it names one.
    pub fn parse_wire(s: &str) -> (r: Option<OpType>)
        ensures
            r == OpType::from_wire_name(s@),
    {
        proof {
            reveal(OpType::from_wire_name);
        }
        if str_eq(s, "tk1") {
            Some(OpType::TK1)
        } else if str_eq(s, "tk2") {
            Some(OpType::TK2)
        } else if str_eq(s, "Condition") {
            Some(OpType::Conditional)
        } else if str_eq(s, "Composite") {
            Some(OpType::CustomGate)
        } else {
            OpType::parse(s)
        }
    }
}

impl OpType {
    /// Every variant is the one that goes by its name.
    pub proof fn lemma_name_round_trip(t: OpType)
        ensures
            OpType::from_name(t.name()) == Some(t),
            OpType::from_wire_name(t.name()) == Some(t),
    {
        reveal(OpType::name);
        reveal(OpType::from_name);
        reveal(OpType::from_wire_name);
        reveal_strlit("Input");
        reveal_strlit("Output");
        reveal_strlit("Create");
        reveal_strlit("Discard");
        reveal_strlit("ClInput");
        reveal_strlit("ClOutput");
        reveal_strlit("Barrier");
        reveal_strlit("Label");
        reveal_strlit("Branch");
        reveal_strlit("Goto");
        reveal_strlit("Stop");
        reveal_strlit("ClassicalTransform");
        reveal_strlit("WASM");
        reveal_strlit("SetBits");
        reveal_strlit("CopyBits");
        reveal_strlit("RangePredicate");
        reveal_strlit("ExplicitPredicate");
        reveal_strlit("ExplicitModifier");
        reveal_strlit("MultiBit");
        reveal_strlit("Phase");
        reveal_strlit("Z");
        reveal_strlit("X");
        reveal_strlit("Y");
        reveal_strlit("S");
        reveal_strlit("Sdg");
        reveal_strlit("T");
        reveal_strlit("Tdg");
        reveal_strlit("V");
        reveal_strlit("Vdg");
        reveal_strlit("SX");
        reveal_strlit("SXdg");
        reveal_strlit("H");
        reveal_strlit("Rx");
        reveal_strlit("Ry");
        reveal_strlit("Rz");
        reveal_strlit("U3");
        reveal_strlit("U2");
        reveal_strlit("U1");
        reveal_strlit("TK1");
        reveal_strlit("TK2");
        reveal_strlit("CX");
        reveal_strlit("CY");
        reveal_strlit("CZ");
        reveal_strlit("CH");
        reveal_strlit("CV");
        reveal_strlit("CVdg");
        reveal_strlit("CSX");
        reveal_strlit("CSXdg");
        reveal_strlit("CS");
        reveal_strlit("CSdg");
        reveal_strlit("CRz");
        reveal_strlit("CRx");
        reveal_strlit("CRy");
        reveal_strlit("CU1");
        reveal_strlit("CU3");
        reveal_strlit("PhaseGadget");
        reveal_strlit("CCX");
        reveal_strlit("SWAP");
        reveal_strlit("CSWAP");
        reveal_strlit("BRIDGE");
        reveal_strlit("noop");
        reveal_strlit("Measure");
        reveal_strlit("Collapse");
        reveal_strlit("Reset");
        reveal_strlit("ECR");
        reveal_strlit("ISWAP");
        reveal_strlit("PhasedX");
        reveal_strlit("NPhasedX");
        reveal_strlit("ZZMax");
        reveal_strlit("XXPhase");
        reveal_strlit("YYPhase");
        reveal_strlit("ZZPhase");
        reveal_strlit("XXPhase3");
        reveal_strlit("ESWAP");
        reveal_strlit("FSim");
        reveal_strlit("Sycamore");
        reveal_strlit("ISWAPMax");
        reveal_strlit("PhasedISWAP");
        reveal_strlit("CnRx");
        reveal_strlit("CnRy");
        reveal_strlit("CnRz");
        reveal_strlit("CnX");
        reveal_strlit("CnY");
        reveal_strlit("CnZ");
        reveal_strlit("GPI");
        reveal_strlit("GPI2");
        reveal_strlit("AAMS");
        reveal_strlit("CircBox");
        reveal_strlit("Unitary1qBox");
        reveal_strlit("Unitary2qBox");
        reveal_strlit("Unitary3qBox");
        reveal_strlit("ExpBox");
        reveal_strlit("PauliExpBox");
        reveal_strlit("PauliExpPairBox");
        reveal_strlit("PauliExpCommutingSetBox");
        reveal_strlit("TermSequenceBox");
        reveal_strlit("CliffBox");
        reveal_strlit("PhasePolyBox");
        reveal_strlit("Conditional");
        reveal_strlit("StabiliserAssertionBox");
        reveal_strlit("ProjectorAssertionBox");
        reveal_strlit("CustomGate");
        reveal_strlit("QControlBox");
        reveal_strlit("UnitaryTableauBox");
        reveal_strlit("ClassicalExpBox");
        reveal_strlit("MultiplexorBox");
        reveal_strlit("MultiplexedRotationBox");
        reveal_strlit("MultiplexedU2Box");
        reveal_strlit("MultiplexedTensoredU2Box");
        reveal_strlit("ToffoliBox");
        reveal_strlit("ConjugationBox");
        reveal_strlit("DummyBox");
        reveal_strlit("StatePreparationBox");
        reveal_strlit("DiagonalBox");
        reveal_strlit("ClExpr");
        reveal_strlit("tk1");
        reveal_strlit("tk2");
        reveal_strlit("Condition");
        reveal_strlit("Composite");
        assert("Input"@.len() == 5
            && "Input"@[0] == 'I'
            && "Input"@[1] == 'n'
            && "Input"@[2] == 'p'
            && "Input"@[3] == 'u');
        assert("Output"@.len() == 6
            && "Output"@[0] == 'O'
            && "Output"@[1] == 'u'
            && "Output"@[2] == 't'
            && "Output"@[3] == 'p');
        assert("Create"@.len() == 6
            && "Create"@[0] == 'C'
            && "Create"@[1] == 'r'
            && "Create"@[2] == 'e'
            && "Create"@[3] == 'a');
        assert("Discard"@.len() == 7
            && "Discard"@[0] == 'D'
            && "Discard"@[1] == 'i'
            && "Discard"@[2] == 's'
            && "Discard"@[3] == 'c');
        assert("ClInput"@.len() == 7
            && "ClInput"@[0] == 'C'
            && "ClInput"@[1] == 'l'
            && "ClInput"@[2] == 'I'
            && "ClInput"@[3] == 'n');
        assert("ClOutput"@.len() == 8
            && "ClOutput"@[0] == 'C'
            && "ClOutput"@[1] == 'l'
            && "ClOutput"@[2] == 'O'
            && "ClOutput"@[3] == 'u'
            && "ClOutput"@[7] == 't');
        assert("Barrier"@.len() == 7
            && "Barrier"@[0] == 'B'
            && "Barrier"@[1] == 'a'
            && "Barrier"@[2] == 'r'
            && "Barrier"@[3] == 'r');
        assert("Label"@.len() == 5
            && "Label"@[0] == 'L'
            && "Label"@[1] == 'a'
            && "Label"@[2] == 'b'
            && "Label"@[3] == 'e');
        assert("Branch"@.len() == 6
            && "Branch"@[0] == 'B'
            && "Branch"@[1] == 'r'
            && "Branch"@[2] == 'a'
            && "Branch"@[3] == 'n');
        assert("Goto"@.len() == 4
            && "Goto"@[0] == 'G'
            && "Goto"@[1] == 'o'
            && "Goto"@[2] == 't'
            && "Goto"@[3] == 'o');
        assert("Stop"@.len() == 4
            && "Stop"@[0] == 'S'
            && "Stop"@[1] == 't'
            && "Stop"@[2] == 'o'
            && "Stop"@[3] == 'p');
        assert("ClassicalTransform"@.len() == 18
            && "ClassicalTransform"@[0] == 'C'
            && "ClassicalTransform"@[1] == 'l'
            && "ClassicalTransform"@[2] == 'a'
            && "ClassicalTransform"@[3] == 's'
            && "ClassicalTransform"@[7] == 'a');
        assert("WASM"@.len() == 4
            && "WASM"@[0] == 'W'
            && "WASM"@[1] == 'A'
            && "WASM"@[2] == 'S'
            && "WASM"@[3] == 'M');
        assert("SetBits"@.len() == 7
            && "SetBits"@[0] == 'S'
            && "SetBits"@[1] == 'e'
            && "SetBits"@[2] == 't'
            && "SetBits"@[3] == 'B');
        assert("CopyBits"@.len() == 8
            && "CopyBits"@[0] == 'C'
            && "CopyBits"@[1] == 'o'
            && "CopyBits"@[2] == 'p'
            && "CopyBits"@[3] == 'y'
            && "CopyBits"@[7] == 's');
        assert("RangePredicate"@.len() == 14
            && "RangePredicate"@[0] == 'R'
            && "RangePredicate"@[1] == 'a'
            && "RangePredicate"@[2] == 'n'
            && "RangePredicate"@[3] == 'g'
            && "RangePredicate"@[7] == 'e');
        assert("ExplicitPredicate"@.len() == 17
            && "ExplicitPredicate"@[0] == 'E'
            && "ExplicitPredicate"@[1] == 'x'
            && "ExplicitPredicate"@[2] == 'p'
            && "ExplicitPredicate"@[3] == 'l'
            && "ExplicitPredicate"@[7] == 't');
        assert("ExplicitModifier"@.len() == 16
            && "ExplicitModifier"@[0] == 'E'
            && "ExplicitModifier"@[1] == 'x'
            && "ExplicitModifier"@[2] == 'p'
            && "ExplicitModifier"@[3] == 'l'
            && "ExplicitModifier"@[7] == 't');
        assert("MultiBit"@.len() == 8
            && "MultiBit"@[0] == 'M'
            && "MultiBit"@[1] == 'u'
            && "MultiBit"@[2] == 'l'
            && "MultiBit"@[3] == 't'
            && "MultiBit"@[7] == 't');
        assert("Phase"@.len() == 5
            && "Phase"@[0] == 'P'
            && "Phase"@[1] == 'h'
            && "Phase"@[2] == 'a'
            && "Phase"@[3] == 's');
        assert("Z"@.len() == 1 && "Z"@[0] == 'Z');
        assert("X"@.len() == 1 && "X"@[0] == 'X');
        assert("Y"@.len() == 1 && "Y"@[0] == 'Y');
        assert("S"@.len() == 1 && "S"@[0] == 'S');
        assert("Sdg"@.len() == 3 && "Sdg"@[0] == 'S' && "Sdg"@[1] == 'd' && "Sdg"@[2] == 'g');
        assert("T"@.len() == 1 && "T"@[0] == 'T');
        assert("Tdg"@.len() == 3 && "Tdg"@[0] == 'T' && "Tdg"@[1] == 'd' && "Tdg"@[2] == 'g');
        assert("V"@.len() == 1 && "V"@[0] == 'V');
        assert("Vdg"@.len() == 3 && "Vdg"@[0] == 'V' && "Vdg"@[1] == 'd' && "Vdg"@[2] == 'g');
        assert("SX"@.len() == 2 && "SX"@[0] == 'S' && "SX"@[1] == 'X');
        assert("SXdg"@.len() == 4
            && "SXdg"@[0] == 'S'
            && "SXdg"@[1] == 'X'
            && "SXdg"@[2] == 'd'
            && "SXdg"@[3] == 'g');
        assert("H"@.len() == 1 && "H"@[0] == 'H');
        assert("Rx"@.len() == 2 && "Rx"@[0] == 'R' && "Rx"@[1] == 'x');
        assert("Ry"@.len() == 2 && "Ry"@[0] == 'R' && "Ry"@[1] == 'y');
        assert("Rz"@.len() == 2 && "Rz"@[0] == 'R' && "Rz"@[1] == 'z');
        assert("U3"@.len() == 2 && "U3"@[0] == 'U' && "U3"@[1] == '3');
        assert("U2"@.len() == 2 && "U2"@[0] == 'U' && "U2"@[1] == '2');
        assert("U1"@.len() == 2 && "U1"@[0] == 'U' && "U1"@[1] == '1');
        assert("TK1"@.len() == 3 && "TK1"@[0] == 'T' && "TK1"@[1] == 'K' && "TK1"@[2] == '1');
        assert("TK2"@.len() == 3 && "TK2"@[0] == 'T' && "TK2"@[1] == 'K' && "TK2"@[2] == '2');
        assert("CX"@.len() == 2 && "CX"@[0] == 'C' && "CX"@[1] == 'X');
        assert("CY"@.len() == 2 && "CY"@[0] == 'C' && "CY"@[1] == 'Y');
        assert("CZ"@.len() == 2 && "CZ"@[0] == 'C' && "CZ"@[1] == 'Z');
        assert("CH"@.len() == 2 && "CH"@[0] == 'C' && "CH"@[1] == 'H');
        assert("CV"@.len() == 2 && "CV"@[0] == 'C' && "CV"@[1] == 'V');
        assert("CVdg"@.len() == 4
            && "CVdg"@[0] == 'C'
            && "CVdg"@[1] == 'V'
            && "CVdg"@[2] == 'd'
            && "CVdg"@[3] == 'g');
        assert("CSX"@.len() == 3 && "CSX"@[0] == 'C' && "CSX"@[1] == 'S' && "CSX"@[2] == 'X');
        assert("CSXdg"@.len() == 5
            && "CSXdg"@[0] == 'C'
            && "CSXdg"@[1] == 'S'
            && "CSXdg"@[2] == 'X'
            && "CSXdg"@[3] == 'd');
        assert("CS"@.len() == 2 && "CS"@[0] == 'C' && "CS"@[1] == 'S');
        assert("CSdg"@.len() == 4
            && "CSdg"@[0] == 'C'
            && "CSdg"@[1] == 'S'
            && "CSdg"@[2] == 'd'
            && "CSdg"@[3] == 'g');
        assert("CRz"@.len() == 3 && "CRz"@[0] == 'C' && "CRz"@[1] == 'R' && "CRz"@[2] == 'z');
        assert("CRx"@.len() == 3 && "CRx"@[0] == 'C' && "CRx"@[1] == 'R' && "CRx"@[2] == 'x');
        assert("CRy"@.len() == 3 && "CRy"@[0] == 'C' && "CRy"@[1] == 'R' && "CRy"@[2] == 'y');
        assert("CU1"@.len() == 3 && "CU1"@[0] == 'C' && "CU1"@[1] == 'U' && "CU1"@[2] == '1');
        assert("CU3"@.len() == 3 && "CU3"@[0] == 'C' && "CU3"@[1] == 'U' && "CU3"@[2] == '3');
        assert("PhaseGadget"@.len() == 11
            && "PhaseGadget"@[0] == 'P'
            && "PhaseGadget"@[1] == 'h'
            && "PhaseGadget"@[2] == 'a'
            && "PhaseGadget"@[3] == 's'
            && "PhaseGadget"@[7] == 'd');
        assert("CCX"@.len() == 3 && "CCX"@[0] == 'C' && "CCX"@[1] == 'C' && "CCX"@[2] == 'X');
        assert("SWAP"@.len() == 4
            && "SWAP"@[0] == 'S'
            && "SWAP"@[1] == 'W'
            && "SWAP"@[2] == 'A'
            && "SWAP"@[3] == 'P');
        assert("CSWAP"@.len() == 5
            && "CSWAP"@[0] == 'C'
            && "CSWAP"@[1] == 'S'
            && "CSWAP"@[2] == 'W'
            && "CSWAP"@[3] == 'A');
        assert("BRIDGE"@.len() == 6
            && "BRIDGE"@[0] == 'B'
            && "BRIDGE"@[1] == 'R'
            && "BRIDGE"@[2] == 'I'
            && "BRIDGE"@[3] == 'D');
        assert("noop"@.len() == 4
            && "noop"@[0] == 'n'
            && "noop"@[1] == 'o'
            && "noop"@[2] == 'o'
            && "noop"@[3] == 'p');
        assert("Measure"@.len() == 7
            && "Measure"@[0] == 'M'
            && "Measure"@[1] == 'e'
            && "Measure"@[2] == 'a'
            && "Measure"@[3] == 's');
        assert("Collapse"@.len() == 8
            && "Collapse"@[0] == 'C'
            && "Collapse"@[1] == 'o'
            && "Collapse"@[2] == 'l'
            && "Collapse"@[3] == 'l'
            && "Collapse"@[7] == 'e');
        assert("Reset"@.len() == 5
            && "Reset"@[0] == 'R'
            && "Reset"@[1] == 'e'
            && "Reset"@[2] == 's'
            && "Reset"@[3] == 'e');
        assert("ECR"@.len() == 3 && "ECR"@[0] == 'E' && "ECR"@[1] == 'C' && "ECR"@[2] == 'R');
        assert("ISWAP"@.len() == 5
            && "ISWAP"@[0] == 'I'
            && "ISWAP"@[1] == 'S'
            && "ISWAP"@[2] == 'W'
            && "ISWAP"@[3] == 'A');
        assert("PhasedX"@.len() == 7
            && "PhasedX"@[0] == 'P'
            && "PhasedX"@[1] == 'h'
            && "PhasedX"@[2] == 'a'
            && "PhasedX"@[3] == 's');
        assert("NPhasedX"@.len() == 8
            && "NPhasedX"@[0] == 'N'
            && "NPhasedX"@[1] == 'P'
            && "NPhasedX"@[2] == 'h'
            && "NPhasedX"@[3] == 'a'
            && "NPhasedX"@[7] == 'X');
        assert("ZZMax"@.len() == 5
            && "ZZMax"@[0] == 'Z'
            && "ZZMax"@[1] == 'Z'
            && "ZZMax"@[2] == 'M'
            && "ZZMax"@[3] == 'a');
        assert("XXPhase"@.len() == 7
            && "XXPhase"@[0] == 'X'
            && "XXPhase"@[1] == 'X'
            && "XXPhase"@[2] == 'P'
            && "XXPhase"@[3] == 'h');
        assert("YYPhase"@.len() == 7
            && "YYPhase"@[0] == 'Y'
            && "YYPhase"@[1] == 'Y'
            && "YYPhase"@[2] == 'P'
            && "YYPhase"@[3] == 'h');
        assert("ZZPhase"@.len() == 7
            && "ZZPhase"@[0] == 'Z'
            && "ZZPhase"@[1] == 'Z'
            && "ZZPhase"@[2] == 'P'
            && "ZZPhase"@[3] == 'h');
        assert("XXPhase3"@.len() == 8
            && "XXPhase3"@[0] == 'X'
            && "XXPhase3"@[1] == 'X'
            && "XXPhase3"@[2] == 'P'
            && "XXPhase3"@[3] == 'h'
            && "XXPhase3"@[7] == '3');
        assert("ESWAP"@.len() == 5
            && "ESWAP"@[0] == 'E'
            && "ESWAP"@[1] == 'S'
            && "ESWAP"@[2] == 'W'
            && "ESWAP"@[3] == 'A');
        assert("FSim"@.len() == 4
            && "FSim"@[0] == 'F'
            && "FSim"@[1] == 'S'
            && "FSim"@[2] == 'i'
            && "FSim"@[3] == 'm');
        assert("Sycamore"@.len() == 8
            && "Sycamore"@[0] == 'S'
            && "Sycamore"@[1] == 'y'
            && "Sycamore"@[2] == 'c'
            && "Sycamore"@[3] == 'a'
            && "Sycamore"@[7] == 'e');
        assert("ISWAPMax"@.len() == 8
            && "ISWAPMax"@[0] == 'I'
            && "ISWAPMax"@[1] == 'S'
            && "ISWAPMax"@[2] == 'W'
            && "ISWAPMax"@[3] == 'A'
            && "ISWAPMax"@[7] == 'x');
        assert("PhasedISWAP"@.len() == 11
            && "PhasedISWAP"@[0] == 'P'
            && "PhasedISWAP"@[1] == 'h'
            && "PhasedISWAP"@[2] == 'a'
            && "PhasedISWAP"@[3] == 's'
            && "PhasedISWAP"@[7] == 'S');
        assert("CnRx"@.len() == 4
            && "CnRx"@[0] == 'C'
            && "CnRx"@[1] == 'n'
            && "CnRx"@[2] == 'R'
            && "CnRx"@[3] == 'x');
        assert("CnRy"@.len() == 4
            && "CnRy"@[0] == 'C'
            && "CnRy"@[1] == 'n'
            && "CnRy"@[2] == 'R'
            && "CnRy"@[3] == 'y');
        assert("CnRz"@.len() == 4
            && "CnRz"@[0] == 'C'
            && "CnRz"@[1] == 'n'
            && "CnRz"@[2] == 'R'
            && "CnRz"@[3] == 'z');
        assert("CnX"@.len() == 3 && "CnX"@[0] == 'C' && "CnX"@[1] == 'n' && "CnX"@[2] == 'X');
        assert("CnY"@.len() == 3 && "CnY"@[0] == 'C' && "CnY"@[1] == 'n' && "CnY"@[2] == 'Y');
        assert("CnZ"@.len() == 3 && "CnZ"@[0] == 'C' && "CnZ"@[1] == 'n' && "CnZ"@[2] == 'Z');
        assert("GPI"@.len() == 3 && "GPI"@[0] == 'G' && "GPI"@[1] == 'P' && "GPI"@[2] == 'I');
        assert("GPI2"@.len() == 4
            && "GPI2"@[0] == 'G'
            && "GPI2"@[1] == 'P'
            && "GPI2"@[2] == 'I'
            && "GPI2"@[3] == '2');
        assert("AAMS"@.len() == 4
            && "AAMS"@[0] == 'A'
            && "AAMS"@[1] == 'A'
            && "AAMS"@[2] == 'M'
            && "AAMS"@[3] == 'S');
        assert("CircBox"@.len() == 7
            && "CircBox"@[0] == 'C'
            && "CircBox"@[1] == 'i'
            && "CircBox"@[2] == 'r'
            && "CircBox"@[3] == 'c');
        assert("Unitary1qBox"@.len() == 12
            && "Unitary1qBox"@[0] == 'U'
            && "Unitary1qBox"@[1] == 'n'
            && "Unitary1qBox"@[2] == 'i'
            && "Unitary1qBox"@[3] == 't'
            && "Unitary1qBox"@[7] == '1');
        assert("Unitary2qBox"@.len() == 12
            && "Unitary2qBox"@[0] == 'U'
            && "Unitary2qBox"@[1] == 'n'
            && "Unitary2qBox"@[2] == 'i'
            && "Unitary2qBox"@[3] == 't'
            && "Unitary2qBox"@[7] == '2');
        assert("Unitary3qBox"@.len() == 12
            && "Unitary3qBox"@[0] == 'U'
            && "Unitary3qBox"@[1] == 'n'
            && "Unitary3qBox"@[2] == 'i'
            && "Unitary3qBox"@[3] == 't'
            && "Unitary3qBox"@[7] == '3');
        assert("ExpBox"@.len() == 6
            && "ExpBox"@[0] == 'E'
            && "ExpBox"@[1] == 'x'
            && "ExpBox"@[2] == 'p'
            && "ExpBox"@[3] == 'B');
        assert("PauliExpBox"@.len() == 11
            && "PauliExpBox"@[0] == 'P'
            && "PauliExpBox"@[1] == 'a'
            && "PauliExpBox"@[2] == 'u'
            && "PauliExpBox"@[3] == 'l'
            && "PauliExpBox"@[7] == 'p');
        assert("PauliExpPairBox"@.len() == 15
            && "PauliExpPairBox"@[0] == 'P'
            && "PauliExpPairBox"@[1] == 'a'
            && "PauliExpPairBox"@[2] == 'u'
            && "PauliExpPairBox"@[3] == 'l'
            && "PauliExpPairBox"@[7] == 'p');
        assert("PauliExpCommutingSetBox"@.len() == 23
            && "PauliExpCommutingSetBox"@[0] == 'P'
            && "PauliExpCommutingSetBox"@[1] == 'a'
            && "PauliExpCommutingSetBox"@[2] == 'u'
            && "PauliExpCommutingSetBox"@[3] == 'l'
            && "PauliExpCommutingSetBox"@[7] == 'p');
        assert("TermSequenceBox"@.len() == 15
            && "TermSequenceBox"@[0] == 'T'
            && "TermSequenceBox"@[1] == 'e'
            && "TermSequenceBox"@[2] == 'r'
            && "TermSequenceBox"@[3] == 'm'
            && "TermSequenceBox"@[7] == 'u');
        assert("CliffBox"@.len() == 8
            && "CliffBox"@[0] == 'C'
            && "CliffBox"@[1] == 'l'
            && "CliffBox"@[2] == 'i'
            && "CliffBox"@[3] == 'f'
            && "CliffBox"@[7] == 'x');
        assert("PhasePolyBox"@.len() == 12
            && "PhasePolyBox"@[0] == 'P'
            && "PhasePolyBox"@[1] == 'h'
            && "PhasePolyBox"@[2] == 'a'
            && "PhasePolyBox"@[3] == 's'
            && "PhasePolyBox"@[7] == 'l');
        assert("Conditional"@.len() == 11
            && "Conditional"@[0] == 'C'
            && "Conditional"@[1] == 'o'
            && "Conditional"@[2] == 'n'
            && "Conditional"@[3] == 'd'
            && "Conditional"@[7] == 'o');
        assert("StabiliserAssertionBox"@.len() == 22
            && "StabiliserAssertionBox"@[0] == 'S'
            && "StabiliserAssertionBox"@[1] == 't'
            && "StabiliserAssertionBox"@[2] == 'a'
            && "StabiliserAssertionBox"@[3] == 'b'
            && "StabiliserAssertionBox"@[7] == 's');
        assert("ProjectorAssertionBox"@.len() == 21
            && "ProjectorAssertionBox"@[0] == 'P'
            && "ProjectorAssertionBox"@[1] == 'r'
            && "ProjectorAssertionBox"@[2] == 'o'
            && "ProjectorAssertionBox"@[3] == 'j'
            && "ProjectorAssertionBox"@[7] == 'o');
        assert("CustomGate"@.len() == 10
            && "CustomGate"@[0] == 'C'
            && "CustomGate"@[1] == 'u'
            && "CustomGate"@[2] == 's'
            && "CustomGate"@[3] == 't'
            && "CustomGate"@[7] == 'a');
        assert("QControlBox"@.len() == 11
            && "QControlBox"@[0] == 'Q'
            && "QControlBox"@[1] == 'C'
            && "QControlBox"@[2] == 'o'
            && "QControlBox"@[3] == 'n'
            && "QControlBox"@[7] == 'l');
        assert("UnitaryTableauBox"@.len() == 17
            && "UnitaryTableauBox"@[0] == 'U'
            && "UnitaryTableauBox"@[1] == 'n'
            && "UnitaryTableauBox"@[2] == 'i'
            && "UnitaryTableauBox"@[3] == 't'
            && "UnitaryTableauBox"@[7] == 'T');
        assert("ClassicalExpBox"@.len() == 15
            && "ClassicalExpBox"@[0] == 'C'
            && "ClassicalExpBox"@[1] == 'l'
            && "ClassicalExpBox"@[2] == 'a'
            && "ClassicalExpBox"@[3] == 's'
            && "ClassicalExpBox"@[7] == 'a');
        assert("MultiplexorBox"@.len() == 14
            && "MultiplexorBox"@[0] == 'M'
            && "MultiplexorBox"@[1] == 'u'
            && "MultiplexorBox"@[2] == 'l'
            && "MultiplexorBox"@[3] == 't'
            && "MultiplexorBox"@[7] == 'e');
        assert("MultiplexedRotationBox"@.len() == 22
            && "MultiplexedRotationBox"@[0] == 'M'
            && "MultiplexedRotationBox"@[1] == 'u'
            && "MultiplexedRotationBox"@[2] == 'l'
            && "MultiplexedRotationBox"@[3] == 't'
            && "MultiplexedRotationBox"@[7] == 'e');
        assert("MultiplexedU2Box"@.len() == 16
            && "MultiplexedU2Box"@[0] == 'M'
            && "MultiplexedU2Box"@[1] == 'u'
            && "MultiplexedU2Box"@[2] == 'l'
            && "MultiplexedU2Box"@[3] == 't'
            && "MultiplexedU2Box"@[7] == 'e');
        assert("MultiplexedTensoredU2Box"@.len() == 24
            && "MultiplexedTensoredU2Box"@[0] == 'M'
            && "MultiplexedTensoredU2Box"@[1] == 'u'
            && "MultiplexedTensoredU2Box"@[2] == 'l'
            && "MultiplexedTensoredU2Box"@[3] == 't'
            && "MultiplexedTensoredU2Box"@[7] == 'e');
        assert("ToffoliBox"@.len() == 10
            && "ToffoliBox"@[0] == 'T'
            && "ToffoliBox"@[1] == 'o'
            && "ToffoliBox"@[2] == 'f'
            && "ToffoliBox"@[3] == 'f'
            && "ToffoliBox"@[7] == 'B');
        assert("ConjugationBox"@.len() == 14
            && "ConjugationBox"@[0] == 'C'
            && "ConjugationBox"@[1] == 'o'
            && "ConjugationBox"@[2] == 'n'
            && "ConjugationBox"@[3] == 'j'
            && "ConjugationBox"@[7] == 't');
        assert("DummyBox"@.len() == 8
            && "DummyBox"@[0] == 'D'
            && "DummyBox"@[1] == 'u'
            && "DummyBox"@[2] == 'm'
            && "DummyBox"@[3] == 'm'
            && "DummyBox"@[7] == 'x');
        assert("StatePreparationBox"@.len() == 19
            && "StatePreparationBox"@[0] == 'S'
            && "StatePreparationBox"@[1] == 't'
            && "StatePreparationBox"@[2] == 'a'
            && "StatePreparationBox"@[3] == 't'
            && "StatePreparationBox"@[7] == 'e');
        assert("DiagonalBox"@.len() == 11
            && "DiagonalBox"@[0] == 'D'
            && "DiagonalBox"@[1] == 'i'
            && "DiagonalBox"@[2] == 'a'
            && "DiagonalBox"@[3] == 'g'
            && "DiagonalBox"@[7] == 'l');
        assert("ClExpr"@.len() == 6
            && "ClExpr"@[0] == 'C'
            && "ClExpr"@[1] == 'l'
            && "ClExpr"@[2] == 'E'
            && "ClExpr"@[3] == 'x');
        assert("tk1"@.len() == 3 && "tk1"@[0] == 't' && "tk1"@[1] == 'k' && "tk1"@[2] == '1');
        assert("tk2"@.len() == 3 && "tk2"@[0] == 't' && "tk2"@[1] == 'k' && "tk2"@[2] == '2');
        assert("Condition"@.len() == 9
            && "Condition"@[0] == 'C'
            && "Condition"@[1] == 'o'
            && "Condition"@[2] == 'n'
            && "Condition"@[3] == 'd'
            && "Condition"@[7] == 'o');
        assert("Composite"@.len() == 9
            && "Composite"@[0] == 'C'
            && "Composite"@[1] == 'o'
            && "Composite"@[2] == 'm'
            && "Composite"@[3] == 'p'
            && "Composite"@[7] == 't');
    }
}

impl DeepView for OpType {
    type V = OpType;

    open spec fn deep_view(&self) -> OpType {
        *self
    }
}

/// A string: the name of the type, or a name that earlier documents gave it.
impl Codec for OpType {
    open spec fn decode_spec(j: JsonView) -> Result<OpType, ErrorView> {
        match j {
            JsonView::String(s) => match OpType::from_wire_name(s) {
                Some(t) => Ok(t),
                None => Err(ErrorView::here(ErrorKind::UnknownVariant)),
            },
            _ => Err(ErrorView::mismatch()),
        }
    }

    open spec fn encode_spec(v: OpType) -> JsonView {
        JsonView::String(v.name())
    }

    open spec fn valid(v: OpType) -> bool {
        true
    }

    fn decode(j: &Json) -> (r: Result<OpType, DecodeError>) {
        match j {
            Json::String(s) => match OpType::parse_wire(s.as_str()) {
                Some(t) => {
                    proof {
                        Self::lemma_round_trip(t);
                    }
                    Ok(t)
                },
                None => Err(DecodeError::here(ErrorKind::UnknownVariant)),
            },
            _ => Err(DecodeError::mismatch()),
        }
    }

    fn encode(&self) -> (j: Json) {
        Json::String(self.as_str().to_owned())
    }

    proof fn lemma_round_trip(v: OpType) {
        OpType::lemma_name_round_trip(v);
    }
}

impl DeepCopy for OpType {
    fn deep_copy(&self) -> (r: OpType) {
        *self
    }
}

impl std::str::FromStr for OpType {
    type Err = UnknownName;

    fn from_str(s: &str) -> (r: Result<OpType, UnknownName>)
        ensures
            r == (match OpType::from_name(s@) {
                Some(t) => Ok::<OpType, UnknownName>(t),
                None => Err::<OpType, UnknownName>(UnknownName),
            }),
    {
        match OpType::parse(s) {
            Some(t) => Ok(t),
            None => Err(UnknownName),
        }
    }
}

} // verus!
