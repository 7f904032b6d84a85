//! The kinds of boxes and their tags.

use vstd::prelude::*;
use crate::json::str_eq;
use crate::opbox::OpBoxView;

verus! {

/// The one default that is not the zero of its type.
pub fn default_true() -> (r: bool)
    ensures
        r == true,
{
    true
}

/// The kinds of boxes, as their tags name them.
#[derive(Clone, Copy, Debug, PartialEq, Eq, Hash)]
#[non_exhaustive]
pub enum BoxKind {
    /// An operation defined by a circuit.
    CircBox,
    /// An operation on one qubit, defined by its matrix.
    Unitary1qBox,
    /// An operation on two qubits, defined by its matrix.
    Unitary2qBox,
    /// An operation on three qubits, defined by its matrix.
    Unitary3qBox,
    /// An operation on two qubits, defined as the exponential of a hermitian
    ExpBox,
    /// The exponential of a tensor of Pauli operators.
    PauliExpBox,
    /// Two exponentials of Pauli tensors, one after the other.
    PauliExpPairBox,
    /// Exponentials of Pauli tensors that commute.
    PauliExpCommutingSetBox,
    /// Exponentials of Pauli tensors that may be built in any order.
    TermSequenceBox,
    /// A circuit of CX and Rz gates, as a phase polynomial and a linear
    PhasePolyBox,
    /// An assertion that a state is stabilised by given Pauli strings.
    StabiliserAssertionBox,
    /// An assertion that a state lies in the range of a projector.
    ProjectorAssertionBox,
    /// A gate defined by a circuit with parameters.
    CustomGate,
    /// An operation under quantum control.
    QControlBox,
    /// A classical expression of the older form.
    ClassicalExpBox,
    /// A Clifford operation, defined by its tableau.
    UnitaryTableauBox,
    /// An operation chosen by the state of control qubits.
    MultiplexorBox,
    /// A rotation chosen by the state of control qubits.
    MultiplexedRotationBox,
    /// A one-qubit operation chosen by the state of control qubits.
    MultiplexedU2Box,
    /// A tensor of one-qubit operations chosen by the state of control qubits.
    MultiplexedTensoredU2Box,
    /// A permutation of classical basis states.
    ToffoliBox,
    /// A computation, an action, and the computation undone.
    ConjugationBox,
    /// A stand-in that only records resources. A circuit that holds one
    DummyBox,
    /// A preparation of a state from the zero state.
    StatePreparationBox,
    /// A diagonal operation.
    DiagonalBox,
}

impl BoxKind {
    /// The name that the variant goes by.
    #[verifier::opaque]
    pub open spec fn name(self) -> Seq<char> {
        match self {
            BoxKind::CircBox => "CircBox"@,
            BoxKind::Unitary1qBox => "Unitary1qBox"@,
            BoxKind::Unitary2qBox => "Unitary2qBox"@,
            BoxKind::Unitary3qBox => "Unitary3qBox"@,
            BoxKind::ExpBox => "ExpBox"@,
            BoxKind::PauliExpBox => "PauliExpBox"@,
            BoxKind::PauliExpPairBox => "PauliExpPairBox"@,
            BoxKind::PauliExpCommutingSetBox => "PauliExpCommutingSetBox"@,
            BoxKind::TermSequenceBox => "TermSequenceBox"@,
            BoxKind::PhasePolyBox => "PhasePolyBox"@,
            BoxKind::StabiliserAssertionBox => "StabiliserAssertionBox"@,
            BoxKind::ProjectorAssertionBox => "ProjectorAssertionBox"@,
            BoxKind::CustomGate => "CustomGate"@,
            BoxKind::QControlBox => "QControlBox"@,
            BoxKind::ClassicalExpBox => "ClassicalExpBox"@,
            BoxKind::UnitaryTableauBox => "UnitaryTableauBox"@,
            BoxKind::MultiplexorBox => "MultiplexorBox"@,
            BoxKind::MultiplexedRotationBox => "MultiplexedRotationBox"@,
            BoxKind::MultiplexedU2Box => "MultiplexedU2Box"@,
            BoxKind::MultiplexedTensoredU2Box => "MultiplexedTensoredU2Box"@,
            BoxKind::ToffoliBox => "ToffoliBox"@,
            BoxKind::ConjugationBox => "ConjugationBox"@,
            BoxKind::DummyBox => "DummyBox"@,
            BoxKind::StatePreparationBox => "StatePreparationBox"@,
            BoxKind::DiagonalBox => "DiagonalBox"@,
        }
    }

    /// The variant that goes by a name.
    #[verifier::opaque]
    pub open spec fn from_name(s: Seq<char>) -> Option<BoxKind> {
        if s == "CircBox"@ {
            Some(BoxKind::CircBox)
        } else if s == "Unitary1qBox"@ {
            Some(BoxKind::Unitary1qBox)
        } else if s == "Unitary2qBox"@ {
            Some(BoxKind::Unitary2qBox)
        } else if s == "Unitary3qBox"@ {
            Some(BoxKind::Unitary3qBox)
        } else if s == "ExpBox"@ {
            Some(BoxKind::ExpBox)
        } else if s == "PauliExpBox"@ {
            Some(BoxKind::PauliExpBox)
        } else if s == "PauliExpPairBox"@ {
            Some(BoxKind::PauliExpPairBox)
        } else if s == "PauliExpCommutingSetBox"@ {
            Some(BoxKind::PauliExpCommutingSetBox)
        } else if s == "TermSequenceBox"@ {
            Some(BoxKind::TermSequenceBox)
        } else if s == "PhasePolyBox"@ {
            Some(BoxKind::PhasePolyBox)
        } else if s == "StabiliserAssertionBox"@ {
            Some(BoxKind::StabiliserAssertionBox)
        } else if s == "ProjectorAssertionBox"@ {
            Some(BoxKind::ProjectorAssertionBox)
        } else if s == "CustomGate"@ {
            Some(BoxKind::CustomGate)
        } else if s == "QControlBox"@ {
            Some(BoxKind::QControlBox)
        } else if s == "ClassicalExpBox"@ {
            Some(BoxKind::ClassicalExpBox)
        } else if s == "UnitaryTableauBox"@ {
            Some(BoxKind::UnitaryTableauBox)
        } else if s == "MultiplexorBox"@ {
            Some(BoxKind::MultiplexorBox)
        } else if s == "MultiplexedRotationBox"@ {
            Some(BoxKind::MultiplexedRotationBox)
        } else if s == "MultiplexedU2Box"@ {
            Some(BoxKind::MultiplexedU2Box)
        } else if s == "MultiplexedTensoredU2Box"@ {
            Some(BoxKind::MultiplexedTensoredU2Box)
        } else if s == "ToffoliBox"@ {
            Some(BoxKind::ToffoliBox)
        } else if s == "ConjugationBox"@ {
            Some(BoxKind::ConjugationBox)
        } else if s == "DummyBox"@ {
            Some(BoxKind::DummyBox)
        } else if s == "StatePreparationBox"@ {
            Some(BoxKind::StatePreparationBox)
        } else if s == "DiagonalBox"@ {
            Some(BoxKind::DiagonalBox)
        } else {
            None
        }
    }

    /// The variant that a document names: by its name, or by one of the
    /// names that earlier documents gave it.
    #[verifier::opaque]
    pub open spec fn from_wire_name(s: Seq<char>) -> Option<BoxKind> {
        if s == "Composite"@ {
            Some(BoxKind::CustomGate)
        } else {
            BoxKind::from_name(s)
        }
    }

    /// The name that the variant goes by.
    pub fn as_str(&self) -> (r: &'static str)
        ensures
            r@ == self.name(),
    {
        proof {
            reveal(BoxKind::name);
        }
        match self {
            BoxKind::CircBox => "CircBox",
            BoxKind::Unitary1qBox => "Unitary1qBox",
            BoxKind::Unitary2qBox => "Unitary2qBox",
            BoxKind::Unitary3qBox => "Unitary3qBox",
            BoxKind::ExpBox => "ExpBox",
            BoxKind::PauliExpBox => "PauliExpBox",
            BoxKind::PauliExpPairBox => "PauliExpPairBox",
            BoxKind::PauliExpCommutingSetBox => "PauliExpCommutingSetBox",
            BoxKind::TermSequenceBox => "TermSequenceBox",
            BoxKind::PhasePolyBox => "PhasePolyBox",
            BoxKind::StabiliserAssertionBox => "StabiliserAssertionBox",
            BoxKind::ProjectorAssertionBox => "ProjectorAssertionBox",
            BoxKind::CustomGate => "CustomGate",
            BoxKind::QControlBox => "QControlBox",
            BoxKind::ClassicalExpBox => "ClassicalExpBox",
            BoxKind::UnitaryTableauBox => "UnitaryTableauBox",
            BoxKind::MultiplexorBox => "MultiplexorBox",
            BoxKind::MultiplexedRotationBox => "MultiplexedRotationBox",
            BoxKind::MultiplexedU2Box => "MultiplexedU2Box",
            BoxKind::MultiplexedTensoredU2Box => "MultiplexedTensoredU2Box",
            BoxKind::ToffoliBox => "ToffoliBox",
            BoxKind::ConjugationBox => "ConjugationBox",
            BoxKind::DummyBox => "DummyBox",
            BoxKind::StatePreparationBox => "StatePreparationBox",
            BoxKind::DiagonalBox => "DiagonalBox",
        }
    }

    /// The variant that goes by a name, if there is one.
    pub fn parse(s: &str) -> (r: Option<BoxKind>)
        ensures
            r == BoxKind::from_name(s@),
    {
        proof {
            reveal(BoxKind::from_name);
        }
        if str_eq(s, "CircBox") {
            Some(BoxKind::CircBox)
        } else if str_eq(s, "Unitary1qBox") {
            Some(BoxKind::Unitary1qBox)
        } else if str_eq(s, "Unitary2qBox") {
            Some(BoxKind::Unitary2qBox)
        } else if str_eq(s, "Unitary3qBox") {
            Some(BoxKind::Unitary3qBox)
        } else if str_eq(s, "ExpBox") {
            Some(BoxKind::ExpBox)
        } else if str_eq(s, "PauliExpBox") {
            Some(BoxKind::PauliExpBox)
        } else if str_eq(s, "PauliExpPairBox") {
            Some(BoxKind::PauliExpPairBox)
        } else if str_eq(s, "PauliExpCommutingSetBox") {
            Some(BoxKind::PauliExpCommutingSetBox)
        } else if str_eq(s, "TermSequenceBox") {
            Some(BoxKind::TermSequenceBox)
        } else if str_eq(s, "PhasePolyBox") {
            Some(BoxKind::PhasePolyBox)
        } else if str_eq(s, "StabiliserAssertionBox") {
            Some(BoxKind::StabiliserAssertionBox)
        } else if str_eq(s, "ProjectorAssertionBox") {
            Some(BoxKind::ProjectorAssertionBox)
        } else if str_eq(s, "CustomGate") {
            Some(BoxKind::CustomGate)
        } else if str_eq(s, "QControlBox") {
            Some(BoxKind::QControlBox)
        } else if str_eq(s, "ClassicalExpBox") {
            Some(BoxKind::ClassicalExpBox)
        } else if str_eq(s, "UnitaryTableauBox") {
            Some(BoxKind::UnitaryTableauBox)
        } else if str_eq(s, "MultiplexorBox") {
            Some(BoxKind::MultiplexorBox)
        } else if str_eq(s, "MultiplexedRotationBox") {
            Some(BoxKind::MultiplexedRotationBox)
        } else if str_eq(s, "MultiplexedU2Box") {
            Some(BoxKind::MultiplexedU2Box)
        } else if str_eq(s, "MultiplexedTensoredU2Box") {
            Some(BoxKind::MultiplexedTensoredU2Box)
        } else if str_eq(s, "ToffoliBox") {
            Some(BoxKind::ToffoliBox)
        } else if str_eq(s, "ConjugationBox") {
            Some(BoxKind::ConjugationBox)
        } else if str_eq(s, "DummyBox") {
            Some(BoxKind::DummyBox)
        } else if str_eq(s, "StatePreparationBox") {
            Some(BoxKind::StatePreparationBox)
        } else if str_eq(s, "DiagonalBox") {
            Some(BoxKind::DiagonalBox)
        } else {
            None
        }
    }

    /// The variant that a document names, if it names one.
    pub fn parse_wire(s: &str) -> (r: Option<BoxKind>)
        ensures
            r == BoxKind::from_wire_name(s@),
    {
        proof {
            reveal(BoxKind::from_wire_name);
        }
        if str_eq(s, "Composite") {
            Some(BoxKind::CustomGate)
        } else {
            BoxKind::parse(s)
        }
    }
}

impl BoxKind {
    /// Every variant is the one that goes by its name.
    pub proof fn lemma_name_round_trip(t: BoxKind)
        ensures
            BoxKind::from_name(t.name()) == Some(t),
            BoxKind::from_wire_name(t.name()) == Some(t),
    {
        reveal(BoxKind::name);
        reveal(BoxKind::from_name);
        reveal(BoxKind::from_wire_name);
        reveal_strlit("CircBox");
        reveal_strlit("Unitary1qBox");
        reveal_strlit("Unitary2qBox");
        reveal_strlit("Unitary3qBox");
        reveal_strlit("ExpBox");
        reveal_strlit("PauliExpBox");
        reveal_strlit("PauliExpPairBox");
        reveal_strlit("PauliExpCommutingSetBox");
        reveal_strlit("TermSequenceBox");
        reveal_strlit("PhasePolyBox");
        reveal_strlit("StabiliserAssertionBox");
        reveal_strlit("ProjectorAssertionBox");
        reveal_strlit("CustomGate");
        reveal_strlit("QControlBox");
        reveal_strlit("ClassicalExpBox");
        reveal_strlit("UnitaryTableauBox");
        reveal_strlit("MultiplexorBox");
        reveal_strlit("MultiplexedRotationBox");
        reveal_strlit("MultiplexedU2Box");
        reveal_strlit("MultiplexedTensoredU2Box");
        reveal_strlit("ToffoliBox");
        reveal_strlit("ConjugationBox");
        reveal_strlit("DummyBox");
        reveal_strlit("StatePreparationBox");
        reveal_strlit("DiagonalBox");
        reveal_strlit("Composite");
        assert("CircBox"@.len() == 7 && "CircBox"@[0] == 'C');
        assert("Unitary1qBox"@.len() == 12
            && "Unitary1qBox"@[0] == 'U'
            && "Unitary1qBox"@[7] == '1');
        assert("Unitary2qBox"@.len() == 12
            && "Unitary2qBox"@[0] == 'U'
            && "Unitary2qBox"@[7] == '2');
        assert("Unitary3qBox"@.len() == 12
            && "Unitary3qBox"@[0] == 'U'
            && "Unitary3qBox"@[7] == '3');
        assert("ExpBox"@.len() == 6 && "ExpBox"@[0] == 'E');
        assert("PauliExpBox"@.len() == 11 && "PauliExpBox"@[0] == 'P' && "PauliExpBox"@[7] == 'p');
        assert("PauliExpPairBox"@.len() == 15
            && "PauliExpPairBox"@[0] == 'P'
            && "PauliExpPairBox"@[7] == 'p');
        assert("PauliExpCommutingSetBox"@.len() == 23
            && "PauliExpCommutingSetBox"@[0] == 'P'
            && "PauliExpCommutingSetBox"@[7] == 'p');
        assert("TermSequenceBox"@.len() == 15
            && "TermSequenceBox"@[0] == 'T'
            && "TermSequenceBox"@[7] == 'u');
        assert("PhasePolyBox"@.len() == 12
            && "PhasePolyBox"@[0] == 'P'
            && "PhasePolyBox"@[7] == 'l');
        assert("StabiliserAssertionBox"@.len() == 22
            && "StabiliserAssertionBox"@[0] == 'S'
            && "StabiliserAssertionBox"@[7] == 's');
        assert("ProjectorAssertionBox"@.len() == 21
            && "ProjectorAssertionBox"@[0] == 'P'
            && "ProjectorAssertionBox"@[7] == 'o');
        assert("CustomGate"@.len() == 10 && "CustomGate"@[0] == 'C' && "CustomGate"@[7] == 'a');
        assert("QControlBox"@.len() == 11 && "QControlBox"@[0] == 'Q' && "QControlBox"@[7] == 'l');
        assert("ClassicalExpBox"@.len() == 15
            && "ClassicalExpBox"@[0] == 'C'
            && "ClassicalExpBox"@[7] == 'a');
        assert("UnitaryTableauBox"@.len() == 17
            && "UnitaryTableauBox"@[0] == 'U'
            && "UnitaryTableauBox"@[7] == 'T');
        assert("MultiplexorBox"@.len() == 14
            && "MultiplexorBox"@[0] == 'M'
            && "MultiplexorBox"@[7] == 'e');
        assert("MultiplexedRotationBox"@.len() == 22
            && "MultiplexedRotationBox"@[0] == 'M'
            && "MultiplexedRotationBox"@[7] == 'e');
        assert("MultiplexedU2Box"@.len() == 16
            && "MultiplexedU2Box"@[0] == 'M'
            && "MultiplexedU2Box"@[7] == 'e');
        assert("MultiplexedTensoredU2Box"@.len() == 24
            && "MultiplexedTensoredU2Box"@[0] == 'M'
            && "MultiplexedTensoredU2Box"@[7] == 'e');
        assert("ToffoliBox"@.len() == 10 && "ToffoliBox"@[0] == 'T' && "ToffoliBox"@[7] == 'B');
        assert("ConjugationBox"@.len() == 14
            && "ConjugationBox"@[0] == 'C'
            && "ConjugationBox"@[7] == 't');
        assert("DummyBox"@.len() == 8 && "DummyBox"@[0] == 'D' && "DummyBox"@[7] == 'x');
        assert("StatePreparationBox"@.len() == 19
            && "StatePreparationBox"@[0] == 'S'
            && "StatePreparationBox"@[7] == 'e');
        assert("DiagonalBox"@.len() == 11 && "DiagonalBox"@[0] == 'D' && "DiagonalBox"@[7] == 'l');
        assert("Composite"@.len() == 9 && "Composite"@[0] == 'C' && "Composite"@[7] == 't');
    }
}

/// The kind of a box.
pub open spec fn kind_of(v: OpBoxView) -> BoxKind {
    match v {
        OpBoxView::CircBox { .. } => BoxKind::CircBox,
        OpBoxView::Unitary1qBox { .. } => BoxKind::Unitary1qBox,
        OpBoxView::Unitary2qBox { .. } => BoxKind::Unitary2qBox,
        OpBoxView::Unitary3qBox { .. } => BoxKind::Unitary3qBox,
        OpBoxView::ExpBox { .. } => BoxKind::ExpBox,
        OpBoxView::PauliExpBox { .. } => BoxKind::PauliExpBox,
        OpBoxView::PauliExpPairBox { .. } => BoxKind::PauliExpPairBox,
        OpBoxView::PauliExpCommutingSetBox { .. } => BoxKind::PauliExpCommutingSetBox,
        OpBoxView::TermSequenceBox { .. } => BoxKind::TermSequenceBox,
        OpBoxView::PhasePolyBox { .. } => BoxKind::PhasePolyBox,
        OpBoxView::StabiliserAssertionBox { .. } => BoxKind::StabiliserAssertionBox,
        OpBoxView::ProjectorAssertionBox { .. } => BoxKind::ProjectorAssertionBox,
        OpBoxView::CustomGate { .. } => BoxKind::CustomGate,
        OpBoxView::QControlBox { .. } => BoxKind::QControlBox,
        OpBoxView::ClassicalExpBox { .. } => BoxKind::ClassicalExpBox,
        OpBoxView::UnitaryTableauBox { .. } => BoxKind::UnitaryTableauBox,
        OpBoxView::MultiplexorBox { .. } => BoxKind::MultiplexorBox,
        OpBoxView::MultiplexedRotationBox { .. } => BoxKind::MultiplexedRotationBox,
        OpBoxView::MultiplexedU2Box { .. } => BoxKind::MultiplexedU2Box,
        OpBoxView::MultiplexedTensoredU2Box { .. } => BoxKind::MultiplexedTensoredU2Box,
        OpBoxView::ToffoliBox { .. } => BoxKind::ToffoliBox,
        OpBoxView::ConjugationBox { .. } => BoxKind::ConjugationBox,
        OpBoxView::DummyBox { .. } => BoxKind::DummyBox,
        OpBoxView::StatePreparationBox { .. } => BoxKind::StatePreparationBox,
        OpBoxView::DiagonalBox { .. } => BoxKind::DiagonalBox,
    }
}

} // verus!
