//! Pauli strings and tableaux in binary form.

use vstd::prelude::*;
use crate::circuit_json::Register;
use crate::circuit_json::matrix::Matrix;
use crate::codec::{
    Codec, DecodeError, DeepCopy, defaulted, defaulted_spec, ErrorView, put, put_spec, required,
    required_spec,
};
use crate::json::{Fields, group_field, Json, JsonView};

verus! {

/// A Pauli string with a sign, as an element of a stabiliser group.
#[derive(Clone, Debug, PartialEq, Eq, Hash)]
pub struct PauliStabiliser {
    /// The sign of the string: true for plus.
    pub coeff: bool,
    /// The Pauli letters, one for each qubit.
    pub string: Vec<String>,
}

/// The mathematical value of a [`PauliStabiliser`].
pub struct PauliStabiliserView {
    pub coeff: bool,
    pub string: Seq<Seq<char>>,
}

impl DeepView for PauliStabiliser {
    type V = PauliStabiliserView;

    open spec fn deep_view(&self) -> PauliStabiliserView {
        PauliStabiliserView {
            coeff: self.coeff.deep_view(),
            string: self.string.deep_view(),
        }
    }
}

/// An object with the fields `coeff` and `string`.
impl Codec for PauliStabiliser {
    #[verifier::opaque]
    open spec fn decode_spec(j: JsonView) -> Result<PauliStabiliserView, ErrorView> {
        match required_spec::<bool>(j, "coeff") {
            Err(e) => Err(e),
            Ok(coeff) => match required_spec::<Vec<String>>(j, "string") {
                Err(e) => Err(e),
                Ok(string) => Ok(PauliStabiliserView { coeff, string }),
            },
        }
    }

    #[verifier::opaque]
    open spec fn encode_spec(v: PauliStabiliserView) -> JsonView {
        let e = Seq::empty();
        let e = put_spec::<bool>(e, "coeff", v.coeff);
        let e = put_spec::<Vec<String>>(e, "string", v.string);
        JsonView::Object(e)
    }

    open spec fn valid(v: PauliStabiliserView) -> bool {
        true
    }

    fn decode(j: &Json) -> (r: Result<PauliStabiliser, DecodeError>) {
        proof {
            reveal(<PauliStabiliser as Codec>::decode_spec);
        }
        let coeff: bool = match required::<bool>(j, "coeff") {
            Ok(v) => v,
            Err(e) => {
                return Err(e);
            },
        };
        let string: Vec<String> = match required::<Vec<String>>(j, "string") {
            Ok(v) => v,
            Err(e) => {
                return Err(e);
            },
        };
        let r = PauliStabiliser { coeff, string };
        proof {
            Self::lemma_round_trip(r.deep_view());
        }
        Ok(r)
    }

    fn encode(&self) -> (j: Json) {
        proof {
            reveal(<PauliStabiliser as Codec>::encode_spec);
        }
        let mut fields = Fields::new();
        put::<bool>(&mut fields, "coeff", &self.coeff);
        put::<Vec<String>>(&mut fields, "string", &self.string);
        fields.finish()
    }

    proof fn lemma_round_trip(v: PauliStabiliserView) {
        reveal(<PauliStabiliser as Codec>::decode_spec);
        reveal(<PauliStabiliser as Codec>::encode_spec);
        broadcast use group_field;

        reveal_strlit("coeff");
        reveal_strlit("string");
        assert("coeff"@.len() == 5);
        assert("string"@.len() == 6);
        bool::lemma_round_trip(v.coeff);
        Vec::<String>::lemma_round_trip(v.string);
    }
}

impl DeepCopy for PauliStabiliser {
    fn deep_copy(&self) -> (r: PauliStabiliser) {
        PauliStabiliser {
            coeff: self.coeff.deep_copy(),
            string: self.string.deep_copy(),
        }
    }
}

/// A list of Pauli strings in binary form.
#[derive(Clone, Debug, PartialEq, Eq, Hash)]
pub struct SymplecticTableau {
    /// Number of rows. Zero where the document names none.
    pub nrows: u32,
    /// Number of qubits. Zero where the document names none.
    pub nqubits: u32,
    /// The X part.
    pub xmat: Matrix<bool>,
    /// The Z part.
    pub zmat: Matrix<bool>,
    /// The phases.
    pub phase: Matrix<bool>,
}

/// The mathematical value of a [`SymplecticTableau`].
pub struct SymplecticTableauView {
    pub nrows: u32,
    pub nqubits: u32,
    pub xmat: Seq<Seq<(bool, bool)>>,
    pub zmat: Seq<Seq<(bool, bool)>>,
    pub phase: Seq<Seq<(bool, bool)>>,
}

impl DeepView for SymplecticTableau {
    type V = SymplecticTableauView;

    open spec fn deep_view(&self) -> SymplecticTableauView {
        SymplecticTableauView {
            nrows: self.nrows.deep_view(),
            nqubits: self.nqubits.deep_view(),
            xmat: self.xmat.deep_view(),
            zmat: self.zmat.deep_view(),
            phase: self.phase.deep_view(),
        }
    }
}

/// An object with the fields `nrows` and `nqubits`, which may be left out,
/// and `xmat`, `zmat` and `phase`.
impl Codec for SymplecticTableau {
    #[verifier::opaque]
    open spec fn decode_spec(j: JsonView) -> Result<SymplecticTableauView, ErrorView> {
        match defaulted_spec::<u32>(j, "nrows", 0) {
            Err(e) => Err(e),
            Ok(nrows) => match defaulted_spec::<u32>(j, "nqubits", 0) {
                Err(e) => Err(e),
                Ok(nqubits) => match required_spec::<Matrix<bool>>(j, "xmat") {
                    Err(e) => Err(e),
                    Ok(xmat) => match required_spec::<Matrix<bool>>(j, "zmat") {
                        Err(e) => Err(e),
                        Ok(zmat) => match required_spec::<Matrix<bool>>(j, "phase") {
                            Err(e) => Err(e),
                            Ok(phase) => Ok(SymplecticTableauView {
                                nrows,
                                nqubits,
                                xmat,
                                zmat,
                                phase,
                            }),
                        },
                    },
                },
            },
        }
    }

    #[verifier::opaque]
    open spec fn encode_spec(v: SymplecticTableauView) -> JsonView {
        let e = Seq::empty();
        let e = put_spec::<u32>(e, "nrows", v.nrows);
        let e = put_spec::<u32>(e, "nqubits", v.nqubits);
        let e = put_spec::<Matrix<bool>>(e, "xmat", v.xmat);
        let e = put_spec::<Matrix<bool>>(e, "zmat", v.zmat);
        let e = put_spec::<Matrix<bool>>(e, "phase", v.phase);
        JsonView::Object(e)
    }

    open spec fn valid(v: SymplecticTableauView) -> bool {
        true
    }

    fn decode(j: &Json) -> (r: Result<SymplecticTableau, DecodeError>) {
        proof {
            reveal(<SymplecticTableau as Codec>::decode_spec);
        }
        let nrows: u32 = match defaulted::<u32>(j, "nrows", 0) {
            Ok(v) => v,
            Err(e) => {
                return Err(e);
            },
        };
        let nqubits: u32 = match defaulted::<u32>(j, "nqubits", 0) {
            Ok(v) => v,
            Err(e) => {
                return Err(e);
            },
        };
        let xmat: Matrix<bool> = match required::<Matrix<bool>>(j, "xmat") {
            Ok(v) => v,
            Err(e) => {
                return Err(e);
            },
        };
        let zmat: Matrix<bool> = match required::<Matrix<bool>>(j, "zmat") {
            Ok(v) => v,
            Err(e) => {
                return Err(e);
            },
        };
        let phase: Matrix<bool> = match required::<Matrix<bool>>(j, "phase") {
            Ok(v) => v,
            Err(e) => {
                return Err(e);
            },
        };
        let r = SymplecticTableau { nrows, nqubits, xmat, zmat, phase };
        proof {
            Self::lemma_round_trip(r.deep_view());
        }
        Ok(r)
    }

    fn encode(&self) -> (j: Json) {
        proof {
            reveal(<SymplecticTableau as Codec>::encode_spec);
        }
        let mut fields = Fields::new();
        put::<u32>(&mut fields, "nrows", &self.nrows);
        put::<u32>(&mut fields, "nqubits", &self.nqubits);
        put::<Matrix<bool>>(&mut fields, "xmat", &self.xmat);
        put::<Matrix<bool>>(&mut fields, "zmat", &self.zmat);
        put::<Matrix<bool>>(&mut fields, "phase", &self.phase);
        fields.finish()
    }

    proof fn lemma_round_trip(v: SymplecticTableauView) {
        reveal(<SymplecticTableau as Codec>::decode_spec);
        reveal(<SymplecticTableau as Codec>::encode_spec);
        broadcast use group_field;

        reveal_strlit("nrows");
        reveal_strlit("nqubits");
        reveal_strlit("xmat");
        reveal_strlit("zmat");
        reveal_strlit("phase");
        assert("nrows"@.len() == 5 && "nrows"@[0] == 'n');
        assert("nqubits"@.len() == 7 && "nqubits"@[0] == 'n');
        assert("xmat"@.len() == 4 && "xmat"@[0] == 'x');
        assert("zmat"@.len() == 4 && "zmat"@[0] == 'z');
        assert("phase"@.len() == 5 && "phase"@[0] == 'p');
        u32::lemma_round_trip(v.nrows);
        u32::lemma_round_trip(v.nqubits);
        Matrix::<bool>::lemma_round_trip(v.xmat);
        Matrix::<bool>::lemma_round_trip(v.zmat);
        Matrix::<bool>::lemma_round_trip(v.phase);
    }
}

impl DeepCopy for SymplecticTableau {
    fn deep_copy(&self) -> (r: SymplecticTableau) {
        SymplecticTableau {
            nrows: self.nrows.deep_copy(),
            nqubits: self.nqubits.deep_copy(),
            xmat: self.xmat.deep_copy(),
            zmat: self.zmat.deep_copy(),
            phase: self.phase.deep_copy(),
        }
    }
}

/// A stabiliser tableau of a unitary Clifford circuit, in binary form.
#[derive(Clone, Debug, PartialEq, Eq, Hash)]
pub struct UnitaryTableau {
    /// The tableau.
    pub tab: SymplecticTableau,
    /// The qubits of the tableau, in its order.
    pub qubits: Vec<Register>,
}

/// The mathematical value of a [`UnitaryTableau`].
pub struct UnitaryTableauView {
    pub tab: SymplecticTableauView,
    pub qubits: Seq<(Seq<char>, Seq<i64>)>,
}

impl DeepView for UnitaryTableau {
    type V = UnitaryTableauView;

    open spec fn deep_view(&self) -> UnitaryTableauView {
        UnitaryTableauView {
            tab: self.tab.deep_view(),
            qubits: self.qubits.deep_view(),
        }
    }
}

/// An object with the fields `tab` and `qubits`.
impl Codec for UnitaryTableau {
    #[verifier::opaque]
    open spec fn decode_spec(j: JsonView) -> Result<UnitaryTableauView, ErrorView> {
        match required_spec::<SymplecticTableau>(j, "tab") {
            Err(e) => Err(e),
            Ok(tab) => match required_spec::<Vec<Register>>(j, "qubits") {
                Err(e) => Err(e),
                Ok(qubits) => Ok(UnitaryTableauView { tab, qubits }),
            },
        }
    }

    #[verifier::opaque]
    open spec fn encode_spec(v: UnitaryTableauView) -> JsonView {
        let e = Seq::empty();
        let e = put_spec::<SymplecticTableau>(e, "tab", v.tab);
        let e = put_spec::<Vec<Register>>(e, "qubits", v.qubits);
        JsonView::Object(e)
    }

    open spec fn valid(v: UnitaryTableauView) -> bool {
        true
    }

    fn decode(j: &Json) -> (r: Result<UnitaryTableau, DecodeError>) {
        proof {
            reveal(<UnitaryTableau as Codec>::decode_spec);
        }
        let tab: SymplecticTableau = match required::<SymplecticTableau>(j, "tab") {
            Ok(v) => v,
            Err(e) => {
                return Err(e);
            },
        };
        let qubits: Vec<Register> = match required::<Vec<Register>>(j, "qubits") {
            Ok(v) => v,
            Err(e) => {
                return Err(e);
            },
        };
        let r = UnitaryTableau { tab, qubits };
        proof {
            Self::lemma_round_trip(r.deep_view());
        }
        Ok(r)
    }

    fn encode(&self) -> (j: Json) {
        proof {
            reveal(<UnitaryTableau as Codec>::encode_spec);
        }
        let mut fields = Fields::new();
        put::<SymplecticTableau>(&mut fields, "tab", &self.tab);
        put::<Vec<Register>>(&mut fields, "qubits", &self.qubits);
        fields.finish()
    }

    proof fn lemma_round_trip(v: UnitaryTableauView) {
        reveal(<UnitaryTableau as Codec>::decode_spec);
        reveal(<UnitaryTableau as Codec>::encode_spec);
        broadcast use group_field;

        reveal_strlit("tab");
        reveal_strlit("qubits");
        assert("tab"@.len() == 3);
        assert("qubits"@.len() == 6);
        SymplecticTableau::lemma_round_trip(v.tab);
        Vec::<Register>::lemma_round_trip(v.qubits);
    }
}

impl DeepCopy for UnitaryTableau {
    fn deep_copy(&self) -> (r: UnitaryTableau) {
        UnitaryTableau {
            tab: self.tab.deep_copy(),
            qubits: self.qubits.deep_copy(),
        }
    }
}

} // verus!
