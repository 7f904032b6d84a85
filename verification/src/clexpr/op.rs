//! The operation codes of classical expressions.

use vstd::prelude::*;
use crate::codec::{Codec, DecodeError, DeepCopy, ErrorKind, ErrorView};
use crate::json::{str_eq, Json, JsonView};

verus! {

/// What a node of a classical expression computes.
#[derive(Clone, Copy, Debug, PartialEq, Eq, Hash)]
#[non_exhaustive]
pub enum ClOp {
    /// No operation at all.
    INVALID,
    /// And of bits.
    BitAnd,
    /// Or of bits.
    BitOr,
    /// Exclusive or of bits.
    BitXor,
    /// Equality of bits.
    BitEq,
    /// Inequality of bits.
    BitNeq,
    /// Negation of a bit.
    BitNot,
    /// The bit zero.
    BitZero,
    /// The bit one.
    BitOne,
    /// And of registers, bit by bit.
    RegAnd,
    /// Or of registers, bit by bit.
    RegOr,
    /// Exclusive or of registers, bit by bit.
    RegXor,
    /// Equality of registers.
    RegEq,
    /// Inequality of registers.
    RegNeq,
    /// Negation of a register, bit by bit.
    RegNot,
    /// The register of zeros.
    RegZero,
    /// The register of ones.
    RegOne,
    /// Less than, on unsigned integers.
    RegLt,
    /// Greater than, on unsigned integers.
    RegGt,
    /// At most, on unsigned integers.
    RegLeq,
    /// At least, on unsigned integers.
    RegGeq,
    /// Sum of integers.
    RegAdd,
    /// Difference of integers.
    RegSub,
    /// Product of integers.
    RegMul,
    /// Quotient of integers.
    RegDiv,
    /// Power of integers.
    RegPow,
    /// Shift to the left.
    RegLsh,
    /// Shift to the right.
    RegRsh,
    /// Negative of an integer.
    RegNeg,
}

impl Default for ClOp {
    fn default() -> (r: ClOp)
        ensures
            r == ClOp::INVALID,
    {
        ClOp::INVALID
    }
}

impl ClOp {
    /// The name that the variant goes by.
    #[verifier::opaque]
    pub open spec fn name(self) -> Seq<char> {
        match self {
            ClOp::INVALID => "INVALID"@,
            ClOp::BitAnd => "BitAnd"@,
            ClOp::BitOr => "BitOr"@,
            ClOp::BitXor => "BitXor"@,
            ClOp::BitEq => "BitEq"@,
            ClOp::BitNeq => "BitNeq"@,
            ClOp::BitNot => "BitNot"@,
            ClOp::BitZero => "BitZero"@,
            ClOp::BitOne => "BitOne"@,
            ClOp::RegAnd => "RegAnd"@,
            ClOp::RegOr => "RegOr"@,
            ClOp::RegXor => "RegXor"@,
            ClOp::RegEq => "RegEq"@,
            ClOp::RegNeq => "RegNeq"@,
            ClOp::RegNot => "RegNot"@,
            ClOp::RegZero => "RegZero"@,
            ClOp::RegOne => "RegOne"@,
            ClOp::RegLt => "RegLt"@,
            ClOp::RegGt => "RegGt"@,
            ClOp::RegLeq => "RegLeq"@,
            ClOp::RegGeq => "RegGeq"@,
            ClOp::RegAdd => "RegAdd"@,
            ClOp::RegSub => "RegSub"@,
            ClOp::RegMul => "RegMul"@,
            ClOp::RegDiv => "RegDiv"@,
            ClOp::RegPow => "RegPow"@,
            ClOp::RegLsh => "RegLsh"@,
            ClOp::RegRsh => "RegRsh"@,
            ClOp::RegNeg => "RegNeg"@,
        }
    }

    /// The variant that goes by a name.
    #[verifier::opaque]
    pub open spec fn from_name(s: Seq<char>) -> Option<ClOp> {
        if s == "INVALID"@ {
            Some(ClOp::INVALID)
        } else if s == "BitAnd"@ {
            Some(ClOp::BitAnd)
        } else if s == "BitOr"@ {
            Some(ClOp::BitOr)
        } else if s == "BitXor"@ {
            Some(ClOp::BitXor)
        } else if s == "BitEq"@ {
            Some(ClOp::BitEq)
        } else if s == "BitNeq"@ {
            Some(ClOp::BitNeq)
        } else if s == "BitNot"@ {
            Some(ClOp::BitNot)
        } else if s == "BitZero"@ {
            Some(ClOp::BitZero)
        } else if s == "BitOne"@ {
            Some(ClOp::BitOne)
        } else if s == "RegAnd"@ {
            Some(ClOp::RegAnd)
        } else if s == "RegOr"@ {
            Some(ClOp::RegOr)
        } else if s == "RegXor"@ {
            Some(ClOp::RegXor)
        } else if s == "RegEq"@ {
            Some(ClOp::RegEq)
        } else if s == "RegNeq"@ {
            Some(ClOp::RegNeq)
        } else if s == "RegNot"@ {
            Some(ClOp::RegNot)
        } else if s == "RegZero"@ {
            Some(ClOp::RegZero)
        } else if s == "RegOne"@ {
            Some(ClOp::RegOne)
        } else if s == "RegLt"@ {
            Some(ClOp::RegLt)
        } else if s == "RegGt"@ {
            Some(ClOp::RegGt)
        } else if s == "RegLeq"@ {
            Some(ClOp::RegLeq)
        } else if s == "RegGeq"@ {
            Some(ClOp::RegGeq)
        } else if s == "RegAdd"@ {
            Some(ClOp::RegAdd)
        } else if s == "RegSub"@ {
            Some(ClOp::RegSub)
        } else if s == "RegMul"@ {
            Some(ClOp::RegMul)
        } else if s == "RegDiv"@ {
            Some(ClOp::RegDiv)
        } else if s == "RegPow"@ {
            Some(ClOp::RegPow)
        } else if s == "RegLsh"@ {
            Some(ClOp::RegLsh)
        } else if s == "RegRsh"@ {
            Some(ClOp::RegRsh)
        } else if s == "RegNeg"@ {
            Some(ClOp::RegNeg)
        } else {
            None
        }
    }

    /// The name that the variant goes by.
    pub fn as_str(&self) -> (r: &'static str)
        ensures
            r@ == self.name(),
    {
        proof {
            reveal(ClOp::name);
        }
        match self {
            ClOp::INVALID => "INVALID",
            ClOp::BitAnd => "BitAnd",
            ClOp::BitOr => "BitOr",
            ClOp::BitXor => "BitXor",
            ClOp::BitEq => "BitEq",
            ClOp::BitNeq => "BitNeq",
            ClOp::BitNot => "BitNot",
            ClOp::BitZero => "BitZero",
            ClOp::BitOne => "BitOne",
            ClOp::RegAnd => "RegAnd",
            ClOp::RegOr => "RegOr",
            ClOp::RegXor => "RegXor",
            ClOp::RegEq => "RegEq",
            ClOp::RegNeq => "RegNeq",
            ClOp::RegNot => "RegNot",
            ClOp::RegZero => "RegZero",
            ClOp::RegOne => "RegOne",
            ClOp::RegLt => "RegLt",
            ClOp::RegGt => "RegGt",
            ClOp::RegLeq => "RegLeq",
            ClOp::RegGeq => "RegGeq",
            ClOp::RegAdd => "RegAdd",
            ClOp::RegSub => "RegSub",
            ClOp::RegMul => "RegMul",
            ClOp::RegDiv => "RegDiv",
            ClOp::RegPow => "RegPow",
            ClOp::RegLsh => "RegLsh",
            ClOp::RegRsh => "RegRsh",
            ClOp::RegNeg => "RegNeg",
        }
    }

    /// The variant that goes by a name, if there is one.
    pub fn parse(s: &str) -> (r: Option<ClOp>)
        ensures
            r == ClOp::from_name(s@),
    {
        proof {
            reveal(ClOp::from_name);
        }
        if str_eq(s, "INVALID") {
            Some(ClOp::INVALID)
        } else if str_eq(s, "BitAnd") {
            Some(ClOp::BitAnd)
        } else if str_eq(s, "BitOr") {
            Some(ClOp::BitOr)
        } else if str_eq(s, "BitXor") {
            Some(ClOp::BitXor)
        } else if str_eq(s, "BitEq") {
            Some(ClOp::BitEq)
        } else if str_eq(s, "BitNeq") {
            Some(ClOp::BitNeq)
        } else if str_eq(s, "BitNot") {
            Some(ClOp::BitNot)
        } else if str_eq(s, "BitZero") {
            Some(ClOp::BitZero)
        } else if str_eq(s, "BitOne") {
            Some(ClOp::BitOne)
        } else if str_eq(s, "RegAnd") {
            Some(ClOp::RegAnd)
        } else if str_eq(s, "RegOr") {
            Some(ClOp::RegOr)
        } else if str_eq(s, "RegXor") {
            Some(ClOp::RegXor)
        } else if str_eq(s, "RegEq") {
            Some(ClOp::RegEq)
        } else if str_eq(s, "RegNeq") {
            Some(ClOp::RegNeq)
        } else if str_eq(s, "RegNot") {
            Some(ClOp::RegNot)
        } else if str_eq(s, "RegZero") {
            Some(ClOp::RegZero)
        } else if str_eq(s, "RegOne") {
            Some(ClOp::RegOne)
        } else if str_eq(s, "RegLt") {
            Some(ClOp::RegLt)
        } else if str_eq(s, "RegGt") {
            Some(ClOp::RegGt)
        } else if str_eq(s, "RegLeq") {
            Some(ClOp::RegLeq)
        } else if str_eq(s, "RegGeq") {
            Some(ClOp::RegGeq)
        } else if str_eq(s, "RegAdd") {
            Some(ClOp::RegAdd)
        } else if str_eq(s, "RegSub") {
            Some(ClOp::RegSub)
        } else if str_eq(s, "RegMul") {
            Some(ClOp::RegMul)
        } else if str_eq(s, "RegDiv") {
            Some(ClOp::RegDiv)
        } else if str_eq(s, "RegPow") {
            Some(ClOp::RegPow)
        } else if str_eq(s, "RegLsh") {
            Some(ClOp::RegLsh)
        } else if str_eq(s, "RegRsh") {
            Some(ClOp::RegRsh)
        } else if str_eq(s, "RegNeg") {
            Some(ClOp::RegNeg)
        } else {
            None
        }
    }
}

impl ClOp {
    /// Every variant is the one that goes by its name.
    pub proof fn lemma_name_round_trip(t: ClOp)
        ensures
            ClOp::from_name(t.name()) == Some(t),
    {
        reveal(ClOp::name);
        reveal(ClOp::from_name);
        reveal_strlit("INVALID");
        reveal_strlit("BitAnd");
        reveal_strlit("BitOr");
        reveal_strlit("BitXor");
        reveal_strlit("BitEq");
        reveal_strlit("BitNeq");
        reveal_strlit("BitNot");
        reveal_strlit("BitZero");
        reveal_strlit("BitOne");
        reveal_strlit("RegAnd");
        reveal_strlit("RegOr");
        reveal_strlit("RegXor");
        reveal_strlit("RegEq");
        reveal_strlit("RegNeq");
        reveal_strlit("RegNot");
        reveal_strlit("RegZero");
        reveal_strlit("RegOne");
        reveal_strlit("RegLt");
        reveal_strlit("RegGt");
        reveal_strlit("RegLeq");
        reveal_strlit("RegGeq");
        reveal_strlit("RegAdd");
        reveal_strlit("RegSub");
        reveal_strlit("RegMul");
        reveal_strlit("RegDiv");
        reveal_strlit("RegPow");
        reveal_strlit("RegLsh");
        reveal_strlit("RegRsh");
        reveal_strlit("RegNeg");
        assert("INVALID"@.len() == 7
            && "INVALID"@[0] == 'I'
            && "INVALID"@[3] == 'A'
            && "INVALID"@[4] == 'L'
            && "INVALID"@[5] == 'I');
        assert("BitAnd"@.len() == 6
            && "BitAnd"@[0] == 'B'
            && "BitAnd"@[3] == 'A'
            && "BitAnd"@[4] == 'n'
            && "BitAnd"@[5] == 'd');
        assert("BitOr"@.len() == 5
            && "BitOr"@[0] == 'B'
            && "BitOr"@[3] == 'O'
            && "BitOr"@[4] == 'r');
        assert("BitXor"@.len() == 6
            && "BitXor"@[0] == 'B'
            && "BitXor"@[3] == 'X'
            && "BitXor"@[4] == 'o'
            && "BitXor"@[5] == 'r');
        assert("BitEq"@.len() == 5
            && "BitEq"@[0] == 'B'
            && "BitEq"@[3] == 'E'
            && "BitEq"@[4] == 'q');
        assert("BitNeq"@.len() == 6
            && "BitNeq"@[0] == 'B'
            && "BitNeq"@[3] == 'N'
            && "BitNeq"@[4] == 'e'
            && "BitNeq"@[5] == 'q');
        assert("BitNot"@.len() == 6
            && "BitNot"@[0] == 'B'
            && "BitNot"@[3] == 'N'
            && "BitNot"@[4] == 'o'
            && "BitNot"@[5] == 't');
        assert("BitZero"@.len() == 7
            && "BitZero"@[0] == 'B'
            && "BitZero"@[3] == 'Z'
            && "BitZero"@[4] == 'e'
            && "BitZero"@[5] == 'r');
        assert("BitOne"@.len() == 6
            && "BitOne"@[0] == 'B'
            && "BitOne"@[3] == 'O'
            && "BitOne"@[4] == 'n'
            && "BitOne"@[5] == 'e');
        assert("RegAnd"@.len() == 6
            && "RegAnd"@[0] == 'R'
            && "RegAnd"@[3] == 'A'
            && "RegAnd"@[4] == 'n'
            && "RegAnd"@[5] == 'd');
        assert("RegOr"@.len() == 5
            && "RegOr"@[0] == 'R'
            && "RegOr"@[3] == 'O'
            && "RegOr"@[4] == 'r');
        assert("RegXor"@.len() == 6
            && "RegXor"@[0] == 'R'
            && "RegXor"@[3] == 'X'
            && "RegXor"@[4] == 'o'
            && "RegXor"@[5] == 'r');
        assert("RegEq"@.len() == 5
            && "RegEq"@[0] == 'R'
            && "RegEq"@[3] == 'E'
            && "RegEq"@[4] == 'q');
        assert("RegNeq"@.len() == 6
            && "RegNeq"@[0] == 'R'
            && "RegNeq"@[3] == 'N'
            && "RegNeq"@[4] == 'e'
            && "RegNeq"@[5] == 'q');
        assert("RegNot"@.len() == 6
            && "RegNot"@[0] == 'R'
            && "RegNot"@[3] == 'N'
            && "RegNot"@[4] == 'o'
            && "RegNot"@[5] == 't');
        assert("RegZero"@.len() == 7
            && "RegZero"@[0] == 'R'
            && "RegZero"@[3] == 'Z'
            && "RegZero"@[4] == 'e'
            && "RegZero"@[5] == 'r');
        assert("RegOne"@.len() == 6
            && "RegOne"@[0] == 'R'
            && "RegOne"@[3] == 'O'
            && "RegOne"@[4] == 'n'
            && "RegOne"@[5] == 'e');
        assert("RegLt"@.len() == 5
            && "RegLt"@[0] == 'R'
            && "RegLt"@[3] == 'L'
            && "RegLt"@[4] == 't');
        assert("RegGt"@.len() == 5
            && "RegGt"@[0] == 'R'
            && "RegGt"@[3] == 'G'
            && "RegGt"@[4] == 't');
        assert("RegLeq"@.len() == 6
            && "RegLeq"@[0] == 'R'
            && "RegLeq"@[3] == 'L'
            && "RegLeq"@[4] == 'e'
            && "RegLeq"@[5] == 'q');
        assert("RegGeq"@.len() == 6
            && "RegGeq"@[0] == 'R'
            && "RegGeq"@[3] == 'G'
            && "RegGeq"@[4] == 'e'
            && "RegGeq"@[5] == 'q');
        assert("RegAdd"@.len() == 6
            && "RegAdd"@[0] == 'R'
            && "RegAdd"@[3] == 'A'
            && "RegAdd"@[4] == 'd'
            && "RegAdd"@[5] == 'd');
        assert("RegSub"@.len() == 6
            && "RegSub"@[0] == 'R'
            && "RegSub"@[3] == 'S'
            && "RegSub"@[4] == 'u'
            && "RegSub"@[5] == 'b');
        assert("RegMul"@.len() == 6
            && "RegMul"@[0] == 'R'
            && "RegMul"@[3] == 'M'
            && "RegMul"@[4] == 'u'
            && "RegMul"@[5] == 'l');
        assert("RegDiv"@.len() == 6
            && "RegDiv"@[0] == 'R'
            && "RegDiv"@[3] == 'D'
            && "RegDiv"@[4] == 'i'
            && "RegDiv"@[5] == 'v');
        assert("RegPow"@.len() == 6
            && "RegPow"@[0] == 'R'
            && "RegPow"@[3] == 'P'
            && "RegPow"@[4] == 'o'
            && "RegPow"@[5] == 'w');
        assert("RegLsh"@.len() == 6
            && "RegLsh"@[0] == 'R'
            && "RegLsh"@[3] == 'L'
            && "RegLsh"@[4] == 's'
            && "RegLsh"@[5] == 'h');
        assert("RegRsh"@.len() == 6
            && "RegRsh"@[0] == 'R'
            && "RegRsh"@[3] == 'R'
            && "RegRsh"@[4] == 's'
            && "RegRsh"@[5] == 'h');
        assert("RegNeg"@.len() == 6
            && "RegNeg"@[0] == 'R'
            && "RegNeg"@[3] == 'N'
            && "RegNeg"@[4] == 'e'
            && "RegNeg"@[5] == 'g');
    }
}

impl DeepView for ClOp {
    type V = ClOp;

    open spec fn deep_view(&self) -> ClOp {
        *self
    }
}

/// A string: the name of the operation.
impl Codec for ClOp {
    open spec fn decode_spec(j: JsonView) -> Result<ClOp, ErrorView> {
        match j {
            JsonView::String(s) => match ClOp::from_name(s) {
                Some(t) => Ok(t),
                None => Err(ErrorView::here(ErrorKind::UnknownVariant)),
            },
            _ => Err(ErrorView::mismatch()),
        }
    }

    open spec fn encode_spec(v: ClOp) -> JsonView {
        JsonView::String(v.name())
    }

    open spec fn valid(v: ClOp) -> bool {
        true
    }

    fn decode(j: &Json) -> (r: Result<ClOp, DecodeError>) {
        match j {
            Json::String(s) => match ClOp::parse(s.as_str()) {
                Some(t) => {
                    proof {
                        Self::lemma_round_trip(t);
                    }
                    Ok(t)
                },
                None => Err(DecodeError::here(ErrorKind::UnknownVariant)),
            },
            _ => Err(DecodeError::mismatch()),
        }
    }

    fn encode(&self) -> (j: Json) {
        Json::String(self.as_str().to_owned())
    }

    proof fn lemma_round_trip(v: ClOp) {
        ClOp::lemma_name_round_trip(v);
    }
}

impl DeepCopy for ClOp {
    fn deep_copy(&self) -> (r: ClOp) {
        *self
    }
}

/// A name that no operation goes by.
#[derive(Clone, Copy, Debug, PartialEq, Eq)]
pub struct UnknownName;

impl std::str::FromStr for ClOp {
    type Err = UnknownName;

    fn from_str(s: &str) -> (r: Result<ClOp, UnknownName>)
        ensures
            r == (match ClOp::from_name(s@) {
                Some(t) => Ok::<ClOp, UnknownName>(t),
                None => Err::<ClOp, UnknownName>(UnknownName),
            }),
    {
        match ClOp::parse(s) {
            Some(t) => Ok(t),
            None => Err(UnknownName),
        }
    }
}

} // verus!
