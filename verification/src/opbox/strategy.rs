//! The strategies that boxes name.

use vstd::prelude::*;
use crate::codec::{Codec, DecodeError, DeepCopy, ErrorKind, ErrorView};
use crate::json::{Json, JsonView, str_eq};

verus! {

/// How a Toffoli box is built.
#[derive(Clone, Copy, Debug, PartialEq, Eq, Hash)]
#[non_exhaustive]
pub enum ToffoliBoxSynthStrat {
    /// With multiplexors that swap in parallel on hypercubes.
    Matching,
    /// With multiply-controlled X gates, one transposition at a time.
    Cycle,
}

impl ToffoliBoxSynthStrat {
    /// The name that the variant goes by.
    #[verifier::opaque]
    pub open spec fn name(self) -> Seq<char> {
        match self {
            ToffoliBoxSynthStrat::Matching => "Matching"@,
            ToffoliBoxSynthStrat::Cycle => "Cycle"@,
        }
    }

    /// The variant that goes by a name.
    #[verifier::opaque]
    pub open spec fn from_name(s: Seq<char>) -> Option<ToffoliBoxSynthStrat> {
        if s == "Matching"@ {
            Some(ToffoliBoxSynthStrat::Matching)
        } else if s == "Cycle"@ {
            Some(ToffoliBoxSynthStrat::Cycle)
        } else {
            None
        }
    }

    /// The name that the variant goes by.
    pub fn as_str(&self) -> (r: &'static str)
        ensures
            r@ == self.name(),
    {
        proof {
            reveal(ToffoliBoxSynthStrat::name);
        }
        match self {
            ToffoliBoxSynthStrat::Matching => "Matching",
            ToffoliBoxSynthStrat::Cycle => "Cycle",
        }
    }

    /// The variant that goes by a name, if there is one.
    pub fn parse(s: &str) -> (r: Option<ToffoliBoxSynthStrat>)
        ensures
            r == ToffoliBoxSynthStrat::from_name(s@),
    {
        proof {
            reveal(ToffoliBoxSynthStrat::from_name);
        }
        if str_eq(s, "Matching") {
            Some(ToffoliBoxSynthStrat::Matching)
        } else if str_eq(s, "Cycle") {
            Some(ToffoliBoxSynthStrat::Cycle)
        } else {
            None
        }
    }
}

impl ToffoliBoxSynthStrat {
    /// Every variant is the one that goes by its name.
    pub proof fn lemma_name_round_trip(t: ToffoliBoxSynthStrat)
        ensures
            ToffoliBoxSynthStrat::from_name(t.name()) == Some(t),
    {
        reveal(ToffoliBoxSynthStrat::name);
        reveal(ToffoliBoxSynthStrat::from_name);
        reveal_strlit("Matching");
        reveal_strlit("Cycle");
        assert("Matching"@.len() == 8);
        assert("Cycle"@.len() == 5);
    }
}

impl DeepView for ToffoliBoxSynthStrat {
    type V = ToffoliBoxSynthStrat;

    open spec fn deep_view(&self) -> ToffoliBoxSynthStrat {
        *self
    }
}

/// A string: the name of the variant.
impl Codec for ToffoliBoxSynthStrat {
    open spec fn decode_spec(j: JsonView) -> Result<ToffoliBoxSynthStrat, ErrorView> {
        match j {
            JsonView::String(s) => match ToffoliBoxSynthStrat::from_name(s) {
                Some(t) => Ok(t),
                None => Err(ErrorView::here(ErrorKind::UnknownVariant)),
            },
            _ => Err(ErrorView::mismatch()),
        }
    }

    open spec fn encode_spec(v: ToffoliBoxSynthStrat) -> JsonView {
        JsonView::String(v.name())
    }

    open spec fn valid(v: ToffoliBoxSynthStrat) -> bool {
        true
    }

    fn decode(j: &Json) -> (r: Result<ToffoliBoxSynthStrat, DecodeError>) {
        match j {
            Json::String(s) => match ToffoliBoxSynthStrat::parse(s.as_str()) {
                Some(t) => {
                    proof {
                        Self::lemma_round_trip(t);
                    }
                    Ok(t)
                },
                None => Err(DecodeError::here(ErrorKind::UnknownVariant)),
            },
            _ => Err(DecodeError::mismatch()),
        }
    }

    fn encode(&self) -> (j: Json) {
        Json::String(self.as_str().to_owned())
    }

    proof fn lemma_round_trip(v: ToffoliBoxSynthStrat) {
        ToffoliBoxSynthStrat::lemma_name_round_trip(v);
    }
}

impl DeepCopy for ToffoliBoxSynthStrat {
    fn deep_copy(&self) -> (r: ToffoliBoxSynthStrat) {
        *self
    }
}

/// How Pauli gadgets are built.
#[derive(Clone, Copy, Debug, PartialEq, Eq, Hash)]
#[non_exhaustive]
pub enum PauliSynthStrat {
    /// Each gadget by itself.
    Individual,
    /// In pairs, by the method of Cowtan et al.
    Pairwise,
    /// In sets of gadgets that commute.
    Sets,
}

impl Default for PauliSynthStrat {
    fn default() -> (r: PauliSynthStrat)
        ensures
            r == PauliSynthStrat::Sets,
    {
        PauliSynthStrat::Sets
    }
}

impl PauliSynthStrat {
    /// The name that the variant goes by.
    #[verifier::opaque]
    pub open spec fn name(self) -> Seq<char> {
        match self {
            PauliSynthStrat::Individual => "Individual"@,
            PauliSynthStrat::Pairwise => "Pairwise"@,
            PauliSynthStrat::Sets => "Sets"@,
        }
    }

    /// The variant that goes by a name.
    #[verifier::opaque]
    pub open spec fn from_name(s: Seq<char>) -> Option<PauliSynthStrat> {
        if s == "Individual"@ {
            Some(PauliSynthStrat::Individual)
        } else if s == "Pairwise"@ {
            Some(PauliSynthStrat::Pairwise)
        } else if s == "Sets"@ {
            Some(PauliSynthStrat::Sets)
        } else {
            None
        }
    }

    /// The name that the variant goes by.
    pub fn as_str(&self) -> (r: &'static str)
        ensures
            r@ == self.name(),
    {
        proof {
            reveal(PauliSynthStrat::name);
        }
        match self {
            PauliSynthStrat::Individual => "Individual",
            PauliSynthStrat::Pairwise => "Pairwise",
            PauliSynthStrat::Sets => "Sets",
        }
    }

    /// The variant that goes by a name, if there is one.
    pub fn parse(s: &str) -> (r: Option<PauliSynthStrat>)
        ensures
            r == PauliSynthStrat::from_name(s@),
    {
        proof {
            reveal(PauliSynthStrat::from_name);
        }
        if str_eq(s, "Individual") {
            Some(PauliSynthStrat::Individual)
        } else if str_eq(s, "Pairwise") {
            Some(PauliSynthStrat::Pairwise)
        } else if str_eq(s, "Sets") {
            Some(PauliSynthStrat::Sets)
        } else {
            None
        }
    }
}

impl PauliSynthStrat {
    /// Every variant is the one that goes by its name.
    pub proof fn lemma_name_round_trip(t: PauliSynthStrat)
        ensures
            PauliSynthStrat::from_name(t.name()) == Some(t),
    {
        reveal(PauliSynthStrat::name);
        reveal(PauliSynthStrat::from_name);
        reveal_strlit("Individual");
        reveal_strlit("Pairwise");
        reveal_strlit("Sets");
        assert("Individual"@.len() == 10);
        assert("Pairwise"@.len() == 8);
        assert("Sets"@.len() == 4);
    }
}

impl DeepView for PauliSynthStrat {
    type V = PauliSynthStrat;

    open spec fn deep_view(&self) -> PauliSynthStrat {
        *self
    }
}

/// A string: the name of the variant.
impl Codec for PauliSynthStrat {
    open spec fn decode_spec(j: JsonView) -> Result<PauliSynthStrat, ErrorView> {
        match j {
            JsonView::String(s) => match PauliSynthStrat::from_name(s) {
                Some(t) => Ok(t),
                None => Err(ErrorView::here(ErrorKind::UnknownVariant)),
            },
            _ => Err(ErrorView::mismatch()),
        }
    }

    open spec fn encode_spec(v: PauliSynthStrat) -> JsonView {
        JsonView::String(v.name())
    }

    open spec fn valid(v: PauliSynthStrat) -> bool {
        true
    }

    fn decode(j: &Json) -> (r: Result<PauliSynthStrat, DecodeError>) {
        match j {
            Json::String(s) => match PauliSynthStrat::parse(s.as_str()) {
                Some(t) => {
                    proof {
                        Self::lemma_round_trip(t);
                    }
                    Ok(t)
                },
                None => Err(DecodeError::here(ErrorKind::UnknownVariant)),
            },
            _ => Err(DecodeError::mismatch()),
        }
    }

    fn encode(&self) -> (j: Json) {
        Json::String(self.as_str().to_owned())
    }

    proof fn lemma_round_trip(v: PauliSynthStrat) {
        PauliSynthStrat::lemma_name_round_trip(v);
    }
}

impl DeepCopy for PauliSynthStrat {
    fn deep_copy(&self) -> (r: PauliSynthStrat) {
        *self
    }
}

/// How Pauli tensors are gathered into sets.
#[derive(Clone, Copy, Debug, PartialEq, Eq, Hash)]
#[non_exhaustive]
pub enum PauliPartitionStrat {
    /// Sets in which each qubit has one Pauli or the identity, which
    /// diagonalise without further gates.
    NonConflictingSets,
    /// Sets of tensors that commute with each other.
    CommutingSets,
}

impl Default for PauliPartitionStrat {
    fn default() -> (r: PauliPartitionStrat)
        ensures
            r == PauliPartitionStrat::CommutingSets,
    {
        PauliPartitionStrat::CommutingSets
    }
}

impl PauliPartitionStrat {
    /// The name that the variant goes by.
    #[verifier::opaque]
    pub open spec fn name(self) -> Seq<char> {
        match self {
            PauliPartitionStrat::NonConflictingSets => "NonConflictingSets"@,
            PauliPartitionStrat::CommutingSets => "CommutingSets"@,
        }
    }

    /// The variant that goes by a name.
    #[verifier::opaque]
    pub open spec fn from_name(s: Seq<char>) -> Option<PauliPartitionStrat> {
        if s == "NonConflictingSets"@ {
            Some(PauliPartitionStrat::NonConflictingSets)
        } else if s == "CommutingSets"@ {
            Some(PauliPartitionStrat::CommutingSets)
        } else {
            None
        }
    }

    /// The name that the variant goes by.
    pub fn as_str(&self) -> (r: &'static str)
        ensures
            r@ == self.name(),
    {
        proof {
            reveal(PauliPartitionStrat::name);
        }
        match self {
            PauliPartitionStrat::NonConflictingSets => "NonConflictingSets",
            PauliPartitionStrat::CommutingSets => "CommutingSets",
        }
    }

    /// The variant that goes by a name, if there is one.
    pub fn parse(s: &str) -> (r: Option<PauliPartitionStrat>)
        ensures
            r == PauliPartitionStrat::from_name(s@),
    {
        proof {
            reveal(PauliPartitionStrat::from_name);
        }
        if str_eq(s, "NonConflictingSets") {
            Some(PauliPartitionStrat::NonConflictingSets)
        } else if str_eq(s, "CommutingSets") {
            Some(PauliPartitionStrat::CommutingSets)
        } else {
            None
        }
    }
}

impl PauliPartitionStrat {
    /// Every variant is the one that goes by its name.
    pub proof fn lemma_name_round_trip(t: PauliPartitionStrat)
        ensures
            PauliPartitionStrat::from_name(t.name()) == Some(t),
    {
        reveal(PauliPartitionStrat::name);
        reveal(PauliPartitionStrat::from_name);
        reveal_strlit("NonConflictingSets");
        reveal_strlit("CommutingSets");
        assert("NonConflictingSets"@.len() == 18);
        assert("CommutingSets"@.len() == 13);
    }
}

impl DeepView for PauliPartitionStrat {
    type V = PauliPartitionStrat;

    open spec fn deep_view(&self) -> PauliPartitionStrat {
        *self
    }
}

/// A string: the name of the variant.
impl Codec for PauliPartitionStrat {
    open spec fn decode_spec(j: JsonView) -> Result<PauliPartitionStrat, ErrorView> {
        match j {
            JsonView::String(s) => match PauliPartitionStrat::from_name(s) {
                Some(t) => Ok(t),
                None => Err(ErrorView::here(ErrorKind::UnknownVariant)),
            },
            _ => Err(ErrorView::mismatch()),
        }
    }

    open spec fn encode_spec(v: PauliPartitionStrat) -> JsonView {
        JsonView::String(v.name())
    }

    open spec fn valid(v: PauliPartitionStrat) -> bool {
        true
    }

    fn decode(j: &Json) -> (r: Result<PauliPartitionStrat, DecodeError>) {
        match j {
            Json::String(s) => match PauliPartitionStrat::parse(s.as_str()) {
                Some(t) => {
                    proof {
                        Self::lemma_round_trip(t);
                    }
                    Ok(t)
                },
                None => Err(DecodeError::here(ErrorKind::UnknownVariant)),
            },
            _ => Err(DecodeError::mismatch()),
        }
    }

    fn encode(&self) -> (j: Json) {
        Json::String(self.as_str().to_owned())
    }

    proof fn lemma_round_trip(v: PauliPartitionStrat) {
        PauliPartitionStrat::lemma_name_round_trip(v);
    }
}

impl DeepCopy for PauliPartitionStrat {
    fn deep_copy(&self) -> (r: PauliPartitionStrat) {
        *self
    }
}

/// How the graph of Pauli tensors is coloured.
#[derive(Clone, Copy, Debug, PartialEq, Eq, Hash)]
#[non_exhaustive]
pub enum GraphColourMethod {
    /// Without building the graph, tensor by tensor in the order given.
    Lazy,
    /// Greedily, vertices of highest degree first.
    LargestFirst,
    /// By trying colourings until one with the fewest colours is found.
    Exhaustive,
}

impl Default for GraphColourMethod {
    fn default() -> (r: GraphColourMethod)
        ensures
            r == GraphColourMethod::Lazy,
    {
        GraphColourMethod::Lazy
    }
}

impl GraphColourMethod {
    /// The name that the variant goes by.
    #[verifier::opaque]
    pub open spec fn name(self) -> Seq<char> {
        match self {
            GraphColourMethod::Lazy => "Lazy"@,
            GraphColourMethod::LargestFirst => "LargestFirst"@,
            GraphColourMethod::Exhaustive => "Exhaustive"@,
        }
    }

    /// The variant that goes by a name.
    #[verifier::opaque]
    pub open spec fn from_name(s: Seq<char>) -> Option<GraphColourMethod> {
        if s == "Lazy"@ {
            Some(GraphColourMethod::Lazy)
        } else if s == "LargestFirst"@ {
            Some(GraphColourMethod::LargestFirst)
        } else if s == "Exhaustive"@ {
            Some(GraphColourMethod::Exhaustive)
        } else {
            None
        }
    }

    /// The name that the variant goes by.
    pub fn as_str(&self) -> (r: &'static str)
        ensures
            r@ == self.name(),
    {
        proof {
            reveal(GraphColourMethod::name);
        }
        match self {
            GraphColourMethod::Lazy => "Lazy",
            GraphColourMethod::LargestFirst => "LargestFirst",
            GraphColourMethod::Exhaustive => "Exhaustive",
        }
    }

    /// The variant that goes by a name, if there is one.
    pub fn parse(s: &str) -> (r: Option<GraphColourMethod>)
        ensures
            r == GraphColourMethod::from_name(s@),
    {
        proof {
            reveal(GraphColourMethod::from_name);
        }
        if str_eq(s, "Lazy") {
            Some(GraphColourMethod::Lazy)
        } else if str_eq(s, "LargestFirst") {
            Some(GraphColourMethod::LargestFirst)
        } else if str_eq(s, "Exhaustive") {
            Some(GraphColourMethod::Exhaustive)
        } else {
            None
        }
    }
}

impl GraphColourMethod {
    /// Every variant is the one that goes by its name.
    pub proof fn lemma_name_round_trip(t: GraphColourMethod)
        ensures
            GraphColourMethod::from_name(t.name()) == Some(t),
    {
        reveal(GraphColourMethod::name);
        reveal(GraphColourMethod::from_name);
        reveal_strlit("Lazy");
        reveal_strlit("LargestFirst");
        reveal_strlit("Exhaustive");
        assert("Lazy"@.len() == 4);
        assert("LargestFirst"@.len() == 12);
        assert("Exhaustive"@.len() == 10);
    }
}

impl DeepView for GraphColourMethod {
    type V = GraphColourMethod;

    open spec fn deep_view(&self) -> GraphColourMethod {
        *self
    }
}

/// A string: the name of the variant.
impl Codec for GraphColourMethod {
    open spec fn decode_spec(j: JsonView) -> Result<GraphColourMethod, ErrorView> {
        match j {
            JsonView::String(s) => match GraphColourMethod::from_name(s) {
                Some(t) => Ok(t),
                None => Err(ErrorView::here(ErrorKind::UnknownVariant)),
            },
            _ => Err(ErrorView::mismatch()),
        }
    }

    open spec fn encode_spec(v: GraphColourMethod) -> JsonView {
        JsonView::String(v.name())
    }

    open spec fn valid(v: GraphColourMethod) -> bool {
        true
    }

    fn decode(j: &Json) -> (r: Result<GraphColourMethod, DecodeError>) {
        match j {
            Json::String(s) => match GraphColourMethod::parse(s.as_str()) {
                Some(t) => {
                    proof {
                        Self::lemma_round_trip(t);
                    }
                    Ok(t)
                },
                None => Err(DecodeError::here(ErrorKind::UnknownVariant)),
            },
            _ => Err(DecodeError::mismatch()),
        }
    }

    fn encode(&self) -> (j: Json) {
        Json::String(self.as_str().to_owned())
    }

    proof fn lemma_round_trip(v: GraphColourMethod) {
        GraphColourMethod::lemma_name_round_trip(v);
    }
}

impl DeepCopy for GraphColourMethod {
    fn deep_copy(&self) -> (r: GraphColourMethod) {
        *self
    }
}

/// How the CX gates of a phase gadget are laid out.
#[derive(Clone, Copy, Debug, PartialEq, Eq, Hash)]
#[non_exhaustive]
pub enum CXConfigType {
    /// From each qubit to the next, in linear depth.
    Snake,
    /// All onto one target, in linear depth.
    Star,
    /// As a balanced tree, in logarithmic depth.
    Tree,
    /// With three-qubit gates in place of CX where possible.
    MultiQGate,
}

impl Default for CXConfigType {
    fn default() -> (r: CXConfigType)
        ensures
            r == CXConfigType::Tree,
    {
        CXConfigType::Tree
    }
}

impl CXConfigType {
    /// The name that the variant goes by.
    #[verifier::opaque]
    pub open spec fn name(self) -> Seq<char> {
        match self {
            CXConfigType::Snake => "Snake"@,
            CXConfigType::Star => "Star"@,
            CXConfigType::Tree => "Tree"@,
            CXConfigType::MultiQGate => "MultiQGate"@,
        }
    }

    /// The variant that goes by a name.
    #[verifier::opaque]
    pub open spec fn from_name(s: Seq<char>) -> Option<CXConfigType> {
        if s == "Snake"@ {
            Some(CXConfigType::Snake)
        } else if s == "Star"@ {
            Some(CXConfigType::Star)
        } else if s == "Tree"@ {
            Some(CXConfigType::Tree)
        } else if s == "MultiQGate"@ {
            Some(CXConfigType::MultiQGate)
        } else {
            None
        }
    }

    /// The name that the variant goes by.
    pub fn as_str(&self) -> (r: &'static str)
        ensures
            r@ == self.name(),
    {
        proof {
            reveal(CXConfigType::name);
        }
        match self {
            CXConfigType::Snake => "Snake",
            CXConfigType::Star => "Star",
            CXConfigType::Tree => "Tree",
            CXConfigType::MultiQGate => "MultiQGate",
        }
    }

    /// The variant that goes by a name, if there is one.
    pub fn parse(s: &str) -> (r: Option<CXConfigType>)
        ensures
            r == CXConfigType::from_name(s@),
    {
        proof {
            reveal(CXConfigType::from_name);
        }
        if str_eq(s, "Snake") {
            Some(CXConfigType::Snake)
        } else if str_eq(s, "Star") {
            Some(CXConfigType::Star)
        } else if str_eq(s, "Tree") {
            Some(CXConfigType::Tree)
        } else if str_eq(s, "MultiQGate") {
            Some(CXConfigType::MultiQGate)
        } else {
            None
        }
    }
}

impl CXConfigType {
    /// Every variant is the one that goes by its name.
    pub proof fn lemma_name_round_trip(t: CXConfigType)
        ensures
            CXConfigType::from_name(t.name()) == Some(t),
    {
        reveal(CXConfigType::name);
        reveal(CXConfigType::from_name);
        reveal_strlit("Snake");
        reveal_strlit("Star");
        reveal_strlit("Tree");
        reveal_strlit("MultiQGate");
        assert("Snake"@.len() == 5 && "Snake"@[0] == 'S');
        assert("Star"@.len() == 4 && "Star"@[0] == 'S');
        assert("Tree"@.len() == 4 && "Tree"@[0] == 'T');
        assert("MultiQGate"@.len() == 10 && "MultiQGate"@[0] == 'M');
    }
}

impl DeepView for CXConfigType {
    type V = CXConfigType;

    open spec fn deep_view(&self) -> CXConfigType {
        *self
    }
}

/// A string: the name of the variant.
impl Codec for CXConfigType {
    open spec fn decode_spec(j: JsonView) -> Result<CXConfigType, ErrorView> {
        match j {
            JsonView::String(s) => match CXConfigType::from_name(s) {
                Some(t) => Ok(t),
                None => Err(ErrorView::here(ErrorKind::UnknownVariant)),
            },
            _ => Err(ErrorView::mismatch()),
        }
    }

    open spec fn encode_spec(v: CXConfigType) -> JsonView {
        JsonView::String(v.name())
    }

    open spec fn valid(v: CXConfigType) -> bool {
        true
    }

    fn decode(j: &Json) -> (r: Result<CXConfigType, DecodeError>) {
        match j {
            Json::String(s) => match CXConfigType::parse(s.as_str()) {
                Some(t) => {
                    proof {
                        Self::lemma_round_trip(t);
                    }
                    Ok(t)
                },
                None => Err(DecodeError::here(ErrorKind::UnknownVariant)),
            },
            _ => Err(DecodeError::mismatch()),
        }
    }

    fn encode(&self) -> (j: Json) {
        Json::String(self.as_str().to_owned())
    }

    proof fn lemma_round_trip(v: CXConfigType) {
        CXConfigType::lemma_name_round_trip(v);
    }
}

impl DeepCopy for CXConfigType {
    fn deep_copy(&self) -> (r: CXConfigType) {
        *self
    }
}

} // verus!
