//! The circuit document: registers, operations, commands and the circuit.

pub mod circuit;
pub mod classical;
pub mod classical_exp;
pub mod command;
pub mod commands;
pub mod conditional;
pub mod copy;
pub mod gate;
pub mod matrix;
pub mod op_map;
pub mod operation;
pub mod params;

pub use matrix::Matrix;

use vstd::prelude::*;
use crate::circuit_json::classical_exp::unit_models;
use crate::circuit_json::commands::command_models;
use crate::clexpr::{ClExpr, ClExprView};
use crate::codec::{Codec, DecodeError, DeepCopy, ErrorView, put, put_spec, required, required_spec};
use crate::json::{Fields, group_field, Json, JsonView, part};
use crate::opbox::{OpBox, OpBoxView};
use crate::optype::OpType;

verus! {

/// One place of a register: the register's name and an index into it.
/// Several places may share a name.
#[derive(Clone, Debug, PartialEq, Eq, Hash)]
pub struct Register(pub String, pub Vec<i64>);

impl DeepView for Register {
    type V = (Seq<char>, Seq<i64>);

    open spec fn deep_view(&self) -> (Seq<char>, Seq<i64>) {
        (self.0.deep_view(), self.1.deep_view())
    }
}

/// A pair `[name, index]`, not an object.
impl Codec for Register {
    open spec fn decode_spec(j: JsonView) -> Result<(Seq<char>, Seq<i64>), ErrorView> {
        <(String, Vec<i64>)>::decode_spec(j)
    }

    open spec fn encode_spec(v: (Seq<char>, Seq<i64>)) -> JsonView {
        <(String, Vec<i64>)>::encode_spec(v)
    }

    open spec fn valid(v: (Seq<char>, Seq<i64>)) -> bool {
        <(String, Vec<i64>)>::valid(v)
    }

    fn decode(j: &Json) -> (r: Result<Register, DecodeError>) {
        match <(String, Vec<i64>)>::decode(j) {
            Ok(x) => Ok(Register(x.0, x.1)),
            Err(e) => Err(e),
        }
    }

    fn encode(&self) -> (j: Json) {
        let mut out: Vec<Json> = Vec::new();
        out.push(self.0.encode());
        out.push(self.1.encode());
        let j = Json::Array(out);
        assert(j.deep_view()->Array_0 =~= seq![
            String::encode_spec(self.0.deep_view()),
            Vec::<i64>::encode_spec(self.1.deep_view()),
        ]);
        j
    }

    proof fn lemma_round_trip(v: (Seq<char>, Seq<i64>)) {
        <(String, Vec<i64>)>::lemma_round_trip(v);
    }
}

impl DeepCopy for Register {
    fn deep_copy(&self) -> (r: Register) {
        Register(self.0.deep_copy(), self.1.deep_copy())
    }
}

/// A classical register: a name and a width in bits.
#[derive(Clone, Debug, PartialEq, Eq, Hash)]
pub struct BitRegister {
    /// Name of the register.
    pub name: String,
    /// Number of bits in the register.
    pub size: u32,
}

/// The mathematical value of a [`BitRegister`].
pub struct BitRegisterView {
    pub name: Seq<char>,
    pub size: u32,
}

impl DeepView for BitRegister {
    type V = BitRegisterView;

    open spec fn deep_view(&self) -> BitRegisterView {
        BitRegisterView {
            name: self.name.deep_view(),
            size: self.size.deep_view(),
        }
    }
}

/// An object with the fields `name` and `size`.
impl Codec for BitRegister {
    #[verifier::opaque]
    open spec fn decode_spec(j: JsonView) -> Result<BitRegisterView, ErrorView> {
        match required_spec::<String>(j, "name") {
            Err(e) => Err(e),
            Ok(name) => match required_spec::<u32>(j, "size") {
                Err(e) => Err(e),
                Ok(size) => Ok(BitRegisterView { name, size }),
            },
        }
    }

    #[verifier::opaque]
    open spec fn encode_spec(v: BitRegisterView) -> JsonView {
        let e = Seq::empty();
        let e = put_spec::<String>(e, "name", v.name);
        let e = put_spec::<u32>(e, "size", v.size);
        JsonView::Object(e)
    }

    open spec fn valid(v: BitRegisterView) -> bool {
        true
    }

    fn decode(j: &Json) -> (r: Result<BitRegister, DecodeError>) {
        proof {
            reveal(<BitRegister as Codec>::decode_spec);
        }
        let name: String = match required::<String>(j, "name") {
            Ok(v) => v,
            Err(e) => {
                return Err(e);
            },
        };
        let size: u32 = match required::<u32>(j, "size") {
            Ok(v) => v,
            Err(e) => {
                return Err(e);
            },
        };
        let r = BitRegister { name, size };
        proof {
            Self::lemma_round_trip(r.deep_view());
        }
        Ok(r)
    }

    fn encode(&self) -> (j: Json) {
        proof {
            reveal(<BitRegister as Codec>::encode_spec);
        }
        let mut fields = Fields::new();
        put::<String>(&mut fields, "name", &self.name);
        put::<u32>(&mut fields, "size", &self.size);
        fields.finish()
    }

    proof fn lemma_round_trip(v: BitRegisterView) {
        reveal(<BitRegister as Codec>::decode_spec);
        reveal(<BitRegister as Codec>::encode_spec);
        broadcast use group_field;

        reveal_strlit("name");
        reveal_strlit("size");
        assert("name"@.len() == 4 && "name"@[0] == 'n');
        assert("size"@.len() == 4 && "size"@[0] == 's');
        String::lemma_round_trip(v.name);
        u32::lemma_round_trip(v.size);
    }
}

impl DeepCopy for BitRegister {
    fn deep_copy(&self) -> (r: BitRegister) {
        BitRegister {
            name: self.name.deep_copy(),
            size: self.size.deep_copy(),
        }
    }
}

/// An object without the field `name` is no register.
pub proof fn lemma_bit_register_needs_name(j: JsonView)
    requires
        part(j, "name"@) is None,
    ensures
        BitRegister::decode_spec(j) is Err,
{
    reveal(<BitRegister as Codec>::decode_spec);
}

/// A register encodes to an object.
pub proof fn lemma_bit_register_is_object(v: BitRegisterView)
    ensures
        BitRegister::encode_spec(v) is Object,
{
    reveal(<BitRegister as Codec>::encode_spec);
}

/// A string of bits.
#[derive(Clone, Debug, PartialEq, Eq, Hash)]
pub struct Bitstring {
    /// The bits, in order.
    pub vec: Vec<bool>,
}

impl DeepView for Bitstring {
    type V = Seq<bool>;

    open spec fn deep_view(&self) -> Seq<bool> {
        self.vec.deep_view()
    }
}

/// A bare array of booleans.
impl Codec for Bitstring {
    open spec fn decode_spec(j: JsonView) -> Result<Seq<bool>, ErrorView> {
        Vec::<bool>::decode_spec(j)
    }

    open spec fn encode_spec(v: Seq<bool>) -> JsonView {
        Vec::<bool>::encode_spec(v)
    }

    open spec fn valid(v: Seq<bool>) -> bool {
        Vec::<bool>::valid(v)
    }

    fn decode(j: &Json) -> (r: Result<Bitstring, DecodeError>) {
        match Vec::<bool>::decode(j) {
            Ok(x) => Ok(Bitstring { vec: x }),
            Err(e) => Err(e),
        }
    }

    fn encode(&self) -> (j: Json) {
        self.vec.encode()
    }

    proof fn lemma_round_trip(v: Seq<bool>) {
        Vec::<bool>::lemma_round_trip(v);
    }
}

impl DeepCopy for Bitstring {
    fn deep_copy(&self) -> (r: Bitstring) {
        Bitstring { vec: self.vec.deep_copy() }
    }
}

/// What an operation carries when it calls a function of a WASM module.
#[derive(Clone, Debug, PartialEq)]
pub struct Wasm {
    /// Number of bits that the call reads and writes.
    pub n: u64,
    /// Number of WASM wires that the call holds.
    pub ww_n: u64,
    /// Width in bits of each parameter of the function.
    pub width_i_parameter: Vec<u64>,
    /// Width in bits of each result of the function.
    pub width_o_parameter: Vec<u64>,
    /// Name of the function.
    pub func_name: String,
    /// Identifier of the module that holds the function.
    pub wasm_file_uid: String,
}

/// The mathematical value of a [`Wasm`].
pub struct WasmView {
    pub n: u64,
    pub ww_n: u64,
    pub width_i_parameter: Seq<u64>,
    pub width_o_parameter: Seq<u64>,
    pub func_name: Seq<char>,
    pub wasm_file_uid: Seq<char>,
}

impl DeepView for Wasm {
    type V = WasmView;

    open spec fn deep_view(&self) -> WasmView {
        WasmView {
            n: self.n.deep_view(),
            ww_n: self.ww_n.deep_view(),
            width_i_parameter: self.width_i_parameter.deep_view(),
            width_o_parameter: self.width_o_parameter.deep_view(),
            func_name: self.func_name.deep_view(),
            wasm_file_uid: self.wasm_file_uid.deep_view(),
        }
    }
}

/// An object with the fields `n`, `ww_n`, `width_i_parameter`,
/// `width_o_parameter`, `func_name` and `wasm_file_uid`.
impl Codec for Wasm {
    #[verifier::opaque]
    open spec fn decode_spec(j: JsonView) -> Result<WasmView, ErrorView> {
        match required_spec::<u64>(j, "n") {
            Err(e) => Err(e),
            Ok(n) => match required_spec::<u64>(j, "ww_n") {
                Err(e) => Err(e),
                Ok(ww_n) => match required_spec::<Vec<u64>>(j, "width_i_parameter") {
                    Err(e) => Err(e),
                    Ok(width_i_parameter) => match required_spec::<Vec<u64>>(
                        j, "width_o_parameter",
                    ) {
                        Err(e) => Err(e),
                        Ok(width_o_parameter) => match required_spec::<String>(j, "func_name") {
                            Err(e) => Err(e),
                            Ok(func_name) => match required_spec::<String>(j, "wasm_file_uid") {
                                Err(e) => Err(e),
                                Ok(wasm_file_uid) => Ok(WasmView {
                                    n,
                                    ww_n,
                                    width_i_parameter,
                                    width_o_parameter,
                                    func_name,
                                    wasm_file_uid,
                                }),
                            },
                        },
                    },
                },
            },
        }
    }

    #[verifier::opaque]
    open spec fn encode_spec(v: WasmView) -> JsonView {
        let e = Seq::empty();
        let e = put_spec::<u64>(e, "n", v.n);
        let e = put_spec::<u64>(e, "ww_n", v.ww_n);
        let e = put_spec::<Vec<u64>>(e, "width_i_parameter", v.width_i_parameter);
        let e = put_spec::<Vec<u64>>(e, "width_o_parameter", v.width_o_parameter);
        let e = put_spec::<String>(e, "func_name", v.func_name);
        let e = put_spec::<String>(e, "wasm_file_uid", v.wasm_file_uid);
        JsonView::Object(e)
    }

    open spec fn valid(v: WasmView) -> bool {
        true
    }

    fn decode(j: &Json) -> (r: Result<Wasm, DecodeError>) {
        proof {
            reveal(<Wasm as Codec>::decode_spec);
        }
        let n: u64 = match required::<u64>(j, "n") {
            Ok(v) => v,
            Err(e) => {
                return Err(e);
            },
        };
        let ww_n: u64 = match required::<u64>(j, "ww_n") {
            Ok(v) => v,
            Err(e) => {
                return Err(e);
            },
        };
        let width_i_parameter: Vec<u64> = match required::<Vec<u64>>(j, "width_i_parameter") {
            Ok(v) => v,
            Err(e) => {
                return Err(e);
            },
        };
        let width_o_parameter: Vec<u64> = match required::<Vec<u64>>(j, "width_o_parameter") {
            Ok(v) => v,
            Err(e) => {
                return Err(e);
            },
        };
        let func_name: String = match required::<String>(j, "func_name") {
            Ok(v) => v,
            Err(e) => {
                return Err(e);
            },
        };
        let wasm_file_uid: String = match required::<String>(j, "wasm_file_uid") {
            Ok(v) => v,
            Err(e) => {
                return Err(e);
            },
        };
        let r = Wasm { n, ww_n, width_i_parameter, width_o_parameter, func_name, wasm_file_uid };
        proof {
            Self::lemma_round_trip(r.deep_view());
        }
        Ok(r)
    }

    fn encode(&self) -> (j: Json) {
        proof {
            reveal(<Wasm as Codec>::encode_spec);
        }
        let mut fields = Fields::new();
        put::<u64>(&mut fields, "n", &self.n);
        put::<u64>(&mut fields, "ww_n", &self.ww_n);
        put::<Vec<u64>>(&mut fields, "width_i_parameter", &self.width_i_parameter);
        put::<Vec<u64>>(&mut fields, "width_o_parameter", &self.width_o_parameter);
        put::<String>(&mut fields, "func_name", &self.func_name);
        put::<String>(&mut fields, "wasm_file_uid", &self.wasm_file_uid);
        fields.finish()
    }

    proof fn lemma_round_trip(v: WasmView) {
        reveal(<Wasm as Codec>::decode_spec);
        reveal(<Wasm as Codec>::encode_spec);
        broadcast use group_field;

        reveal_strlit("n");
        reveal_strlit("ww_n");
        reveal_strlit("width_i_parameter");
        reveal_strlit("width_o_parameter");
        reveal_strlit("func_name");
        reveal_strlit("wasm_file_uid");
        assert("n"@.len() == 1);
        assert("ww_n"@.len() == 4);
        assert("width_i_parameter"@.len() == 17 && "width_i_parameter"@[6] == 'i');
        assert("width_o_parameter"@.len() == 17 && "width_o_parameter"@[6] == 'o');
        assert("func_name"@.len() == 9 && "func_name"@[6] == 'a');
        assert("wasm_file_uid"@.len() == 13 && "wasm_file_uid"@[6] == 'i');
        u64::lemma_round_trip(v.n);
        u64::lemma_round_trip(v.ww_n);
        Vec::<u64>::lemma_round_trip(v.width_i_parameter);
        Vec::<u64>::lemma_round_trip(v.width_o_parameter);
        String::lemma_round_trip(v.func_name);
        String::lemma_round_trip(v.wasm_file_uid);
    }
}

impl DeepCopy for Wasm {
    fn deep_copy(&self) -> (r: Wasm) {
        Wasm {
            n: self.n.deep_copy(),
            ww_n: self.ww_n.deep_copy(),
            width_i_parameter: self.width_i_parameter.deep_copy(),
            width_o_parameter: self.width_o_parameter.deep_copy(),
            func_name: self.func_name.deep_copy(),
            wasm_file_uid: self.wasm_file_uid.deep_copy(),
        }
    }
}

/// A permutation of classical basis states: pairs of a state and its image.
#[derive(Clone, Debug, PartialEq, Eq, Hash)]
pub struct Permutation(pub Vec<(Vec<bool>, Vec<bool>)>);

impl DeepView for Permutation {
    type V = Seq<(Seq<bool>, Seq<bool>)>;

    open spec fn deep_view(&self) -> Seq<(Seq<bool>, Seq<bool>)> {
        self.0.deep_view()
    }
}

/// A bare array of pairs of arrays of booleans.
impl Codec for Permutation {
    open spec fn decode_spec(j: JsonView) -> Result<Seq<(Seq<bool>, Seq<bool>)>, ErrorView> {
        Vec::<(Vec<bool>, Vec<bool>)>::decode_spec(j)
    }

    open spec fn encode_spec(v: Seq<(Seq<bool>, Seq<bool>)>) -> JsonView {
        Vec::<(Vec<bool>, Vec<bool>)>::encode_spec(v)
    }

    open spec fn valid(v: Seq<(Seq<bool>, Seq<bool>)>) -> bool {
        Vec::<(Vec<bool>, Vec<bool>)>::valid(v)
    }

    fn decode(j: &Json) -> (r: Result<Permutation, DecodeError>) {
        match Vec::<(Vec<bool>, Vec<bool>)>::decode(j) {
            Ok(x) => Ok(Permutation(x)),
            Err(e) => Err(e),
        }
    }

    fn encode(&self) -> (j: Json) {
        self.0.encode()
    }

    proof fn lemma_round_trip(v: Seq<(Seq<bool>, Seq<bool>)>) {
        Vec::<(Vec<bool>, Vec<bool>)>::lemma_round_trip(v);
    }
}

impl DeepCopy for Permutation {
    fn deep_copy(&self) -> (r: Permutation) {
        Permutation(self.0.deep_copy())
    }
}

/// One pair of the implicit permutation of a circuit: the place that a
/// qubit enters at, and the place that it leaves at.
#[derive(Clone, Debug, PartialEq, Eq, Hash)]
pub struct ImplicitPermutation(pub Register, pub Register);

impl DeepView for ImplicitPermutation {
    type V = ((Seq<char>, Seq<i64>), (Seq<char>, Seq<i64>));

    open spec fn deep_view(&self) -> ((Seq<char>, Seq<i64>), (Seq<char>, Seq<i64>)) {
        (self.0.deep_view(), self.1.deep_view())
    }
}

/// A pair `[from, to]`, not an object.
impl Codec for ImplicitPermutation {
    open spec fn decode_spec(j: JsonView) -> Result<((Seq<char>, Seq<i64>), (Seq<char>, Seq<i64>)), ErrorView> {
        <(Register, Register)>::decode_spec(j)
    }

    open spec fn encode_spec(v: ((Seq<char>, Seq<i64>), (Seq<char>, Seq<i64>))) -> JsonView {
        <(Register, Register)>::encode_spec(v)
    }

    open spec fn valid(v: ((Seq<char>, Seq<i64>), (Seq<char>, Seq<i64>))) -> bool {
        <(Register, Register)>::valid(v)
    }

    fn decode(j: &Json) -> (r: Result<ImplicitPermutation, DecodeError>) {
        match <(Register, Register)>::decode(j) {
            Ok(x) => Ok(ImplicitPermutation(x.0, x.1)),
            Err(e) => Err(e),
        }
    }

    fn encode(&self) -> (j: Json) {
        let mut out: Vec<Json> = Vec::new();
        out.push(self.0.encode());
        out.push(self.1.encode());
        let j = Json::Array(out);
        assert(j.deep_view()->Array_0 =~= seq![
            Register::encode_spec(self.0.deep_view()),
            Register::encode_spec(self.1.deep_view()),
        ]);
        j
    }

    proof fn lemma_round_trip(v: ((Seq<char>, Seq<i64>), (Seq<char>, Seq<i64>))) {
        <(Register, Register)>::lemma_round_trip(v);
    }
}

impl DeepCopy for ImplicitPermutation {
    fn deep_copy(&self) -> (r: ImplicitPermutation) {
        ImplicitPermutation(self.0.deep_copy(), self.1.deep_copy())
    }
}

/// One argument of a classical expression of the older form.
#[derive(Debug, PartialEq, Eq, Hash)]
#[non_exhaustive]
pub enum ClassicalExpUnit {
    /// A constant.
    U32(u32),
    /// A single bit.
    Register(Register),
    /// A whole register.
    BitRegister(BitRegister),
    /// A nested expression.
    ClassicalExpUnit(ClassicalExp),
}

/// The mathematical value of a [`ClassicalExpUnit`].
pub enum ClassicalExpUnitView {
    U32(u32),
    Register((Seq<char>, Seq<i64>)),
    BitRegister(BitRegisterView),
    ClassicalExpUnit(ClassicalExpView),
}

impl ClassicalExpUnit {
    /// The mathematical value.
    pub open spec fn model(&self) -> ClassicalExpUnitView
        decreases self,
    {
        match self {
            ClassicalExpUnit::U32(x) => ClassicalExpUnitView::U32(*x),
            ClassicalExpUnit::Register(x) => ClassicalExpUnitView::Register(x.deep_view()),
            ClassicalExpUnit::BitRegister(x) => ClassicalExpUnitView::BitRegister(x.deep_view()),
            ClassicalExpUnit::ClassicalExpUnit(x) => ClassicalExpUnitView::ClassicalExpUnit(
                x.model(),
            ),
        }
    }
}

impl DeepView for ClassicalExpUnit {
    type V = ClassicalExpUnitView;

    open spec fn deep_view(&self) -> ClassicalExpUnitView {
        self.model()
    }
}

/// A classical expression of the older form: an operation, by name, and its
/// arguments.
#[derive(Debug, PartialEq, Eq, Hash)]
pub struct ClassicalExp {
    /// The arguments, in order.
    pub args: Vec<ClassicalExpUnit>,
    /// The operation, by name.
    pub op: String,
}

/// The mathematical value of a [`ClassicalExp`].
pub struct ClassicalExpView {
    pub args: Seq<ClassicalExpUnitView>,
    pub op: Seq<char>,
}

impl ClassicalExp {
    /// The mathematical value.
    #[verifier::opaque]
    pub open spec fn model(&self) -> ClassicalExpView
        decreases self,
    {
        ClassicalExpView {
            args: unit_models(self.args@),
            op: self.op.deep_view(),
        }
    }
}

impl DeepView for ClassicalExp {
    type V = ClassicalExpView;

    open spec fn deep_view(&self) -> ClassicalExpView {
        self.model()
    }
}

/// A gate that is defined by a circuit.
#[derive(Debug, PartialEq)]
pub struct CompositeGate {
    /// Its name.
    pub name: String,
    /// The names of its parameters.
    pub args: Vec<String>,
    /// The circuit that defines it.
    pub definition: Box<SerialCircuit>,
}

/// The mathematical value of a [`CompositeGate`].
pub struct CompositeGateView {
    pub name: Seq<char>,
    pub args: Seq<Seq<char>>,
    pub definition: Box<SerialCircuitView<Seq<char>>>,
}

impl CompositeGate {
    /// The mathematical value.
    #[verifier::opaque]
    pub open spec fn model(&self) -> CompositeGateView
        decreases self,
    {
        CompositeGateView {
            name: self.name.deep_view(),
            args: self.args.deep_view(),
            definition: Box::new(self.definition.model()),
        }
    }
}

impl DeepView for CompositeGate {
    type V = CompositeGateView;

    open spec fn deep_view(&self) -> CompositeGateView {
        self.model()
    }
}

/// An operation under a classical condition: it applies if the bits of the
/// condition, read as an unsigned integer, have a given value.
#[derive(Debug, PartialEq)]
pub struct Conditional {
    /// The operation that is applied if the condition holds.
    pub op: Box<Operation>,
    /// Number of bits of the condition.
    pub width: u32,
    /// The value that the bits, read as an unsigned integer, must have.
    pub value: u32,
}

/// The mathematical value of a [`Conditional`].
pub struct ConditionalView {
    pub op: Box<OperationView<Seq<char>>>,
    pub width: u32,
    pub value: u32,
}

impl Conditional {
    /// The mathematical value.
    #[verifier::opaque]
    pub open spec fn model(&self) -> ConditionalView
        decreases self,
    {
        ConditionalView {
            op: Box::new(self.op.model()),
            width: self.width.deep_view(),
            value: self.value.deep_view(),
        }
    }
}

impl DeepView for Conditional {
    type V = ConditionalView;

    open spec fn deep_view(&self) -> ConditionalView {
        self.model()
    }
}

/// What an operation on bits alone carries. Documents tell the variants
/// apart by the fields that are there.
#[derive(Debug, PartialEq)]
#[non_exhaustive]
pub enum Classical {
    /// An operation applied to several bits at once.
    MultiBit {
        /// The operation.
        op: Box<Operation>,
        /// How many times it is applied.
        n: u32,
    },
    /// A test of whether an integer lies in a range.
    RangePredicate {
        /// Number of bits that are read.
        n_i: u32,
        /// The least value of the range.
        lower: u64,
        /// The greatest value of the range.
        upper: u64,
    },
    /// A predicate or a change of a bit, given by a truth table.
    Explicit {
        /// Number of bits that are only read.
        n_i: u32,
        /// The name of the operation.
        name: String,
        /// The truth table.
        values: Vec<bool>,
    },
    /// A transformation of bits, given by a table.
    ClassicalTransform {
        /// Number of bits that are read and written.
        n_io: u32,
        /// The name of the operation.
        name: String,
        /// The table.
        values: Vec<u32>,
    },
    /// A copy of bits.
    CopyBits {
        /// Number of bits that are copied.
        n_i: u32,
    },
    /// An assignment of constants to bits.
    SetBits {
        /// The constants.
        values: Vec<bool>,
    },
}

/// The mathematical value of a [`Classical`].
pub enum ClassicalView {
    MultiBit { op: Box<OperationView<Seq<char>>>, n: u32 },
    RangePredicate { n_i: u32, lower: u64, upper: u64 },
    Explicit { n_i: u32, name: Seq<char>, values: Seq<bool> },
    ClassicalTransform { n_io: u32, name: Seq<char>, values: Seq<u32> },
    CopyBits { n_i: u32 },
    SetBits { values: Seq<bool> },
}

impl Classical {
    /// The mathematical value.
    #[verifier::opaque]
    pub open spec fn model(&self) -> ClassicalView
        decreases self,
    {
        match self {
            Classical::MultiBit { op, n } => ClassicalView::MultiBit {
                op: Box::new(op.model()),
                n: n.deep_view(),
            },
            Classical::RangePredicate { n_i, lower, upper } => ClassicalView::RangePredicate {
                n_i: n_i.deep_view(),
                lower: lower.deep_view(),
                upper: upper.deep_view(),
            },
            Classical::Explicit { n_i, name, values } => ClassicalView::Explicit {
                n_i: n_i.deep_view(),
                name: name.deep_view(),
                values: values.deep_view(),
            },
            Classical::ClassicalTransform {
                n_io,
                name,
                values,
            } => ClassicalView::ClassicalTransform {
                n_io: n_io.deep_view(),
                name: name.deep_view(),
                values: values.deep_view(),
            },
            Classical::CopyBits { n_i } => ClassicalView::CopyBits {
                n_i: n_i.deep_view(),
            },
            Classical::SetBits { values } => ClassicalView::SetBits {
                values: values.deep_view(),
            },
        }
    }
}

impl DeepView for Classical {
    type V = ClassicalView;

    open spec fn deep_view(&self) -> ClassicalView {
        self.model()
    }
}

/// An operation: its type, and what the type calls for.
#[derive(Debug, PartialEq)]
#[non_exhaustive]
pub struct Operation<P = String> {
    /// The type of the operation.
    pub op_type: OpType,
    /// Number of qubits that the operation acts on.
    pub n_qb: Option<u32>,
    /// A string that the operation carries, of no set meaning.
    pub data: Option<String>,
    /// The parameters of the operation, as expressions.
    pub params: Option<Vec<P>>,
    /// The box that defines the operation.
    pub op_box: Option<OpBox>,
    /// The classical expression of an operation of type `ClExpr`.
    pub classical_expr: Option<ClExpr>,
    /// The kinds of wires that the operation acts on, in order.
    pub signature: Option<Vec<String>>,
    /// The classical condition under which the operation applies.
    pub conditional: Option<Conditional>,
    /// What an operation on bits alone carries.
    pub classical: Option<Box<Classical>>,
    /// What a call of a WASM function carries.
    pub wasm: Option<Box<Wasm>>,
}

/// The mathematical value of an [`Operation`].
pub struct OperationView<P> {
    pub op_type: OpType,
    pub n_qb: Option<u32>,
    pub data: Option<Seq<char>>,
    pub params: Option<Seq<P>>,
    pub op_box: Option<OpBoxView>,
    pub classical_expr: Option<ClExprView>,
    pub signature: Option<Seq<Seq<char>>>,
    pub conditional: Option<ConditionalView>,
    pub classical: Option<Box<ClassicalView>>,
    pub wasm: Option<WasmView>,
}

impl<P: Codec> Operation<P> {
    /// The mathematical value.
    #[verifier::opaque]
    pub open spec fn model(&self) -> OperationView<P::V>
        decreases self,
    {
        OperationView {
            op_type: self.op_type.deep_view(),
            n_qb: self.n_qb.deep_view(),
            data: self.data.deep_view(),
            params: self.params.deep_view(),
            op_box: match self.op_box {
                Some(x) => Some(x.model()),
                None => None,
            },
            classical_expr: self.classical_expr.deep_view(),
            signature: self.signature.deep_view(),
            conditional: match self.conditional {
                Some(x) => Some(x.model()),
                None => None,
            },
            classical: match self.classical {
                Some(x) => Some(Box::new(x.model())),
                None => None,
            },
            wasm: self.wasm.deep_view(),
        }
    }
}

impl<P: Codec> DeepView for Operation<P> {
    type V = OperationView<P::V>;

    open spec fn deep_view(&self) -> OperationView<P::V> {
        self.model()
    }
}

/// An operation applied to places of the circuit.
#[derive(Debug, PartialEq)]
pub struct Command<P = String> {
    /// The operation.
    pub op: Operation<P>,
    /// The places that the operation is applied to, in order.
    pub args: Vec<Register>,
    /// A name that gathers operations into a group.
    pub opgroup: Option<String>,
}

/// The mathematical value of a [`Command`].
pub struct CommandView<P> {
    pub op: OperationView<P>,
    pub args: Seq<(Seq<char>, Seq<i64>)>,
    pub opgroup: Option<Seq<char>>,
}

impl<P: Codec> Command<P> {
    /// The mathematical value.
    #[verifier::opaque]
    pub open spec fn model(&self) -> CommandView<P::V>
        decreases self,
    {
        CommandView {
            op: self.op.model(),
            args: self.args.deep_view(),
            opgroup: self.opgroup.deep_view(),
        }
    }
}

impl<P: Codec> DeepView for Command<P> {
    type V = CommandView<P::V>;

    open spec fn deep_view(&self) -> CommandView<P::V> {
        self.model()
    }
}

/// A circuit, as documents hold it.
#[derive(Debug, PartialEq)]
#[non_exhaustive]
pub struct SerialCircuit<P = String> {
    /// The name of the circuit.
    pub name: Option<String>,
    /// The global phase, as an expression.
    pub phase: P,
    /// The commands, in order.
    pub commands: Vec<Command<P>>,
    /// The qubits of the circuit.
    pub qubits: Vec<Register>,
    /// The bits of the circuit.
    pub bits: Vec<Register>,
    /// For each qubit, where it leaves the circuit.
    pub implicit_permutation: Vec<ImplicitPermutation>,
    /// Number of WASM wires.
    pub number_of_ws: Option<u64>,
    /// The qubits that the circuit starts in the zero state.
    pub created_qubits: Option<Vec<Register>>,
    /// The qubits that the circuit gives up at its end.
    pub discarded_qubits: Option<Vec<Register>>,
}

/// The mathematical value of a [`SerialCircuit`].
pub struct SerialCircuitView<P> {
    pub name: Option<Seq<char>>,
    pub phase: P,
    pub commands: Seq<CommandView<P>>,
    pub qubits: Seq<(Seq<char>, Seq<i64>)>,
    pub bits: Seq<(Seq<char>, Seq<i64>)>,
    pub implicit_permutation: Seq<((Seq<char>, Seq<i64>), (Seq<char>, Seq<i64>))>,
    pub number_of_ws: Option<u64>,
    pub created_qubits: Option<Seq<(Seq<char>, Seq<i64>)>>,
    pub discarded_qubits: Option<Seq<(Seq<char>, Seq<i64>)>>,
}

impl<P: Codec> SerialCircuit<P> {
    /// The mathematical value.
    #[verifier::opaque]
    pub open spec fn model(&self) -> SerialCircuitView<P::V>
        decreases self,
    {
        SerialCircuitView {
            name: self.name.deep_view(),
            phase: self.phase.deep_view(),
            commands: command_models::<P>(self.commands@),
            qubits: self.qubits.deep_view(),
            bits: self.bits.deep_view(),
            implicit_permutation: self.implicit_permutation.deep_view(),
            number_of_ws: self.number_of_ws.deep_view(),
            created_qubits: self.created_qubits.deep_view(),
            discarded_qubits: self.discarded_qubits.deep_view(),
        }
    }
}

impl<P: Codec> DeepView for SerialCircuit<P> {
    type V = SerialCircuitView<P::V>;

    open spec fn deep_view(&self) -> SerialCircuitView<P::V> {
        self.model()
    }
}

} // verus!
