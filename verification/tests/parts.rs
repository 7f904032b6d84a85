//! The small shapes and helpers on which the rest stands.

use tket_json_rs::circuit_json::{
    BitRegister, Bitstring, Command, ImplicitPermutation, Matrix, Operation, Permutation, Register,
};
use tket_json_rs::codec::{defaulted, optional, required, Codec, DecodeError, ErrorKind, PathStep};
use tket_json_rs::json::{str_eq, Fields, Json, Number};
use tket_json_rs::register::{Bit, ElementId, Qubit};
use tket_json_rs::{OpType, SerialCircuit};

fn pos(u: u64) -> Json {
    Json::Number(Number::PosInt(u))
}

fn neg(i: i64) -> Json {
    Json::Number(Number::NegInt(i))
}

fn text(s: &str) -> Json {
    Json::String(s.to_string())
}

fn mismatch() -> DecodeError {
    DecodeError { kind: ErrorKind::TypeMismatch, path: vec![] }
}

#[test]
fn integers_are_held_to_their_ranges() {
    assert_eq!(u32::decode(&pos(0)), Ok(0));
    assert_eq!(u32::decode(&pos(4294967295)), Ok(u32::MAX));
    assert_eq!(u32::decode(&pos(4294967296)), Err(mismatch()));
    assert_eq!(u32::decode(&neg(-1)), Err(mismatch()));
    assert_eq!(u32::decode(&neg(5)), Ok(5));
    assert_eq!(u64::decode(&pos(u64::MAX)), Ok(u64::MAX));
    assert_eq!(u64::decode(&neg(-1)), Err(mismatch()));
    assert_eq!(i64::decode(&neg(i64::MIN)), Ok(i64::MIN));
    assert_eq!(i64::decode(&pos(9223372036854775807)), Ok(i64::MAX));
    assert_eq!(i64::decode(&pos(9223372036854775808)), Err(mismatch()));
    assert_eq!(u32::decode(&Json::Number(Number::Float(1.0f64.to_bits()))), Err(mismatch()));
    assert_eq!(u32::decode(&text("1")), Err(mismatch()));
    assert_eq!(u32::decode(&Json::Null), Err(mismatch()));
}

#[test]
fn integers_are_written_with_a_sign_only_below_zero() {
    assert_eq!(7u32.encode(), pos(7));
    assert_eq!(u64::MAX.encode(), pos(u64::MAX));
    assert_eq!(7i64.encode(), pos(7));
    assert_eq!(0i64.encode(), pos(0));
    assert_eq!((-7i64).encode(), neg(-7));
}

#[test]
fn numbers_booleans_and_strings() {
    let half = Number::Float(0.5f64.to_bits());
    assert_eq!(Number::decode(&Json::Number(half)), Ok(half));
    assert_eq!(Number::decode(&pos(3)), Ok(Number::PosInt(3)));
    assert_eq!(Number::decode(&text("0.5")), Err(mismatch()));
    assert_eq!(half.encode(), Json::Number(half));
    assert_eq!(bool::decode(&Json::Bool(true)), Ok(true));
    assert_eq!(bool::decode(&pos(1)), Err(mismatch()));
    assert_eq!(false.encode(), Json::Bool(false));
    assert_eq!(String::decode(&text("a")), Ok("a".to_string()));
    assert_eq!(String::decode(&Json::Null), Err(mismatch()));
    assert_eq!("a".to_string().encode(), text("a"));
    assert_eq!(Box::<u32>::decode(&pos(3)), Ok(Box::new(3)));
    assert_eq!(Box::new(3u32).encode(), pos(3));
}

#[test]
fn lists_name_the_position_of_the_first_refusal() {
    assert_eq!(Vec::<u32>::decode(&Json::Array(vec![])), Ok(vec![]));
    assert_eq!(Vec::<u32>::decode(&Json::Array(vec![pos(1), pos(2)])), Ok(vec![1, 2]));
    assert_eq!(
        Vec::<u32>::decode(&Json::Array(vec![pos(1), text("x"), neg(-1)])),
        Err(DecodeError { kind: ErrorKind::TypeMismatch, path: vec![PathStep::Index(1)] })
    );
    assert_eq!(Vec::<u32>::decode(&pos(1)), Err(mismatch()));
    assert_eq!(vec![1u32, 2].encode(), Json::Array(vec![pos(1), pos(2)]));
    let nested = Json::Array(vec![Json::Array(vec![pos(1)]), Json::Array(vec![pos(2), Json::Bool(true)])]);
    assert_eq!(
        Vec::<Vec<u32>>::decode(&nested),
        Err(DecodeError { kind: ErrorKind::TypeMismatch, path: vec![PathStep::Index(1), PathStep::Index(1)] })
    );
}

#[test]
fn pairs_are_arrays_of_exactly_two() {
    assert_eq!(<(u32, String)>::decode(&Json::Array(vec![pos(1), text("a")])), Ok((1, "a".to_string())));
    assert_eq!((1u32, "a".to_string()).encode(), Json::Array(vec![pos(1), text("a")]));
    let wrong = DecodeError { kind: ErrorKind::InvalidFixedSize, path: vec![] };
    assert_eq!(<(u32, String)>::decode(&Json::Array(vec![pos(1)])), Err(wrong));
    assert_eq!(
        <(u32, String)>::decode(&Json::Array(vec![text("a"), pos(1)])),
        Err(DecodeError { kind: ErrorKind::TypeMismatch, path: vec![PathStep::Index(0)] })
    );
    assert_eq!(
        <(u32, String)>::decode(&Json::Array(vec![pos(1), pos(1)])),
        Err(DecodeError { kind: ErrorKind::TypeMismatch, path: vec![PathStep::Index(1)] })
    );
    assert_eq!(<(u32, String)>::decode(&Json::Object(vec![])), Err(mismatch()));
}

#[test]
fn an_object_gives_a_key_the_value_of_its_last_entry() {
    let object = Json::Object(vec![
        ("a".to_string(), pos(1)),
        ("b".to_string(), pos(2)),
        ("a".to_string(), pos(3)),
    ]);
    assert_eq!(object.get("a"), Some(&pos(3)));
    assert_eq!(object.get("b"), Some(&pos(2)));
    assert_eq!(object.get("c"), None);
    assert_eq!(object.get(""), None);
    assert_eq!(pos(1).get("a"), None);
    assert!(object.is_object());
    assert!(!Json::Array(vec![]).is_object());
    assert_eq!(required::<u32>(&object, "a"), Ok(3));
}

#[test]
fn fields_of_an_object() {
    let object = Json::Object(vec![("a".to_string(), pos(1)), ("n".to_string(), Json::Null)]);
    assert_eq!(required::<u32>(&object, "a"), Ok(1));
    assert_eq!(
        required::<u32>(&object, "b"),
        Err(DecodeError { kind: ErrorKind::MissingField, path: vec![PathStep::Field("b")] })
    );
    assert_eq!(
        required::<String>(&object, "a"),
        Err(DecodeError { kind: ErrorKind::TypeMismatch, path: vec![PathStep::Field("a")] })
    );
    assert_eq!(required::<u32>(&pos(1), "a"), Err(mismatch()));
    assert_eq!(optional::<u32>(&object, "a"), Ok(Some(1)));
    assert_eq!(optional::<u32>(&object, "b"), Ok(None));
    assert_eq!(optional::<u32>(&object, "n"), Ok(None));
    assert_eq!(optional::<u32>(&pos(1), "a"), Err(mismatch()));
    assert_eq!(defaulted::<u32>(&object, "a", 9), Ok(1));
    assert_eq!(defaulted::<u32>(&object, "b", 9), Ok(9));
    assert_eq!(
        defaulted::<u32>(&object, "n", 9),
        Err(DecodeError { kind: ErrorKind::TypeMismatch, path: vec![PathStep::Field("n")] })
    );
}

#[test]
fn fields_are_written_in_the_order_in_which_they_are_put() {
    let mut fields = Fields::new();
    fields.put("b", pos(2));
    fields.put_opt("c", None);
    fields.put_opt("a", Some(pos(1)));
    assert_eq!(fields.finish(), Json::Object(vec![("b".to_string(), pos(2)), ("a".to_string(), pos(1))]));
    assert_eq!(Fields::new().finish(), Json::Object(vec![]));
}

#[test]
fn strings_are_compared_by_their_characters() {
    assert!(str_eq("", ""));
    assert!(str_eq("type", "type"));
    assert!(!str_eq("type", "typo"));
    assert!(!str_eq("type", "typ"));
    assert!(!str_eq("a", "A"));
    assert!(str_eq("\u{e9}\u{4e2d}", "\u{e9}\u{4e2d}"));
    assert!(!str_eq("\u{e9}", "e"));
}

#[test]
fn a_document_is_copied_with_all_its_parts() {
    let document = Json::Object(vec![
        ("a".to_string(), Json::Array(vec![pos(1), Json::Null, Json::Bool(true), text("x")])),
        ("b".to_string(), Json::Object(vec![("c".to_string(), neg(-2))])),
    ]);
    assert_eq!(document.duplicate(), document);
    assert_eq!(document.clone(), document);
}

#[test]
fn refusals_grow_their_path_from_the_front() {
    let error = DecodeError::here(ErrorKind::InvalidFixedSize);
    assert_eq!(error, DecodeError { kind: ErrorKind::InvalidFixedSize, path: vec![] });
    let error = error.under(PathStep::Index(2)).under(PathStep::Field("args"));
    assert_eq!(error.path, vec![PathStep::Field("args"), PathStep::Index(2)]);
    assert_eq!(DecodeError::missing("x").path, vec![PathStep::Field("x")]);
    assert_eq!(DecodeError::missing("x").kind, ErrorKind::MissingField);
    assert_eq!(DecodeError::mismatch(), mismatch());
    assert_eq!(
        DecodeError::unknown_tag(),
        DecodeError { kind: ErrorKind::UnknownVariant, path: vec![PathStep::Field("type")] }
    );
    assert!(ErrorKind::UnknownVariant.is_structural_mismatch());
    assert!(ErrorKind::UnrecognizedClassicalShape.is_structural_mismatch());
    assert!(!ErrorKind::MissingField.is_structural_mismatch());
    assert!(!ErrorKind::TypeMismatch.is_structural_mismatch());
    assert!(!ErrorKind::InvalidFixedSize.is_structural_mismatch());
}

#[test]
fn operation_types_go_by_their_names() {
    assert_eq!(OpType::parse("CX"), Some(OpType::CX));
    assert_eq!(OpType::parse("noop"), Some(OpType::noop));
    assert_eq!(OpType::parse("cx"), None);
    assert_eq!(OpType::parse("tk1"), None);
    assert_eq!(OpType::parse_wire("tk1"), Some(OpType::TK1));
    assert_eq!(OpType::parse_wire("tk2"), Some(OpType::TK2));
    assert_eq!(OpType::parse_wire("Condition"), Some(OpType::Conditional));
    assert_eq!(OpType::parse_wire("Composite"), Some(OpType::CustomGate));
    assert_eq!(OpType::parse_wire("ClExpr"), Some(OpType::ClExpr));
    assert_eq!(OpType::parse_wire("Input"), Some(OpType::Input));
    assert_eq!(OpType::parse_wire(""), None);
    assert_eq!(OpType::TK1.as_str(), "TK1");
    assert_eq!(OpType::MultiplexedTensoredU2Box.as_str(), "MultiplexedTensoredU2Box");
    assert_eq!(OpType::decode(&text("tk2")), Ok(OpType::TK2));
    assert_eq!(OpType::TK2.encode(), text("TK2"));
    assert_eq!(
        OpType::decode(&text("Tk2")),
        Err(DecodeError { kind: ErrorKind::UnknownVariant, path: vec![] })
    );
    assert_eq!(OpType::decode(&pos(1)), Err(mismatch()));
    assert_eq!("PhasedISWAP".parse::<OpType>(), Ok(OpType::PhasedISWAP));
    assert!("tk1".parse::<OpType>().is_err());
    assert_eq!(OpType::default(), OpType::noop);
}

#[test]
fn registers_and_bit_strings() {
    let register = BitRegister { name: "c".to_string(), size: 4 };
    assert_eq!(register.encode(), Json::Object(vec![("name".to_string(), text("c")), ("size".to_string(), pos(4))]));
    assert_eq!(BitRegister::decode(&register.encode()), Ok(register));
    assert_eq!(
        BitRegister::decode(&Json::Object(vec![("size".to_string(), pos(4))])),
        Err(DecodeError { kind: ErrorKind::MissingField, path: vec![PathStep::Field("name")] })
    );
    let bits = Bitstring { vec: vec![true, false] };
    assert_eq!(bits.encode(), Json::Array(vec![Json::Bool(true), Json::Bool(false)]));
    assert_eq!(Bitstring::decode(&bits.encode()), Ok(bits));
    let permutation = Permutation(vec![(vec![true], vec![false])]);
    assert_eq!(Permutation::decode(&permutation.encode()), Ok(permutation));
    let implicit = ImplicitPermutation(Register("q".to_string(), vec![0]), Register("q".to_string(), vec![1]));
    assert_eq!(
        implicit.encode(),
        Json::Array(vec![
            Json::Array(vec![text("q"), Json::Array(vec![pos(0)])]),
            Json::Array(vec![text("q"), Json::Array(vec![pos(1)])]),
        ])
    );
    assert_eq!(ImplicitPermutation::decode(&implicit.encode()), Ok(implicit));
    let matrix: Matrix<bool> = Matrix { data: vec![vec![(true, false)], vec![]] };
    assert_eq!(Matrix::<bool>::decode(&matrix.encode()), Ok(matrix));
}

#[test]
fn matrices_know_whether_they_are_square() {
    let zero = Number::PosInt(0);
    let square: Matrix = Matrix { data: vec![vec![(zero, zero), (zero, zero)], vec![(zero, zero), (zero, zero)]] };
    assert!(square.is_square(2));
    assert!(!square.is_square(3));
    assert!(!square.is_square(1));
    let ragged: Matrix = Matrix { data: vec![vec![(zero, zero), (zero, zero)], vec![(zero, zero)]] };
    assert!(!ragged.is_square(2));
    let empty: Matrix = Matrix { data: vec![] };
    assert!(empty.is_square(0));
    assert!(!empty.is_square(1));
}

#[test]
fn names_of_places() {
    let id = ElementId("q".to_string(), vec![1, 2]);
    let qubit = Qubit::from(id.clone());
    assert_eq!(qubit.id, id);
    assert_eq!(ElementId::from(qubit.clone()), id);
    let bit = Bit::from(id.clone());
    assert_eq!(ElementId::from(bit.clone()), id);
    let encoded = Json::Array(vec![text("q"), Json::Array(vec![pos(1), pos(2)])]);
    assert_eq!(id.encode(), encoded);
    assert_eq!(qubit.encode(), encoded);
    assert_eq!(bit.encode(), encoded);
    assert_eq!(ElementId::decode(&encoded), Ok(id));
    assert_eq!(Qubit::decode(&encoded), Ok(qubit));
    assert_eq!(Bit::decode(&encoded), Ok(bit));
    let register = tket_json_rs::register::BitRegister { name: "c".to_string(), size: 2 };
    assert_eq!(tket_json_rs::register::BitRegister::decode(&register.encode()), Ok(register));
    let bits = tket_json_rs::register::Bitstring { vec: vec![false] };
    assert_eq!(tket_json_rs::register::Bitstring::decode(&bits.encode()), Ok(bits));
}

#[test]
fn the_defaults_of_operations_and_circuits() {
    let op: Operation = Operation::default();
    assert_eq!(op.op_type, OpType::noop);
    assert!(op.n_qb.is_none() && op.data.is_none() && op.params.is_none() && op.op_box.is_none());
    assert!(op.classical_expr.is_none() && op.signature.is_none() && op.conditional.is_none());
    assert!(op.classical.is_none() && op.wasm.is_none());
    let op: Operation = Operation::from_optype(OpType::CX);
    assert_eq!(op.op_type, OpType::CX);
    assert!(op.params.is_none() && op.op_box.is_none());
    let circuit: SerialCircuit = SerialCircuit::default();
    assert_eq!(circuit.name, None);
    assert_eq!(circuit.phase, "");
    assert!(circuit.commands.is_empty() && circuit.qubits.is_empty() && circuit.bits.is_empty());
    assert!(circuit.implicit_permutation.is_empty());
    assert!(circuit.number_of_ws.is_none() && circuit.created_qubits.is_none());
    assert!(circuit.discarded_qubits.is_none());
    let circuit = SerialCircuit::new(Some("n".to_string()), 5u32);
    assert_eq!(circuit.name, Some("n".to_string()));
    assert_eq!(circuit.phase, 5);
    assert!(circuit.commands.is_empty());
}

#[test]
fn parameters_are_mapped_in_order_and_nothing_else_changes() {
    let mut op: Operation = Operation::from_optype(OpType::U3);
    op.params = Some(vec!["1".to_string(), "22".to_string(), "333".to_string()]);
    op.n_qb = Some(1);
    op.data = Some("d".to_string());
    let mapped: Operation<usize> = op.map_params(|p: String| p.len());
    assert_eq!(mapped.params, Some(vec![1, 2, 3]));
    assert_eq!(mapped.op_type, OpType::U3);
    assert_eq!(mapped.n_qb, Some(1));
    assert_eq!(mapped.data, Some("d".to_string()));
    let bare: Operation = Operation::from_optype(OpType::H);
    let mapped: Operation<usize> = bare.map_params(|p: String| p.len());
    assert_eq!(mapped.params, None);

    let mut op: Operation = Operation::from_optype(OpType::Rz);
    op.params = Some(vec!["0.5".to_string()]);
    let command = Command { op, args: vec![Register("q".to_string(), vec![0])], opgroup: Some("g".to_string()) };
    let mapped: Command<String> = command.map_params(|p: String| format!("2*{}", p));
    assert_eq!(mapped.op.params, Some(vec!["2*0.5".to_string()]));
    assert_eq!(mapped.args, vec![Register("q".to_string(), vec![0])]);
    assert_eq!(mapped.opgroup, Some("g".to_string()));

    let mut circuit = SerialCircuit::new(Some("c".to_string()), "0.25".to_string());
    circuit.qubits.push(Register("q".to_string(), vec![0]));
    circuit.number_of_ws = Some(1);
    for text in ["a", "bb"] {
        let mut op: Operation = Operation::from_optype(OpType::Rz);
        op.params = Some(vec![text.to_string()]);
        circuit.commands.push(Command { op, args: vec![], opgroup: None });
    }
    let mapped: SerialCircuit<usize> = circuit.map_params(|p: String| p.len());
    assert_eq!(mapped.phase, 4);
    assert_eq!(mapped.name, Some("c".to_string()));
    assert_eq!(mapped.qubits, vec![Register("q".to_string(), vec![0])]);
    assert_eq!(mapped.number_of_ws, Some(1));
    assert_eq!(mapped.commands.len(), 2);
    assert_eq!(mapped.commands[0].op.params, Some(vec![1]));
    assert_eq!(mapped.commands[1].op.params, Some(vec![2]));
}

#[test]
fn places_are_written_with_their_index_in_brackets() {
    assert_eq!(ElementId("q".to_string(), vec![0]).text(), "q[0]");
    assert_eq!(ElementId("q".to_string(), vec![]).text(), "q[]");
    assert_eq!(ElementId("reg".to_string(), vec![1, 20, -3]).text(), "reg[1, 20, -3]");
    assert_eq!(
        ElementId("".to_string(), vec![i64::MIN, i64::MAX, 10, 9]).text(),
        "[-9223372036854775808, 9223372036854775807, 10, 9]"
    );
    assert_eq!(Qubit::from(ElementId("q".to_string(), vec![7, 0])).text(), "q[7, 0]");
    assert_eq!(Bit::from(ElementId("c".to_string(), vec![105])).text(), "c[105]");
}
