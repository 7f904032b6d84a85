//! Classical payloads, which carry no tag and are told apart by their fields.

use serde_json::Value;
use tket_json_rs::circuit_json::{
    BitRegister, Classical, ClassicalExp, ClassicalExpUnit, Conditional, Operation, Register, Wasm,
};
use tket_json_rs::codec::{Codec, DecodeError, ErrorKind, PathStep};
use tket_json_rs::json::{Json, Number};
use tket_json_rs::OpType;

fn to_json(v: &Value) -> Json {
    match v {
        Value::Null => Json::Null,
        Value::Bool(b) => Json::Bool(*b),
        Value::Number(n) => {
            if let Some(u) = n.as_u64() {
                Json::Number(Number::PosInt(u))
            } else if let Some(i) = n.as_i64() {
                Json::Number(Number::NegInt(i))
            } else {
                Json::Number(Number::Float(n.as_f64().unwrap().to_bits()))
            }
        }
        Value::String(s) => Json::String(s.clone()),
        Value::Array(items) => Json::Array(items.iter().map(to_json).collect()),
        Value::Object(map) => Json::Object(map.iter().map(|(k, v)| (k.clone(), to_json(v))).collect()),
    }
}

fn to_value(j: &Json) -> Value {
    match j {
        Json::Null => Value::Null,
        Json::Bool(b) => Value::Bool(*b),
        Json::Number(Number::PosInt(u)) => Value::from(*u),
        Json::Number(Number::NegInt(i)) => Value::from(*i),
        Json::Number(Number::Float(bits)) => Value::from(f64::from_bits(*bits)),
        Json::String(s) => Value::String(s.clone()),
        Json::Array(items) => Value::Array(items.iter().map(to_value).collect()),
        Json::Object(entries) => {
            let mut map = serde_json::Map::new();
            for (k, v) in entries {
                map.insert(k.clone(), to_value(v));
            }
            Value::Object(map)
        }
    }
}

fn parse(text: &str) -> Json {
    to_json(&serde_json::from_str::<Value>(text).unwrap())
}

fn same_document(j: &Json, text: &str) {
    assert_eq!(to_value(j), serde_json::from_str::<Value>(text).unwrap());
}

#[test]
fn only_n_i_is_a_copy_of_bits() {
    let text = r#"{"n_i": 3}"#;
    let classical = Classical::decode(&parse(text)).unwrap();
    assert_eq!(classical, Classical::CopyBits { n_i: 3 });
    same_document(&classical.encode(), text);
}

#[test]
fn only_values_is_an_assignment_to_bits() {
    let text = r#"{"values": [true, false]}"#;
    let classical = Classical::decode(&parse(text)).unwrap();
    assert_eq!(classical, Classical::SetBits { values: vec![true, false] });
    same_document(&classical.encode(), text);
}

#[test]
fn n_i_name_and_values_is_an_explicit_operation() {
    let text = r#"{"n_i": 2, "name": "AND", "values": [true, false, false, false]}"#;
    let classical = Classical::decode(&parse(text)).unwrap();
    assert_eq!(
        classical,
        Classical::Explicit { n_i: 2, name: "AND".to_string(), values: vec![true, false, false, false] }
    );
    same_document(&classical.encode(), text);
}

#[test]
fn n_i_lower_and_upper_is_a_range_predicate() {
    let text = r#"{"n_i": 4, "lower": 2, "upper": 18446744073709551615}"#;
    let classical = Classical::decode(&parse(text)).unwrap();
    assert_eq!(classical, Classical::RangePredicate { n_i: 4, lower: 2, upper: u64::MAX });
    same_document(&classical.encode(), text);
}

#[test]
fn n_io_name_and_values_is_a_classical_transform() {
    let text = r#"{"n_io": 2, "name": "ClassicalCX", "values": [0, 1, 3, 2]}"#;
    let classical = Classical::decode(&parse(text)).unwrap();
    assert_eq!(
        classical,
        Classical::ClassicalTransform { n_io: 2, name: "ClassicalCX".to_string(), values: vec![0, 1, 3, 2] }
    );
    same_document(&classical.encode(), text);
}

#[test]
fn op_and_n_is_a_multi_bit_operation() {
    let text = r#"{"op": {"type": "SetBits", "classical": {"values": [true]}}, "n": 3}"#;
    let classical = Classical::decode(&parse(text)).unwrap();
    match &classical {
        Classical::MultiBit { op, n } => {
            assert_eq!(*n, 3);
            assert_eq!(op.op_type, OpType::SetBits);
            assert_eq!(op.classical, Some(Box::new(Classical::SetBits { values: vec![true] })));
        }
        other => panic!("decoded as {:?}", other),
    }
    same_document(&classical.encode(), text);
}

#[test]
fn a_richer_payload_is_not_taken_for_a_poorer_one() {
    let explicit = Classical::decode(&parse(r#"{"values": [true], "name": "x", "n_i": 1}"#)).unwrap();
    assert!(matches!(explicit, Classical::Explicit { .. }));
    let range = Classical::decode(&parse(r#"{"upper": 3, "n_i": 1, "lower": 0, "name": "x", "values": [true]}"#)).unwrap();
    assert!(matches!(range, Classical::RangePredicate { .. }));
}

#[test]
fn a_shape_that_fails_gives_way_to_the_next() {
    let text = r#"{"n_i": 3, "lower": "two", "upper": 5}"#;
    assert_eq!(Classical::decode(&parse(text)).unwrap(), Classical::CopyBits { n_i: 3 });
    let text = r#"{"n_i": 2, "name": "f", "values": [1, 2]}"#;
    assert_eq!(Classical::decode(&parse(text)).unwrap(), Classical::CopyBits { n_i: 2 });
    let text = r#"{"op": {"type": "NoSuchOp"}, "n": 1, "values": [false]}"#;
    assert_eq!(Classical::decode(&parse(text)).unwrap(), Classical::SetBits { values: vec![false] });
}

#[test]
fn no_shape_at_all_is_refused() {
    for text in [r#"{}"#, r#"{"n": 2}"#, r#"{"values": [1, 2]}"#, r#"{"n_i": -1}"#, r#"[1]"#, r#"7"#] {
        let error = Classical::decode(&parse(text)).unwrap_err();
        assert_eq!(error, DecodeError { kind: ErrorKind::UnrecognizedClassicalShape, path: vec![] });
        assert!(error.kind.is_structural_mismatch());
    }
}

#[test]
fn a_refused_payload_names_its_field_in_the_operation() {
    let error = Operation::<String>::decode(&parse(r#"{"type": "CopyBits", "classical": {"bits": 3}}"#)).unwrap_err();
    assert_eq!(
        error,
        DecodeError { kind: ErrorKind::UnrecognizedClassicalShape, path: vec![PathStep::Field("classical")] }
    );
}

#[test]
fn a_condition_wraps_an_operation() {
    let text = r#"{"type": "Conditional", "conditional": {"op": {"type": "X", "n_qb": 1}, "width": 2, "value": 3}}"#;
    let op = Operation::<String>::decode(&parse(text)).unwrap();
    assert_eq!(op.op_type, OpType::Conditional);
    let mut inner: Operation = Operation::from_optype(OpType::X);
    inner.n_qb = Some(1);
    assert_eq!(op.conditional, Some(Conditional { op: Box::new(inner), width: 2, value: 3 }));
    same_document(&op.encode(), text);
}

#[test]
fn an_older_name_of_conditional_is_accepted() {
    let op = Operation::<String>::decode(&parse(r#"{"type": "Condition"}"#)).unwrap();
    assert_eq!(op.op_type, OpType::Conditional);
    same_document(&op.encode(), r#"{"type": "Conditional"}"#);
}

#[test]
fn a_condition_without_its_value_is_refused() {
    let text = r#"{"type": "Conditional", "conditional": {"op": {"type": "X"}, "width": 2}}"#;
    let error = Operation::<String>::decode(&parse(text)).unwrap_err();
    assert_eq!(
        error,
        DecodeError { kind: ErrorKind::MissingField, path: vec![PathStep::Field("conditional"), PathStep::Field("value")] }
    );
}

#[test]
fn a_wasm_call_round_trips() {
    let text = r#"{"type": "WASM", "wasm": {"n": 2, "ww_n": 1, "width_i_parameter": [1, 1], "width_o_parameter": [],
        "func_name": "add", "wasm_file_uid": "abc"}}"#;
    let op = Operation::<String>::decode(&parse(text)).unwrap();
    let wasm: &Wasm = op.wasm.as_ref().unwrap();
    assert_eq!(wasm.n, 2);
    assert_eq!(wasm.ww_n, 1);
    assert_eq!(wasm.width_i_parameter, vec![1, 1]);
    assert_eq!(wasm.width_o_parameter, Vec::<u64>::new());
    assert_eq!(wasm.func_name, "add");
    assert_eq!(wasm.wasm_file_uid, "abc");
    same_document(&op.encode(), text);
}

#[test]
fn the_units_of_an_older_expression_are_told_apart_by_shape() {
    let text = r#"{"op": "AND", "args": [3, ["c", [0]], {"name": "r", "size": 4}, {"op": "NOT", "args": [["c", [1]]]}]}"#;
    let exp = ClassicalExp::decode(&parse(text)).unwrap();
    assert_eq!(exp.op, "AND");
    assert_eq!(exp.args.len(), 4);
    assert_eq!(exp.args[0], ClassicalExpUnit::U32(3));
    assert_eq!(exp.args[1], ClassicalExpUnit::Register(Register("c".to_string(), vec![0])));
    assert_eq!(exp.args[2], ClassicalExpUnit::BitRegister(BitRegister { name: "r".to_string(), size: 4 }));
    match &exp.args[3] {
        ClassicalExpUnit::ClassicalExpUnit(inner) => {
            assert_eq!(inner.op, "NOT");
            assert_eq!(inner.args, vec![ClassicalExpUnit::Register(Register("c".to_string(), vec![1]))]);
        }
        other => panic!("decoded as {:?}", other),
    }
    same_document(&exp.encode(), text);
}

#[test]
fn a_unit_of_no_shape_is_refused() {
    let text = r#"{"op": "AND", "args": [3, "c"]}"#;
    let error = ClassicalExp::decode(&parse(text)).unwrap_err();
    assert_eq!(
        error,
        DecodeError {
            kind: ErrorKind::UnrecognizedClassicalShape,
            path: vec![PathStep::Field("args"), PathStep::Index(1)],
        }
    );
}

#[test]
fn a_copy_of_a_classical_payload_equals_the_payload() {
    for text in [
        r#"{"op": {"type": "SetBits", "classical": {"values": [true]}}, "n": 3}"#,
        r#"{"n_i": 2, "name": "AND", "values": [true, false, false, false]}"#,
        r#"{"n_i": 4, "lower": 2, "upper": 9}"#,
    ] {
        let classical = Classical::decode(&parse(text)).unwrap();
        assert_eq!(classical.clone(), classical);
    }
    let text = r#"{"type": "Conditional", "conditional": {"op": {"type": "X", "n_qb": 1}, "width": 2, "value": 3}}"#;
    let op = Operation::<String>::decode(&parse(text)).unwrap();
    assert_eq!(op.clone(), op);
    assert_eq!(op.conditional.clone(), op.conditional);
    let exp = ClassicalExp::decode(&parse(r#"{"op": "AND", "args": [3, ["c", [0]], {"name": "r", "size": 4}]}"#)).unwrap();
    assert_eq!(exp.clone(), exp);
    assert_eq!(exp.args[2].clone(), exp.args[2]);
}
