//! Whole documents: decoding, encoding, and decoding again.

use serde_json::Value;
use tket_json_rs::circuit_json::{Command, Operation, Register};
use tket_json_rs::codec::{Codec, DecodeError, ErrorKind, PathStep};
use tket_json_rs::json::{Json, Number};
use tket_json_rs::opbox::OpBox;
use tket_json_rs::{OpType, SerialCircuit};

const SIMPLE: &str = r#"{"bits":[["c",[0]],["c",[1]]],"commands":[{"args":[["q",[0]]],"op":{"type":"H"}},{"args":[["q",[0]],["q",[1]]],"op":{"type":"CX"}},{"args":[["q",[0]],["c",[0]]],"op":{"type":"Measure"}},{"args":[["q",[1]],["c",[1]]],"op":{"type":"Measure"}}],"implicit_permutation":[[["q",[0]],["q",[0]]],[["q",[1]],["q",[1]]]],"phase":"0.0","qubits":[["q",[0]],["q",[1]]]}"#;

const NESTED: &str = r#"{
  "name": "outer", "phase": "0", "qubits": [["q",[0]]], "bits": [], "implicit_permutation": [],
  "commands": [{"args": [["q",[0]]], "op": {"type": "CircBox", "box": {
    "type": "CircBox", "id": "00000000-0000-0000-0000-000000000001",
    "circuit": {"phase": "0", "qubits": [["q",[0]]], "bits": [], "implicit_permutation": [],
      "commands": [{"args": [["q",[0]]], "op": {"type": "CircBox", "box": {
        "type": "CircBox", "id": "00000000-0000-0000-0000-000000000002",
        "circuit": {"phase": "0", "qubits": [["q",[0]]], "bits": [], "implicit_permutation": [],
          "commands": [{"args": [["q",[0]]], "op": {"type": "CircBox", "box": {
            "type": "CircBox", "id": "00000000-0000-0000-0000-000000000003",
            "circuit": {"phase": "0.25", "qubits": [["q",[0]]], "bits": [], "implicit_permutation": [],
              "commands": [{"args": [["q",[0]]], "op": {"type": "X"}}]}}}}]}}}}]}}}}]
}"#;

fn to_json(v: &Value) -> Json {
    match v {
        Value::Null => Json::Null,
        Value::Bool(b) => Json::Bool(*b),
        Value::Number(n) => {
            if let Some(u) = n.as_u64() {
                Json::Number(Number::PosInt(u))
            } else if let Some(i) = n.as_i64() {
                Json::Number(Number::NegInt(i))
            } else {
                Json::Number(Number::Float(n.as_f64().unwrap().to_bits()))
            }
        }
        Value::String(s) => Json::String(s.clone()),
        Value::Array(items) => Json::Array(items.iter().map(to_json).collect()),
        Value::Object(map) => Json::Object(map.iter().map(|(k, v)| (k.clone(), to_json(v))).collect()),
    }
}

fn to_value(j: &Json) -> Value {
    match j {
        Json::Null => Value::Null,
        Json::Bool(b) => Value::Bool(*b),
        Json::Number(Number::PosInt(u)) => Value::from(*u),
        Json::Number(Number::NegInt(i)) => Value::from(*i),
        Json::Number(Number::Float(bits)) => Value::from(f64::from_bits(*bits)),
        Json::String(s) => Value::String(s.clone()),
        Json::Array(items) => Value::Array(items.iter().map(to_value).collect()),
        Json::Object(entries) => {
            let mut map = serde_json::Map::new();
            for (k, v) in entries {
                map.insert(k.clone(), to_value(v));
            }
            Value::Object(map)
        }
    }
}

fn parse(text: &str) -> Json {
    to_json(&serde_json::from_str::<Value>(text).unwrap())
}

fn reg(name: &str, index: i64) -> Register {
    Register(name.to_string(), vec![index])
}

#[test]
fn simple_circuit_decodes_to_four_commands() {
    let circuit = SerialCircuit::<String>::decode(&parse(SIMPLE)).unwrap();
    assert_eq!(circuit.commands.len(), 4);
    assert_eq!(circuit.name, None);
    assert_eq!(circuit.phase, "0.0");
    assert_eq!(circuit.qubits, vec![reg("q", 0), reg("q", 1)]);
    assert_eq!(circuit.bits, vec![reg("c", 0), reg("c", 1)]);
    assert_eq!(circuit.implicit_permutation.len(), 2);
    assert_eq!(circuit.implicit_permutation[1].0, reg("q", 1));
    assert_eq!(circuit.implicit_permutation[1].1, reg("q", 1));
    assert_eq!(circuit.number_of_ws, None);
    assert_eq!(circuit.created_qubits, None);
    assert_eq!(circuit.discarded_qubits, None);
    let types: Vec<OpType> = circuit.commands.iter().map(|c| c.op.op_type).collect();
    assert_eq!(types, vec![OpType::H, OpType::CX, OpType::Measure, OpType::Measure]);
    assert_eq!(circuit.commands[1].args, vec![reg("q", 0), reg("q", 1)]);
    assert_eq!(circuit.commands[2].args, vec![reg("q", 0), reg("c", 0)]);
    assert_eq!(circuit.commands[0].opgroup, None);
    assert_eq!(circuit.commands[0].op.n_qb, None);
    assert!(circuit.commands[0].op.op_box.is_none());
}

#[test]
fn simple_circuit_encodes_to_the_same_document() {
    let initial: Value = serde_json::from_str(SIMPLE).unwrap();
    let circuit = SerialCircuit::<String>::decode(&to_json(&initial)).unwrap();
    let encoded = circuit.encode();
    assert_eq!(to_value(&encoded), initial);
}

#[test]
fn simple_circuit_is_a_fixed_point() {
    let first = SerialCircuit::<String>::decode(&parse(SIMPLE)).unwrap();
    let second = SerialCircuit::<String>::decode(&first.encode()).unwrap();
    assert_eq!(first, second);
    assert_eq!(first.encode(), second.encode());
}

#[test]
fn absent_fields_are_left_out_not_written_as_null() {
    let circuit = SerialCircuit::<String>::decode(&parse(SIMPLE)).unwrap();
    let encoded = circuit.encode();
    assert!(encoded.get("name").is_none());
    assert!(encoded.get("number_of_ws").is_none());
    assert!(encoded.get("created_qubits").is_none());
    assert!(encoded.get("discarded_qubits").is_none());
    let op = encoded.get("commands").unwrap();
    match op {
        Json::Array(items) => {
            let first = items[0].get("op").unwrap();
            assert_eq!(first, &Json::Object(vec![("type".to_string(), Json::String("H".to_string()))]));
            assert!(items[0].get("opgroup").is_none());
        }
        _ => panic!("commands are an array"),
    }
}

#[test]
fn empty_and_absent_lists_of_created_qubits_stay_apart() {
    let mut value: Value = serde_json::from_str(SIMPLE).unwrap();
    value.as_object_mut().unwrap().insert("created_qubits".to_string(), Value::Array(vec![]));
    let with_empty = SerialCircuit::<String>::decode(&to_json(&value)).unwrap();
    assert_eq!(with_empty.created_qubits, Some(vec![]));
    assert_eq!(with_empty.discarded_qubits, None);
    assert_eq!(to_value(&with_empty.encode()), value);
}

#[test]
fn null_stands_for_an_absent_optional_field() {
    let mut value: Value = serde_json::from_str(SIMPLE).unwrap();
    value.as_object_mut().unwrap().insert("name".to_string(), Value::Null);
    value.as_object_mut().unwrap().insert("number_of_ws".to_string(), Value::Null);
    let circuit = SerialCircuit::<String>::decode(&to_json(&value)).unwrap();
    assert_eq!(circuit.name, None);
    assert_eq!(circuit.number_of_ws, None);
    assert!(circuit.encode().get("name").is_none());
}

#[test]
fn optional_fields_of_a_circuit_are_kept() {
    let text = r#"{"name":"bell","phase":"0.5","commands":[{"op":{"type":"Rz","params":["0.25"],"n_qb":1,"data":"d","signature":["Q"]},"args":[["q",[0]]],"opgroup":"g"}],
        "qubits":[["q",[0]]],"bits":[],"implicit_permutation":[[["q",[0]],["q",[0]]]],"number_of_ws":3,
        "created_qubits":[["q",[0]]],"discarded_qubits":[]}"#;
    let initial: Value = serde_json::from_str(text).unwrap();
    let circuit = SerialCircuit::<String>::decode(&to_json(&initial)).unwrap();
    assert_eq!(circuit.name, Some("bell".to_string()));
    assert_eq!(circuit.number_of_ws, Some(3));
    assert_eq!(circuit.created_qubits, Some(vec![reg("q", 0)]));
    assert_eq!(circuit.discarded_qubits, Some(vec![]));
    let command = &circuit.commands[0];
    assert_eq!(command.opgroup, Some("g".to_string()));
    assert_eq!(command.op.op_type, OpType::Rz);
    assert_eq!(command.op.params, Some(vec!["0.25".to_string()]));
    assert_eq!(command.op.n_qb, Some(1));
    assert_eq!(command.op.data, Some("d".to_string()));
    assert_eq!(command.op.signature, Some(vec!["Q".to_string()]));
    assert_eq!(to_value(&circuit.encode()), initial);
}

#[test]
fn three_nested_circuit_boxes_round_trip() {
    let initial: Value = serde_json::from_str(NESTED).unwrap();
    let circuit = SerialCircuit::<String>::decode(&to_json(&initial)).unwrap();
    let mut depth = 0;
    let mut current = &circuit;
    loop {
        assert_eq!(current.commands.len(), 1);
        match &current.commands[0].op.op_box {
            Some(OpBox::CircBox { circuit: inner, .. }) => {
                depth += 1;
                current = inner;
            }
            Some(_) => panic!("a circuit box was written"),
            None => break,
        }
    }
    assert_eq!(depth, 3);
    assert_eq!(current.phase, "0.25");
    assert_eq!(current.commands[0].op.op_type, OpType::X);
    let encoded = circuit.encode();
    assert_eq!(to_value(&encoded), initial);
    let again = SerialCircuit::<String>::decode(&encoded).unwrap();
    assert_eq!(again, circuit);
}

#[test]
fn unknown_fields_are_passed_over() {
    let mut value: Value = serde_json::from_str(SIMPLE).unwrap();
    value.as_object_mut().unwrap().insert("future".to_string(), Value::from(1));
    let circuit = SerialCircuit::<String>::decode(&to_json(&value)).unwrap();
    assert_eq!(circuit.commands.len(), 4);
    assert!(circuit.encode().get("future").is_none());
}

#[test]
fn a_failure_deep_in_a_document_names_its_place() {
    let mut value: Value = serde_json::from_str(SIMPLE).unwrap();
    value["commands"][2]["op"]["type"] = Value::String("NoSuchOp".to_string());
    let error = SerialCircuit::<String>::decode(&to_json(&value)).unwrap_err();
    assert_eq!(
        error,
        DecodeError {
            kind: ErrorKind::UnknownVariant,
            path: vec![
                PathStep::Field("commands"),
                PathStep::Index(2),
                PathStep::Field("op"),
                PathStep::Field("type"),
            ],
        }
    );
    assert!(error.kind.is_structural_mismatch());
}

#[test]
fn a_circuit_without_its_phase_is_refused() {
    let mut value: Value = serde_json::from_str(SIMPLE).unwrap();
    value.as_object_mut().unwrap().remove("phase");
    let error = SerialCircuit::<String>::decode(&to_json(&value)).unwrap_err();
    assert_eq!(error, DecodeError { kind: ErrorKind::MissingField, path: vec![PathStep::Field("phase")] });
    assert!(!error.kind.is_structural_mismatch());
}

#[test]
fn a_circuit_that_is_no_object_is_refused() {
    let error = SerialCircuit::<String>::decode(&parse("[1, 2]")).unwrap_err();
    assert_eq!(error, DecodeError { kind: ErrorKind::TypeMismatch, path: vec![] });
}

#[test]
fn a_register_with_three_parts_is_refused() {
    let mut value: Value = serde_json::from_str(SIMPLE).unwrap();
    value["qubits"][1] = serde_json::from_str(r#"["q", [1], 2]"#).unwrap();
    let error = SerialCircuit::<String>::decode(&to_json(&value)).unwrap_err();
    assert_eq!(
        error,
        DecodeError { kind: ErrorKind::InvalidFixedSize, path: vec![PathStep::Field("qubits"), PathStep::Index(1)] }
    );
}

#[test]
fn a_register_with_a_fractional_index_is_refused() {
    let error = Register::decode(&parse(r#"["q", [0.5]]"#)).unwrap_err();
    assert_eq!(
        error,
        DecodeError { kind: ErrorKind::TypeMismatch, path: vec![PathStep::Index(1), PathStep::Index(0)] }
    );
}

#[test]
fn a_register_is_a_pair_of_name_and_index() {
    let register = Register::decode(&parse(r#"["q", [3, -1]]"#)).unwrap();
    assert_eq!(register, Register("q".to_string(), vec![3, -1]));
    assert_eq!(to_value(&register.encode()), serde_json::from_str::<Value>(r#"["q", [3, -1]]"#).unwrap());
}

#[test]
fn a_circuit_made_by_hand_encodes_and_decodes() {
    let mut circuit = SerialCircuit::new(Some("made".to_string()), "0.5".to_string());
    circuit.qubits.push(reg("q", 0));
    let mut op: Operation = Operation::from_optype(OpType::Rx);
    op.params = Some(vec!["0.25".to_string()]);
    circuit.commands.push(Command { op, args: vec![reg("q", 0)], opgroup: None });
    let encoded = circuit.encode();
    let expected: Value = serde_json::from_str(
        r#"{"name":"made","phase":"0.5","commands":[{"op":{"type":"Rx","params":["0.25"]},"args":[["q",[0]]]}],
            "qubits":[["q",[0]]],"bits":[],"implicit_permutation":[]}"#,
    )
    .unwrap();
    assert_eq!(to_value(&encoded), expected);
    assert_eq!(SerialCircuit::<String>::decode(&encoded).unwrap(), circuit);
}

#[test]
fn a_copy_of_a_circuit_equals_the_circuit() {
    let circuit = SerialCircuit::<String>::decode(&parse(NESTED)).unwrap();
    let copy = circuit.clone();
    assert_eq!(copy, circuit);
    assert_eq!(copy.encode(), circuit.encode());
    let simple = SerialCircuit::<String>::decode(&parse(SIMPLE)).unwrap();
    assert_eq!(simple.clone(), simple);
    assert_eq!(simple.commands[1].clone(), simple.commands[1]);
    assert_eq!(simple.commands[1].op.clone(), simple.commands[1].op);
    let mapped: SerialCircuit<usize> = simple.clone().map_params(|p: String| p.len());
    assert_eq!(mapped.clone(), mapped);
    assert_eq!(mapped.phase, 3);
}
