//! Boxes: tags, defaults, sizes and identifiers.

use serde_json::Value;
use tket_json_rs::circuit_json::{Bitstring, Matrix, Operation, Register};
use tket_json_rs::codec::{Codec, DecodeError, ErrorKind, PathStep};
use tket_json_rs::json::{Json, Number};
use tket_json_rs::opbox::kind::BoxKind;
use tket_json_rs::opbox::{
    default_true, BoxID, CXConfigType, GraphColourMethod, OpBox, OpTypeBounds, PauliPartitionStrat,
    PauliStabiliser, PauliSynthStrat, ResourceBounds, ResourceData, ToffoliBoxSynthStrat,
};
use tket_json_rs::OpType;

const ID: &str = "550e8400-e29b-41d4-a716-446655440000";

fn to_json(v: &Value) -> Json {
    match v {
        Value::Null => Json::Null,
        Value::Bool(b) => Json::Bool(*b),
        Value::Number(n) => {
            if let Some(u) = n.as_u64() {
                Json::Number(Number::PosInt(u))
            } else if let Some(i) = n.as_i64() {
                Json::Number(Number::NegInt(i))
            } else {
                Json::Number(Number::Float(n.as_f64().unwrap().to_bits()))
            }
        }
        Value::String(s) => Json::String(s.clone()),
        Value::Array(items) => Json::Array(items.iter().map(to_json).collect()),
        Value::Object(map) => Json::Object(map.iter().map(|(k, v)| (k.clone(), to_json(v))).collect()),
    }
}

fn to_value(j: &Json) -> Value {
    match j {
        Json::Null => Value::Null,
        Json::Bool(b) => Value::Bool(*b),
        Json::Number(Number::PosInt(u)) => Value::from(*u),
        Json::Number(Number::NegInt(i)) => Value::from(*i),
        Json::Number(Number::Float(bits)) => Value::from(f64::from_bits(*bits)),
        Json::String(s) => Value::String(s.clone()),
        Json::Array(items) => Value::Array(items.iter().map(to_value).collect()),
        Json::Object(entries) => {
            let mut map = serde_json::Map::new();
            for (k, v) in entries {
                map.insert(k.clone(), to_value(v));
            }
            Value::Object(map)
        }
    }
}

fn parse(text: &str) -> Json {
    to_json(&serde_json::from_str::<Value>(text).unwrap())
}

fn same_document(j: &Json, text: &str) {
    assert_eq!(to_value(j), serde_json::from_str::<Value>(text).unwrap());
}

fn round_trips(text: &str) -> OpBox {
    let decoded = OpBox::decode(&parse(text)).unwrap();
    let encoded = decoded.encode();
    same_document(&encoded, text);
    assert_eq!(OpBox::decode(&encoded).unwrap(), decoded);
    decoded
}

fn id() -> BoxID {
    BoxID::parse(ID).unwrap()
}

fn float(x: f64) -> Number {
    Number::Float(x.to_bits())
}

fn identity(n: usize) -> String {
    let rows: Vec<String> = (0..n)
        .map(|i| {
            let row: Vec<&str> = (0..n).map(|j| if i == j { "[1.0, 0.0]" } else { "[0.0, 0.0]" }).collect();
            format!("[{}]", row.join(", "))
        })
        .collect();
    format!("[{}]", rows.join(", "))
}

#[test]
fn an_unknown_tag_is_refused() {
    let text = format!(r#"{{"type": "NotARealBox", "id": "{}"}}"#, ID);
    let error = OpBox::decode(&parse(&text)).unwrap_err();
    assert_eq!(error, DecodeError { kind: ErrorKind::UnknownVariant, path: vec![PathStep::Field("type")] });
    assert!(error.kind.is_structural_mismatch());
}

#[test]
fn a_box_without_a_tag_is_refused() {
    let text = format!(r#"{{"id": "{}"}}"#, ID);
    let error = OpBox::decode(&parse(&text)).unwrap_err();
    assert_eq!(error, DecodeError { kind: ErrorKind::MissingField, path: vec![PathStep::Field("type")] });
}

#[test]
fn a_tag_that_is_no_string_is_refused() {
    let error = OpBox::decode(&parse(r#"{"type": 3}"#)).unwrap_err();
    assert_eq!(error, DecodeError { kind: ErrorKind::TypeMismatch, path: vec![PathStep::Field("type")] });
}

#[test]
fn a_known_tag_without_its_fields_is_refused() {
    let text = format!(r#"{{"type": "PauliExpBox", "id": "{}", "paulis": ["X"]}}"#, ID);
    let error = OpBox::decode(&parse(&text)).unwrap_err();
    assert_eq!(error, DecodeError { kind: ErrorKind::MissingField, path: vec![PathStep::Field("phase")] });
    let error = OpBox::decode(&parse(r#"{"type": "CircBox"}"#)).unwrap_err();
    assert_eq!(error, DecodeError { kind: ErrorKind::MissingField, path: vec![PathStep::Field("id")] });
}

#[test]
fn an_identifier_that_is_no_uuid_is_refused() {
    let error = OpBox::decode(&parse(r#"{"type": "CircBox", "id": "not-a-uuid"}"#)).unwrap_err();
    assert_eq!(error, DecodeError { kind: ErrorKind::TypeMismatch, path: vec![PathStep::Field("id")] });
}

#[test]
fn a_pauli_exp_box_without_cx_config_gets_the_default() {
    let text = format!(r#"{{"type":"PauliExpBox","id":"{}","paulis":["X","Z"],"phase":"0.5"}}"#, ID);
    let decoded = OpBox::decode(&parse(&text)).unwrap();
    assert_eq!(
        decoded,
        OpBox::PauliExpBox {
            id: id(),
            paulis: vec!["X".to_string(), "Z".to_string()],
            phase: "0.5".to_string(),
            cx_config: String::new(),
        }
    );
    let encoded = decoded.encode();
    assert_eq!(encoded.get("cx_config"), Some(&Json::String(String::new())));
    same_document(
        &encoded,
        &format!(r#"{{"type":"PauliExpBox","id":"{}","paulis":["X","Z"],"phase":"0.5","cx_config":""}}"#, ID),
    );
}

#[test]
fn a_default_is_not_taken_for_null() {
    let text = format!(r#"{{"type":"PauliExpBox","id":"{}","paulis":[],"phase":"0","cx_config":null}}"#, ID);
    let error = OpBox::decode(&parse(&text)).unwrap_err();
    assert_eq!(error, DecodeError { kind: ErrorKind::TypeMismatch, path: vec![PathStep::Field("cx_config")] });
}

#[test]
fn identifiers_are_read_in_every_form_and_written_in_one() {
    let value: u128 = 0x550e8400_e29b_41d4_a716_446655440000;
    for text in [
        "550e8400-e29b-41d4-a716-446655440000",
        "550E8400-E29B-41D4-A716-446655440000",
        "550e8400e29b41d4a716446655440000",
        "{550e8400-e29b-41d4-a716-446655440000}",
        "urn:uuid:550e8400-e29b-41d4-a716-446655440000",
    ] {
        let id = BoxID::parse(text).unwrap();
        assert_eq!(id.as_u128(), value);
        assert_eq!(id.to_text(), ID);
        assert_eq!(id.encode(), Json::String(ID.to_string()));
        assert_eq!(BoxID::decode(&Json::String(text.to_string())).unwrap(), id);
    }
    assert_eq!(BoxID::parse("00000000-0000-0000-0000-00000000000a").unwrap().as_u128(), 10);
    assert_eq!(BoxID::parse(""), None);
    assert_eq!(BoxID::parse("550e8400-e29b-41d4-a716-44665544000"), None);
    assert_eq!(BoxID::parse("550e8400-e29b-41d4-a716-44665544000g"), None);
    assert!(BoxID::decode(&Json::Number(Number::PosInt(1))).is_err());
}

#[test]
fn a_parsed_number_is_an_identifier() {
    let id = BoxID::from_parsed(Some(10)).unwrap();
    assert_eq!(id.as_u128(), 10);
    assert_eq!(id.to_text(), "00000000-0000-0000-0000-00000000000a");
    assert_eq!(BoxID::from_parsed(Some(u128::MAX)).unwrap().to_text(), "ffffffff-ffff-ffff-ffff-ffffffffffff");
    assert_eq!(
        BoxID::from_parsed(None),
        Err(DecodeError { kind: ErrorKind::TypeMismatch, path: vec![] })
    );
}

#[test]
fn a_circuit_box_holds_a_circuit() {
    let text = format!(
        r#"{{"type":"CircBox","id":"{}","circuit":{{"phase":"0","commands":[],"qubits":[],"bits":[],"implicit_permutation":[]}}}}"#,
        ID
    );
    match round_trips(&text) {
        OpBox::CircBox { id: found, circuit } => {
            assert_eq!(found, id());
            assert_eq!(circuit.phase, "0");
            assert!(circuit.commands.is_empty());
        }
        other => panic!("decoded as {:?}", other),
    }
}

#[test]
fn unitary_boxes_hold_square_matrices() {
    for (tag, n) in [("Unitary1qBox", 2), ("Unitary2qBox", 4), ("Unitary3qBox", 8)] {
        let text = format!(r#"{{"type":"{}","id":"{}","matrix":{}}}"#, tag, ID, identity(n));
        let decoded = round_trips(&text);
        let matrix = match decoded {
            OpBox::Unitary1qBox { matrix, .. } => matrix,
            OpBox::Unitary2qBox { matrix, .. } => matrix,
            OpBox::Unitary3qBox { matrix, .. } => matrix,
            other => panic!("decoded as {:?}", other),
        };
        assert!(matrix.is_square(n));
        assert_eq!(matrix.data[1][1], (float(1.0), float(0.0)));
        assert_eq!(matrix.data[0][1], (float(0.0), float(0.0)));
    }
}

#[test]
fn a_matrix_of_the_wrong_size_is_refused() {
    let wrong = DecodeError { kind: ErrorKind::InvalidFixedSize, path: vec![PathStep::Field("matrix")] };
    for (tag, n) in [("Unitary1qBox", 4), ("Unitary2qBox", 2), ("Unitary3qBox", 4), ("ExpBox", 8)] {
        let text = format!(r#"{{"type":"{}","id":"{}","matrix":{},"phase":0.5}}"#, tag, ID, identity(n));
        assert_eq!(OpBox::decode(&parse(&text)).unwrap_err(), wrong);
    }
    let ragged = format!(r#"{{"type":"Unitary1qBox","id":"{}","matrix":[[[1.0,0.0],[0.0,0.0]],[[0.0,0.0]]]}}"#, ID);
    assert_eq!(OpBox::decode(&parse(&ragged)).unwrap_err(), wrong);
    let triple = format!(r#"{{"type":"Unitary1qBox","id":"{}","matrix":[[[1.0,0.0,0.0],[0.0,0.0]],[[0.0,0.0],[1.0,0.0]]]}}"#, ID);
    assert_eq!(
        OpBox::decode(&parse(&triple)).unwrap_err(),
        DecodeError {
            kind: ErrorKind::InvalidFixedSize,
            path: vec![PathStep::Field("matrix"), PathStep::Index(0), PathStep::Index(0)],
        }
    );
}

#[test]
fn an_exp_box_holds_a_matrix_and_a_phase() {
    let text = format!(r#"{{"type":"ExpBox","id":"{}","matrix":{},"phase":-0.25}}"#, ID, identity(4));
    match round_trips(&text) {
        OpBox::ExpBox { phase, matrix, .. } => {
            assert_eq!(phase, float(-0.25));
            assert!(matrix.is_square(4));
        }
        other => panic!("decoded as {:?}", other),
    }
}

#[test]
fn a_number_of_a_matrix_is_kept_as_written() {
    let text = format!(r#"{{"type":"ProjectorAssertionBox","id":"{}","matrix":[[[1, 0.5], [-2, 0.0]]]}}"#, ID);
    match round_trips(&text) {
        OpBox::ProjectorAssertionBox { matrix, .. } => {
            assert_eq!(
                matrix,
                Matrix {
                    data: vec![vec![(Number::PosInt(1), float(0.5)), (Number::NegInt(-2), float(0.0))]],
                }
            );
        }
        other => panic!("decoded as {:?}", other),
    }
}

#[test]
fn pauli_boxes_round_trip() {
    round_trips(&format!(
        r#"{{"type":"PauliExpPairBox","id":"{}","paulis_pair":[["X","Y"],["Z","I"]],"phase_pair":["0.1","0.2"],"cx_config":"Tree"}}"#,
        ID
    ));
    let set = round_trips(&format!(
        r#"{{"type":"PauliExpCommutingSetBox","id":"{}","pauli_gadgets":[[["X","Y"],"0.1"],[["Z"],"a"]],"cx_config":"Snake"}}"#,
        ID
    ));
    match set {
        OpBox::PauliExpCommutingSetBox { pauli_gadgets, cx_config, .. } => {
            assert_eq!(pauli_gadgets[0], (vec!["X".to_string(), "Y".to_string()], "0.1".to_string()));
            assert_eq!(pauli_gadgets[1], (vec!["Z".to_string()], "a".to_string()));
            assert_eq!(cx_config, "Snake");
        }
        other => panic!("decoded as {:?}", other),
    }
    let missing = format!(r#"{{"type":"PauliExpPairBox","id":"{}","paulis_pair":[],"phase_pair":[]}}"#, ID);
    assert_eq!(
        OpBox::decode(&parse(&missing)).unwrap_err(),
        DecodeError { kind: ErrorKind::MissingField, path: vec![PathStep::Field("cx_config")] }
    );
}

#[test]
fn a_term_sequence_box_defaults_each_strategy_by_itself() {
    let text = format!(r#"{{"type":"TermSequenceBox","id":"{}","pauli_gadgets":[],"graph_colouring":"Exhaustive"}}"#, ID);
    let decoded = OpBox::decode(&parse(&text)).unwrap();
    assert_eq!(
        decoded,
        OpBox::TermSequenceBox {
            id: id(),
            pauli_gadgets: vec![],
            synth_strategy: PauliSynthStrat::Sets,
            partition_strategy: PauliPartitionStrat::CommutingSets,
            graph_colouring: GraphColourMethod::Exhaustive,
            cx_config: CXConfigType::Tree,
        }
    );
    same_document(
        &decoded.encode(),
        &format!(
            r#"{{"type":"TermSequenceBox","id":"{}","pauli_gadgets":[],"synth_strategy":"Sets",
                "partition_strategy":"CommutingSets","graph_colouring":"Exhaustive","cx_config":"Tree"}}"#,
            ID
        ),
    );
    let unknown = format!(r#"{{"type":"TermSequenceBox","id":"{}","pauli_gadgets":[],"cx_config":"Ring"}}"#, ID);
    assert_eq!(
        OpBox::decode(&parse(&unknown)).unwrap_err(),
        DecodeError { kind: ErrorKind::UnknownVariant, path: vec![PathStep::Field("cx_config")] }
    );
}

#[test]
fn the_defaults_of_the_strategies() {
    assert_eq!(PauliSynthStrat::default(), PauliSynthStrat::Sets);
    assert_eq!(PauliPartitionStrat::default(), PauliPartitionStrat::CommutingSets);
    assert_eq!(GraphColourMethod::default(), GraphColourMethod::Lazy);
    assert_eq!(CXConfigType::default(), CXConfigType::Tree);
    assert!(default_true());
    assert_eq!(CXConfigType::parse("MultiQGate"), Some(CXConfigType::MultiQGate));
    assert_eq!(CXConfigType::MultiQGate.as_str(), "MultiQGate");
    assert_eq!(ToffoliBoxSynthStrat::parse("cycle"), None);
}

#[test]
fn a_phase_poly_box_round_trips() {
    let text = format!(
        r#"{{"type":"PhasePolyBox","id":"{}","n_qubits":2,"qubit_indices":[[["q",[0]],0],[["q",[1]],1]],
            "phase_polynomial":[[[[true,false],"0.5"]],[[[true,true],"a"]]],
            "linear_transformation":[[[true,false],[false,false]],[[false,false],[true,false]]]}}"#,
        ID
    );
    match round_trips(&text) {
        OpBox::PhasePolyBox { n_qubits, qubit_indices, phase_polynomial, linear_transformation, .. } => {
            assert_eq!(n_qubits, 2);
            assert_eq!(linear_transformation.data[0], vec![(true, false), (false, false)]);
            assert_eq!(qubit_indices[1], (Register("q".to_string(), vec![1]), 1));
            assert_eq!(phase_polynomial[1][0], (Bitstring { vec: vec![true, true] }, "a".to_string()));
        }
        other => panic!("decoded as {:?}", other),
    }
}

#[test]
fn a_stabiliser_assertion_box_round_trips() {
    let text = format!(
        r#"{{"type":"StabiliserAssertionBox","id":"{}","stabilisers":[{{"coeff":true,"string":["X","X"]}},{{"coeff":false,"string":["Z","Z"]}}]}}"#,
        ID
    );
    match round_trips(&text) {
        OpBox::StabiliserAssertionBox { stabilisers, .. } => {
            assert_eq!(
                stabilisers[1],
                PauliStabiliser { coeff: false, string: vec!["Z".to_string(), "Z".to_string()] }
            );
        }
        other => panic!("decoded as {:?}", other),
    }
}

#[test]
fn a_custom_gate_is_read_under_its_older_tag_too() {
    let body = r#""gate":{"name":"g","args":["a"],"definition":{"phase":"0","commands":[{"op":{"type":"Rz","params":["a"]},"args":[["q",[0]]]}],"qubits":[["q",[0]]],"bits":[],"implicit_permutation":[]}},"params":["0.5"]"#;
    let current = format!(r#"{{"type":"CustomGate","id":"{}",{}}}"#, ID, body);
    let older = format!(r#"{{"type":"Composite","id":"{}",{}}}"#, ID, body);
    let decoded = round_trips(&current);
    assert_eq!(OpBox::decode(&parse(&older)).unwrap(), decoded);
    same_document(&OpBox::decode(&parse(&older)).unwrap().encode(), &current);
    match decoded {
        OpBox::CustomGate { gate, params, .. } => {
            assert_eq!(gate.name, "g");
            assert_eq!(gate.args, vec!["a".to_string()]);
            assert_eq!(gate.definition.commands.len(), 1);
            assert_eq!(params, vec!["0.5".to_string()]);
        }
        other => panic!("decoded as {:?}", other),
    }
    assert_eq!(BoxKind::parse("Composite"), None);
    assert_eq!(BoxKind::parse_wire("Composite"), Some(BoxKind::CustomGate));
    assert_eq!(BoxKind::CustomGate.as_str(), "CustomGate");
}

#[test]
fn a_controlled_box_defaults_its_control_state_to_zero() {
    let text = format!(r#"{{"type":"QControlBox","id":"{}","n_controls":2,"op":{{"type":"X"}}}}"#, ID);
    let decoded = OpBox::decode(&parse(&text)).unwrap();
    match &decoded {
        OpBox::QControlBox { n_controls, op, control_state, .. } => {
            assert_eq!(*n_controls, 2);
            assert_eq!(op.op_type, OpType::X);
            assert_eq!(*control_state, 0);
        }
        other => panic!("decoded as {:?}", other),
    }
    same_document(
        &decoded.encode(),
        &format!(r#"{{"type":"QControlBox","id":"{}","n_controls":2,"op":{{"type":"X"}},"control_state":0}}"#, ID),
    );
    round_trips(&format!(r#"{{"type":"QControlBox","id":"{}","n_controls":2,"op":{{"type":"X"}},"control_state":3}}"#, ID));
}

#[test]
fn an_older_classical_expression_box_round_trips() {
    round_trips(&format!(
        r#"{{"type":"ClassicalExpBox","id":"{}","n_i":1,"n_io":0,"n_o":1,"exp":{{"op":"NOT","args":[["c",[0]]]}}}}"#,
        ID
    ));
}

#[test]
fn a_tableau_box_defaults_its_counts_to_zero() {
    let text = format!(
        r#"{{"type":"UnitaryTableauBox","id":"{}","tab":{{"tab":{{"xmat":[[[true,false]]],"zmat":[],"phase":[[]]}},"qubits":[["q",[0]]]}}}}"#,
        ID
    );
    let decoded = OpBox::decode(&parse(&text)).unwrap();
    match &decoded {
        OpBox::UnitaryTableauBox { tab, .. } => {
            assert_eq!(tab.tab.nrows, 0);
            assert_eq!(tab.tab.nqubits, 0);
            assert_eq!(tab.tab.xmat, Matrix { data: vec![vec![(true, false)]] });
            assert_eq!(tab.tab.zmat, Matrix { data: vec![] });
            assert_eq!(tab.qubits, vec![Register("q".to_string(), vec![0])]);
        }
        other => panic!("decoded as {:?}", other),
    }
    same_document(
        &decoded.encode(),
        &format!(
            r#"{{"type":"UnitaryTableauBox","id":"{}","tab":{{"tab":{{"nrows":0,"nqubits":0,"xmat":[[[true,false]]],"zmat":[],"phase":[[]]}},"qubits":[["q",[0]]]}}}}"#,
            ID
        ),
    );
}

#[test]
fn multiplexed_boxes_map_bit_patterns_to_operations() {
    for tag in ["MultiplexorBox", "MultiplexedRotationBox", "MultiplexedTensoredU2Box"] {
        let text = format!(
            r#"{{"type":"{}","id":"{}","op_map":[[[false],{{"type":"X"}}],[[true],{{"type":"Rz","params":["0.5"]}}]]}}"#,
            tag, ID
        );
        let op_map = match round_trips(&text) {
            OpBox::MultiplexorBox { op_map, .. } => op_map,
            OpBox::MultiplexedRotationBox { op_map, .. } => op_map,
            OpBox::MultiplexedTensoredU2Box { op_map, .. } => op_map,
            other => panic!("decoded as {:?}", other),
        };
        assert_eq!(op_map.len(), 2);
        assert_eq!(op_map[0].0, Bitstring { vec: vec![false] });
        assert_eq!(op_map[1].1.op_type, OpType::Rz);
    }
    let text = format!(r#"{{"type":"MultiplexedU2Box","id":"{}","op_map":[]}}"#, ID);
    let decoded = OpBox::decode(&parse(&text)).unwrap();
    assert_eq!(decoded, OpBox::MultiplexedU2Box { id: id(), op_map: vec![], impl_diag: true });
    same_document(&decoded.encode(), &format!(r#"{{"type":"MultiplexedU2Box","id":"{}","op_map":[],"impl_diag":true}}"#, ID));
    let text = format!(r#"{{"type":"MultiplexedU2Box","id":"{}","op_map":[],"impl_diag":false}}"#, ID);
    assert_eq!(round_trips(&text), OpBox::MultiplexedU2Box { id: id(), op_map: vec![], impl_diag: false });
}

#[test]
fn a_failure_in_a_table_of_operations_names_its_place() {
    let text = format!(r#"{{"type":"MultiplexorBox","id":"{}","op_map":[[[false],{{"type":"X"}}],[[true]]]}}"#, ID);
    assert_eq!(
        OpBox::decode(&parse(&text)).unwrap_err(),
        DecodeError { kind: ErrorKind::InvalidFixedSize, path: vec![PathStep::Field("op_map"), PathStep::Index(1)] }
    );
    let text = format!(r#"{{"type":"MultiplexorBox","id":"{}","op_map":[[[false],{{"type":"X"}}],[[1],{{"type":"X"}}]]}}"#, ID);
    assert_eq!(
        OpBox::decode(&parse(&text)).unwrap_err(),
        DecodeError {
            kind: ErrorKind::TypeMismatch,
            path: vec![PathStep::Field("op_map"), PathStep::Index(1), PathStep::Index(0), PathStep::Index(0)],
        }
    );
}

#[test]
fn a_toffoli_box_leaves_out_an_absent_axis() {
    let text = format!(
        r#"{{"type":"ToffoliBox","id":"{}","permutation":[[[false,true],[true,false]],[[true,false],[false,true]]],"strat":"Matching"}}"#,
        ID
    );
    match round_trips(&text) {
        OpBox::ToffoliBox { permutation, strat, rotation_axis, .. } => {
            assert_eq!(permutation[0], (vec![false, true], vec![true, false]));
            assert_eq!(strat, ToffoliBoxSynthStrat::Matching);
            assert_eq!(rotation_axis, None);
        }
        other => panic!("decoded as {:?}", other),
    }
    let text = format!(r#"{{"type":"ToffoliBox","id":"{}","permutation":[],"strat":"Cycle","rotation_axis":"Rx"}}"#, ID);
    match round_trips(&text) {
        OpBox::ToffoliBox { strat, rotation_axis, .. } => {
            assert_eq!(strat, ToffoliBoxSynthStrat::Cycle);
            assert_eq!(rotation_axis, Some(OpType::Rx));
        }
        other => panic!("decoded as {:?}", other),
    }
}

#[test]
fn a_conjugation_box_leaves_out_an_absent_uncompute() {
    let text = format!(r#"{{"type":"ConjugationBox","id":"{}","compute":{{"type":"H"}},"action":{{"type":"Z"}}}}"#, ID);
    match round_trips(&text) {
        OpBox::ConjugationBox { compute, action, uncompute, .. } => {
            assert_eq!(compute.op_type, OpType::H);
            assert_eq!(action.op_type, OpType::Z);
            assert!(uncompute.is_none());
        }
        other => panic!("decoded as {:?}", other),
    }
    let with_null = format!(
        r#"{{"type":"ConjugationBox","id":"{}","compute":{{"type":"H"}},"action":{{"type":"Z"}},"uncompute":null}}"#,
        ID
    );
    same_document(&OpBox::decode(&parse(&with_null)).unwrap().encode(), &text);
    let full = format!(
        r#"{{"type":"ConjugationBox","id":"{}","compute":{{"type":"H"}},"action":{{"type":"Z"}},"uncompute":{{"type":"H"}}}}"#,
        ID
    );
    match round_trips(&full) {
        OpBox::ConjugationBox { uncompute, .. } => {
            let expected: Operation = Operation::from_optype(OpType::H);
            assert_eq!(uncompute, Some(Box::new(expected)));
        }
        other => panic!("decoded as {:?}", other),
    }
}

#[test]
fn a_dummy_box_records_resources() {
    let text = format!(
        r#"{{"type":"DummyBox","id":"{}","n_qubits":3,"n_bits":1,"resource_data":{{
            "op_type_count":{{"CX":{{"min":1,"max":4}},"H":{{"min":0,"max":2}}}},
            "gate_depth":{{"min":2,"max":6}},"op_type_depth":{{}},"two_qubit_gate_depth":{{"min":1,"max":3}}}}}}"#,
        ID
    );
    match round_trips(&text) {
        OpBox::DummyBox { n_qubits, n_bits, resource_data, .. } => {
            assert_eq!(n_qubits, 3);
            assert_eq!(n_bits, 1);
            assert_eq!(
                resource_data,
                ResourceData {
                    op_type_count: OpTypeBounds {
                        entries: vec![
                            (OpType::CX, ResourceBounds { min: 1, max: 4 }),
                            (OpType::H, ResourceBounds { min: 0, max: 2 }),
                        ],
                    },
                    gate_depth: ResourceBounds { min: 2, max: 6 },
                    op_type_depth: OpTypeBounds { entries: vec![] },
                    two_qubit_gate_depth: ResourceBounds { min: 1, max: 3 },
                }
            );
        }
        other => panic!("decoded as {:?}", other),
    }
}

#[test]
fn a_type_named_twice_in_a_table_keeps_its_place_and_its_last_bounds() {
    let table = Json::Object(vec![
        ("TK1".to_string(), parse(r#"{"min":1,"max":1}"#)),
        ("CX".to_string(), parse(r#"{"min":2,"max":2}"#)),
        ("tk1".to_string(), parse(r#"{"min":3,"max":3}"#)),
    ]);
    let decoded = OpTypeBounds::decode(&table).unwrap();
    assert_eq!(
        decoded.entries,
        vec![(OpType::TK1, ResourceBounds { min: 3, max: 3 }), (OpType::CX, ResourceBounds { min: 2, max: 2 })]
    );
    same_document(&decoded.encode(), r#"{"TK1":{"min":3,"max":3},"CX":{"min":2,"max":2}}"#);
    let unknown = Json::Object(vec![
        ("CX".to_string(), parse(r#"{"min":2,"max":2}"#)),
        ("Nope".to_string(), parse(r#"{"min":3,"max":3}"#)),
    ]);
    assert_eq!(
        OpTypeBounds::decode(&unknown).unwrap_err(),
        DecodeError { kind: ErrorKind::UnknownVariant, path: vec![PathStep::Index(1)] }
    );
    let broken = Json::Object(vec![("CX".to_string(), parse(r#"{"min":2}"#))]);
    assert_eq!(
        OpTypeBounds::decode(&broken).unwrap_err(),
        DecodeError { kind: ErrorKind::MissingField, path: vec![PathStep::Index(0), PathStep::Field("max")] }
    );
}

#[test]
fn state_preparation_and_diagonal_boxes_default_their_flags_to_true() {
    let text = format!(r#"{{"type":"StatePreparationBox","id":"{}","statevector":[[[1.0,0.0]],[[0.0,0.0]]]}}"#, ID);
    let decoded = OpBox::decode(&parse(&text)).unwrap();
    match &decoded {
        OpBox::StatePreparationBox { is_inverse, with_initial_reset, statevector, .. } => {
            assert!(*is_inverse);
            assert!(*with_initial_reset);
            assert_eq!(statevector.data.len(), 2);
        }
        other => panic!("decoded as {:?}", other),
    }
    same_document(
        &decoded.encode(),
        &format!(
            r#"{{"type":"StatePreparationBox","id":"{}","statevector":[[[1.0,0.0]],[[0.0,0.0]]],"is_inverse":true,"with_initial_reset":true}}"#,
            ID
        ),
    );
    round_trips(&format!(
        r#"{{"type":"StatePreparationBox","id":"{}","statevector":[],"is_inverse":false,"with_initial_reset":false}}"#,
        ID
    ));
    let text = format!(r#"{{"type":"DiagonalBox","id":"{}","diagonal":[[[1.0,0.0]],[[0.0,1.0]]]}}"#, ID);
    let decoded = OpBox::decode(&parse(&text)).unwrap();
    assert!(matches!(decoded, OpBox::DiagonalBox { upper_triangle: true, .. }));
    round_trips(&format!(r#"{{"type":"DiagonalBox","id":"{}","diagonal":[],"upper_triangle":false}}"#, ID));
}

#[test]
fn a_box_sits_in_the_field_box_of_an_operation() {
    let text = format!(
        r#"{{"type":"PauliExpBox","box":{{"type":"PauliExpBox","id":"{}","paulis":["X"],"phase":"0.5","cx_config":"Tree"}}}}"#,
        ID
    );
    let op = Operation::<String>::decode(&parse(&text)).unwrap();
    assert_eq!(op.op_type, OpType::PauliExpBox);
    assert!(matches!(op.op_box, Some(OpBox::PauliExpBox { .. })));
    same_document(&op.encode(), &text);
    let broken = r#"{"type":"PauliExpBox","box":{"type":"Nope"}}"#;
    assert_eq!(
        Operation::<String>::decode(&parse(broken)).unwrap_err(),
        DecodeError { kind: ErrorKind::UnknownVariant, path: vec![PathStep::Field("box"), PathStep::Field("type")] }
    );
}

#[test]
fn a_copy_of_a_box_equals_the_box() {
    for text in [
        format!(r#"{{"type":"QControlBox","id":"{}","n_controls":2,"op":{{"type":"Rz","params":["0.5"]}},"control_state":3}}"#, ID),
        format!(r#"{{"type":"MultiplexorBox","id":"{}","op_map":[[[false],{{"type":"X"}}],[[true],{{"type":"Rz","params":["0.5"]}}]]}}"#, ID),
        format!(r#"{{"type":"ConjugationBox","id":"{}","compute":{{"type":"H"}},"action":{{"type":"Z"}},"uncompute":{{"type":"H"}}}}"#, ID),
        format!(r#"{{"type":"Unitary1qBox","id":"{}","matrix":{}}}"#, ID, identity(2)),
        format!(r#"{{"type":"ClassicalExpBox","id":"{}","n_i":1,"n_io":0,"n_o":1,"exp":{{"op":"NOT","args":[["c",[0]],3,{{"op":"X","args":[]}}]}}}}"#, ID),
        format!(
            r#"{{"type":"DummyBox","id":"{}","n_qubits":3,"n_bits":1,"resource_data":{{"op_type_count":{{"CX":{{"min":1,"max":4}}}},
                "gate_depth":{{"min":2,"max":6}},"op_type_depth":{{}},"two_qubit_gate_depth":{{"min":1,"max":3}}}}}}"#,
            ID
        ),
    ] {
        let decoded = OpBox::decode(&parse(&text)).unwrap();
        let copy = decoded.clone();
        assert_eq!(copy, decoded);
        assert_eq!(copy.encode(), decoded.encode());
    }
}
