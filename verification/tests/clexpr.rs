//! Classical expressions.

use serde_json::Value;
use tket_json_rs::circuit_json::Operation;
use tket_json_rs::clexpr::op::ClOp;
use tket_json_rs::clexpr::operator::{ClArgument, ClOperator, ClTerminal, ClVariable};
use tket_json_rs::clexpr::{ClExpr, ClRegisterBits, InputClRegister};
use tket_json_rs::codec::{Codec, DecodeError, ErrorKind, PathStep};
use tket_json_rs::json::{Json, Number};
use tket_json_rs::OpType;

fn to_json(v: &Value) -> Json {
    match v {
        Value::Null => Json::Null,
        Value::Bool(b) => Json::Bool(*b),
        Value::Number(n) => {
            if let Some(u) = n.as_u64() {
                Json::Number(Number::PosInt(u))
            } else if let Some(i) = n.as_i64() {
                Json::Number(Number::NegInt(i))
            } else {
                Json::Number(Number::Float(n.as_f64().unwrap().to_bits()))
            }
        }
        Value::String(s) => Json::String(s.clone()),
        Value::Array(items) => Json::Array(items.iter().map(to_json).collect()),
        Value::Object(map) => Json::Object(map.iter().map(|(k, v)| (k.clone(), to_json(v))).collect()),
    }
}

fn to_value(j: &Json) -> Value {
    match j {
        Json::Null => Value::Null,
        Json::Bool(b) => Value::Bool(*b),
        Json::Number(Number::PosInt(u)) => Value::from(*u),
        Json::Number(Number::NegInt(i)) => Value::from(*i),
        Json::Number(Number::Float(bits)) => Value::from(f64::from_bits(*bits)),
        Json::String(s) => Value::String(s.clone()),
        Json::Array(items) => Value::Array(items.iter().map(to_value).collect()),
        Json::Object(entries) => {
            let mut map = serde_json::Map::new();
            for (k, v) in entries {
                map.insert(k.clone(), to_value(v));
            }
            Value::Object(map)
        }
    }
}

fn parse(text: &str) -> Json {
    to_json(&serde_json::from_str::<Value>(text).unwrap())
}

fn node(op: ClOp, args: Vec<ClArgument>) -> ClOperator {
    let mut n = ClOperator::default();
    n.op = op;
    n.args = args;
    n
}

fn same_document(j: &Json, text: &str) {
    assert_eq!(to_value(j), serde_json::from_str::<Value>(text).unwrap());
}

const EXPR: &str = r#"{
    "bit_posn": [[0, 0], [1, 1]],
    "expr": {"op": "RegAdd", "args": [
        {"type": "term", "input": {"type": "var", "term": {"type": "reg", "var": {"index": 0}}}},
        {"type": "expr", "input": {"op": "BitXor", "args": [
            {"type": "term", "input": {"type": "var", "term": {"type": "bit", "var": {"index": 1}}}},
            {"type": "term", "input": {"type": "int", "term": 7}}
        ]}}
    ]},
    "reg_posn": [[0, [0, 1]]],
    "output_posn": [2]
}"#;

#[test]
fn an_input_register_is_a_pair_of_index_and_bits() {
    let register = InputClRegister::decode(&parse("[2, [0,1,2]]")).unwrap();
    assert_eq!(register, InputClRegister { index: 2, bits: ClRegisterBits(vec![0, 1, 2]) });
    let encoded = register.encode();
    assert_eq!(
        encoded,
        Json::Array(vec![
            Json::Number(Number::PosInt(2)),
            Json::Array(vec![
                Json::Number(Number::PosInt(0)),
                Json::Number(Number::PosInt(1)),
                Json::Number(Number::PosInt(2)),
            ]),
        ])
    );
    assert_eq!(serde_json::to_string(&to_value(&encoded)).unwrap(), "[2,[0,1,2]]");
}

#[test]
fn an_input_register_of_another_length_is_refused() {
    for text in ["[2]", "[2, [0], 1]", "[]"] {
        assert_eq!(
            InputClRegister::decode(&parse(text)).unwrap_err(),
            DecodeError { kind: ErrorKind::InvalidFixedSize, path: vec![] }
        );
    }
    assert_eq!(
        InputClRegister::decode(&parse(r#"{"index": 2, "bits": [0]}"#)).unwrap_err(),
        DecodeError { kind: ErrorKind::TypeMismatch, path: vec![] }
    );
    assert_eq!(
        InputClRegister::decode(&parse("[2, [0, -1]]")).unwrap_err(),
        DecodeError { kind: ErrorKind::TypeMismatch, path: vec![PathStep::Index(1), PathStep::Index(1)] }
    );
}

#[test]
fn an_expression_with_its_tables_round_trips() {
    let expr = ClExpr::decode(&parse(EXPR)).unwrap();
    assert_eq!(expr.bit_posn, vec![(0, 0), (1, 1)]);
    assert_eq!(expr.reg_posn, vec![InputClRegister { index: 0, bits: ClRegisterBits(vec![0, 1]) }]);
    assert_eq!(expr.output_posn, ClRegisterBits(vec![2]));
    assert_eq!(expr.expr.op, ClOp::RegAdd);
    assert_eq!(
        expr.expr.args[0],
        ClArgument::Terminal(ClTerminal::Variable(ClVariable::Register { index: 0 }))
    );
    match &expr.expr.args[1] {
        ClArgument::Expression(inner) => {
            assert_eq!(inner.op, ClOp::BitXor);
            assert_eq!(
                inner.args,
                vec![
                    ClArgument::Terminal(ClTerminal::Variable(ClVariable::Bit { index: 1 })),
                    ClArgument::Terminal(ClTerminal::Int(7)),
                ]
            );
        }
        other => panic!("decoded as {:?}", other),
    }
    let encoded = expr.encode();
    same_document(&encoded, EXPR);
    assert_eq!(ClExpr::decode(&encoded).unwrap(), expr);
}

#[test]
fn an_expression_sits_in_the_field_expr_of_an_operation() {
    let text = format!(r#"{{"type": "ClExpr", "expr": {}}}"#, EXPR);
    let op = Operation::<String>::decode(&parse(&text)).unwrap();
    assert_eq!(op.op_type, OpType::ClExpr);
    assert_eq!(op.classical_expr, Some(ClExpr::decode(&parse(EXPR)).unwrap()));
    same_document(&op.encode(), &text);
}

#[test]
fn a_deep_expression_round_trips() {
    let mut tree = node(ClOp::BitNot, vec![ClArgument::Terminal(ClTerminal::Int(1))]);
    for _ in 0..200 {
        tree = node(ClOp::BitNot, vec![ClArgument::Expression(Box::new(tree))]);
    }
    let encoded = tree.encode();
    let decoded = ClOperator::decode(&encoded).unwrap();
    assert_eq!(decoded, tree);
}

#[test]
fn unknown_tags_of_an_expression_are_refused() {
    let unknown = DecodeError { kind: ErrorKind::UnknownVariant, path: vec![PathStep::Field("type")] };
    assert_eq!(ClArgument::decode(&parse(r#"{"type": "leaf", "input": 1}"#)).unwrap_err(), unknown);
    assert_eq!(ClTerminal::decode(&parse(r#"{"type": "real", "term": 1}"#)).unwrap_err(), unknown);
    assert_eq!(ClVariable::decode(&parse(r#"{"type": "qubit", "var": {"index": 1}}"#)).unwrap_err(), unknown);
    assert_eq!(
        ClOperator::decode(&parse(r#"{"op": "BitNand", "args": []}"#)).unwrap_err(),
        DecodeError { kind: ErrorKind::UnknownVariant, path: vec![PathStep::Field("op")] }
    );
}

#[test]
fn missing_parts_of_an_expression_are_named() {
    assert_eq!(
        ClArgument::decode(&parse(r#"{"type": "term"}"#)).unwrap_err(),
        DecodeError { kind: ErrorKind::MissingField, path: vec![PathStep::Field("input")] }
    );
    assert_eq!(
        ClArgument::decode(&parse(r#"{"type": "expr"}"#)).unwrap_err(),
        DecodeError { kind: ErrorKind::MissingField, path: vec![PathStep::Field("input")] }
    );
    assert_eq!(
        ClArgument::decode(&parse(r#"{"input": 3}"#)).unwrap_err(),
        DecodeError { kind: ErrorKind::MissingField, path: vec![PathStep::Field("type")] }
    );
    assert_eq!(
        ClOperator::decode(&parse(r#"{"op": "BitAnd"}"#)).unwrap_err(),
        DecodeError { kind: ErrorKind::MissingField, path: vec![PathStep::Field("args")] }
    );
    assert_eq!(
        ClOperator::decode(&parse(r#"{"op": "BitAnd", "args": [{"type": "term", "input": {"type": "int", "term": -1}}]}"#))
            .unwrap_err(),
        DecodeError {
            kind: ErrorKind::TypeMismatch,
            path: vec![PathStep::Field("args"), PathStep::Index(0), PathStep::Field("input"), PathStep::Field("term")],
        }
    );
    assert_eq!(
        ClVariable::decode(&parse(r#"{"type": "reg", "var": {}}"#)).unwrap_err(),
        DecodeError { kind: ErrorKind::MissingField, path: vec![PathStep::Field("var"), PathStep::Field("index")] }
    );
    assert_eq!(
        ClExpr::decode(&parse(r#"{"bit_posn": [], "expr": {"op": "BitOne", "args": []}, "reg_posn": []}"#)).unwrap_err(),
        DecodeError { kind: ErrorKind::MissingField, path: vec![PathStep::Field("output_posn")] }
    );
}

#[test]
fn the_operations_of_expressions_go_by_their_names() {
    assert_eq!(ClOp::parse("RegLsh"), Some(ClOp::RegLsh));
    assert_eq!(ClOp::parse("reglsh"), None);
    assert_eq!(ClOp::RegLsh.as_str(), "RegLsh");
    assert_eq!(ClOp::INVALID.encode(), Json::String("INVALID".to_string()));
    assert_eq!("BitZero".parse::<ClOp>(), Ok(ClOp::BitZero));
    assert!("".parse::<ClOp>().is_err());
}

#[test]
fn the_defaults_of_expressions() {
    assert_eq!(ClOp::default(), ClOp::INVALID);
    assert_eq!(ClVariable::default(), ClVariable::Register { index: 0 });
    assert_eq!(ClTerminal::default(), ClTerminal::Int(0));
    assert_eq!(ClArgument::default(), ClArgument::Terminal(ClTerminal::Int(0)));
    assert_eq!(ClOperator::default().op, ClOp::INVALID);
    assert_eq!(ClOperator::default().args, vec![]);
    let expr = ClExpr::default();
    assert_eq!(expr.bit_posn, vec![]);
    assert_eq!(expr.expr, ClOperator::default());
    assert_eq!(expr.reg_posn, vec![]);
    assert_eq!(expr.output_posn, ClRegisterBits(vec![]));
    assert_eq!(InputClRegister::default(), InputClRegister { index: 0, bits: ClRegisterBits(vec![]) });
}

#[test]
fn a_copy_of_an_expression_equals_the_expression() {
    let expr = ClExpr::decode(&parse(EXPR)).unwrap();
    assert_eq!(expr.clone(), expr);
    assert_eq!(expr.expr.clone(), expr.expr);
    assert_eq!(expr.expr.args[1].clone(), expr.expr.args[1]);
}
