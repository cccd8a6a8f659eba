use maxminddb_bridge::document::from_document;
use maxminddb_bridge::GenericValue;
use serde_json::{Number, Value};

fn render(g: &GenericValue) -> String {
    match g {
        GenericValue::Null => "null".to_string(),
        GenericValue::Bool(b) => format!("{}", b),
        GenericValue::Int(i) => format!("{}", i),
        GenericValue::Float(bits) => format!("f{:#x}", bits),
        GenericValue::String(s) => format!("{:?}", s),
        GenericValue::Array(items) => {
            let parts: Vec<String> = items.iter().map(render).collect();
            format!("[{}]", parts.join(","))
        }
        GenericValue::Object(entries) => {
            let parts: Vec<String> = entries
                .iter()
                .map(|(k, v)| format!("{:?}:{}", k, render(v)))
                .collect();
            format!("{{{}}}", parts.join(","))
        }
    }
}

#[test]
fn nested_document_keeps_shape_order_and_scalars() {
    let mut inner = serde_json::Map::new();
    inner.insert("zeta".to_string(), Value::Number(Number::from(-3i64)));
    inner.insert("alpha".to_string(), Value::Number(Number::from_f64(2.5).unwrap()));
    let list = Value::Array(vec![
        Value::Null,
        Value::Bool(false),
        Value::String("x".to_string()),
        Value::Object(inner),
        Value::Array(vec![]),
    ]);
    let mut outer = serde_json::Map::new();
    outer.insert("list".to_string(), list);
    outer.insert("id".to_string(), Value::Number(Number::from(7u64)));
    outer.insert("empty".to_string(), Value::Object(serde_json::Map::new()));
    let g = from_document(&Value::Object(outer));
    assert_eq!(
        render(&g),
        "{\"list\":[null,false,\"x\",{\"zeta\":-3,\"alpha\":f0x4004000000000000},[]],\"id\":7,\"empty\":{}}"
    );
}

#[test]
fn integer_and_float_stay_apart() {
    let one = from_document(&Value::Number(Number::from(1i64)));
    let one_float = from_document(&Value::Number(Number::from_f64(1.0).unwrap()));
    assert!(matches!(one, GenericValue::Int(1)));
    assert!(matches!(one_float, GenericValue::Float(0x3FF0000000000000)));
    let beyond = from_document(&Value::Number(Number::from(u64::MAX)));
    assert!(matches!(beyond, GenericValue::Float(0x43F0000000000000)));
    let lowest = from_document(&Value::Number(Number::from(i64::MIN)));
    assert!(matches!(lowest, GenericValue::Int(i64::MIN)));
}

#[test]
fn scalars_convert_one_for_one() {
    assert!(matches!(from_document(&Value::Null), GenericValue::Null));
    assert!(matches!(from_document(&Value::Bool(true)), GenericValue::Bool(true)));
    match from_document(&Value::String("héllo".to_string())) {
        GenericValue::String(s) => assert_eq!(s, "héllo"),
        other => panic!("{}", render(&other)),
    }
}

#[test]
fn deep_nesting_converts() {
    let mut v = Value::Number(Number::from(1i64));
    for _ in 0..200 {
        v = Value::Array(vec![v]);
    }
    let mut g = from_document(&v);
    let mut depth: usize = 0;
    loop {
        match g {
            GenericValue::Array(mut items) => {
                assert_eq!(items.len(), 1);
                g = items.pop().unwrap();
                depth += 1;
            }
            GenericValue::Int(1) => break,
            other => panic!("{}", render(&other)),
        }
    }
    assert_eq!(depth, 200);
}

#[test]
fn repeated_key_appears_once() {
    let mut m = serde_json::Map::new();
    m.insert("a".to_string(), Value::Number(Number::from(1i64)));
    m.insert("b".to_string(), Value::Number(Number::from(2i64)));
    m.insert("a".to_string(), Value::Number(Number::from(3i64)));
    let g = from_document(&Value::Object(m));
    assert_eq!(render(&g), "{\"a\":3,\"b\":2}");
}
