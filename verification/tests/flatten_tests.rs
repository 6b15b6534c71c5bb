use hmi_server::flatten::{decimal_string, flatten_document, DataValue, JsonNumber, JsonValue, Node};
use hmi_server::ordered::OrderedMap;

fn num(v: f64) -> JsonValue {
    JsonValue::Number(JsonNumber { text: v.to_string(), bits: v.to_bits() })
}

fn obj(members: Vec<(&str, JsonValue)>) -> JsonValue {
    JsonValue::Object(members.into_iter().map(|(k, v)| (k.to_string(), v)).collect())
}

fn keys(m: &OrderedMap<DataValue>) -> Vec<String> {
    m.entries().iter().map(|(k, _)| k.clone()).collect()
}

#[test]
fn nested_document_is_flattened() {
    let doc = obj(vec![
        ("Breaker_Status", obj(vec![("Pos", JsonValue::Bool(true)), ("Name", JsonValue::Str("b1".to_string()))])),
        ("phases", JsonValue::Array(vec![num(1.5), JsonValue::Null, num(3.0)])),
    ]);
    let m = flatten_document(&doc, "BreakerReadingProfile.mapping".to_string());
    assert_eq!(
        keys(&m),
        vec![
            "breakerreadingprofile.mapping.breakerstatus.name",
            "breakerreadingprofile.mapping.breakerstatus.pos",
            "breakerreadingprofile.mapping.phases[0]",
            "breakerreadingprofile.mapping.phases[2]",
        ]
    );
    match m.get("breakerreadingprofile.mapping.phases[2]") {
        Some(DataValue::Double(b)) => assert_eq!(f64::from_bits(*b), 3.0),
        _ => panic!("missing number"),
    }
    match m.get("breakerreadingprofile.mapping.breakerstatus.pos") {
        Some(DataValue::Bool(b)) => assert!(*b),
        _ => panic!("missing bool"),
    }
}

#[test]
fn later_values_replace_earlier_ones() {
    let doc = obj(vec![("a_b", num(1.0)), ("ab", num(2.0))]);
    let m = flatten_document(&doc, "P".to_string());
    assert_eq!(m.len(), 1);
    match m.get("p.ab") {
        Some(DataValue::Double(b)) => assert_eq!(f64::from_bits(*b), 2.0),
        _ => panic!("missing value"),
    }
}

#[test]
fn node_keeps_value_and_path() {
    let mut node = Node::new("root");
    assert_eq!(node.path(), "");
    let mut data = OrderedMap::new();
    node.from_json(&JsonValue::Str("x".to_string()), &mut data);
    assert_eq!(node.get_value(), "x");
    match data.get("") {
        Some(DataValue::String(s)) => assert_eq!(s, "x"),
        _ => panic!("missing value"),
    }
    node.set_value("y");
    assert_eq!(node.get_value(), "y");
}

#[test]
fn decimal_numerals() {
    assert_eq!(decimal_string(0), "0");
    assert_eq!(decimal_string(7), "7");
    assert_eq!(decimal_string(10), "10");
    assert_eq!(decimal_string(1234567890), "1234567890");
    assert_eq!(decimal_string(u64::MAX), u64::MAX.to_string());
}

#[test]
fn node_reading_an_array_ends_at_its_last_element() {
    let mut node = Node::with_path("mapping", "root".to_string());
    let mut data = OrderedMap::new();
    let doc = JsonValue::Array(vec![num(1.0), JsonValue::Array(vec![JsonValue::Bool(false), JsonValue::Str("y".to_string())])]);
    node.from_json(&doc, &mut data);
    assert_eq!(node.path(), "root[1][1]");
    assert_eq!(node.get_value(), "y");
    assert_eq!(keys(&data), vec!["root[0]", "root[1][0]", "root[1][1]"]);
}

#[test]
fn node_reading_an_object_keeps_its_path_and_value() {
    let mut node = Node::with_path("mapping", "root".to_string());
    node.set_value("kept");
    let mut data = OrderedMap::new();
    node.from_json(&obj(vec![("a", JsonValue::Bool(true))]), &mut data);
    assert_eq!(node.path(), "root");
    assert_eq!(node.get_value(), "kept");
    assert_eq!(keys(&data), vec!["root.a"]);
}
