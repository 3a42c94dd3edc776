use mapboxgl::wire::{Number, ObjectBuilder, ToWire, Value, MAX_SAFE_INTEGER};

fn num(x: f64) -> Number {
    Number::Real(x.to_bits())
}

fn to_json(value: &Value) -> serde_json::Value {
    match value {
        Value::Null => serde_json::Value::Null,
        Value::Bool(b) => serde_json::Value::Bool(*b),
        Value::Number(Number::Int(n)) => serde_json::Value::from(*n),
        Value::Number(Number::Real(bits)) => serde_json::Value::from(f64::from_bits(*bits)),
        Value::String(s) => serde_json::Value::String(s.clone()),
        Value::Array(items) => serde_json::Value::Array(items.iter().map(to_json).collect()),
        Value::Object(entries) => serde_json::Value::Object(
            entries.iter().map(|(k, v)| (k.clone(), to_json(v))).collect(),
        ),
    }
}

fn parse(text: &str) -> serde_json::Value {
    serde_json::from_str(text).unwrap()
}

#[test]
fn safe_integers_have_a_wire_number() {
    assert_eq!(Number::from_i64(0), Some(Number::Int(0)));
    assert_eq!(Number::from_i64(-42), Some(Number::Int(-42)));
    assert_eq!(Number::from_i64(MAX_SAFE_INTEGER), Some(Number::Int(9007199254740991)));
    assert_eq!(Number::from_i64(-MAX_SAFE_INTEGER), Some(Number::Int(-9007199254740991)));
    assert_eq!(Number::from_u64(9007199254740991), Some(Number::Int(9007199254740991)));
    assert_eq!(Number::from_u32(u32::MAX), Number::Int(4294967295));
}

#[test]
fn unsafe_integers_have_no_wire_number() {
    assert_eq!(Number::from_i64(MAX_SAFE_INTEGER + 1), None);
    assert_eq!(Number::from_i64(-MAX_SAFE_INTEGER - 1), None);
    assert_eq!(Number::from_i64(i64::MAX), None);
    assert_eq!(Number::from_i64(i64::MIN), None);
    assert_eq!(Number::from_u64(9007199254740992), None);
    assert_eq!(Number::from_u64(u64::MAX), None);
}

#[test]
fn a_real_is_its_bit_pattern() {
    assert_eq!(Number::from_bits(5.0f64.to_bits()), Number::Real(0x4014000000000000));
    assert_ne!(num(1.0), Number::Int(1));
}

#[test]
fn get_finds_the_first_entry_with_the_key() {
    let object = Value::Object(vec![
        ("a".to_string(), Value::Bool(true)),
        ("b".to_string(), Value::Null),
        ("a".to_string(), Value::Bool(false)),
    ]);
    assert!(matches!(object.get("a"), Some(Value::Bool(true))));
    assert!(matches!(object.get("b"), Some(Value::Null)));
    assert!(object.get("c").is_none());
    assert!(object.get("").is_none());
}

#[test]
fn only_objects_have_properties() {
    assert!(Value::Null.get("a").is_none());
    assert!(Value::string("a").get("a").is_none());
    assert!(Value::Array(vec![Value::string("a")]).get("a").is_none());
    assert!(Value::Object(vec![]).get("a").is_none());
}

#[test]
fn is_null_tells_null_from_the_rest() {
    assert!(Value::Null.is_null());
    assert!(!Value::Bool(false).is_null());
    assert!(!Value::Number(Number::Int(0)).is_null());
    assert!(!Value::string("").is_null());
    assert!(!Value::Array(vec![]).is_null());
    assert!(!Value::Object(vec![]).is_null());
}

#[test]
fn clone_copies_a_value_in_depth() {
    let value = Value::Object(vec![
        ("list".to_string(), Value::Array(vec![Value::Number(num(1.5)), Value::Null])),
        ("name".to_string(), Value::string("x")),
        (
            "nested".to_string(),
            Value::Object(vec![("deep".to_string(), Value::Array(vec![Value::Bool(true)]))]),
        ),
    ]);
    let copy = value.clone();
    assert_eq!(to_json(&copy), to_json(&value));
    assert_eq!(to_json(&copy), parse(r#"{"list":[1.5,null],"name":"x","nested":{"deep":[true]}}"#));
}

#[test]
fn a_builder_keeps_what_is_set_in_order_and_leaves_out_what_is_unset() {
    let mut b = ObjectBuilder::new();
    b.string("id", "roads");
    b.optional("minzoom", None);
    b.optional_wire("maxzoom", &Some(num(12.0)));
    b.optional_wire::<bool>("visible", &None);
    b.wire("count", &3u32);
    b.nonempty::<String>("filters", &vec![]);
    b.nonempty("layers", &vec!["a".to_string(), "b".to_string()]);
    b.field("flag", Value::Bool(false));
    let value = b.finish();
    match &value {
        Value::Object(entries) => {
            let keys: Vec<&str> = entries.iter().map(|(k, _)| k.as_str()).collect();
            assert_eq!(keys, vec!["id", "maxzoom", "count", "layers", "flag"]);
        }
        _ => panic!("a builder finishes with an object"),
    }
    assert_eq!(
        to_json(&value),
        parse(r#"{"id":"roads","maxzoom":12.0,"count":3,"layers":["a","b"],"flag":false}"#)
    );
}

#[test]
fn a_builder_takes_the_entries_of_another_behind_its_own() {
    let mut first = ObjectBuilder::new();
    first.string("a", "1");
    let mut second = ObjectBuilder::new();
    second.string("b", "2");
    second.optional("c", None);
    first.extend(second);
    assert_eq!(to_json(&first.finish()), parse(r#"{"a":"1","b":"2"}"#));
}

#[test]
fn an_empty_builder_finishes_with_the_empty_object() {
    assert_eq!(to_json(&ObjectBuilder::new().finish()), parse("{}"));
}

#[test]
fn basic_values_have_their_wire_forms() {
    assert_eq!(to_json(&true.to_wire()), parse("true"));
    assert_eq!(to_json(&7u32.to_wire()), parse("7"));
    assert_eq!(to_json(&"x".to_string().to_wire()), parse(r#""x""#));
    assert_eq!(to_json(&num(2.5).to_wire()), parse("2.5"));
    assert_eq!(to_json(&vec![num(1.0), num(2.0)].to_wire()), parse("[1.0,2.0]"));
    assert_eq!(to_json(&(num(1.0), num(2.0)).to_wire()), parse("[1.0,2.0]"));
    assert_eq!(
        to_json(&(num(1.0), num(2.0), num(3.0), num(4.0)).to_wire()),
        parse("[1.0,2.0,3.0,4.0]")
    );
    assert_eq!(to_json(&Value::Null.to_wire()), parse("null"));
    assert_eq!(to_json(&Vec::<String>::new().to_wire()), parse("[]"));
}

#[test]
fn str_eq_compares_by_characters() {
    assert!(mapboxgl::wire::str_eq("lngLat", "lngLat"));
    assert!(!mapboxgl::wire::str_eq("lngLat", "lnglat"));
    assert!(!mapboxgl::wire::str_eq("a", "ab"));
    assert!(mapboxgl::wire::str_eq("", ""));
}
