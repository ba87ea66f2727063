use server::convert::{FromValue, IntoValue, Timestamp, str_value};
use server::value::{Integer, Value};

fn map(pairs: Vec<(&str, Value)>) -> Value {
    let mut entries = Vec::new();
    for (k, v) in pairs {
        entries.push((str_value(k), v));
    }
    Value::Mapping(entries)
}

fn keys(v: &Value) -> Vec<String> {
    match v {
        Value::Mapping(entries) => entries
            .iter()
            .map(|(k, _)| match k {
                Value::String(s) => s.clone(),
                _ => String::new(),
            })
            .collect(),
        _ => Vec::new(),
    }
}

fn as_int(v: &Value) -> Option<i64> {
    match v {
        Value::Integer(Integer::I64(i)) => Some(*i),
        Value::Integer(Integer::U64(u)) => Some(*u as i64),
        _ => None,
    }
}

#[test]
fn value_get_finds_the_first_pair_with_the_key() {
    let v = map(vec![("a", 1i32.into_value()), ("b", 2i32.into_value()), ("a", 3i32.into_value())]);
    assert_eq!(v.get("a").and_then(as_int), Some(1));
    assert_eq!(v.get("b").and_then(as_int), Some(2));
    assert!(v.get("c").is_none());
    assert!(Value::Nil.get("a").is_none());
}

#[test]
fn value_set_replaces_or_appends() {
    let mut v = map(vec![("a", 1i32.into_value())]);
    v.set("a", 5i32.into_value());
    v.set("b", 6i32.into_value());
    assert_eq!(keys(&v), vec!["a".to_string(), "b".to_string()]);
    assert_eq!(v.get("a").and_then(as_int), Some(5));
    assert_eq!(v.get("b").and_then(as_int), Some(6));
    let mut n = Value::Nil;
    n.set("a", 1i32.into_value());
    assert!(n.is_nil());
}

#[test]
fn value_remove_swaps_the_last_pair_in() {
    let mut v = map(vec![("a", 1i32.into_value()), ("b", 2i32.into_value()), ("c", 3i32.into_value())]);
    let removed = v.remove("a");
    assert_eq!(removed.as_ref().and_then(as_int), Some(1));
    assert_eq!(keys(&v), vec!["c".to_string(), "b".to_string()]);
    assert!(v.remove("z").is_none());
    assert_eq!(keys(&v).len(), 2);
}

#[test]
fn value_extend_appends_the_pairs_of_a_map() {
    let mut v = map(vec![("a", 1i32.into_value())]);
    let other = map(vec![("b", 2i32.into_value())]);
    v.extend(&other);
    assert_eq!(keys(&v), vec!["a".to_string(), "b".to_string()]);
    let mut n = Value::Boolean(true);
    n.extend(&other);
    assert!(matches!(n, Value::Boolean(true)));
}

#[test]
fn value_lookup_follows_a_dotted_path() {
    let inner = map(vec![("c", 7i32.into_value())]);
    let middle = map(vec![("b", inner)]);
    let v = map(vec![("a", middle), ("x", 1i32.into_value())]);
    assert_eq!(v.lookup("a.b.c").and_then(as_int), Some(7));
    assert_eq!(v.lookup("x").and_then(as_int), Some(1));
    assert!(v.lookup("a.b.d").is_none());
    assert!(v.lookup("a.z.c").is_none());
    assert!(v.lookup("x.y").is_none());
    assert!(v.lookup("a..b").is_none());
    assert!(v.lookup("").is_none());
}

#[test]
fn value_lookup_accepts_an_empty_key() {
    let v = map(vec![("", 4i32.into_value())]);
    assert_eq!(v.lookup("").and_then(as_int), Some(4));
}

#[test]
fn value_is_nil_only_for_nil() {
    assert!(Value::Nil.is_nil());
    assert!(!Value::Boolean(false).is_nil());
}

#[test]
fn value_clone_value_copies_nested_values() {
    let v = map(vec![("a", Value::Array(vec![Value::Nil, str_value("x")]))]);
    let c = v.clone_value();
    match c.get("a") {
        Some(Value::Array(items)) => {
            assert_eq!(items.len(), 2);
            assert!(items[0].is_nil());
            assert!(matches!(&items[1], Value::String(s) if s == "x"));
        },
        _ => panic!("the copy lost its array"),
    }
}

#[test]
fn value_to_and_from_convert() {
    let v = Value::from(300u16);
    assert!(matches!(v, Value::Integer(Integer::U64(300))));
    assert_eq!(v.to::<u16>(), Some(300));
    assert_eq!(v.to::<u8>(), Some(44));
    assert_eq!(v.to::<bool>(), None);
}

#[test]
fn convert_integers_keep_the_low_bits() {
    assert_eq!(u8::from_value(&Value::Integer(Integer::U64(255))), Some(255));
    assert_eq!(u8::from_value(&Value::Integer(Integer::U64(256))), Some(0));
    assert_eq!(i8::from_value(&Value::Integer(Integer::I64(-128))), Some(-128));
    assert_eq!(i8::from_value(&Value::Integer(Integer::I64(-129))), Some(127));
    assert_eq!(u32::from_value(&Value::Integer(Integer::I64(5))), Some(5));
    assert_eq!(u32::from_value(&Value::Integer(Integer::I64(-1))), Some(u32::MAX));
    assert_eq!(i64::from_value(&Value::Integer(Integer::U64(u64::MAX))), Some(-1));
    assert_eq!(u16::from_value(&Value::Nil), None);
}

#[test]
fn convert_options_read_nil_as_none() {
    assert_eq!(Option::<u32>::from_value(&Value::Nil), Some(None));
    assert_eq!(Option::<u32>::from_value(&Value::Integer(Integer::U64(3))), Some(Some(3)));
    assert_eq!(Option::<u32>::from_value(&Value::Boolean(true)), None);
    assert!(Option::<u32>::None.into_value().is_nil());
}

#[test]
fn convert_integer_arrays() {
    let v = Value::Array(vec![1i32.into_value(), 2i32.into_value()]);
    assert_eq!(Vec::<i32>::from_value(&v), Some(vec![1, 2]));
    let bad = Value::Array(vec![1i32.into_value(), Value::Nil]);
    assert_eq!(Vec::<i32>::from_value(&bad), None);
}

#[test]
fn convert_strings_and_bytes() {
    assert_eq!(String::from_value(&str_value("hi")), Some("hi".to_string()));
    assert_eq!(String::from_value(&Value::Nil), None);
    assert!(matches!(vec![1u8, 2].into_value(), Value::Binary(b) if b == vec![1, 2]));
}

#[test]
fn convert_timestamps_through_chrono() {
    let t = Timestamp::from_value(&str_value("1970-01-01T00:01:40.5Z"));
    assert_eq!(t, Some(Timestamp { secs: 100, nanos: 500_000_000 }));
    assert_eq!(Timestamp::from_value(&str_value("not a date")), None);
    assert_eq!(Timestamp::from_value(&Value::Nil), None);
    assert_eq!(Timestamp::from_parsed(Some((3, 4))), Some(Timestamp { secs: 3, nanos: 4 }));
    assert_eq!(Timestamp::from_parsed(None), None);
}

#[test]
fn value_remove_after_set_gives_the_value() {
    let mut v = map(vec![("a", 1i32.into_value())]);
    v.set("b", 9i32.into_value());
    assert_eq!(v.remove("b").as_ref().and_then(as_int), Some(9));
    v.set("a", 4i32.into_value());
    assert_eq!(v.remove("a").as_ref().and_then(as_int), Some(4));
}

#[test]
fn convert_pairs_both_ways() {
    let pairs: Vec<(String, u32)> = vec![("a".to_string(), 1), ("b".to_string(), 2)];
    let v = pairs.into_value();
    assert!(matches!(v.get("b"), Some(Value::Integer(Integer::U64(2)))));
    assert_eq!(Vec::<(String, u32)>::from_value(&v), Some(vec![("a".to_string(), 1), ("b".to_string(), 2)]));
    let bad = map(vec![("a", Value::Nil)]);
    assert_eq!(Vec::<(String, u32)>::from_value(&bad), None);
    assert_eq!(Vec::<(String, u32)>::from_value(&Value::Nil), None);
}
