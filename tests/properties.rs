use rust_kvs::{Float64, KvsMap, KvsValue};
use std::convert::TryFrom;

#[test]
fn round_trip_every_type() {
    assert_eq!(i32::try_from(&KvsValue::from(i32::MIN)).unwrap(), i32::MIN);
    assert_eq!(u32::try_from(&KvsValue::from(u32::MAX)).unwrap(), u32::MAX);
    assert_eq!(i64::try_from(&KvsValue::from(i64::MIN)).unwrap(), i64::MIN);
    assert_eq!(u64::try_from(&KvsValue::from(u64::MAX)).unwrap(), u64::MAX);
    let f = Float64::from_bits((-0.5f64).to_bits());
    assert_eq!(Float64::try_from(&KvsValue::from(f)).unwrap(), f);
    assert!(!bool::try_from(&KvsValue::from(false)).unwrap());
    assert_eq!(String::try_from(&KvsValue::from(String::new())).unwrap(), "");
    assert_eq!(Vec::<KvsValue>::try_from(&KvsValue::from(Vec::new())).unwrap(), Vec::new());
    assert_eq!(KvsMap::try_from(&KvsValue::from(KvsMap::new())).unwrap(), KvsMap::new());
    assert_eq!(*KvsValue::from(7u64).get::<u64>().unwrap(), 7);
    assert!(KvsValue::from(()).get::<()>().is_some());
}

#[test]
fn mismatch_names_requested_type() {
    let v = KvsValue::from(1u32);
    assert_eq!(i32::try_from(&v).unwrap_err(), "KvsValue is not a i32");
    assert_eq!(i64::try_from(&v).unwrap_err(), "KvsValue is not a i64");
    assert_eq!(bool::try_from(&v).unwrap_err(), "KvsValue is not a bool");
    assert_eq!(String::try_from(&v).unwrap_err(), "KvsValue is not a String");
    assert_eq!(<()>::try_from(&v).unwrap_err(), "KvsValue is not a Null (unit type)");
    assert!(v.get::<i32>().is_none());
    assert!(v.get::<u64>().is_none());
    assert!(v.get::<KvsMap>().is_none());
    assert!(v.get::<()>().is_none());
    let n = KvsValue::from(());
    assert_eq!(u32::try_from(&n).unwrap_err(), "KvsValue is not a u32");
    assert_eq!(Vec::<KvsValue>::try_from(&n).unwrap_err(), "KvsValue is not a Vec<KvsValue>");
}

#[test]
fn equality_is_structural() {
    assert_eq!(KvsValue::from(1i32), KvsValue::from(1i32));
    assert_ne!(KvsValue::from(1i32), KvsValue::from(1i64));
    assert_ne!(KvsValue::from(1i32), KvsValue::from(2i32));
    assert_eq!(KvsValue::from("x"), KvsValue::from(String::from("x")));
    assert_eq!(KvsValue::from(()), KvsValue::Null);
    let a = KvsValue::from(vec![KvsValue::from(1i32), KvsValue::from("b")]);
    let b = KvsValue::from(vec![KvsValue::from(1i32), KvsValue::from("b")]);
    let c = KvsValue::from(vec![KvsValue::from("b"), KvsValue::from(1i32)]);
    let d = KvsValue::from(vec![KvsValue::from(1i32)]);
    assert_eq!(a, b);
    assert_ne!(a, c);
    assert_ne!(a, d);
}

#[test]
fn object_equality_ignores_insertion_order() {
    let mut m1 = KvsMap::new();
    m1.insert("a".to_string(), KvsValue::from(1i32));
    m1.insert("b".to_string(), KvsValue::from(vec![KvsValue::from(true)]));
    let mut m2 = KvsMap::new();
    m2.insert("b".to_string(), KvsValue::from(vec![KvsValue::from(true)]));
    m2.insert("a".to_string(), KvsValue::from(1i32));
    assert_eq!(KvsValue::from(m1.clone()), KvsValue::from(m2.clone()));
    m2.insert("c".to_string(), KvsValue::from(()));
    assert_ne!(KvsValue::from(m1.clone()), KvsValue::from(m2.clone()));
    m1.insert("c".to_string(), KvsValue::from(false));
    assert_ne!(m1, m2);
}

#[test]
fn object_lookup_missing_key_is_absent() {
    let mut map = KvsMap::new();
    map.insert("a".to_string(), KvsValue::from(1i32));
    let v = KvsValue::from(map);
    let obj = v.get::<KvsMap>().unwrap();
    assert_eq!(obj.get("a"), Some(&KvsValue::I32(1)));
    assert_eq!(obj.get("b"), None);
    assert!(!obj.contains_key("b"));
}

#[test]
fn map_insert_replaces_and_returns_previous() {
    let mut map = KvsMap::new();
    assert_eq!(map.insert("k".to_string(), KvsValue::from(1i32)), None);
    assert_eq!(map.insert("k".to_string(), KvsValue::from(2i32)), Some(KvsValue::from(1i32)));
    assert_eq!(map.get("k"), Some(&KvsValue::I32(2)));
    let mut one = KvsMap::new();
    one.insert("k".to_string(), KvsValue::from(2i32));
    assert_eq!(map, one);
}

#[test]
fn array_index_scenario() {
    let v = KvsValue::from(vec![KvsValue::from(10i32), KvsValue::from(20i32)]);
    let arr = v.get::<Vec<KvsValue>>().unwrap();
    assert_eq!(arr.get(0), Some(&KvsValue::I32(10)));
    assert_eq!(arr.get(1), Some(&KvsValue::I32(20)));
    assert_eq!(arr.get(2), None);
}

#[test]
fn null_symmetry() {
    let v = KvsValue::from(());
    assert!(matches!(v, KvsValue::Null));
    assert!(<()>::try_from(&v).is_ok());
    for other in [KvsValue::from(0i32), KvsValue::from(""), KvsValue::from(Vec::new())] {
        assert_eq!(<()>::try_from(&other).unwrap_err(), "KvsValue is not a Null (unit type)");
    }
}

#[test]
fn string_scenario() {
    let v = KvsValue::from("abc");
    assert_eq!(i32::try_from(&v).unwrap_err(), "KvsValue is not a i32");
    assert_eq!(String::try_from(&v).unwrap(), "abc");
}

#[test]
fn clone_is_deep_and_equal() {
    let mut inner = KvsMap::new();
    inner.insert("n".to_string(), KvsValue::from(vec![KvsValue::from(1u64)]));
    let v = KvsValue::from(vec![KvsValue::from(inner), KvsValue::from("s")]);
    let w = v.clone();
    assert_eq!(v, w);
}

#[test]
fn float_keeps_bit_pattern() {
    let f = Float64::from_bits(2.5f64.to_bits());
    assert_eq!(f.to_bits(), 2.5f64.to_bits());
    let v = KvsValue::from(f);
    assert_eq!(f64::from_bits(v.get::<Float64>().unwrap().to_bits()), 2.5);
}

#[test]
fn float_equality_is_ieee() {
    let nan = KvsValue::from(Float64::from_bits(f64::NAN.to_bits()));
    assert_ne!(nan, nan.clone());
    let pos = KvsValue::from(Float64::from_bits(0.0f64.to_bits()));
    let neg = KvsValue::from(Float64::from_bits((-0.0f64).to_bits()));
    assert_eq!(pos, neg);
    let one = KvsValue::from(Float64::from_bits(1.0f64.to_bits()));
    let two = KvsValue::from(Float64::from_bits(2.0f64.to_bits()));
    assert_eq!(one, one.clone());
    assert_ne!(one, two);
    let inf = Float64::from_bits(f64::INFINITY.to_bits());
    assert_eq!(inf, inf);
    assert_ne!(
        KvsValue::from(vec![nan.clone()]),
        KvsValue::from(vec![nan.clone()])
    );
}

#[test]
fn map_len_keys_remove() {
    let mut map = KvsMap::new();
    assert!(map.is_empty());
    map.insert("a".to_string(), KvsValue::from(1i32));
    map.insert("b".to_string(), KvsValue::from(2i32));
    map.insert("a".to_string(), KvsValue::from(3i32));
    assert_eq!(map.len(), 2);
    assert!(!map.is_empty());
    let mut keys = map.keys();
    keys.sort();
    assert_eq!(keys, vec!["a".to_string(), "b".to_string()]);
    assert_eq!(map.remove("a"), Some(KvsValue::from(3i32)));
    assert_eq!(map.remove("a"), None);
    assert_eq!(map.len(), 1);
    assert!(!map.contains_key("a"));
    assert_eq!(map.get("b"), Some(&KvsValue::I32(2)));
}
