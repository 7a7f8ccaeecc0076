use vstd::prelude::*;
use vstd::std_specs::convert::FromSpec;
use crate::access::KvsValueGet;
use crate::map::KvsMap;
use crate::value::{Float64, KvsValue, float_bits_eq, lemma_array_model_eq, model_eq};

verus! {

/// Round trip: the value built from a native payload holds that payload, so
/// the accessor finds it and extraction hands it back.
pub proof fn lemma_round_trip(
    a: i32,
    b: u32,
    c: i64,
    d: u64,
    e: Float64,
    f: bool,
    s: String,
    arr: Vec<KvsValue>,
    obj: KvsMap,
)
    ensures
        <i32 as KvsValueGet>::inner_value_spec(<KvsValue as FromSpec<i32>>::from_spec(a)) == Some(a),
        <u32 as KvsValueGet>::inner_value_spec(<KvsValue as FromSpec<u32>>::from_spec(b)) == Some(b),
        <i64 as KvsValueGet>::inner_value_spec(<KvsValue as FromSpec<i64>>::from_spec(c)) == Some(c),
        <u64 as KvsValueGet>::inner_value_spec(<KvsValue as FromSpec<u64>>::from_spec(d)) == Some(d),
        <Float64 as KvsValueGet>::inner_value_spec(<KvsValue as FromSpec<Float64>>::from_spec(e))
            == Some(e),
        <bool as KvsValueGet>::inner_value_spec(<KvsValue as FromSpec<bool>>::from_spec(f)) == Some(f),
        <String as KvsValueGet>::inner_value_spec(<KvsValue as FromSpec<String>>::from_spec(s))
            == Some(s),
        <Vec<KvsValue> as KvsValueGet>::inner_value_spec(
            <KvsValue as FromSpec<Vec<KvsValue>>>::from_spec(arr),
        ) == Some(arr),
        <KvsMap as KvsValueGet>::inner_value_spec(<KvsValue as FromSpec<KvsMap>>::from_spec(obj))
            == Some(obj),
        <() as KvsValueGet>::inner_value_spec(<KvsValue as FromSpec<()>>::from_spec(())) == Some(()),
{
}

/// A value that holds a `U` holds no other type `T`: asking it for a `T`
/// finds nothing, and extracting a `T` from it fails.
pub proof fn lemma_mismatch_absent<T: KvsValueGet, U: KvsValueGet>(v: KvsValue)
    requires
        U::inner_value_spec(v) is Some,
        T::kind() != U::kind(),
    ensures
        T::inner_value_spec(v) is None,
{
    U::lemma_inner_value_kind(v);
    T::lemma_inner_value_kind(v);
}

/// Null holds the unit type and nothing else holds it.
pub proof fn lemma_null_symmetry(v: KvsValue)
    ensures
        <KvsValue as FromSpec<()>>::from_spec(()) == KvsValue::Null,
        <() as KvsValueGet>::inner_value_spec(v) is Some <==> v is Null,
{
}

/// Structural equality: two values are equal exactly when they are of the
/// same variant with equal payloads. Floats compare by IEEE 754 (a NaN equals
/// nothing, +0.0 equals -0.0); arrays have equal lengths and equal elements in
/// order; objects have the same keys mapped to equal values.
pub proof fn lemma_structural_equality(x: KvsValue, y: KvsValue)
    ensures
        model_eq(x.model(), y.model()) <==> match (x, y) {
            (KvsValue::I32(a), KvsValue::I32(b)) => a == b,
            (KvsValue::U32(a), KvsValue::U32(b)) => a == b,
            (KvsValue::I64(a), KvsValue::I64(b)) => a == b,
            (KvsValue::U64(a), KvsValue::U64(b)) => a == b,
            (KvsValue::F64(a), KvsValue::F64(b)) => float_bits_eq(a.bits, b.bits),
            (KvsValue::Boolean(a), KvsValue::Boolean(b)) => a == b,
            (KvsValue::String(a), KvsValue::String(b)) => a@ == b@,
            (KvsValue::Null, KvsValue::Null) => true,
            (KvsValue::Array(a), KvsValue::Array(b)) => a@.len() == b@.len() && forall|i: int|
                0 <= i < a@.len() ==> #[trigger] model_eq(a@[i].model(), b@[i].model()),
            (KvsValue::Object(a), KvsValue::Object(b)) => a.model().dom() == b.model().dom()
                && forall|k: Seq<char>|
                a.model().contains_key(k) ==> #[trigger] model_eq(a.model()[k], b.model()[k]),
            _ => false,
        },
{
    match (x, y) {
        (KvsValue::Array(a), KvsValue::Array(b)) => {
            lemma_array_model_eq(a@, b@);
        },
        (KvsValue::Object(a), KvsValue::Object(b)) => {
            let (ma, mb) = (a.model(), b.model());
            if model_eq(x.model(), y.model()) {
                assert forall|k: Seq<char>| ma.contains_key(k) implies #[trigger] model_eq(ma[k], mb[k]) by {
                    assert(model_eq(ma[k], mb[k]));
                }
            }
            if ma.dom() == mb.dom() && forall|k: Seq<char>|
                ma.contains_key(k) ==> #[trigger] model_eq(ma[k], mb[k]) {
                assert forall|k: Seq<char>| ma.contains_key(k) implies model_eq(#[trigger] ma[k], mb[k]) by {
                    assert(model_eq(ma[k], mb[k]));
                }
            }
        },
        _ => {},
    }
}

} // verus!
