use vstd::prelude::*;
use crate::map::KvsMap;
use crate::value::{Float64, KvsValue};

verus! {

/// Which variant of `KvsValue` a value is.
pub ghost enum ValueKind {
    I32,
    U32,
    I64,
    U64,
    F64,
    Boolean,
    Str,
    Null,
    Array,
    Object,
}

impl KvsValue {
    /// The variant of this value.
    pub open spec fn kind(self) -> ValueKind {
        match self {
            KvsValue::I32(_) => ValueKind::I32,
            KvsValue::U32(_) => ValueKind::U32,
            KvsValue::I64(_) => ValueKind::I64,
            KvsValue::U64(_) => ValueKind::U64,
            KvsValue::F64(_) => ValueKind::F64,
            KvsValue::Boolean(_) => ValueKind::Boolean,
            KvsValue::String(_) => ValueKind::Str,
            KvsValue::Null => ValueKind::Null,
            KvsValue::Array(_) => ValueKind::Array,
            KvsValue::Object(_) => ValueKind::Object,
        }
    }

    /// A reference to the payload of this value, if it holds a `T`.
    pub fn get<T: KvsValueGet>(&self) -> (r: Option<&T>)
        ensures
            match T::inner_value_spec(*self) {
                Some(x) => r matches Some(y) && *y == x,
                None => r is None,
            },
    {
        T::get_inner_value(self)
    }
}

/// A native type that one variant of `KvsValue` holds.
pub trait KvsValueGet: Sized {
    /// The variant that holds this type.
    spec fn kind() -> ValueKind;

    /// The payload of `val`, where `val` holds this type.
    spec fn inner_value_spec(val: KvsValue) -> Option<Self>;

    /// A value holds this type exactly when it is of this type's variant.
    proof fn lemma_inner_value_kind(val: KvsValue)
        ensures
            Self::inner_value_spec(val) is Some <==> val.kind() == Self::kind(),
    ;

    /// A reference to the payload of `val`, where it holds this type.
    fn get_inner_value(val: &KvsValue) -> (r: Option<&Self>)
        ensures
            match Self::inner_value_spec(*val) {
                Some(x) => r matches Some(y) && *y == x,
                None => r is None,
            },
    ;
}

impl KvsValueGet for i32 {
    open spec fn kind() -> ValueKind {
        ValueKind::I32
    }

    open spec fn inner_value_spec(val: KvsValue) -> Option<i32> {
        match val {
            KvsValue::I32(n) => Some(n),
            _ => None,
        }
    }

    proof fn lemma_inner_value_kind(val: KvsValue) {
    }

    fn get_inner_value(val: &KvsValue) -> (r: Option<&i32>) {
        match val {
            KvsValue::I32(n) => Some(n),
            _ => None,
        }
    }
}

impl KvsValueGet for u32 {
    open spec fn kind() -> ValueKind {
        ValueKind::U32
    }

    open spec fn inner_value_spec(val: KvsValue) -> Option<u32> {
        match val {
            KvsValue::U32(n) => Some(n),
            _ => None,
        }
    }

    proof fn lemma_inner_value_kind(val: KvsValue) {
    }

    fn get_inner_value(val: &KvsValue) -> (r: Option<&u32>) {
        match val {
            KvsValue::U32(n) => Some(n),
            _ => None,
        }
    }
}

impl KvsValueGet for i64 {
    open spec fn kind() -> ValueKind {
        ValueKind::I64
    }

    open spec fn inner_value_spec(val: KvsValue) -> Option<i64> {
        match val {
            KvsValue::I64(n) => Some(n),
            _ => None,
        }
    }

    proof fn lemma_inner_value_kind(val: KvsValue) {
    }

    fn get_inner_value(val: &KvsValue) -> (r: Option<&i64>) {
        match val {
            KvsValue::I64(n) => Some(n),
            _ => None,
        }
    }
}

impl KvsValueGet for u64 {
    open spec fn kind() -> ValueKind {
        ValueKind::U64
    }

    open spec fn inner_value_spec(val: KvsValue) -> Option<u64> {
        match val {
            KvsValue::U64(n) => Some(n),
            _ => None,
        }
    }

    proof fn lemma_inner_value_kind(val: KvsValue) {
    }

    fn get_inner_value(val: &KvsValue) -> (r: Option<&u64>) {
        match val {
            KvsValue::U64(n) => Some(n),
            _ => None,
        }
    }
}

impl KvsValueGet for Float64 {
    open spec fn kind() -> ValueKind {
        ValueKind::F64
    }

    open spec fn inner_value_spec(val: KvsValue) -> Option<Float64> {
        match val {
            KvsValue::F64(n) => Some(n),
            _ => None,
        }
    }

    proof fn lemma_inner_value_kind(val: KvsValue) {
    }

    fn get_inner_value(val: &KvsValue) -> (r: Option<&Float64>) {
        match val {
            KvsValue::F64(n) => Some(n),
            _ => None,
        }
    }
}

impl KvsValueGet for bool {
    open spec fn kind() -> ValueKind {
        ValueKind::Boolean
    }

    open spec fn inner_value_spec(val: KvsValue) -> Option<bool> {
        match val {
            KvsValue::Boolean(n) => Some(n),
            _ => None,
        }
    }

    proof fn lemma_inner_value_kind(val: KvsValue) {
    }

    fn get_inner_value(val: &KvsValue) -> (r: Option<&bool>) {
        match val {
            KvsValue::Boolean(n) => Some(n),
            _ => None,
        }
    }
}

impl KvsValueGet for String {
    open spec fn kind() -> ValueKind {
        ValueKind::Str
    }

    open spec fn inner_value_spec(val: KvsValue) -> Option<String> {
        match val {
            KvsValue::String(n) => Some(n),
            _ => None,
        }
    }

    proof fn lemma_inner_value_kind(val: KvsValue) {
    }

    fn get_inner_value(val: &KvsValue) -> (r: Option<&String>) {
        match val {
            KvsValue::String(n) => Some(n),
            _ => None,
        }
    }
}

impl KvsValueGet for Vec<KvsValue> {
    open spec fn kind() -> ValueKind {
        ValueKind::Array
    }

    open spec fn inner_value_spec(val: KvsValue) -> Option<Vec<KvsValue>> {
        match val {
            KvsValue::Array(n) => Some(n),
            _ => None,
        }
    }

    proof fn lemma_inner_value_kind(val: KvsValue) {
    }

    fn get_inner_value(val: &KvsValue) -> (r: Option<&Vec<KvsValue>>) {
        match val {
            KvsValue::Array(n) => Some(n),
            _ => None,
        }
    }
}

impl KvsValueGet for KvsMap {
    open spec fn kind() -> ValueKind {
        ValueKind::Object
    }

    open spec fn inner_value_spec(val: KvsValue) -> Option<KvsMap> {
        match val {
            KvsValue::Object(n) => Some(n),
            _ => None,
        }
    }

    proof fn lemma_inner_value_kind(val: KvsValue) {
    }

    fn get_inner_value(val: &KvsValue) -> (r: Option<&KvsMap>) {
        match val {
            KvsValue::Object(n) => Some(n),
            _ => None,
        }
    }
}

impl KvsValueGet for () {
    open spec fn kind() -> ValueKind {
        ValueKind::Null
    }

    open spec fn inner_value_spec(val: KvsValue) -> Option<()> {
        match val {
            KvsValue::Null => Some(()),
            _ => None,
        }
    }

    proof fn lemma_inner_value_kind(val: KvsValue) {
    }

    fn get_inner_value(val: &KvsValue) -> (r: Option<&()>) {
        match val {
            KvsValue::Null => Some(&()),
            _ => None,
        }
    }
}

} // verus!
