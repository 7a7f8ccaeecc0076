use vstd::prelude::*;
use std::convert::TryFrom;
use crate::access::KvsValueGet;
use crate::map::KvsMap;
use crate::value::{clone_values, seq_model, Float64, KvsValue};

verus! {

impl TryFrom<&KvsValue> for i32 {
    type Error = String;

    fn try_from(value: &KvsValue) -> (r: Result<i32, String>)
        ensures
            match <i32 as KvsValueGet>::inner_value_spec(*value) {
                Some(n) => r == Ok::<i32, String>(n),
                None => r matches Err(e) && e@ == "KvsValue is not a i32"@,
            },
    {
        match value {
            KvsValue::I32(n) => Ok(*n),
            _ => Err("KvsValue is not a i32".to_owned()),
        }
    }
}

impl vstd::std_specs::convert::TryFromSpecImpl<&KvsValue> for i32 {
    /// The message of a failure is a new string that no spec expression can
    /// name: the contract of `try_from` states its characters instead.
    open spec fn obeys_try_from_spec() -> bool {
        false
    }

    open spec fn try_from_spec(value: &KvsValue) -> Result<i32, String> {
        match *value {
            KvsValue::I32(n) => Ok(n),
            _ => Err(choose|e: String| #[trigger] e@ == "KvsValue is not a i32"@),
        }
    }
}

impl TryFrom<&KvsValue> for u32 {
    type Error = String;

    fn try_from(value: &KvsValue) -> (r: Result<u32, String>)
        ensures
            match <u32 as KvsValueGet>::inner_value_spec(*value) {
                Some(n) => r == Ok::<u32, String>(n),
                None => r matches Err(e) && e@ == "KvsValue is not a u32"@,
            },
    {
        match value {
            KvsValue::U32(n) => Ok(*n),
            _ => Err("KvsValue is not a u32".to_owned()),
        }
    }
}

impl vstd::std_specs::convert::TryFromSpecImpl<&KvsValue> for u32 {
    /// The message of a failure is a new string that no spec expression can
    /// name: the contract of `try_from` states its characters instead.
    open spec fn obeys_try_from_spec() -> bool {
        false
    }

    open spec fn try_from_spec(value: &KvsValue) -> Result<u32, String> {
        match *value {
            KvsValue::U32(n) => Ok(n),
            _ => Err(choose|e: String| #[trigger] e@ == "KvsValue is not a u32"@),
        }
    }
}

impl TryFrom<&KvsValue> for i64 {
    type Error = String;

    fn try_from(value: &KvsValue) -> (r: Result<i64, String>)
        ensures
            match <i64 as KvsValueGet>::inner_value_spec(*value) {
                Some(n) => r == Ok::<i64, String>(n),
                None => r matches Err(e) && e@ == "KvsValue is not a i64"@,
            },
    {
        match value {
            KvsValue::I64(n) => Ok(*n),
            _ => Err("KvsValue is not a i64".to_owned()),
        }
    }
}

impl vstd::std_specs::convert::TryFromSpecImpl<&KvsValue> for i64 {
    /// The message of a failure is a new string that no spec expression can
    /// name: the contract of `try_from` states its characters instead.
    open spec fn obeys_try_from_spec() -> bool {
        false
    }

    open spec fn try_from_spec(value: &KvsValue) -> Result<i64, String> {
        match *value {
            KvsValue::I64(n) => Ok(n),
            _ => Err(choose|e: String| #[trigger] e@ == "KvsValue is not a i64"@),
        }
    }
}

impl TryFrom<&KvsValue> for u64 {
    type Error = String;

    fn try_from(value: &KvsValue) -> (r: Result<u64, String>)
        ensures
            match <u64 as KvsValueGet>::inner_value_spec(*value) {
                Some(n) => r == Ok::<u64, String>(n),
                None => r matches Err(e) && e@ == "KvsValue is not a u64"@,
            },
    {
        match value {
            KvsValue::U64(n) => Ok(*n),
            _ => Err("KvsValue is not a u64".to_owned()),
        }
    }
}

impl vstd::std_specs::convert::TryFromSpecImpl<&KvsValue> for u64 {
    /// The message of a failure is a new string that no spec expression can
    /// name: the contract of `try_from` states its characters instead.
    open spec fn obeys_try_from_spec() -> bool {
        false
    }

    open spec fn try_from_spec(value: &KvsValue) -> Result<u64, String> {
        match *value {
            KvsValue::U64(n) => Ok(n),
            _ => Err(choose|e: String| #[trigger] e@ == "KvsValue is not a u64"@),
        }
    }
}

impl TryFrom<&KvsValue> for Float64 {
    type Error = String;

    fn try_from(value: &KvsValue) -> (r: Result<Float64, String>)
        ensures
            match <Float64 as KvsValueGet>::inner_value_spec(*value) {
                Some(n) => r == Ok::<Float64, String>(n),
                None => r matches Err(e) && e@ == "KvsValue is not a f64"@,
            },
    {
        match value {
            KvsValue::F64(n) => Ok(*n),
            _ => Err("KvsValue is not a f64".to_owned()),
        }
    }
}

impl vstd::std_specs::convert::TryFromSpecImpl<&KvsValue> for Float64 {
    /// The message of a failure is a new string that no spec expression can
    /// name: the contract of `try_from` states its characters instead.
    open spec fn obeys_try_from_spec() -> bool {
        false
    }

    open spec fn try_from_spec(value: &KvsValue) -> Result<Float64, String> {
        match *value {
            KvsValue::F64(n) => Ok(n),
            _ => Err(choose|e: String| #[trigger] e@ == "KvsValue is not a f64"@),
        }
    }
}

impl TryFrom<&KvsValue> for bool {
    type Error = String;

    fn try_from(value: &KvsValue) -> (r: Result<bool, String>)
        ensures
            match <bool as KvsValueGet>::inner_value_spec(*value) {
                Some(n) => r == Ok::<bool, String>(n),
                None => r matches Err(e) && e@ == "KvsValue is not a bool"@,
            },
    {
        match value {
            KvsValue::Boolean(n) => Ok(*n),
            _ => Err("KvsValue is not a bool".to_owned()),
        }
    }
}

impl vstd::std_specs::convert::TryFromSpecImpl<&KvsValue> for bool {
    /// The message of a failure is a new string that no spec expression can
    /// name: the contract of `try_from` states its characters instead.
    open spec fn obeys_try_from_spec() -> bool {
        false
    }

    open spec fn try_from_spec(value: &KvsValue) -> Result<bool, String> {
        match *value {
            KvsValue::Boolean(n) => Ok(n),
            _ => Err(choose|e: String| #[trigger] e@ == "KvsValue is not a bool"@),
        }
    }
}

impl TryFrom<&KvsValue> for String {
    type Error = String;

    fn try_from(value: &KvsValue) -> (r: Result<String, String>)
        ensures
            match <String as KvsValueGet>::inner_value_spec(*value) {
                Some(n) => r matches Ok(x) && x@ == n@,
                None => r matches Err(e) && e@ == "KvsValue is not a String"@,
            },
    {
        match value {
            KvsValue::String(n) => Ok(n.clone()),
            _ => Err("KvsValue is not a String".to_owned()),
        }
    }
}

impl vstd::std_specs::convert::TryFromSpecImpl<&KvsValue> for String {
    /// The message of a failure is a new string that no spec expression can
    /// name: the contract of `try_from` states its characters instead.
    open spec fn obeys_try_from_spec() -> bool {
        false
    }

    open spec fn try_from_spec(value: &KvsValue) -> Result<String, String> {
        match *value {
            KvsValue::String(n) => Ok(n),
            _ => Err(choose|e: String| #[trigger] e@ == "KvsValue is not a String"@),
        }
    }
}

impl TryFrom<&KvsValue> for Vec<KvsValue> {
    type Error = String;

    fn try_from(value: &KvsValue) -> (r: Result<Vec<KvsValue>, String>)
        ensures
            match <Vec<KvsValue> as KvsValueGet>::inner_value_spec(*value) {
                Some(n) => r matches Ok(x) && seq_model(x@, x@.len()) == seq_model(n@, n@.len()),
                None => r matches Err(e) && e@ == "KvsValue is not a Vec<KvsValue>"@,
            },
    {
        match value {
            KvsValue::Array(n) => Ok(clone_values(n)),
            _ => Err("KvsValue is not a Vec<KvsValue>".to_owned()),
        }
    }
}

impl vstd::std_specs::convert::TryFromSpecImpl<&KvsValue> for Vec<KvsValue> {
    /// The message of a failure is a new string that no spec expression can
    /// name: the contract of `try_from` states its characters instead.
    open spec fn obeys_try_from_spec() -> bool {
        false
    }

    open spec fn try_from_spec(value: &KvsValue) -> Result<Vec<KvsValue>, String> {
        match *value {
            KvsValue::Array(n) => Ok(n),
            _ => Err(choose|e: String| #[trigger] e@ == "KvsValue is not a Vec<KvsValue>"@),
        }
    }
}

impl TryFrom<&KvsValue> for KvsMap {
    type Error = String;

    fn try_from(value: &KvsValue) -> (r: Result<KvsMap, String>)
        ensures
            match <KvsMap as KvsValueGet>::inner_value_spec(*value) {
                Some(n) => r matches Ok(x) && x.model() == n.model(),
                None => r matches Err(e) && e@ == "KvsValue is not a std::collections::HashMap<String, KvsValue>"@,
            },
    {
        match value {
            KvsValue::Object(n) => Ok(n.deep_clone()),
            _ => Err("KvsValue is not a std::collections::HashMap<String, KvsValue>".to_owned()),
        }
    }
}

impl vstd::std_specs::convert::TryFromSpecImpl<&KvsValue> for KvsMap {
    /// The message of a failure is a new string that no spec expression can
    /// name: the contract of `try_from` states its characters instead.
    open spec fn obeys_try_from_spec() -> bool {
        false
    }

    open spec fn try_from_spec(value: &KvsValue) -> Result<KvsMap, String> {
        match *value {
            KvsValue::Object(n) => Ok(n),
            _ => Err(choose|e: String| #[trigger] e@ == "KvsValue is not a std::collections::HashMap<String, KvsValue>"@),
        }
    }
}

impl TryFrom<&KvsValue> for () {
    type Error = &'static str;

    fn try_from(value: &KvsValue) -> (r: Result<(), &'static str>)
        ensures
            match <() as KvsValueGet>::inner_value_spec(*value) {
                Some(n) => r == Ok::<(), &'static str>(()),
                None => r matches Err(e) && e@ == "KvsValue is not a Null (unit type)"@,
            },
    {
        match value {
            KvsValue::Null => Ok(()),
            _ => Err("KvsValue is not a Null (unit type)"),
        }
    }
}

impl vstd::std_specs::convert::TryFromSpecImpl<&KvsValue> for () {
    /// The message of a failure is a new string that no spec expression can
    /// name: the contract of `try_from` states its characters instead.
    open spec fn obeys_try_from_spec() -> bool {
        false
    }

    open spec fn try_from_spec(value: &KvsValue) -> Result<(), &'static str> {
        match *value {
            KvsValue::Null => Ok(()),
            _ => Err(choose|e: &'static str| #[trigger] e@ == "KvsValue is not a Null (unit type)"@),
        }
    }
}

} // verus!
