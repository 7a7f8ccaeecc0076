use vstd::prelude::*;
use crate::map::KvsMap;

verus! {

broadcast use vstd::seq::group_seq_axioms, vstd::map::group_map_axioms;

/// A 64-bit floating-point number, held as its IEEE 754 bit pattern.
#[derive(Clone, Copy, Debug)]
pub struct Float64 {
    pub bits: u64,
}

/// Whether the bit pattern `x` encodes a NaN: every exponent bit set and a
/// nonzero fraction.
pub open spec fn is_nan_bits(x: u64) -> bool {
    (x & 0x7FF0_0000_0000_0000u64) == 0x7FF0_0000_0000_0000u64 && (x & 0x000F_FFFF_FFFF_FFFFu64)
        != 0
}

/// IEEE 754 equality of the floats with bit patterns `x` and `y`: a NaN
/// equals nothing, not even itself, and +0.0 equals -0.0.
pub open spec fn float_bits_eq(x: u64, y: u64) -> bool {
    !is_nan_bits(x) && !is_nan_bits(y) && (x == y || ((x & 0x7FFF_FFFF_FFFF_FFFFu64) == 0 && (y
        & 0x7FFF_FFFF_FFFF_FFFFu64) == 0))
}

impl Float64 {
    /// The float whose bit pattern is `bits`.
    pub fn from_bits(bits: u64) -> (r: Float64)
        ensures
            r.bits == bits,
    {
        Float64 { bits }
    }

    /// The bit pattern of this float.
    pub fn to_bits(&self) -> (r: u64)
        ensures
            r == self.bits,
    {
        self.bits
    }

    /// IEEE 754 equality of the two floats.
    pub fn ieee_eq(&self, other: &Float64) -> (r: bool)
        ensures
            r == float_bits_eq(self.bits, other.bits),
    {
        let x = self.bits;
        let y = other.bits;
        let x_nan = (x & 0x7FF0_0000_0000_0000u64) == 0x7FF0_0000_0000_0000u64 && (x
            & 0x000F_FFFF_FFFF_FFFFu64) != 0;
        let y_nan = (y & 0x7FF0_0000_0000_0000u64) == 0x7FF0_0000_0000_0000u64 && (y
            & 0x000F_FFFF_FFFF_FFFFu64) != 0;
        !x_nan && !y_nan && (x == y || ((x & 0x7FFF_FFFF_FFFF_FFFFu64) == 0 && (y
            & 0x7FFF_FFFF_FFFF_FFFFu64) == 0))
    }
}

impl PartialEq for Float64 {
    fn eq(&self, other: &Self) -> (r: bool) {
        self.ieee_eq(other)
    }
}

impl vstd::std_specs::cmp::PartialEqSpecImpl for Float64 {
    open spec fn obeys_eq_spec() -> bool {
        true
    }

    open spec fn eq_spec(&self, other: &Float64) -> bool {
        float_bits_eq(self.bits, other.bits)
    }
}

/// A value stored under one key.
#[derive(Debug)]
pub enum KvsValue {
    /// 32-bit signed integer
    I32(i32),
    /// 32-bit unsigned integer
    U32(u32),
    /// 64-bit signed integer
    I64(i64),
    /// 64-bit unsigned integer
    U64(u64),
    /// 64-bit float
    F64(Float64),
    /// Boolean
    Boolean(bool),
    /// String
    String(String),
    /// Null
    Null,
    /// Array
    Array(Vec<KvsValue>),
    /// Object
    Object(KvsMap),
}

/// What a value means, independent of how its objects order their entries.
pub ghost enum ValueModel {
    I32(i32),
    U32(u32),
    I64(i64),
    U64(u64),
    F64(u64),
    Boolean(bool),
    Str(Seq<char>),
    Null,
    Array(Seq<ValueModel>),
    Object(Map<Seq<char>, ValueModel>),
}

impl KvsValue {
    /// The meaning of this value: payloads as plain values, arrays as
    /// sequences of models, objects as maps from keys to models.
    pub open spec fn model(self) -> ValueModel
        decreases self, 0nat,
    {
        match self {
            KvsValue::I32(n) => ValueModel::I32(n),
            KvsValue::U32(n) => ValueModel::U32(n),
            KvsValue::I64(n) => ValueModel::I64(n),
            KvsValue::U64(n) => ValueModel::U64(n),
            KvsValue::F64(f) => ValueModel::F64(f.bits),
            KvsValue::Boolean(b) => ValueModel::Boolean(b),
            KvsValue::String(s) => ValueModel::Str(s@),
            KvsValue::Null => ValueModel::Null,
            KvsValue::Array(a) => ValueModel::Array(seq_model(a@, a@.len())),
            KvsValue::Object(m) => ValueModel::Object(m.model()),
        }
    }
}

/// The models of the first `n` values of `s`.
pub open spec fn seq_model(s: Seq<KvsValue>, n: nat) -> Seq<ValueModel>
    decreases s, n,
{
    if n == 0 || n > s.len() {
        Seq::empty()
    } else {
        seq_model(s, (n - 1) as nat).push(s[n - 1].model())
    }
}

/// Equality of two models: floats by IEEE 754, arrays element by element,
/// objects key by key, every other payload by its value.
pub open spec fn model_eq(a: ValueModel, b: ValueModel) -> bool
    decreases a,
{
    match (a, b) {
        (ValueModel::F64(x), ValueModel::F64(y)) => float_bits_eq(x, y),
        (ValueModel::Array(s), ValueModel::Array(t)) => s.len() == t.len() && forall|i: int|
            0 <= i < s.len() ==> model_eq(#[trigger] s[i], t[i]),
        (ValueModel::Object(m), ValueModel::Object(n)) => m.dom() == n.dom() && forall|k: Seq<char>|
            m.contains_key(k) ==> model_eq(#[trigger] m[k], n[k]),
        (ValueModel::F64(_), _) => false,
        (ValueModel::Array(_), _) => false,
        (ValueModel::Object(_), _) => false,
        _ => a == b,
    }
}

proof fn lemma_seq_model(s: Seq<KvsValue>, n: nat)
    requires
        n <= s.len(),
    ensures
        seq_model(s, n).len() == n,
        forall|i: int| 0 <= i < n ==> #[trigger] seq_model(s, n)[i] == s[i].model(),
    decreases n,
{
    if n > 0 {
        lemma_seq_model(s, (n - 1) as nat);
    }
}

/// Two sequences of values have equal models exactly when they have equal
/// lengths and pairwise equal models.
pub proof fn lemma_seq_model_eq(a: Seq<KvsValue>, b: Seq<KvsValue>)
    ensures
        (seq_model(a, a.len()) == seq_model(b, b.len())) <==> (a.len() == b.len() && forall|i: int|
            0 <= i < a.len() ==> #[trigger] a[i].model() == b[i].model()),
{
    lemma_seq_model(a, a.len());
    lemma_seq_model(b, b.len());
    if a.len() == b.len() && forall|i: int| 0 <= i < a.len() ==> #[trigger] a[i].model() == b[i].model() {
        assert(seq_model(a, a.len()) =~= seq_model(b, b.len()));
    }
    if seq_model(a, a.len()) == seq_model(b, b.len()) {
        assert forall|i: int| 0 <= i < a.len() implies #[trigger] a[i].model() == b[i].model() by {
            assert(seq_model(a, a.len())[i] == seq_model(b, b.len())[i]);
        }
    }
}

/// Two arrays are equal exactly when they have equal lengths and pairwise
/// equal elements.
pub proof fn lemma_array_model_eq(a: Seq<KvsValue>, b: Seq<KvsValue>)
    ensures
        model_eq(ValueModel::Array(seq_model(a, a.len())), ValueModel::Array(seq_model(b, b.len())))
            <==> (a.len() == b.len() && forall|i: int|
            0 <= i < a.len() ==> #[trigger] model_eq(a[i].model(), b[i].model())),
{
    lemma_seq_model(a, a.len());
    lemma_seq_model(b, b.len());
    let sa = seq_model(a, a.len());
    let sb = seq_model(b, b.len());
    if a.len() == b.len() && forall|i: int|
        0 <= i < a.len() ==> #[trigger] model_eq(a[i].model(), b[i].model()) {
        assert forall|i: int| 0 <= i < sa.len() implies model_eq(#[trigger] sa[i], sb[i]) by {
            assert(model_eq(a[i].model(), b[i].model()));
        }
        assert(model_eq(ValueModel::Array(sa), ValueModel::Array(sb)));
    }
    if model_eq(ValueModel::Array(sa), ValueModel::Array(sb)) {
        assert forall|i: int| 0 <= i < a.len() implies #[trigger] model_eq(a[i].model(), b[i].model()) by {
            assert(model_eq(sa[i], sb[i]));
        }
    }
}

/// A copy of each of `a`'s values, in order.
pub(crate) fn clone_values(a: &Vec<KvsValue>) -> (r: Vec<KvsValue>)
    ensures
        seq_model(r@, r@.len()) == seq_model(a@, a@.len()),
    decreases a, 1nat,
{
    let mut r: Vec<KvsValue> = Vec::new();
    let mut i: usize = 0;
    while i < a.len()
        invariant
            i <= a@.len(),
            r@.len() == i,
            forall|j: int| 0 <= j < i ==> #[trigger] r@[j].model() == a@[j].model(),
        decreases a@.len() - i,
    {
        r.push(a[i].deep_clone());
        i = i + 1;
    }
    proof {
        lemma_seq_model_eq(r@, a@);
    }
    r
}

/// Whether `a` and `b` are equal arrays.
fn values_equal(a: &Vec<KvsValue>, b: &Vec<KvsValue>) -> (r: bool)
    ensures
        r == model_eq(ValueModel::Array(seq_model(a@, a@.len())), ValueModel::Array(seq_model(b@, b@.len()))),
    decreases a, 1nat,
{
    proof {
        lemma_array_model_eq(a@, b@);
    }
    if a.len() != b.len() {
        return false;
    }
    let mut i: usize = 0;
    while i < a.len()
        invariant
            i <= a@.len(),
            a@.len() == b@.len(),
            forall|j: int| 0 <= j < i ==> #[trigger] model_eq(a@[j].model(), b@[j].model()),
            model_eq(ValueModel::Array(seq_model(a@, a@.len())), ValueModel::Array(seq_model(b@, b@.len())))
                <==> (forall|j: int| 0 <= j < a@.len() ==> #[trigger] model_eq(a@[j].model(), b@[j].model())),
        decreases a@.len() - i,
    {
        if !a[i].equals(&b[i]) {
            return false;
        }
        i = i + 1;
    }
    true
}

impl KvsValue {
    /// A copy of this value that owns all of its parts.
    pub fn deep_clone(&self) -> (r: KvsValue)
        ensures
            r.model() == self.model(),
        decreases self, 0nat,
    {
        match self {
            KvsValue::I32(n) => KvsValue::I32(*n),
            KvsValue::U32(n) => KvsValue::U32(*n),
            KvsValue::I64(n) => KvsValue::I64(*n),
            KvsValue::U64(n) => KvsValue::U64(*n),
            KvsValue::F64(f) => KvsValue::F64(*f),
            KvsValue::Boolean(b) => KvsValue::Boolean(*b),
            KvsValue::String(s) => KvsValue::String(s.clone()),
            KvsValue::Null => KvsValue::Null,
            KvsValue::Array(a) => KvsValue::Array(clone_values(a)),
            KvsValue::Object(m) => KvsValue::Object(m.deep_clone()),
        }
    }

    /// Structural equality: same variant and equal payloads, compared
    /// recursively, floats by IEEE 754; objects compare by keys, whatever the
    /// order of entries.
    pub fn equals(&self, other: &KvsValue) -> (r: bool)
        ensures
            r == model_eq(self.model(), other.model()),
        decreases self, 0nat,
    {
        match (self, other) {
            (KvsValue::I32(a), KvsValue::I32(b)) => *a == *b,
            (KvsValue::U32(a), KvsValue::U32(b)) => *a == *b,
            (KvsValue::I64(a), KvsValue::I64(b)) => *a == *b,
            (KvsValue::U64(a), KvsValue::U64(b)) => *a == *b,
            (KvsValue::F64(a), KvsValue::F64(b)) => a.ieee_eq(b),
            (KvsValue::Boolean(a), KvsValue::Boolean(b)) => *a == *b,
            (KvsValue::String(a), KvsValue::String(b)) => *a == *b,
            (KvsValue::Null, KvsValue::Null) => true,
            (KvsValue::Array(a), KvsValue::Array(b)) => values_equal(a, b),
            (KvsValue::Object(a), KvsValue::Object(b)) => a.equals(b),
            _ => false,
        }
    }
}

impl Clone for KvsValue {
    fn clone(&self) -> (r: Self)
        ensures
            r.model() == self.model(),
    {
        self.deep_clone()
    }
}

impl PartialEq for KvsValue {
    fn eq(&self, other: &Self) -> (r: bool) {
        self.equals(other)
    }
}

impl vstd::std_specs::cmp::PartialEqSpecImpl for KvsValue {
    open spec fn obeys_eq_spec() -> bool {
        true
    }

    open spec fn eq_spec(&self, other: &KvsValue) -> bool {
        model_eq(self.model(), other.model())
    }
}

impl From<i32> for KvsValue {
    fn from(val: i32) -> (r: Self)
        ensures
            r == KvsValue::I32(val),
    {
        KvsValue::I32(val)
    }
}

impl vstd::std_specs::convert::FromSpecImpl<i32> for KvsValue {
    open spec fn obeys_from_spec() -> bool {
        true
    }

    open spec fn from_spec(val: i32) -> Self {
        KvsValue::I32(val)
    }
}

impl From<u32> for KvsValue {
    fn from(val: u32) -> (r: Self)
        ensures
            r == KvsValue::U32(val),
    {
        KvsValue::U32(val)
    }
}

impl vstd::std_specs::convert::FromSpecImpl<u32> for KvsValue {
    open spec fn obeys_from_spec() -> bool {
        true
    }

    open spec fn from_spec(val: u32) -> Self {
        KvsValue::U32(val)
    }
}

impl From<i64> for KvsValue {
    fn from(val: i64) -> (r: Self)
        ensures
            r == KvsValue::I64(val),
    {
        KvsValue::I64(val)
    }
}

impl vstd::std_specs::convert::FromSpecImpl<i64> for KvsValue {
    open spec fn obeys_from_spec() -> bool {
        true
    }

    open spec fn from_spec(val: i64) -> Self {
        KvsValue::I64(val)
    }
}

impl From<u64> for KvsValue {
    fn from(val: u64) -> (r: Self)
        ensures
            r == KvsValue::U64(val),
    {
        KvsValue::U64(val)
    }
}

impl vstd::std_specs::convert::FromSpecImpl<u64> for KvsValue {
    open spec fn obeys_from_spec() -> bool {
        true
    }

    open spec fn from_spec(val: u64) -> Self {
        KvsValue::U64(val)
    }
}

impl From<Float64> for KvsValue {
    fn from(val: Float64) -> (r: Self)
        ensures
            r == KvsValue::F64(val),
    {
        KvsValue::F64(val)
    }
}

impl vstd::std_specs::convert::FromSpecImpl<Float64> for KvsValue {
    open spec fn obeys_from_spec() -> bool {
        true
    }

    open spec fn from_spec(val: Float64) -> Self {
        KvsValue::F64(val)
    }
}

impl From<bool> for KvsValue {
    fn from(val: bool) -> (r: Self)
        ensures
            r == KvsValue::Boolean(val),
    {
        KvsValue::Boolean(val)
    }
}

impl vstd::std_specs::convert::FromSpecImpl<bool> for KvsValue {
    open spec fn obeys_from_spec() -> bool {
        true
    }

    open spec fn from_spec(val: bool) -> Self {
        KvsValue::Boolean(val)
    }
}

impl From<String> for KvsValue {
    fn from(val: String) -> (r: Self)
        ensures
            r == KvsValue::String(val),
    {
        KvsValue::String(val)
    }
}

impl vstd::std_specs::convert::FromSpecImpl<String> for KvsValue {
    open spec fn obeys_from_spec() -> bool {
        true
    }

    open spec fn from_spec(val: String) -> Self {
        KvsValue::String(val)
    }
}

impl From<Vec<KvsValue>> for KvsValue {
    fn from(val: Vec<KvsValue>) -> (r: Self)
        ensures
            r == KvsValue::Array(val),
    {
        KvsValue::Array(val)
    }
}

impl vstd::std_specs::convert::FromSpecImpl<Vec<KvsValue>> for KvsValue {
    open spec fn obeys_from_spec() -> bool {
        true
    }

    open spec fn from_spec(val: Vec<KvsValue>) -> Self {
        KvsValue::Array(val)
    }
}

impl From<KvsMap> for KvsValue {
    fn from(val: KvsMap) -> (r: Self)
        ensures
            r == KvsValue::Object(val),
    {
        KvsValue::Object(val)
    }
}

impl vstd::std_specs::convert::FromSpecImpl<KvsMap> for KvsValue {
    open spec fn obeys_from_spec() -> bool {
        true
    }

    open spec fn from_spec(val: KvsMap) -> Self {
        KvsValue::Object(val)
    }
}

impl From<&str> for KvsValue {
    fn from(val: &str) -> (r: Self)
        ensures
            r matches KvsValue::String(s) && s@ == val@,
    {
        KvsValue::String(val.to_owned())
    }
}

impl vstd::std_specs::convert::FromSpecImpl<&str> for KvsValue {
    /// The copied string is a new `String`, which no spec expression can
    /// name: the contract of `from` gives its characters instead.
    open spec fn obeys_from_spec() -> bool {
        false
    }

    open spec fn from_spec(val: &str) -> Self {
        KvsValue::String(choose|s: String| #[trigger] s@ == val@)
    }
}

impl From<()> for KvsValue {
    fn from(val: ()) -> (r: Self)
        ensures
            r == KvsValue::Null,
    {
        KvsValue::Null
    }
}

impl vstd::std_specs::convert::FromSpecImpl<()> for KvsValue {
    open spec fn obeys_from_spec() -> bool {
        true
    }

    open spec fn from_spec(val: ()) -> Self {
        KvsValue::Null
    }
}

} // verus!
