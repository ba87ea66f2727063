//! Conversions between MessagePack values and plain Rust values.
use vstd::prelude::*;
use vstd::string::StringExecFns;
use crate::value::{Integer, SpecValue, Value, copy_bytes};

verus! {

/// Types that can be read from a MessagePack value.
pub trait FromValue: Sized + DeepView {
    /// The model of what `from_value` reads from a value with model `v`.
    spec fn spec_from_value(v: SpecValue) -> Option<<Self as DeepView>::V>;

    fn from_value(value: &Value) -> (r: Option<Self>)
        ensures
            r.deep_view() == Self::spec_from_value(value@),
    ;
}

/// Types that can be turned into a MessagePack value.
pub trait IntoValue: Sized + DeepView {
    /// The model of the value that `into_value` makes of a value with model `m`.
    spec fn spec_into_value(m: <Self as DeepView>::V) -> SpecValue;

    fn into_value(self) -> (r: Value)
        ensures
            r@ == Self::spec_into_value(self.deep_view()),
    ;
}

impl FromValue for bool {
    open spec fn spec_from_value(v: SpecValue) -> Option<bool> {
        match v {
            SpecValue::Boolean(b) => Some(b),
            _ => None,
        }
    }

    fn from_value(value: &Value) -> (r: Option<bool>) {
        match value {
            Value::Boolean(b) => Some(*b),
            _ => None,
        }
    }
}

impl FromValue for u8 {
    /// Any integer, cast to `u8` (keeping its low bits).
    open spec fn spec_from_value(v: SpecValue) -> Option<u8> {
        match v {
            SpecValue::Integer(Integer::U64(n)) => Some(n as u8),
            SpecValue::Integer(Integer::I64(n)) => Some(n as u8),
            _ => None,
        }
    }

    fn from_value(value: &Value) -> (r: Option<u8>) {
        match value {
            Value::Integer(Integer::U64(n)) => Some(*n as u8),
            Value::Integer(Integer::I64(n)) => Some(*n as u8),
            _ => None,
        }
    }
}

impl FromValue for u16 {
    /// Any integer, cast to `u16` (keeping its low bits).
    open spec fn spec_from_value(v: SpecValue) -> Option<u16> {
        match v {
            SpecValue::Integer(Integer::U64(n)) => Some(n as u16),
            SpecValue::Integer(Integer::I64(n)) => Some(n as u16),
            _ => None,
        }
    }

    fn from_value(value: &Value) -> (r: Option<u16>) {
        match value {
            Value::Integer(Integer::U64(n)) => Some(*n as u16),
            Value::Integer(Integer::I64(n)) => Some(*n as u16),
            _ => None,
        }
    }
}

impl FromValue for u32 {
    /// Any integer, cast to `u32` (keeping its low bits).
    open spec fn spec_from_value(v: SpecValue) -> Option<u32> {
        match v {
            SpecValue::Integer(Integer::U64(n)) => Some(n as u32),
            SpecValue::Integer(Integer::I64(n)) => Some(n as u32),
            _ => None,
        }
    }

    fn from_value(value: &Value) -> (r: Option<u32>) {
        match value {
            Value::Integer(Integer::U64(n)) => Some(*n as u32),
            Value::Integer(Integer::I64(n)) => Some(*n as u32),
            _ => None,
        }
    }
}

impl FromValue for u64 {
    /// Any integer, cast to `u64` (keeping its low bits).
    open spec fn spec_from_value(v: SpecValue) -> Option<u64> {
        match v {
            SpecValue::Integer(Integer::U64(n)) => Some(n as u64),
            SpecValue::Integer(Integer::I64(n)) => Some(n as u64),
            _ => None,
        }
    }

    fn from_value(value: &Value) -> (r: Option<u64>) {
        match value {
            Value::Integer(Integer::U64(n)) => Some(*n as u64),
            Value::Integer(Integer::I64(n)) => Some(*n as u64),
            _ => None,
        }
    }
}

impl FromValue for i8 {
    /// Any integer, cast to `i8` (keeping its low bits).
    open spec fn spec_from_value(v: SpecValue) -> Option<i8> {
        match v {
            SpecValue::Integer(Integer::U64(n)) => Some(n as i8),
            SpecValue::Integer(Integer::I64(n)) => Some(n as i8),
            _ => None,
        }
    }

    fn from_value(value: &Value) -> (r: Option<i8>) {
        match value {
            Value::Integer(Integer::U64(n)) => Some(*n as i8),
            Value::Integer(Integer::I64(n)) => Some(*n as i8),
            _ => None,
        }
    }
}

impl FromValue for i16 {
    /// Any integer, cast to `i16` (keeping its low bits).
    open spec fn spec_from_value(v: SpecValue) -> Option<i16> {
        match v {
            SpecValue::Integer(Integer::U64(n)) => Some(n as i16),
            SpecValue::Integer(Integer::I64(n)) => Some(n as i16),
            _ => None,
        }
    }

    fn from_value(value: &Value) -> (r: Option<i16>) {
        match value {
            Value::Integer(Integer::U64(n)) => Some(*n as i16),
            Value::Integer(Integer::I64(n)) => Some(*n as i16),
            _ => None,
        }
    }
}

impl FromValue for i32 {
    /// Any integer, cast to `i32` (keeping its low bits).
    open spec fn spec_from_value(v: SpecValue) -> Option<i32> {
        match v {
            SpecValue::Integer(Integer::U64(n)) => Some(n as i32),
            SpecValue::Integer(Integer::I64(n)) => Some(n as i32),
            _ => None,
        }
    }

    fn from_value(value: &Value) -> (r: Option<i32>) {
        match value {
            Value::Integer(Integer::U64(n)) => Some(*n as i32),
            Value::Integer(Integer::I64(n)) => Some(*n as i32),
            _ => None,
        }
    }
}

impl FromValue for i64 {
    /// Any integer, cast to `i64` (keeping its low bits).
    open spec fn spec_from_value(v: SpecValue) -> Option<i64> {
        match v {
            SpecValue::Integer(Integer::U64(n)) => Some(n as i64),
            SpecValue::Integer(Integer::I64(n)) => Some(n as i64),
            _ => None,
        }
    }

    fn from_value(value: &Value) -> (r: Option<i64>) {
        match value {
            Value::Integer(Integer::U64(n)) => Some(*n as i64),
            Value::Integer(Integer::I64(n)) => Some(*n as i64),
            _ => None,
        }
    }
}

impl FromValue for String {
    open spec fn spec_from_value(v: SpecValue) -> Option<Seq<char>> {
        match v {
            SpecValue::String(s) => Some(s),
            _ => None,
        }
    }

    fn from_value(value: &Value) -> (r: Option<String>) {
        match value {
            Value::String(s) => Some(s.clone()),
            _ => None,
        }
    }
}

impl FromValue for Vec<u8> {
    open spec fn spec_from_value(v: SpecValue) -> Option<Seq<u8>> {
        match v {
            SpecValue::Binary(b) => Some(b),
            _ => None,
        }
    }

    fn from_value(value: &Value) -> (r: Option<Vec<u8>>) {
        match value {
            Value::Binary(b) => {
                let c = copy_bytes(b);
                assert(c.deep_view() =~= c@);
                Some(c)
            },
            _ => None,
        }
    }
}

impl FromValue for Value {
    open spec fn spec_from_value(v: SpecValue) -> Option<SpecValue> {
        Some(v)
    }

    fn from_value(value: &Value) -> (r: Option<Value>) {
        Some(value.clone_value())
    }
}

impl<T: FromValue> FromValue for Option<T> {
    /// Nil reads as `None`; anything else as what `T` reads from it.
    open spec fn spec_from_value(v: SpecValue) -> Option<Option<T::V>> {
        match v {
            SpecValue::Nil => Some(None),
            _ => match T::spec_from_value(v) {
                Some(t) => Some(Some(t)),
                None => None,
            },
        }
    }

    fn from_value(value: &Value) -> (r: Option<Option<T>>) {
        match value {
            Value::Nil => Some(None),
            _ => match T::from_value(value) {
                Some(t) => Some(Some(t)),
                None => None,
            },
        }
    }
}

/// An array whose items all read as `T`, read item by item.
pub open spec fn spec_array_from_value<T: FromValue>(v: SpecValue) -> Option<Seq<T::V>> {
    match v {
        SpecValue::Array(items) => if forall|i: int|
            0 <= i < items.len() ==> #[trigger] T::spec_from_value(items[i]) is Some {
            Some(Seq::new(items.len(), |i: int| T::spec_from_value(items[i])->Some_0))
        } else {
            None
        },
        _ => None,
    }
}

/// Reads an array whose items all read as `T`.
pub fn array_from_value<T: FromValue>(value: &Value) -> (r: Option<Vec<T>>)
    ensures
        r.deep_view() == spec_array_from_value::<T>(value@),
{
    match value {
        Value::Array(items) => {
            proof {
                crate::value::lemma_array_view(*items);
            }
            let mut out: Vec<T> = Vec::new();
            let mut i: usize = 0;
            while i < items.len()
                invariant
                    *value == Value::Array(*items),
                    i <= items.len(),
                    out@.len() == i,
                    forall|j: int| 0 <= j < i ==> Some(#[trigger] out@[j].deep_view()) == T::spec_from_value(items@[j]@),
                decreases items.len() - i,
            {
                match T::from_value(&items[i]) {
                    Some(t) => out.push(t),
                    None => {
                        proof {
                            assert(T::spec_from_value(value@->Array_0[i as int]) is None);
                        }
                        return None;
                    },
                }
                i = i + 1;
            }
            proof {
                let items_v = value@->Array_0;
                assert forall|j: int| 0 <= j < items_v.len() implies #[trigger] T::spec_from_value(items_v[j]) is Some by {
                    assert(items_v[j] == items@[j]@);
                    assert(Some(out@[j].deep_view()) == T::spec_from_value(items@[j]@));
                }
                assert forall|j: int| 0 <= j < items_v.len() implies out.deep_view()[j] == T::spec_from_value(items_v[j])->Some_0 by {
                    assert(items_v[j] == items@[j]@);
                    assert(Some(out@[j].deep_view()) == T::spec_from_value(items@[j]@));
                }
                assert(out.deep_view() =~= Seq::new(items_v.len(), |j: int| T::spec_from_value(items_v[j])->Some_0));
            }
            Some(out)
        },
        _ => None,
    }
}

/// A map whose keys all read as `K` and whose values all read as `V`, read
/// pair by pair.
pub open spec fn spec_pairs_from_value<K: FromValue, V: FromValue>(v: SpecValue) -> Option<
    Seq<(K::V, V::V)>,
> {
    match v {
        SpecValue::Mapping(e) => if forall|i: int|
            0 <= i < e.len() ==> #[trigger] K::spec_from_value(e[i].0) is Some && V::spec_from_value(
                e[i].1,
            ) is Some {
            Some(
                Seq::new(
                    e.len(),
                    |i: int| (K::spec_from_value(e[i].0)->Some_0, V::spec_from_value(e[i].1)->Some_0),
                ),
            )
        } else {
            None
        },
        _ => None,
    }
}

impl<K: FromValue, V: FromValue> FromValue for Vec<(K, V)> {
    open spec fn spec_from_value(v: SpecValue) -> Option<Seq<(K::V, V::V)>> {
        spec_pairs_from_value::<K, V>(v)
    }

    fn from_value(value: &Value) -> (r: Option<Vec<(K, V)>>) {
        match value {
            Value::Mapping(entries) => {
                proof {
                    crate::value::lemma_mapping_view(*entries);
                }
                let mut out: Vec<(K, V)> = Vec::new();
                let mut i: usize = 0;
                while i < entries.len()
                    invariant
                        *value == Value::Mapping(*entries),
                        i <= entries.len(),
                        out@.len() == i,
                        forall|j: int|
                            0 <= j < i ==> Some(#[trigger] out@[j].0.deep_view()) == K::spec_from_value(
                                entries@[j].0@,
                            ) && Some(out@[j].1.deep_view()) == V::spec_from_value(entries@[j].1@),
                    decreases entries.len() - i,
                {
                    let k = K::from_value(&entries[i].0);
                    let v = V::from_value(&entries[i].1);
                    match (k, v) {
                        (Some(k), Some(v)) => out.push((k, v)),
                        _ => {
                            proof {
                                let e = value@->Mapping_0;
                                assert(e[i as int] == (entries@[i as int].0@, entries@[i as int].1@));
                                assert(!(K::spec_from_value(e[i as int].0) is Some && V::spec_from_value(
                                    e[i as int].1,
                                ) is Some));
                            }
                            return None;
                        },
                    }
                    i = i + 1;
                }
                proof {
                    let e = value@->Mapping_0;
                    assert forall|j: int| 0 <= j < e.len() implies #[trigger] K::spec_from_value(e[j].0) is Some
                        && V::spec_from_value(e[j].1) is Some by {
                        assert(e[j] == (entries@[j].0@, entries@[j].1@));
                        assert(Some(out@[j].0.deep_view()) == K::spec_from_value(entries@[j].0@));
                    }
                    assert forall|j: int| 0 <= j < e.len() implies out.deep_view()[j] == (
                        K::spec_from_value(e[j].0)->Some_0,
                        V::spec_from_value(e[j].1)->Some_0,
                    ) by {
                        assert(e[j] == (entries@[j].0@, entries@[j].1@));
                        assert(Some(out@[j].0.deep_view()) == K::spec_from_value(entries@[j].0@));
                    }
                    assert(out.deep_view() =~= Seq::new(
                        e.len(),
                        |j: int| (K::spec_from_value(e[j].0)->Some_0, V::spec_from_value(e[j].1)->Some_0),
                    ));
                }
                Some(out)
            },
            _ => None,
        }
    }
}

impl<K: IntoValue, V: IntoValue> IntoValue for Vec<(K, V)> {
    /// A map of the pairs, each key and value turned into a value.
    open spec fn spec_into_value(m: Seq<(K::V, V::V)>) -> SpecValue {
        SpecValue::Mapping(
            Seq::new(m.len(), |i: int| (K::spec_into_value(m[i].0), V::spec_into_value(m[i].1))),
        )
    }

    fn into_value(self) -> (r: Value) {
        let ghost orig = self.deep_view();
        let mut items = self;
        let mut rev: Vec<(Value, Value)> = Vec::new();
        while items.len() > 0
            invariant
                items.deep_view() == orig.take(items@.len() as int),
                items@.len() + rev@.len() == orig.len(),
                forall|j: int|
                    0 <= j < rev@.len() ==> #[trigger] rev@[j].0@ == K::spec_into_value(
                        orig[orig.len() - 1 - j].0,
                    ) && rev@[j].1@ == V::spec_into_value(orig[orig.len() - 1 - j].1),
            decreases items@.len(),
        {
            let ghost n = items@.len();
            let ghost before = items@;
            let (k, v) = items.pop().unwrap();
            proof {
                assert(before[n - 1] == (k, v));
                assert(orig.take(n as int)[n - 1] == before[n - 1].deep_view());
                assert((k.deep_view(), v.deep_view()) == orig[n - 1]);
                assert(items@ =~= before.take(n - 1));
                assert(items.deep_view() =~= orig.take(n - 1));
            }
            rev.push((k.into_value(), v.into_value()));
        }
        let mut out: Vec<(Value, Value)> = Vec::new();
        while rev.len() > 0
            invariant
                out@.len() + rev@.len() == orig.len(),
                forall|j: int|
                    0 <= j < rev@.len() ==> #[trigger] rev@[j].0@ == K::spec_into_value(
                        orig[orig.len() - 1 - j].0,
                    ) && rev@[j].1@ == V::spec_into_value(orig[orig.len() - 1 - j].1),
                forall|j: int|
                    0 <= j < out@.len() ==> #[trigger] out@[j].0@ == K::spec_into_value(orig[j].0)
                        && out@[j].1@ == V::spec_into_value(orig[j].1),
            decreases rev@.len(),
        {
            let ghost n = rev@.len();
            let p = rev.pop().unwrap();
            proof {
                assert(p == rev@.push(p)[n - 1]);
            }
            out.push(p);
        }
        proof {
            crate::value::lemma_mapping_view(out);
            assert(crate::value::pairs_view(out@) =~= Seq::new(
                orig.len(),
                |i: int| (K::spec_into_value(orig[i].0), V::spec_into_value(orig[i].1)),
            ));
        }
        Value::Mapping(out)
    }
}

impl FromValue for Vec<i32> {
    open spec fn spec_from_value(v: SpecValue) -> Option<Seq<i32>> {
        spec_array_from_value::<i32>(v)
    }

    fn from_value(value: &Value) -> (r: Option<Vec<i32>>) {
        array_from_value::<i32>(value)
    }
}

impl IntoValue for bool {
    open spec fn spec_into_value(m: bool) -> SpecValue {
        SpecValue::Boolean(m)
    }

    fn into_value(self) -> (r: Value) {
        Value::Boolean(self)
    }
}

impl IntoValue for u8 {
    open spec fn spec_into_value(m: u8) -> SpecValue {
        SpecValue::Integer(Integer::U64(m as u64))
    }

    fn into_value(self) -> (r: Value) {
        Value::Integer(Integer::U64(self as u64))
    }
}

impl IntoValue for u16 {
    open spec fn spec_into_value(m: u16) -> SpecValue {
        SpecValue::Integer(Integer::U64(m as u64))
    }

    fn into_value(self) -> (r: Value) {
        Value::Integer(Integer::U64(self as u64))
    }
}

impl IntoValue for u32 {
    open spec fn spec_into_value(m: u32) -> SpecValue {
        SpecValue::Integer(Integer::U64(m as u64))
    }

    fn into_value(self) -> (r: Value) {
        Value::Integer(Integer::U64(self as u64))
    }
}

impl IntoValue for u64 {
    open spec fn spec_into_value(m: u64) -> SpecValue {
        SpecValue::Integer(Integer::U64(m as u64))
    }

    fn into_value(self) -> (r: Value) {
        Value::Integer(Integer::U64(self as u64))
    }
}

impl IntoValue for i8 {
    open spec fn spec_into_value(m: i8) -> SpecValue {
        SpecValue::Integer(Integer::I64(m as i64))
    }

    fn into_value(self) -> (r: Value) {
        Value::Integer(Integer::I64(self as i64))
    }
}

impl IntoValue for i16 {
    open spec fn spec_into_value(m: i16) -> SpecValue {
        SpecValue::Integer(Integer::I64(m as i64))
    }

    fn into_value(self) -> (r: Value) {
        Value::Integer(Integer::I64(self as i64))
    }
}

impl IntoValue for i32 {
    open spec fn spec_into_value(m: i32) -> SpecValue {
        SpecValue::Integer(Integer::I64(m as i64))
    }

    fn into_value(self) -> (r: Value) {
        Value::Integer(Integer::I64(self as i64))
    }
}

impl IntoValue for i64 {
    open spec fn spec_into_value(m: i64) -> SpecValue {
        SpecValue::Integer(Integer::I64(m as i64))
    }

    fn into_value(self) -> (r: Value) {
        Value::Integer(Integer::I64(self as i64))
    }
}

impl IntoValue for String {
    open spec fn spec_into_value(m: Seq<char>) -> SpecValue {
        SpecValue::String(m)
    }

    fn into_value(self) -> (r: Value) {
        Value::String(self)
    }
}

/// A point in time in UTC: whole seconds since the Unix epoch, and the
/// nanoseconds past that second.
#[derive(Debug, Clone, Copy, PartialEq, Eq, Structural)]
pub struct Timestamp {
    pub secs: i64,
    pub nanos: u32,
}

impl DeepView for Timestamp {
    type V = Timestamp;

    open spec fn deep_view(&self) -> Timestamp {
        *self
    }
}

/// What `chrono` reads from the text `s` as a `DateTime<Utc>`: its seconds
/// since the epoch and its sub-second nanoseconds, or nothing when the text is
/// not a date and time that chrono accepts.
pub uninterp spec fn spec_parse_utc(s: Seq<char>) -> Option<(i64, u32)>;

/// `<chrono::DateTime<chrono::Utc> as FromStr>::from_str`, then `timestamp`
/// and `timestamp_subsec_nanos` of the result. The parse depends on the text
/// alone; what it accepts is chrono's and is not restated here.
#[verifier::external_body]
fn parse_utc(s: &str) -> (r: Option<(i64, u32)>)
    ensures
        r == spec_parse_utc(s@),
{
    match s.parse::<chrono::DateTime<chrono::Utc>>() {
        Ok(dt) => Some((dt.timestamp(), dt.timestamp_subsec_nanos())),
        Err(_) => None,
    }
}

impl Timestamp {
    /// The point in time that a parse gave as seconds and nanoseconds, if it
    /// gave one.
    pub fn from_parsed(parsed: Option<(i64, u32)>) -> (r: Option<Timestamp>)
        ensures
            r == match parsed {
                Some((secs, nanos)) => Some(Timestamp { secs, nanos }),
                None => None::<Timestamp>,
            },
    {
        match parsed {
            Some((secs, nanos)) => Some(Timestamp { secs, nanos }),
            None => None,
        }
    }
}

impl FromValue for Timestamp {
    /// A string that chrono reads as a UTC date and time.
    open spec fn spec_from_value(v: SpecValue) -> Option<Timestamp> {
        match v {
            SpecValue::String(s) => match spec_parse_utc(s) {
                Some((secs, nanos)) => Some(Timestamp { secs, nanos }),
                None => None,
            },
            _ => None,
        }
    }

    fn from_value(value: &Value) -> (r: Option<Timestamp>) {
        match value {
            Value::String(s) => Timestamp::from_parsed(parse_utc(s.as_str())),
            _ => None,
        }
    }
}

/// A copy of an optional string.
pub fn clone_opt_string(s: &Option<String>) -> (r: Option<String>)
    ensures
        r.deep_view() == s.deep_view(),
{
    match s {
        Some(s) => Some(s.clone()),
        None => None,
    }
}

/// The string value of `s`.
pub fn str_value(s: &str) -> (r: Value)
    ensures
        r@ == SpecValue::String(s@),
{
    Value::String(String::from_str(s))
}

impl IntoValue for Vec<u8> {
    open spec fn spec_into_value(m: Seq<u8>) -> SpecValue {
        SpecValue::Binary(m)
    }

    fn into_value(self) -> (r: Value) {
        assert(self.deep_view() =~= self@);
        Value::Binary(self)
    }
}

impl IntoValue for Value {
    open spec fn spec_into_value(m: SpecValue) -> SpecValue {
        m
    }

    fn into_value(self) -> (r: Value) {
        self
    }
}

impl<T: IntoValue> IntoValue for Option<T> {
    /// `None` becomes nil.
    open spec fn spec_into_value(m: Option<T::V>) -> SpecValue {
        match m {
            Some(t) => T::spec_into_value(t),
            None => SpecValue::Nil,
        }
    }

    fn into_value(self) -> (r: Value) {
        match self {
            Some(t) => t.into_value(),
            None => Value::Nil,
        }
    }
}

/// An array of the values that the items turn into.
pub fn vec_into_value<T: IntoValue>(items: Vec<T>) -> (r: Value)
    ensures
        r@ == SpecValue::Array(Seq::new(items@.len(), |i: int| T::spec_into_value(items@[i].deep_view()))),
{
    let ghost orig = items@;
    let mut items = items;
    let mut rev: Vec<Value> = Vec::new();
    while items.len() > 0
        invariant
            items@ == orig.take(items@.len() as int),
            items@.len() + rev@.len() == orig.len(),
            forall|j: int| 0 <= j < rev@.len() ==> #[trigger] rev@[j]@ == T::spec_into_value(orig[orig.len() - 1 - j].deep_view()),
        decreases items@.len(),
    {
        let ghost n = items@.len();
        let t = items.pop().unwrap();
        proof {
            assert(t == orig[n - 1]);
            assert(items@ =~= orig.take(n - 1));
        }
        rev.push(t.into_value());
    }
    let mut out: Vec<Value> = Vec::new();
    while rev.len() > 0
        invariant
            out@.len() + rev@.len() == orig.len(),
            forall|j: int| 0 <= j < rev@.len() ==> #[trigger] rev@[j]@ == T::spec_into_value(orig[orig.len() - 1 - j].deep_view()),
            forall|j: int| 0 <= j < out@.len() ==> #[trigger] out@[j]@ == T::spec_into_value(orig[j].deep_view()),
        decreases rev@.len(),
    {
        let ghost n = rev@.len();
        let v = rev.pop().unwrap();
        proof {
            assert(v == rev@.push(v)[n - 1]);
        }
        out.push(v);
    }
    proof {
        crate::value::lemma_array_view(out);
        assert(crate::value::items_view(out@) =~= Seq::new(orig.len(), |i: int| T::spec_into_value(orig[i].deep_view())));
    }
    Value::Array(out)
}


impl Value {
    /// The value made of `value`.
    pub fn from<T: IntoValue>(value: T) -> (r: Value)
        ensures
            r@ == T::spec_into_value(value.deep_view()),
    {
        value.into_value()
    }

    /// This value read as a `T`, when it reads as one.
    pub fn to<T: FromValue>(&self) -> (r: Option<T>)
        ensures
            r.deep_view() == T::spec_from_value(self@),
    {
        T::from_value(self)
    }
}

/// An integer is written as itself, unsigned types as unsigned and signed
/// types as signed, and it reads back as itself; any integer read as a
/// narrower type keeps its low bits.
pub proof fn law_integer_conversions(x_u8: u8, x_u16: u16, x_u32: u32, x_u64: u64, x_i8: i8, x_i16: i16, x_i32: i32, x_i64: i64, n: u64, i: i64)
    ensures
        u8::spec_into_value(x_u8) == SpecValue::Integer(Integer::U64(x_u8 as u64)),
        u8::spec_from_value(u8::spec_into_value(x_u8)) == Some(x_u8),
        u8::spec_from_value(SpecValue::Integer(Integer::U64(n))) == Some(n as u8),
        u8::spec_from_value(SpecValue::Integer(Integer::I64(i))) == Some(i as u8),
        u16::spec_into_value(x_u16) == SpecValue::Integer(Integer::U64(x_u16 as u64)),
        u16::spec_from_value(u16::spec_into_value(x_u16)) == Some(x_u16),
        u16::spec_from_value(SpecValue::Integer(Integer::U64(n))) == Some(n as u16),
        u16::spec_from_value(SpecValue::Integer(Integer::I64(i))) == Some(i as u16),
        u32::spec_into_value(x_u32) == SpecValue::Integer(Integer::U64(x_u32 as u64)),
        u32::spec_from_value(u32::spec_into_value(x_u32)) == Some(x_u32),
        u32::spec_from_value(SpecValue::Integer(Integer::U64(n))) == Some(n as u32),
        u32::spec_from_value(SpecValue::Integer(Integer::I64(i))) == Some(i as u32),
        u64::spec_into_value(x_u64) == SpecValue::Integer(Integer::U64(x_u64 as u64)),
        u64::spec_from_value(u64::spec_into_value(x_u64)) == Some(x_u64),
        u64::spec_from_value(SpecValue::Integer(Integer::U64(n))) == Some(n as u64),
        u64::spec_from_value(SpecValue::Integer(Integer::I64(i))) == Some(i as u64),
        i8::spec_into_value(x_i8) == SpecValue::Integer(Integer::I64(x_i8 as i64)),
        i8::spec_from_value(i8::spec_into_value(x_i8)) == Some(x_i8),
        i8::spec_from_value(SpecValue::Integer(Integer::U64(n))) == Some(n as i8),
        i8::spec_from_value(SpecValue::Integer(Integer::I64(i))) == Some(i as i8),
        i16::spec_into_value(x_i16) == SpecValue::Integer(Integer::I64(x_i16 as i64)),
        i16::spec_from_value(i16::spec_into_value(x_i16)) == Some(x_i16),
        i16::spec_from_value(SpecValue::Integer(Integer::U64(n))) == Some(n as i16),
        i16::spec_from_value(SpecValue::Integer(Integer::I64(i))) == Some(i as i16),
        i32::spec_into_value(x_i32) == SpecValue::Integer(Integer::I64(x_i32 as i64)),
        i32::spec_from_value(i32::spec_into_value(x_i32)) == Some(x_i32),
        i32::spec_from_value(SpecValue::Integer(Integer::U64(n))) == Some(n as i32),
        i32::spec_from_value(SpecValue::Integer(Integer::I64(i))) == Some(i as i32),
        i64::spec_into_value(x_i64) == SpecValue::Integer(Integer::I64(x_i64 as i64)),
        i64::spec_from_value(i64::spec_into_value(x_i64)) == Some(x_i64),
        i64::spec_from_value(SpecValue::Integer(Integer::U64(n))) == Some(n as i64),
        i64::spec_from_value(SpecValue::Integer(Integer::I64(i))) == Some(i as i64),
{
}

/// Booleans, strings and byte vectors are written as themselves and read
/// back as themselves; nothing else reads as them.
pub proof fn law_plain_conversions(b: bool, s: Seq<char>, bytes: Seq<u8>, v: SpecValue)
    ensures
        bool::spec_into_value(b) == SpecValue::Boolean(b),
        bool::spec_from_value(v) == (match v {
            SpecValue::Boolean(x) => Some(x),
            _ => None::<bool>,
        }),
        String::spec_into_value(s) == SpecValue::String(s),
        String::spec_from_value(v) == (match v {
            SpecValue::String(x) => Some(x),
            _ => None::<Seq<char>>,
        }),
        Vec::<u8>::spec_into_value(bytes) == SpecValue::Binary(bytes),
        Vec::<u8>::spec_from_value(v) == (match v {
            SpecValue::Binary(x) => Some(x),
            _ => None::<Seq<u8>>,
        }),
{
}

/// An absent option is written as nil and a present one as its value; nil
/// reads as absent, anything else as present when it reads as `T`.
pub proof fn law_option_conversions<T: FromValue + IntoValue>(m: Option<<T as DeepView>::V>, v: SpecValue)
    ensures
        m is None ==> Option::<T>::spec_into_value(m) == SpecValue::Nil,
        m matches Some(x) ==> Option::<T>::spec_into_value(m) == T::spec_into_value(x),
        v is Nil ==> Option::<T>::spec_from_value(v) == Some(None::<<T as DeepView>::V>),
        !(v is Nil) ==> Option::<T>::spec_from_value(v) == match T::spec_from_value(v) {
            Some(x) => Some(Some(x)),
            None => None,
        },
{
}

} // verus!
