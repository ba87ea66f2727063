//! MessagePack values, and the map operations that messages are built with.
use vstd::prelude::*;

verus! {

/// A MessagePack integer, kept as the signedness it was read or written with.
#[derive(Debug, Clone, Copy, PartialEq, Eq, Structural)]
pub enum Integer {
    U64(u64),
    I64(i64),
}

/// A MessagePack float, kept as its IEEE-754 bit pattern.
#[derive(Debug, Clone, Copy, PartialEq, Eq, Structural)]
pub enum Float {
    F32(u32),
    F64(u64),
}

/// A MessagePack value. A map is a list of key/value pairs, in order.
#[derive(Debug)]
pub enum Value {
    Nil,
    Boolean(bool),
    Integer(Integer),
    Float(Float),
    String(String),
    Binary(Vec<u8>),
    Array(Vec<Value>),
    Mapping(Vec<(Value, Value)>),
    Ext(i8, Vec<u8>),
}

/// The mathematical model of a [`Value`]: strings become character sequences
/// and vectors become sequences.
pub enum SpecValue {
    Nil,
    Boolean(bool),
    Integer(Integer),
    Float(Float),
    String(Seq<char>),
    Binary(Seq<u8>),
    Array(Seq<SpecValue>),
    Mapping(Seq<(SpecValue, SpecValue)>),
    Ext(i8, Seq<u8>),
}

impl Value {
    pub open spec fn spec_deep(self) -> SpecValue
        decreases self,
    {
        match self {
            Value::Nil => SpecValue::Nil,
            Value::Boolean(b) => SpecValue::Boolean(b),
            Value::Integer(i) => SpecValue::Integer(i),
            Value::Float(f) => SpecValue::Float(f),
            Value::String(s) => SpecValue::String(s@),
            Value::Binary(b) => SpecValue::Binary(b@),
            Value::Array(items) => SpecValue::Array(
                Seq::new(
                    items.len() as nat,
                    |i: int|
                        if 0 <= i < items.len() {
                            items[i].spec_deep()
                        } else {
                            SpecValue::Nil
                        },
                ),
            ),
            Value::Mapping(entries) => SpecValue::Mapping(
                Seq::new(
                    entries.len() as nat,
                    |i: int|
                        if 0 <= i < entries.len() {
                            (entries[i].0.spec_deep(), entries[i].1.spec_deep())
                        } else {
                            (SpecValue::Nil, SpecValue::Nil)
                        },
                ),
            ),
            Value::Ext(t, b) => SpecValue::Ext(t, b@),
        }
    }
}

impl View for Value {
    type V = SpecValue;

    open spec fn view(&self) -> SpecValue {
        self.spec_deep()
    }
}

impl DeepView for Value {
    type V = SpecValue;

    open spec fn deep_view(&self) -> SpecValue {
        self.spec_deep()
    }
}

/// The models of a list of key/value pairs.
pub open spec fn pairs_view(e: Seq<(Value, Value)>) -> Seq<(SpecValue, SpecValue)> {
    Seq::new(e.len(), |i: int| (e[i].0@, e[i].1@))
}

/// The models of a list of values.
pub open spec fn items_view(e: Seq<Value>) -> Seq<SpecValue> {
    Seq::new(e.len(), |i: int| e[i]@)
}

/// The empty map.
pub open spec fn empty_map() -> SpecValue {
    SpecValue::Mapping(Seq::empty())
}

/// `k` is the string key `key`.
pub open spec fn is_key(k: SpecValue, key: Seq<char>) -> bool {
    k == SpecValue::String(key)
}

/// The position of the first pair whose key is the string `key`.
pub open spec fn find_key(e: Seq<(SpecValue, SpecValue)>, key: Seq<char>) -> Option<int>
    decreases e.len(),
{
    if e.len() == 0 {
        None
    } else {
        match find_key(e.drop_last(), key) {
            Some(i) => Some(i),
            None => if is_key(e.last().0, key) {
                Some(e.len() - 1)
            } else {
                None
            },
        }
    }
}

/// The value under the string key `key`, when `v` is a map that has one.
pub open spec fn spec_get(v: SpecValue, key: Seq<char>) -> Option<SpecValue> {
    match v {
        SpecValue::Mapping(e) => match find_key(e, key) {
            Some(i) => Some(e[i].1),
            None => None,
        },
        _ => None,
    }
}

/// `v` with `val` under the string key `key`: the first pair with that key
/// gets the new value, or a new pair is appended. Anything but a map is left
/// as it is.
pub open spec fn spec_set(v: SpecValue, key: Seq<char>, val: SpecValue) -> SpecValue {
    match v {
        SpecValue::Mapping(e) => match find_key(e, key) {
            Some(i) => SpecValue::Mapping(e.update(i, (e[i].0, val))),
            None => SpecValue::Mapping(e.push((SpecValue::String(key), val))),
        },
        _ => v,
    }
}

/// `v` without the first pair under the string key `key` (the last pair takes
/// its place), and the value that was removed.
pub open spec fn spec_remove(v: SpecValue, key: Seq<char>) -> (SpecValue, Option<SpecValue>) {
    match v {
        SpecValue::Mapping(e) => match find_key(e, key) {
            Some(i) => (SpecValue::Mapping(e.update(i, e.last()).drop_last()), Some(e[i].1)),
            None => (v, None),
        },
        _ => (v, None),
    }
}

/// `v` with the pairs of `other` appended, when both are maps.
pub open spec fn spec_extend(v: SpecValue, other: SpecValue) -> SpecValue {
    match (v, other) {
        (SpecValue::Mapping(e), SpecValue::Mapping(o)) => SpecValue::Mapping(e + o),
        _ => v,
    }
}

/// The search finds the first pair with the key.
pub proof fn lemma_find_key_first(e: Seq<(SpecValue, SpecValue)>, key: Seq<char>, i: int)
    requires
        0 <= i < e.len(),
        is_key(e[i].0, key),
        forall|j: int| 0 <= j < i ==> !is_key(#[trigger] e[j].0, key),
    ensures
        find_key(e, key) == Some(i),
{
    let p = e.take(i);
    lemma_find_key_found(p, key);
    if find_key(p, key) is Some {
        let j = find_key(p, key)->Some_0;
        assert(p[j] == e[j]);
    }
    assert(e.take(i + 1).drop_last() =~= p);
    lemma_find_key_prefix(e, key, i + 1);
}

/// Setting a key that a map lacks appends a pair.
pub proof fn lemma_set_new_key(e: Seq<(SpecValue, SpecValue)>, key: Seq<char>, val: SpecValue)
    requires
        forall|j: int| 0 <= j < e.len() ==> !is_key(#[trigger] e[j].0, key),
    ensures
        spec_set(SpecValue::Mapping(e), key, val) == SpecValue::Mapping(e.push((SpecValue::String(key), val))),
{
    lemma_find_key_found(e, key);
}

/// The search looks at keys only.
pub proof fn lemma_find_key_same_keys(
    e1: Seq<(SpecValue, SpecValue)>,
    e2: Seq<(SpecValue, SpecValue)>,
    key: Seq<char>,
)
    requires
        e1.len() == e2.len(),
        forall|i: int| 0 <= i < e1.len() ==> #[trigger] e1[i].0 == e2[i].0,
    ensures
        find_key(e1, key) == find_key(e2, key),
    decreases e1.len(),
{
    if e1.len() > 0 {
        lemma_find_key_same_keys(e1.drop_last(), e2.drop_last(), key);
        assert(e1.last().0 == e2[e2.len() - 1].0);
    }
}

/// Setting a key of a map gives a map.
pub broadcast proof fn lemma_set_is_map(v: SpecValue, k: Seq<char>, val: SpecValue)
    requires
        v is Mapping,
    ensures
        #[trigger] spec_set(v, k, val) is Mapping,
{
}

/// Reading a key of a map after setting a key: the value just set, or what
/// was there before.
pub broadcast proof fn law_get_after_set(v: SpecValue, k: Seq<char>, val: SpecValue, k2: Seq<char>)
    requires
        v is Mapping,
    ensures
        #[trigger] spec_get(spec_set(v, k, val), k2) == if k == k2 {
            Some(val)
        } else {
            spec_get(v, k2)
        },
{
    let e = v->Mapping_0;
    lemma_find_key_found(e, k);
    lemma_find_key_found(e, k2);
    match find_key(e, k) {
        Some(i) => {
            let e2 = e.update(i, (e[i].0, val));
            lemma_find_key_same_keys(e, e2, k2);
            lemma_find_key_found(e2, k2);
        },
        None => {
            let e2 = e.push((SpecValue::String(k), val));
            assert(e2.drop_last() =~= e);
        },
    }
}

/// The pieces of `s` between its dots, as `str::split('.')` gives them: one
/// more piece than there are dots, empty ones included.
pub open spec fn split_dots(s: Seq<char>) -> Seq<Seq<char>>
    decreases s.len(),
{
    if s.len() == 0 {
        seq![Seq::empty()]
    } else {
        let pieces = split_dots(s.drop_last());
        if s.last() == '.' {
            pieces.push(Seq::empty())
        } else {
            pieces.update(pieces.len() - 1, pieces.last().push(s.last()))
        }
    }
}

/// Removing a key right after setting it in a map hands back the value just
/// set.
pub proof fn law_remove_after_set(v: SpecValue, k: Seq<char>, val: SpecValue)
    requires
        v is Mapping,
    ensures
        spec_remove(spec_set(v, k, val), k).1 == Some(val),
{
    law_get_after_set(v, k, val, k);
}

/// A path without dots names one key: looking it up is reading that key.
pub proof fn law_lookup_one_key(v: SpecValue, key: Seq<char>)
    requires
        forall|i: int| 0 <= i < key.len() ==> key[i] != '.',
    ensures
        spec_lookup(v, split_dots(key)) == spec_get(v, key),
{
    lemma_split_dots_no_dot(key);
    let keys = seq![key];
    assert(keys.drop_last() =~= Seq::<Seq<char>>::empty());
    assert(spec_lookup(v, keys.drop_last()) == Some(v));
    assert(keys.last() == key);
}

/// Text without dots is a single piece.
proof fn lemma_split_dots_no_dot(s: Seq<char>)
    requires
        forall|i: int| 0 <= i < s.len() ==> s[i] != '.',
    ensures
        split_dots(s) == seq![s],
    decreases s.len(),
{
    if s.len() > 0 {
        lemma_split_dots_no_dot(s.drop_last());
        assert(s.drop_last().push(s.last()) =~= s);
        assert(seq![s.drop_last()].update(0, s.drop_last().push(s.last())) =~= seq![s]);
    } else {
        assert(s =~= Seq::<char>::empty());
    }
}

/// Appending the pairs of a map keeps what a key that was already there reads.
pub proof fn lemma_get_extend(v: SpecValue, other: SpecValue, k: Seq<char>)
    requires
        spec_get(v, k) is Some,
    ensures
        spec_get(spec_extend(v, other), k) == spec_get(v, k),
{
    if let (SpecValue::Mapping(e), SpecValue::Mapping(o)) = (v, other) {
        assert((e + o).take(e.len() as int) =~= e);
        lemma_find_key_prefix(e + o, k, e.len() as int);
        lemma_find_key_found(e, k);
    }
}

/// Removing by swapping the last pair in takes one pair out of the multiset
/// of pairs, and keeps all the others.
pub proof fn lemma_swap_remove_multiset<A>(s: Seq<A>, i: int)
    requires
        0 <= i < s.len(),
    ensures
        s.update(i, s.last()).drop_last().to_multiset() =~= s.to_multiset().remove(s[i]),
{
    broadcast use vstd::multiset::group_multiset_axioms;

    let u = s.update(i, s.last());
    let l = s.last();
    vstd::seq_lib::to_multiset_update(s, i, l);
    assert(u.last() == l);
    assert(u.drop_last().push(l) =~= u);
    vstd::seq_lib::to_multiset_build(u.drop_last(), l);
    vstd::seq_lib::to_multiset_contains(s, s[i]);
    assert(s.contains(s[i]));
    assert forall|y: A| #[trigger] u.drop_last().to_multiset().count(y) == s.to_multiset().remove(
        s[i],
    ).count(y) by {
        assert(u.to_multiset().count(y) == u.drop_last().to_multiset().count(y) + if y == l {
            1nat
        } else {
            0nat
        });
    }
}

/// A map whose pairs are those of `env` and of `data`, where the key of
/// `env[j]` keys no other pair of `env` and no pair of `data`: reading that
/// key gives `env[j]`'s value, and removing it takes out just `env[j]`.
pub proof fn lemma_read_and_remove_sole_key(
    s: Seq<(SpecValue, SpecValue)>,
    env: Seq<(SpecValue, SpecValue)>,
    data: Seq<(SpecValue, SpecValue)>,
    j: int,
    k: Seq<char>,
)
    requires
        s.to_multiset() == env.to_multiset().add(data.to_multiset()),
        0 <= j < env.len(),
        is_key(env[j].0, k),
        forall|a: int| 0 <= a < env.len() && a != j ==> !is_key(#[trigger] env[a].0, k),
        forall|a: int| 0 <= a < data.len() ==> !is_key(#[trigger] data[a].0, k),
    ensures
        spec_get(SpecValue::Mapping(s), k) == Some(env[j].1),
        spec_remove(SpecValue::Mapping(s), k).0 is Mapping,
        spec_remove(SpecValue::Mapping(s), k).0->Mapping_0.to_multiset() == env.remove(j).to_multiset().add(
            data.to_multiset(),
        ),
{
    broadcast use vstd::multiset::group_multiset_axioms;

    let p = env[j];
    lemma_find_key_found(s, k);
    vstd::seq_lib::to_multiset_contains(env, p);
    assert(env.contains(p));
    vstd::seq_lib::to_multiset_contains(s, p);
    if find_key(s, k) is None {
        let a = choose|a: int| 0 <= a < s.len() && s[a] == p;
        assert(is_key(s[a].0, k));
    }
    let i = find_key(s, k)->Some_0;
    let x = s[i];
    vstd::seq_lib::to_multiset_contains(s, x);
    assert(s.contains(x));
    vstd::seq_lib::to_multiset_contains(data, x);
    if data.contains(x) {
        let a = choose|a: int| 0 <= a < data.len() && data[a] == x;
        assert(!is_key(data[a].0, k));
    }
    vstd::seq_lib::to_multiset_contains(env, x);
    let b = choose|b: int| 0 <= b < env.len() && env[b] == x;
    assert(b == j);
    lemma_swap_remove_multiset(s, i);
    vstd::seq_lib::to_multiset_remove(env, j);
    assert(env.to_multiset().add(data.to_multiset()).remove(p) =~= env.to_multiset().remove(p).add(
        data.to_multiset(),
    ));
}

/// There is always a piece.
pub proof fn lemma_split_dots_len(s: Seq<char>)
    ensures
        split_dots(s).len() >= 1,
    decreases s.len(),
{
    if s.len() > 0 {
        lemma_split_dots_len(s.drop_last());
    }
}

/// What following the keys `keys` from `v`, map after map, reaches.
pub open spec fn spec_lookup(v: SpecValue, keys: Seq<Seq<char>>) -> Option<SpecValue>
    decreases keys.len(),
{
    if keys.len() == 0 {
        Some(v)
    } else {
        match spec_lookup(v, keys.drop_last()) {
            Some(inner) => spec_get(inner, keys.last()),
            None => None,
        }
    }
}

/// The pieces of a prefix of `s`, but for its last one, are the first pieces
/// of `s`.
proof fn lemma_split_dots_prefix(s: Seq<char>, j: int)
    requires
        0 <= j <= s.len(),
    ensures
        split_dots(s).len() >= split_dots(s.take(j)).len(),
        forall|k: int|
            0 <= k < split_dots(s.take(j)).len() - 1 ==> #[trigger] split_dots(s)[k] == split_dots(
                s.take(j),
            )[k],
    decreases s.len(),
{
    if j == s.len() {
        assert(s.take(j) =~= s);
    } else {
        lemma_split_dots_prefix(s.drop_last(), j);
        assert(s.drop_last().take(j) =~= s.take(j));
        lemma_split_dots_len(s.drop_last());
    }
}

/// When the first `m` keys lead nowhere, neither do all of them.
proof fn lemma_lookup_prefix(v: SpecValue, keys: Seq<Seq<char>>, m: int)
    requires
        0 <= m <= keys.len(),
        spec_lookup(v, keys.take(m)) is None,
    ensures
        spec_lookup(v, keys) is None,
    decreases keys.len(),
{
    if m == keys.len() {
        assert(keys.take(m) =~= keys);
    } else {
        assert(keys.drop_last().take(m) =~= keys.take(m));
        lemma_lookup_prefix(v, keys.drop_last(), m);
    }
}

/// Once the keys before a dot lead nowhere, the whole path leads nowhere.
proof fn lemma_lookup_dead_end(v: SpecValue, keys: Seq<Seq<char>>, path: Seq<char>, i: int)
    requires
        0 <= i < path.len(),
        spec_lookup(v, keys) is None,
        split_dots(path.take(i + 1)) == keys.push(Seq::empty()),
    ensures
        spec_lookup(v, split_dots(path)) is None,
{
    lemma_split_dots_prefix(path, i + 1);
    let all = split_dots(path);
    assert(all.take(keys.len() as int) =~= keys) by {
        assert forall|k: int| 0 <= k < keys.len() implies all[k] == keys[k] by {
            assert(keys.push(Seq::empty())[k] == keys[k]);
        }
    }
    lemma_lookup_prefix(v, all, keys.len() as int);
}

/// The view of a map is the list of the views of its pairs.
pub proof fn lemma_mapping_view(e: Vec<(Value, Value)>)
    ensures
        Value::Mapping(e)@ == SpecValue::Mapping(pairs_view(e@)),
{
    assert(Value::Mapping(e)@ ->Mapping_0 =~= pairs_view(e@));
}

/// The view of an array is the list of the views of its items.
pub proof fn lemma_array_view(e: Vec<Value>)
    ensures
        Value::Array(e)@ == SpecValue::Array(items_view(e@)),
{
    assert(Value::Array(e)@ ->Array_0 =~= items_view(e@));
}

/// Looking for a key one more pair along.
proof fn lemma_find_key_step(e: Seq<(SpecValue, SpecValue)>, key: Seq<char>, i: int)
    requires
        0 <= i < e.len(),
    ensures
        find_key(e.take(i + 1), key) == (match find_key(e.take(i), key) {
            Some(j) => Some(j),
            None => if is_key(e[i].0, key) {
                Some(i)
            } else {
                None
            },
        }),
{
    assert(e.take(i + 1).drop_last() =~= e.take(i));
}

/// What the search finds in a prefix it finds in the whole list.
proof fn lemma_find_key_prefix(e: Seq<(SpecValue, SpecValue)>, key: Seq<char>, k: int)
    requires
        0 <= k <= e.len(),
        find_key(e.take(k), key) is Some,
    ensures
        find_key(e, key) == find_key(e.take(k), key),
    decreases e.len(),
{
    if k == e.len() {
        assert(e.take(k) =~= e);
    } else {
        assert(e.drop_last().take(k) =~= e.take(k));
        lemma_find_key_prefix(e.drop_last(), key, k);
    }
}

/// The search finds a pair with the key, inside the list.
pub proof fn lemma_find_key_found(e: Seq<(SpecValue, SpecValue)>, key: Seq<char>)
    ensures
        find_key(e, key) matches Some(i) ==> 0 <= i < e.len() && is_key(e[i].0, key),
        find_key(e, key) is None ==> forall|i: int| 0 <= i < e.len() ==> !is_key(#[trigger] e[i].0, key),
    decreases e.len(),
{
    if e.len() > 0 {
        lemma_find_key_found(e.drop_last(), key);
        if find_key(e.drop_last(), key) is None {
            assert forall|i: int| 0 <= i < e.len() - 1 implies !is_key(#[trigger] e[i].0, key) by {
                assert(e.drop_last()[i] == e[i]);
            }
        }
    }
}

/// The position of the first pair of `entries` whose key is the string `key`.
fn find_index(entries: &Vec<(Value, Value)>, key: &String) -> (r: Option<usize>)
    ensures
        match r {
            Some(i) => i < entries.len() && find_key(pairs_view(entries@), key@) == Some(i as int),
            None => find_key(pairs_view(entries@), key@) is None,
        },
{
    let ghost pv = pairs_view(entries@);
    let mut i: usize = 0;
    while i < entries.len()
        invariant
            i <= entries.len(),
            pv == pairs_view(entries@),
            find_key(pv.take(i as int), key@) is None,
        decreases entries.len() - i,
    {
        proof {
            lemma_find_key_step(pv, key@, i as int);
        }
        let matches = match &entries[i].0 {
            Value::String(s) => *s == *key,
            _ => false,
        };
        if matches {
            proof {
                lemma_find_key_prefix(pv, key@, i + 1);
            }
            return Some(i);
        }
        i = i + 1;
    }
    proof {
        assert(pv.take(i as int) =~= pv);
    }
    None
}

impl Value {
    /// The value under the string key `key`, when this is a map that has one.
    pub fn get(&self, key: &str) -> (r: Option<&Value>)
        ensures
            r.deep_view() == spec_get(self@, key@),
    {
        let k = key.to_owned();
        match self {
            Value::Mapping(entries) => {
                proof {
                    lemma_mapping_view(*entries);
                }
                match find_index(entries, &k) {
                    Some(i) => Some(&entries[i].1),
                    None => None,
                }
            },
            _ => None,
        }
    }

    /// The value that the dot-separated `path` leads to, one key after the
    /// other, through nested maps.
    pub fn lookup(&self, path: &str) -> (r: Option<&Value>)
        ensures
            r.deep_view() == spec_lookup(self@, split_dots(path@)),
    {
        let n = path.unicode_len();
        let mut cur = self;
        let mut start: usize = 0;
        let mut i: usize = 0;
        let ghost mut done: Seq<Seq<char>> = Seq::empty();
        proof {
            assert(path@.take(0) =~= Seq::<char>::empty());
            assert(path@.subrange(0, 0) =~= Seq::<char>::empty());
        }
        while i < n
            invariant
                n == path@.len(),
                start <= i <= n,
                split_dots(path@.take(i as int)) == done.push(path@.subrange(start as int, i as int)),
                spec_lookup(self@, done) == Some(cur@),
            decreases n - i,
        {
            let c = path.get_char(i);
            proof {
                assert(path@.take(i + 1).drop_last() =~= path@.take(i as int));
                assert(path@.take(i + 1).last() == c);
            }
            if c == '.' {
                let key = path.substring_char(start, i);
                match cur.get(key) {
                    Some(next) => {
                        proof {
                            let d2 = done.push(key@);
                            assert(d2.drop_last() =~= done);
                            assert(path@.subrange(i + 1, i + 1) =~= Seq::<char>::empty());
                            done = d2;
                        }
                        cur = next;
                        start = i + 1;
                    },
                    None => {
                        proof {
                            assert(done.push(key@).drop_last() =~= done);
                            lemma_lookup_dead_end(self@, done.push(key@), path@, i as int);
                        }
                        return None;
                    },
                }
            } else {
                proof {
                    assert(path@.subrange(start as int, i + 1) =~= path@.subrange(start as int, i as int).push(c));
                    assert(done.push(path@.subrange(start as int, i as int)).update(done.len() as int, path@.subrange(start as int, i + 1)) =~= done.push(path@.subrange(start as int, i + 1)));
                }
            }
            i = i + 1;
        }
        let key = path.substring_char(start, n);
        proof {
            assert(path@.take(n as int) =~= path@);
            let keys = done.push(key@);
            assert(keys.drop_last() =~= done);
        }
        cur.get(key)
    }

    /// Puts `value` under the string key `key`, replacing the first value
    /// already there or appending a new pair. Does nothing unless this is a
    /// map.
    pub fn set(&mut self, key: &str, value: Value)
        ensures
            final(self)@ == spec_set(old(self)@, key@, value@),
    {
        let k = key.to_owned();
        match self {
            Value::Mapping(entries) => {
                proof {
                    lemma_mapping_view(*entries);
                }
                let ghost old_entries = entries@;
                match find_index(entries, &k) {
                    Some(i) => {
                        let mut v = value;
                        std::mem::swap(&mut entries[i].1, &mut v);
                        proof {
                            assert(pairs_view(entries@) =~= pairs_view(old_entries).update(
                                i as int,
                                (pairs_view(old_entries)[i as int].0, value@),
                            ));
                        }
                    },
                    None => {
                        entries.push((Value::String(k), value));
                        proof {
                            assert(pairs_view(entries@) =~= pairs_view(old_entries).push(
                                (SpecValue::String(key@), value@),
                            ));
                        }
                    },
                }
                proof {
                    lemma_mapping_view(*entries);
                }
            },
            _ => {},
        }
    }

    /// Removes the first pair under the string key `key` (the last pair takes
    /// its place) and returns its value.
    pub fn remove(&mut self, key: &str) -> (r: Option<Value>)
        ensures
            final(self)@ == spec_remove(old(self)@, key@).0,
            r.deep_view() == spec_remove(old(self)@, key@).1,
    {
        let k = key.to_owned();
        match self {
            Value::Mapping(entries) => {
                proof {
                    lemma_mapping_view(*entries);
                }
                let ghost old_entries = entries@;
                let r = match find_index(entries, &k) {
                    Some(i) => {
                        let pair = entries.swap_remove(i);
                        proof {
                            let pv = pairs_view(old_entries);
                            assert(pairs_view(entries@) =~= pv.update(i as int, pv.last()).drop_last());
                        }
                        Some(pair.1)
                    },
                    None => None,
                };
                proof {
                    lemma_mapping_view(*entries);
                }
                r
            },
            _ => None,
        }
    }

    /// Appends the pairs of `other` to this map, when both are maps.
    pub fn extend(&mut self, other: &Value)
        ensures
            final(self)@ == spec_extend(old(self)@, other@),
    {
        match (self, other) {
            (Value::Mapping(entries), Value::Mapping(more)) => {
                proof {
                    lemma_mapping_view(*entries);
                    lemma_mapping_view(*more);
                }
                let ghost old_entries = entries@;
                let mut i: usize = 0;
                while i < more.len()
                    invariant
                        i <= more.len(),
                        pairs_view(entries@) =~= pairs_view(old_entries) + pairs_view(more@).take(
                            i as int,
                        ),
                    decreases more.len() - i,
                {
                    let k = more[i].0.clone_value();
                    let v = more[i].1.clone_value();
                    let ghost prev = entries@;
                    entries.push((k, v));
                    i = i + 1;
                    proof {
                        assert(pairs_view(entries@) =~= pairs_view(prev).push((k@, v@)));
                        assert(pairs_view(more@).take(i as int) =~= pairs_view(more@).take(
                            i - 1,
                        ).push(pairs_view(more@)[i - 1]));
                    }
                }
                proof {
                    assert(pairs_view(more@).take(i as int) =~= pairs_view(more@));
                    lemma_mapping_view(*entries);
                }
            },
            _ => {},
        }
    }

    /// This value is nil.
    pub fn is_nil(&self) -> (r: bool)
        ensures
            r == (self@ is Nil),
    {
        match *self {
            Value::Nil => true,
            _ => false,
        }
    }

    /// A copy of this value.
    pub fn clone_value(&self) -> (r: Value)
        ensures
            r@ == self@,
        decreases self,
    {
        match self {
            Value::Nil => Value::Nil,
            Value::Boolean(b) => Value::Boolean(*b),
            Value::Integer(i) => Value::Integer(*i),
            Value::Float(f) => Value::Float(*f),
            Value::String(s) => Value::String(s.clone()),
            Value::Binary(b) => Value::Binary(copy_bytes(b)),
            Value::Array(items) => {
                let mut out: Vec<Value> = Vec::new();
                let mut i: usize = 0;
                while i < items.len()
                    invariant
                        *self == Value::Array(*items),
                        i <= items.len(),
                        out@.len() == i,
                        forall|j: int| 0 <= j < i ==> #[trigger] out@[j]@ == items@[j]@,
                    decreases items.len() - i,
                {
                    proof {
                        vstd::std_specs::vec::axiom_vec_index_decreases(*items, i as int);
                        assert(decreases_to!(*self => (*self)->Array_0));
                        assert(decreases_to!(*items => items[i as int]));
                        assert(decreases_to!(*self => items[i as int]));
                    }
                    out.push(items[i].clone_value());
                    i = i + 1;
                }
                proof {
                    lemma_array_view(*items);
                    lemma_array_view(out);
                    assert(items_view(out@) =~= items_view(items@));
                }
                Value::Array(out)
            },
            Value::Mapping(entries) => {
                let mut out: Vec<(Value, Value)> = Vec::new();
                let mut i: usize = 0;
                while i < entries.len()
                    invariant
                        *self == Value::Mapping(*entries),
                        i <= entries.len(),
                        out@.len() == i,
                        forall|j: int|
                            0 <= j < i ==> #[trigger] out@[j].0@ == entries@[j].0@ && out@[j].1@
                                == entries@[j].1@,
                    decreases entries.len() - i,
                {
                    proof {
                        vstd::std_specs::vec::axiom_vec_index_decreases(*entries, i as int);
                        assert(decreases_to!(*self => (*self)->Mapping_0));
                        assert(decreases_to!(*entries => entries[i as int]));
                        assert(decreases_to!(*self => entries[i as int].0));
                        assert(decreases_to!(*self => entries[i as int].1));
                    }
                    let k = entries[i].0.clone_value();
                    let v = entries[i].1.clone_value();
                    let ghost prev = out@;
                    out.push((k, v));
                    proof {
                        assert forall|j: int| 0 <= j <= i implies #[trigger] out@[j].0@ == entries@[j].0@
                            && out@[j].1@ == entries@[j].1@ by {
                            if j < i {
                                assert(out@[j] == prev[j]);
                            }
                        }
                    }
                    i = i + 1;
                }
                proof {
                    lemma_mapping_view(*entries);
                    lemma_mapping_view(out);
                    assert(pairs_view(out@) =~= pairs_view(entries@));
                }
                Value::Mapping(out)
            },
            Value::Ext(t, b) => Value::Ext(*t, copy_bytes(b)),
        }
    }
}

impl Clone for Value {
    /// A copy of this value (see [`Value::clone_value`]).
    fn clone(&self) -> (r: Value)
        ensures
            r@ == self@,
    {
        self.clone_value()
    }
}

/// A copy of a byte vector.
pub fn copy_bytes(b: &Vec<u8>) -> (r: Vec<u8>)
    ensures
        r@ == b@,
{
    let mut out: Vec<u8> = Vec::new();
    let mut i: usize = 0;
    while i < b.len()
        invariant
            i <= b.len(),
            out@ =~= b@.take(i as int),
        decreases b.len() - i,
    {
        out.push(b[i]);
        i = i + 1;
    }
    proof {
        assert(b@.take(i as int) =~= b@);
    }
    out
}

} // verus!
