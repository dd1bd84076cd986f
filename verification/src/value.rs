//! The event value that pipeline processors transform, and its mathematical model.

use vstd::prelude::*;

verus! {

broadcast use vstd::std_specs::vec::group_vec_axioms;

/// A value flowing through a pipeline: bytes, scalars, arrays and objects.
///
/// An object is a list of `(key, value)` entries; lookups and updates act on the
/// first entry whose key matches, so it behaves as a map from keys to values. A new
/// key goes before the first key that comes after it, so updates keep distinct keys
/// distinct and keys in order ([`keys_sorted`]), as a sorted map holds them.
#[derive(Debug)]
pub enum Value {
    Bytes(Vec<u8>),
    Integer(i64),
    Boolean(bool),
    Array(Vec<Value>),
    Object(Vec<(String, Value)>),
    Null,
}

/// The mathematical model of a [`Value`].
pub enum ValueModel {
    Bytes(Seq<u8>),
    Integer(i64),
    Boolean(bool),
    Array(Seq<ValueModel>),
    Object(Seq<(Seq<char>, ValueModel)>),
    Null,
}

pub open spec fn value_model(v: Value) -> ValueModel
    decreases v,
{
    match v {
        Value::Bytes(b) => ValueModel::Bytes(b@),
        Value::Integer(n) => ValueModel::Integer(n),
        Value::Boolean(b) => ValueModel::Boolean(b),
        Value::Array(a) => ValueModel::Array(
            Seq::new(
                a@.len(),
                |i: int|
                    if 0 <= i < a@.len() {
                        value_model(a@[i])
                    } else {
                        ValueModel::Null
                    },
            ),
        ),
        Value::Object(o) => ValueModel::Object(
            Seq::new(
                o@.len(),
                |i: int|
                    if 0 <= i < o@.len() {
                        (o@[i].0@, value_model(o@[i].1))
                    } else {
                        (Seq::empty(), ValueModel::Null)
                    },
            ),
        ),
        Value::Null => ValueModel::Null,
    }
}

impl View for Value {
    type V = ValueModel;

    open spec fn view(&self) -> ValueModel {
        value_model(*self)
    }
}

/// The model of a list of object entries.
pub open spec fn entries_model(o: Seq<(String, Value)>) -> Seq<(Seq<char>, ValueModel)> {
    Seq::new(o.len(), |i: int| (o[i].0@, value_model(o[i].1)))
}

pub proof fn lemma_object_model(o: Vec<(String, Value)>)
    ensures
        value_model(Value::Object(o)) == ValueModel::Object(entries_model(o@)),
{
    if let ValueModel::Object(m) = value_model(Value::Object(o)) {
        assert(m =~= entries_model(o@));
    }
}

/// The index of the first element of `s` that satisfies `p`, or `s.len()` if none does.
pub open spec fn first_match<A>(s: Seq<A>, p: spec_fn(A) -> bool) -> int
    decreases s.len(),
{
    if s.len() == 0 {
        0
    } else if p(s[0]) {
        0
    } else {
        1 + first_match(s.drop_first(), p)
    }
}

pub proof fn lemma_first_match<A>(s: Seq<A>, p: spec_fn(A) -> bool, i: int)
    requires
        0 <= i <= s.len(),
        forall|j: int| 0 <= j < i ==> !p(#[trigger] s[j]),
        i == s.len() || p(s[i]),
    ensures
        first_match(s, p) == i,
    decreases i,
{
    if i > 0 {
        assert forall|j: int| 0 <= j < i - 1 implies !p(#[trigger] s.drop_first()[j]) by {
            assert(s.drop_first()[j] == s[j + 1]);
        }
        if i < s.len() {
            assert(s.drop_first()[i - 1] == s[i]);
        }
        lemma_first_match(s.drop_first(), p, i - 1);
    }
}

pub proof fn lemma_first_match_bounds<A>(s: Seq<A>, p: spec_fn(A) -> bool)
    ensures
        0 <= first_match(s, p) <= s.len(),
        first_match(s, p) < s.len() ==> p(s[first_match(s, p)]),
        forall|j: int| 0 <= j < first_match(s, p) ==> !p(#[trigger] s[j]),
    decreases s.len(),
{
    if s.len() > 0 && !p(s[0]) {
        lemma_first_match_bounds(s.drop_first(), p);
        assert forall|j: int| 0 <= j < first_match(s, p) implies !p(#[trigger] s[j]) by {
            if j > 0 {
                assert(s[j] == s.drop_first()[j - 1]);
            }
        }
    }
}

/// The position of the entry with key `k`: the first one, or `m.len()` if there is none.
pub open spec fn key_position(m: Seq<(Seq<char>, ValueModel)>, k: Seq<char>) -> int {
    first_match(m, key_is(k))
}

/// Whether an entry has key `k`.
pub open spec fn key_is(k: Seq<char>) -> spec_fn((Seq<char>, ValueModel)) -> bool {
    |e: (Seq<char>, ValueModel)| e.0 == k
}

/// What an object answers for key `k`.
pub open spec fn object_get(m: Seq<(Seq<char>, ValueModel)>, k: Seq<char>) -> Option<ValueModel> {
    let i = key_position(m, k);
    if i < m.len() {
        Some(m[i].1)
    } else {
        None
    }
}

/// Whether key `a` comes before key `b`: the lexicographic order of their characters,
/// which is the order of their UTF-8 bytes.
pub open spec fn key_lt(a: Seq<char>, b: Seq<char>) -> bool
    decreases a.len(),
{
    if a.len() == 0 {
        b.len() > 0
    } else if b.len() == 0 {
        false
    } else if a[0] != b[0] {
        a[0] < b[0]
    } else {
        key_lt(a.drop_first(), b.drop_first())
    }
}

/// Whether an entry's key comes after `k`.
pub open spec fn key_after(k: Seq<char>) -> spec_fn((Seq<char>, ValueModel)) -> bool {
    |e: (Seq<char>, ValueModel)| key_lt(k, e.0)
}

/// Where a new key `k` goes: before the first entry whose key comes after it.
pub open spec fn insert_position(m: Seq<(Seq<char>, ValueModel)>, k: Seq<char>) -> int {
    first_match(m, key_after(k))
}

/// The object after setting key `k` to `v`: the entry for `k` is replaced in place,
/// or a new entry goes before the first key that comes after `k`, so that an object
/// whose keys are in order keeps them in order.
pub open spec fn object_insert(
    m: Seq<(Seq<char>, ValueModel)>,
    k: Seq<char>,
    v: ValueModel,
) -> Seq<(Seq<char>, ValueModel)> {
    let i = key_position(m, k);
    if i < m.len() {
        m.update(i, (k, v))
    } else {
        m.insert(insert_position(m, k), (k, v))
    }
}

/// A byte-for-byte copy of a byte vector.
pub fn copy_bytes(b: &Vec<u8>) -> (r: Vec<u8>)
    ensures
        r@ == b@,
{
    let mut out: Vec<u8> = Vec::new();
    let mut i: usize = 0;
    while i < b.len()
        invariant
            i <= b.len(),
            out@ == b@.take(i as int),
        decreases b.len() - i,
    {
        out.push(b[i]);
        i = i + 1;
    }
    assert(out@ == b@);
    out
}

impl Value {
    /// A deep copy of the value.
    #[verifier::loop_isolation(false)]
    pub fn deep_copy(&self) -> (r: Value)
        ensures
            r@ == self@,
        decreases self,
    {
        match self {
            Value::Bytes(b) => Value::Bytes(copy_bytes(b)),
            Value::Integer(n) => Value::Integer(*n),
            Value::Boolean(b) => Value::Boolean(*b),
            Value::Array(a) => {
                let mut out: Vec<Value> = Vec::new();
                let mut i: usize = 0;
                while i < a.len()
                    invariant
                        i <= a.len(),
                        out@.len() == i,
                        forall|j: int| 0 <= j < i ==> (#[trigger] out@[j])@ == a@[j]@,
                    decreases a.len() - i,
                {
                    proof {
                        assert(decreases_to!(*a => a[i as int]));
                    }
                    let c = a[i].deep_copy();
                    out.push(c);
                    i = i + 1;
                }
                let r = Value::Array(out);
                assert(r@ == self@) by {
                    if let ValueModel::Array(x) = r@ {
                        if let ValueModel::Array(y) = self@ {
                            assert(x =~= y);
                        }
                    }
                }
                r
            },
            Value::Object(o) => {
                let mut out: Vec<(String, Value)> = Vec::new();
                let mut i: usize = 0;
                while i < o.len()
                    invariant
                        i <= o.len(),
                        out@.len() == i,
                        forall|j: int|
                            0 <= j < i ==> (#[trigger] out@[j]).0@ == o@[j].0@ && out@[j].1@
                                == o@[j].1@,
                    decreases o.len() - i,
                {
                    proof {
                        assert(decreases_to!(*o => o[i as int]));
                    }
                    let k = o[i].0.clone();
                    let c = o[i].1.deep_copy();
                    out.push((k, c));
                    i = i + 1;
                }
                let r = Value::Object(out);
                assert(r@ == self@) by {
                    if let ValueModel::Object(x) = r@ {
                        if let ValueModel::Object(y) = self@ {
                            assert(x =~= y);
                        }
                    }
                }
                r
            },
            Value::Null => Value::Null,
        }
    }
}

/// The position of the entry with key `k` in `entries`, or `entries.len()`.
pub fn find_key(entries: &Vec<(String, Value)>, k: &String) -> (i: usize)
    ensures
        i == key_position(entries_model(entries@), k@),
{
    let ghost m = entries_model(entries@);
    let ghost p = key_is(k@);
    let mut i: usize = 0;
    while i < entries.len()
        invariant
            i <= entries.len(),
            m == entries_model(entries@),
            p == key_is(k@),
            forall|j: int| 0 <= j < i ==> !p(#[trigger] m[j]),
        decreases entries.len() - i,
    {
        if entries[i].0 == *k {
            proof {
                lemma_first_match(m, p, i as int);
            }
            return i;
        }
        i = i + 1;
    }
    proof {
        lemma_first_match(m, p, i as int);
    }
    i
}

/// Whether key `a` comes before key `b`, as [`key_lt`] states.
pub fn key_less(a: &str, b: &str) -> (r: bool)
    ensures
        r == key_lt(a@, b@),
{
    let la = a.unicode_len();
    let lb = b.unicode_len();
    let mut i: usize = 0;
    assert(a@.skip(0) =~= a@ && b@.skip(0) =~= b@);
    while i < la && i < lb && a.get_char(i) == b.get_char(i)
        invariant
            la == a@.len(),
            lb == b@.len(),
            i <= la,
            i <= lb,
            key_lt(a@, b@) == key_lt(a@.skip(i as int), b@.skip(i as int)),
        decreases la - i,
    {
        assert(a@.skip(i as int)[0] == a@[i as int] && b@.skip(i as int)[0] == b@[i as int]);
        assert(a@.skip(i as int).drop_first() =~= a@.skip(i + 1));
        assert(b@.skip(i as int).drop_first() =~= b@.skip(i + 1));
        i = i + 1;
    }
    if i < la && i < lb {
        assert(a@.skip(i as int)[0] == a@[i as int] && b@.skip(i as int)[0] == b@[i as int]);
        a.get_char(i) < b.get_char(i)
    } else {
        i < lb
    }
}

/// Where a new key `k` goes in `entries`, as [`insert_position`] states.
fn find_insert_position(entries: &Vec<(String, Value)>, k: &String) -> (i: usize)
    ensures
        i == insert_position(entries_model(entries@), k@),
{
    let ghost m = entries_model(entries@);
    let ghost p = key_after(k@);
    let mut i: usize = 0;
    while i < entries.len()
        invariant
            i <= entries.len(),
            m == entries_model(entries@),
            p == key_after(k@),
            forall|j: int| 0 <= j < i ==> !p(#[trigger] m[j]),
        decreases entries.len() - i,
    {
        if key_less(k.as_str(), entries[i].0.as_str()) {
            proof {
                lemma_first_match(m, p, i as int);
            }
            return i;
        }
        i = i + 1;
    }
    proof {
        lemma_first_match(m, p, i as int);
    }
    i
}

/// Sets key `k` of the object entries to `v`, as [`object_insert`] states.
pub fn insert_entry(entries: &mut Vec<(String, Value)>, k: String, v: Value)
    ensures
        entries_model(final(entries)@) == object_insert(entries_model(old(entries)@), k@, v@),
{
    let i = find_key(entries, &k);
    let ghost m = entries_model(old(entries)@);
    let ghost kv = k@;
    let ghost vv = v@;
    if i < entries.len() {
        entries.set(i, (k, v));
        assert(entries_model(entries@) =~= m.update(i as int, (kv, vv)));
    } else {
        let p = find_insert_position(entries, &k);
        proof {
            lemma_first_match_bounds(m, key_after(kv));
        }
        entries.insert(p, (k, v));
        assert(entries_model(entries@) =~= m.insert(p as int, (kv, vv)));
    }
}

} // verus!

verus! {

/// Setting key `t` leaves what the object answers for every other key unchanged.
pub proof fn lemma_insert_get_other(
    m: Seq<(Seq<char>, ValueModel)>,
    t: Seq<char>,
    x: ValueModel,
    k: Seq<char>,
)
    requires
        k != t,
    ensures
        object_get(object_insert(m, t, x), k) == object_get(m, k),
{
    let pk = key_is(k);
    let pt = key_is(t);
    let m2 = object_insert(m, t, x);
    lemma_first_match_bounds(m, pk);
    lemma_first_match_bounds(m, pt);
    let p = first_match(m, pk);
    let i = first_match(m, pt);
    if i < m.len() {
        assert(m2 == m.update(i, (t, x)));
        assert forall|j: int| 0 <= j < p implies !pk(#[trigger] m2[j]) by {
            if j != i {
                assert(m2[j] == m[j]);
            }
        }
        if p < m.len() {
            assert(p != i);
            assert(m2[p] == m[p]);
        }
        lemma_first_match(m2, pk, p);
    } else {
        let q = insert_position(m, t);
        lemma_first_match_bounds(m, key_after(t));
        assert(m2 == m.insert(q, (t, x)));
        if p < q {
            assert forall|j: int| 0 <= j < p implies !pk(#[trigger] m2[j]) by {
                assert(m2[j] == m[j]);
            }
            assert(m2[p] == m[p]);
            lemma_first_match(m2, pk, p);
        } else {
            assert forall|j: int| 0 <= j < p + 1 implies !pk(#[trigger] m2[j]) by {
                if j < q {
                    assert(m2[j] == m[j]);
                } else if j > q {
                    assert(m2[j] == m[j - 1]);
                }
            }
            if p < m.len() {
                assert(m2[p + 1] == m[p]);
            }
            lemma_first_match(m2, pk, p + 1);
        }
    }
}

/// After setting key `t` to `x`, the object answers `x` for `t`.
pub proof fn lemma_insert_get_same(m: Seq<(Seq<char>, ValueModel)>, t: Seq<char>, x: ValueModel)
    ensures
        object_get(object_insert(m, t, x), t) == Some(x),
{
    let pt = key_is(t);
    let m2 = object_insert(m, t, x);
    lemma_first_match_bounds(m, pt);
    let i = first_match(m, pt);
    if i < m.len() {
        assert forall|j: int| 0 <= j < i implies !pt(#[trigger] m2[j]) by {
            assert(m2[j] == m[j]);
        }
        lemma_first_match(m2, pt, i);
    } else {
        let q = insert_position(m, t);
        lemma_first_match_bounds(m, key_after(t));
        assert forall|j: int| 0 <= j < q implies !pt(#[trigger] m2[j]) by {
            assert(m2[j] == m[j]);
        }
        lemma_first_match(m2, pt, q);
    }
}

} // verus!

verus! {

/// Whether no two entries of an object share a key, as in a map.
pub open spec fn keys_distinct(m: Seq<(Seq<char>, ValueModel)>) -> bool {
    forall|i: int, j: int| 0 <= i < j < m.len() ==> (#[trigger] m[i]).0 != (#[trigger] m[j]).0
}

/// Setting a key keeps the keys of an object distinct.
pub proof fn law_insert_keeps_keys_distinct(
    m: Seq<(Seq<char>, ValueModel)>,
    k: Seq<char>,
    v: ValueModel,
)
    requires
        keys_distinct(m),
    ensures
        keys_distinct(object_insert(m, k, v)),
{
    let p = key_is(k);
    lemma_first_match_bounds(m, p);
    let i = first_match(m, p);
    let m2 = object_insert(m, k, v);
    assert forall|a: int, b: int| 0 <= a < b < m2.len() implies (#[trigger] m2[a]).0 != (
    #[trigger] m2[b]).0 by {
        if i < m.len() {
            assert(m[i].0 == k);
            if a != i {
                assert(m2[a] == m[a]);
            }
            if b != i {
                assert(m2[b] == m[b]);
            }
        } else {
            let q = insert_position(m, k);
            lemma_first_match_bounds(m, key_after(k));
            if a < q {
                assert(m2[a] == m[a]);
                assert(!p(m[a]));
            } else if a > q {
                assert(m2[a] == m[a - 1]);
            }
            if b < q {
                assert(m2[b] == m[b]);
            } else if b > q {
                assert(m2[b] == m[b - 1]);
                assert(!p(m[b - 1]));
            }
        }
    }
}

/// Whether the keys of an object come in increasing order, as a sorted map keeps them.
pub open spec fn keys_sorted(m: Seq<(Seq<char>, ValueModel)>) -> bool {
    forall|i: int, j: int| 0 <= i < j < m.len() ==> key_lt((#[trigger] m[i]).0, (#[trigger] m[j]).0)
}

/// No key comes before itself.
pub proof fn lemma_key_lt_irreflexive(a: Seq<char>)
    ensures
        !key_lt(a, a),
    decreases a.len(),
{
    if a.len() > 0 {
        lemma_key_lt_irreflexive(a.drop_first());
    }
}

/// The key order is transitive.
pub proof fn lemma_key_lt_transitive(a: Seq<char>, b: Seq<char>, c: Seq<char>)
    requires
        key_lt(a, b),
        key_lt(b, c),
    ensures
        key_lt(a, c),
    decreases a.len(),
{
    if a.len() > 0 && b.len() > 0 && c.len() > 0 && a[0] == b[0] && b[0] == c[0] {
        lemma_key_lt_transitive(a.drop_first(), b.drop_first(), c.drop_first());
    }
}

/// Of two different keys, one comes before the other.
pub proof fn lemma_key_lt_total(a: Seq<char>, b: Seq<char>)
    requires
        a != b,
    ensures
        key_lt(a, b) || key_lt(b, a),
    decreases a.len(),
{
    if a.len() == 0 || b.len() == 0 {
        if a.len() == 0 && b.len() == 0 {
            assert(a =~= b);
        }
    } else if a[0] == b[0] {
        if a.drop_first() =~= b.drop_first() {
            assert forall|i: int| 0 <= i < a.len() implies a[i] == b[i] by {
                if i > 0 {
                    assert(a[i] == a.drop_first()[i - 1]);
                    assert(b[i] == b.drop_first()[i - 1]);
                }
            }
            assert(a =~= b);
        }
        lemma_key_lt_total(a.drop_first(), b.drop_first());
    }
}

/// Setting a key keeps the keys of an object in order: a new key goes where the order
/// puts it.
pub proof fn law_insert_keeps_keys_sorted(
    m: Seq<(Seq<char>, ValueModel)>,
    k: Seq<char>,
    v: ValueModel,
)
    requires
        keys_sorted(m),
    ensures
        keys_sorted(object_insert(m, k, v)),
{
    let p = key_is(k);
    lemma_first_match_bounds(m, p);
    let i = first_match(m, p);
    let m2 = object_insert(m, k, v);
    if i < m.len() {
        assert(m[i].0 == k);
        assert forall|a: int, b: int| 0 <= a < b < m2.len() implies key_lt(
            (#[trigger] m2[a]).0,
            (#[trigger] m2[b]).0,
        ) by {
            assert(m2[a].0 == m[a].0);
            assert(m2[b].0 == m[b].0);
        }
    } else {
        let q = insert_position(m, k);
        lemma_first_match_bounds(m, key_after(k));
        assert forall|a: int| 0 <= a < q implies key_lt(#[trigger] m[a].0, k) by {
            assert(!key_after(k)(m[a]));
            assert(!p(m[a]));
            lemma_key_lt_total(m[a].0, k);
        }
        assert forall|a: int| q <= a < m.len() implies key_lt(k, #[trigger] m[a].0) by {
            if a > q {
                assert(key_lt(m[q].0, m[a].0));
                lemma_key_lt_transitive(k, m[q].0, m[a].0);
            }
        }
        assert forall|a: int, b: int| 0 <= a < b < m2.len() implies key_lt(
            (#[trigger] m2[a]).0,
            (#[trigger] m2[b]).0,
        ) by {
            if b < q {
                assert(m2[a] == m[a] && m2[b] == m[b]);
            } else if b == q {
                assert(m2[a] == m[a]);
            } else if a < q {
                assert(m2[a] == m[a]);
                assert(m2[b] == m[b - 1]);
                lemma_key_lt_transitive(m[a].0, k, m[b - 1].0);
            } else if a == q {
                assert(m2[b] == m[b - 1]);
            } else {
                assert(m2[a] == m[a - 1] && m2[b] == m[b - 1]);
            }
        }
    }
}

} // verus!
