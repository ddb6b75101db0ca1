//! The crate's model of wire JSON.
//!
//! `JsonValue` covers the protocol's JSON subset: null, booleans, integers,
//! strings, arrays, and objects whose entries keep their wire order.
//! Fractional numbers do not occur in the protocol and are rejected at the
//! text boundary.

use vstd::prelude::*;

use crate::wire::str_eq;

verus! {

/// A JSON value. Objects are entry lists in wire order; a well-formed object
/// holds each key once.
#[derive(Debug, PartialEq)]
pub enum JsonValue {
    /// `null`
    Null,
    /// `true` or `false`
    Bool(bool),
    /// A non-negative integer.
    UInt(u64),
    /// A negative integer.
    Int(i64),
    /// A string.
    Str(String),
    /// An array.
    Arr(Vec<JsonValue>),
    /// An object: keys with their values, in wire order.
    Obj(Vec<(String, JsonValue)>),
}

impl JsonValue {
    /// Well-formed: `Int` holds only negative values (others use `UInt`),
    /// and every object binds each key at most once.
    pub open spec fn wf(self) -> bool
        decreases self,
    {
        match self {
            JsonValue::Null => true,
            JsonValue::Bool(_) => true,
            JsonValue::UInt(_) => true,
            JsonValue::Int(i) => i < 0,
            JsonValue::Str(_) => true,
            JsonValue::Arr(items) => forall|i: int|
                0 <= i < items@.len() ==> (#[trigger] items@[i]).wf(),
            JsonValue::Obj(entries) => distinct_keys(entries@) && forall|i: int|
                0 <= i < entries@.len() ==> (#[trigger] entries@[i]).1.wf(),
        }
    }

    /// The value bound to `key`, where `self` is an object that binds it.
    pub open spec fn spec_get(self, key: Seq<char>) -> Option<JsonValue> {
        match self {
            JsonValue::Obj(entries) => entries_get(entries@, key),
            _ => None,
        }
    }

    /// The value bound to `key`, where `self` is an object that binds it.
    #[verifier::loop_isolation(false)]
    pub fn get<'a>(&'a self, key: &str) -> (r: Option<&'a JsonValue>)
        ensures
            match r {
                Some(v) => self.spec_get(key@) == Some(*v),
                None => self.spec_get(key@) is None,
            },
    {
        match self {
            JsonValue::Obj(entries) => {
                let n = entries.len();
                assert(entries@.skip(0) =~= entries@);
                for i in 0..n
                    invariant
                        n == entries@.len(),
                        entries_get(entries@, key@) == entries_get(entries@.skip(i as int), key@),
                {
                    assert(entries@.skip(i as int)[0] == entries@[i as int]);
                    if str_eq(entries[i].0.as_str(), key) {
                        return Some(&entries[i].1);
                    }
                    assert(entries@.skip(i as int).drop_first() =~= entries@.skip(i + 1));
                }
                assert(entries@.skip(n as int) =~= Seq::<(String, JsonValue)>::empty());
                None
            },
            _ => None,
        }
    }
}

/// Wire equality of two JSON values: scalars and strings hold the same
/// characters, arrays agree pointwise, and objects bind the same key set to
/// equivalent values, whatever the entry order.
pub open spec fn equiv(a: JsonValue, b: JsonValue) -> bool
    decreases a,
        via equiv_decreases
{
    match (a, b) {
        (JsonValue::Null, JsonValue::Null) => true,
        (JsonValue::Bool(x), JsonValue::Bool(y)) => x == y,
        (JsonValue::UInt(x), JsonValue::UInt(y)) => x == y,
        (JsonValue::Int(x), JsonValue::Int(y)) => x == y,
        (JsonValue::Str(x), JsonValue::Str(y)) => x@ == y@,
        (JsonValue::Arr(xs), JsonValue::Arr(ys)) => xs@.len() == ys@.len() && (forall|i: int|
            0 <= i < xs@.len() ==> equiv(#[trigger] xs@[i], ys@[i])),
        (JsonValue::Obj(xs), JsonValue::Obj(ys)) => {
            &&& xs@.len() == ys@.len()
            &&& (forall|k: Seq<char>|
                #[trigger] entries_get(xs@, k) is Some <==> entries_get(ys@, k) is Some)
            &&& (forall|k: Seq<char>|
                #[trigger] entries_get(xs@, k) is Some ==> equiv(
                    entries_get(xs@, k)->Some_0,
                    entries_get(ys@, k)->Some_0,
                ))
        },
        _ => false,
    }
}

#[via_fn]
proof fn equiv_decreases(a: JsonValue, b: JsonValue) {
    match a {
        JsonValue::Arr(xs) => {
            assert forall|i: int| 0 <= i < xs@.len() implies decreases_to!(a => xs@[i]) by {
                assert(decreases_to!(a => a->Arr_0));
                assert(decreases_to!(a->Arr_0 => a->Arr_0@));
                assert(decreases_to!(a->Arr_0@ => a->Arr_0@[i]));
            }
        },
        JsonValue::Obj(xs) => {
            assert forall|k: Seq<char>| entries_get(xs@, k) is Some implies decreases_to!(
                a => entries_get(xs@, k)->Some_0,
            ) by {
                let idx = lemma_entries_get_index(xs@, k);
                assert(decreases_to!(a => a->Obj_0));
                assert(decreases_to!(a->Obj_0 => a->Obj_0@));
                assert(decreases_to!(a->Obj_0@ => a->Obj_0@[idx]));
                assert(decreases_to!(a->Obj_0@[idx] => a->Obj_0@[idx].1));
            }
        },
        _ => {},
    }
}

/// A successful lookup returns the value of the first entry holding the key;
/// the returned index witnesses it.
pub proof fn lemma_entries_get_index(entries: Seq<(String, JsonValue)>, key: Seq<char>) -> (i:
    int)
    requires
        entries_get(entries, key) is Some,
    ensures
        0 <= i < entries.len(),
        entries[i].0@ == key,
        entries_get(entries, key) == Some(entries[i].1),
    decreases entries.len(),
{
    if entries[0].0@ == key {
        0
    } else {
        lemma_entries_get_index(entries.drop_first(), key) + 1
    }
}

impl Clone for JsonValue {
    /// A deep copy that yields an equivalent value.
    #[verifier::loop_isolation(false)]
    fn clone(&self) -> (r: Self)
        ensures
            equiv(r, *self),
        decreases self,
    {
        match self {
            JsonValue::Null => JsonValue::Null,
            JsonValue::Bool(b) => JsonValue::Bool(*b),
            JsonValue::UInt(u) => JsonValue::UInt(*u),
            JsonValue::Int(i) => JsonValue::Int(*i),
            JsonValue::Str(s) => JsonValue::Str(s.clone()),
            JsonValue::Arr(items) => {
                let n = items.len();
                let mut out: Vec<JsonValue> = Vec::new();
                for i in 0..n
                    invariant
                        n == items@.len(),
                        out@.len() == i,
                        forall|j: int| 0 <= j < i ==> equiv(#[trigger] out@[j], items@[j]),
                    decreases n - i,
                {
                    proof {
                        let s = *self;
                        assert(decreases_to!(s => s->Arr_0));
                        assert(decreases_to!(s->Arr_0 => s->Arr_0@));
                        assert(decreases_to!(s->Arr_0@ => s->Arr_0@[i as int]));
                    }
                    out.push(items[i].clone());
                }
                let r = JsonValue::Arr(out);
                assert(equiv(r, *self));
                r
            },
            JsonValue::Obj(entries) => {
                let n = entries.len();
                let mut out: Vec<(String, JsonValue)> = Vec::new();
                for i in 0..n
                    invariant
                        n == entries@.len(),
                        out@.len() == i,
                        forall|j: int| 0 <= j < i ==> (#[trigger] out@[j]).0@ == entries@[j].0@
                            && equiv(out@[j].1, entries@[j].1),
                    decreases n - i,
                {
                    proof {
                        let s = *self;
                        assert(decreases_to!(s => s->Obj_0));
                        assert(decreases_to!(s->Obj_0 => s->Obj_0@));
                        assert(decreases_to!(s->Obj_0@ => s->Obj_0@[i as int]));
                        assert(decreases_to!(s->Obj_0@[i as int] => s->Obj_0@[i as int].1));
                    }
                    out.push((entries[i].0.clone(), entries[i].1.clone()));
                }
                let r = JsonValue::Obj(out);
                proof {
                    lemma_obj_equiv_pointwise(out@, entries@);
                }
                assert(equiv(r, *self));
                r
            },
        }
    }
}

/// In a list with distinct keys, looking up the key of entry `i` yields the
/// value of entry `i`.
pub proof fn lemma_entries_get_at(entries: Seq<(String, JsonValue)>, i: int)
    requires
        distinct_keys(entries),
        0 <= i < entries.len(),
    ensures
        entries_get(entries, entries[i].0@) == Some(entries[i].1),
    decreases i,
{
    if i > 0 {
        assert(entries[0].0@ != entries[i].0@);
        assert(entries.drop_first()[i - 1] == entries[i]);
        assert(distinct_keys(entries.drop_first())) by {
            assert(forall|x: int, y: int|
                0 <= x < y < entries.drop_first().len() ==> (#[trigger] entries.drop_first()[x])
                    == entries[x + 1] && (#[trigger] entries.drop_first()[y]) == entries[y + 1]);
        }
        lemma_entries_get_at(entries.drop_first(), i - 1);
    }
}

/// With distinct keys, every entry's key looks up to that entry's value.
pub proof fn lemma_entries_get_all(entries: Seq<(String, JsonValue)>)
    requires
        distinct_keys(entries),
    ensures
        forall|i: int|
            0 <= i < entries.len() ==> entries_get(entries, (#[trigger] entries[i]).0@) == Some(
                entries[i].1,
            ),
{
    assert forall|i: int| 0 <= i < entries.len() implies entries_get(
        entries,
        (#[trigger] entries[i]).0@,
    ) == Some(entries[i].1) by {
        lemma_entries_get_at(entries, i);
    }
}

/// Appending an entry changes only its own key's lookup: earlier entries
/// shadow it, a fresh key becomes bound.
pub proof fn lemma_entries_get_push(
    entries: Seq<(String, JsonValue)>,
    e: (String, JsonValue),
    key: Seq<char>,
)
    ensures
        entries_get(entries.push(e), key) == (if entries_get(entries, key) is Some {
            entries_get(entries, key)
        } else if key == e.0@ {
            Some(e.1)
        } else {
            None
        }),
    decreases entries.len(),
{
    if entries.len() == 0 {
        assert(entries.push(e)[0] == e);
        assert(entries.push(e).drop_first() =~= Seq::<(String, JsonValue)>::empty());
        assert(entries_get(Seq::<(String, JsonValue)>::empty(), key) is None);
        assert(entries_get(entries, key) is None);
    } else {
        assert(entries.push(e)[0] == entries[0]);
        assert(entries.push(e).drop_first() =~= entries.drop_first().push(e));
        lemma_entries_get_push(entries.drop_first(), e, key);
        assert(entries_get(entries.push(e), key) == (if entries[0].0@ == key {
            Some(entries[0].1)
        } else {
            entries_get(entries.drop_first().push(e), key)
        }));
    }
}

/// Appends a field to an object under construction. The key must be fresh;
/// in return, the new entry list stays distinct-keyed, binds the key to the
/// value, and looks up every other key as before.
pub(crate) fn obj_push(entries: &mut Vec<(String, JsonValue)>, key: &str, value: JsonValue)
    requires
        distinct_keys(old(entries)@),
        entries_get(old(entries)@, key@) is None,
    ensures
        distinct_keys(final(entries)@),
        final(entries)@.len() == old(entries)@.len() + 1,
        entries_get(final(entries)@, key@) == Some(value),
        forall|k: Seq<char>| k != key@ ==> entries_get(final(entries)@, k) == entries_get(
            old(entries)@,
            k,
        ),
{
    entries.push((key.to_owned(), value));
    proof {
        let es = old(entries)@;
        let e = entries@[es.len() as int];
        assert(entries@ =~= es.push(e));
        assert forall|k: Seq<char>| true implies entries_get(es.push(e), k) == (
        if entries_get(es, k) is Some {
            entries_get(es, k)
        } else if k == e.0@ {
            Some(e.1)
        } else {
            None
        }) by {
            lemma_entries_get_push(es, e, k);
        }
        assert forall|i: int| 0 <= i < es.len() implies (#[trigger] es[i]).0@ != key@ by {
            if es[i].0@ == key@ {
                lemma_entries_get_at(es, i);
            }
        }
        assert forall|i: int, j: int| 0 <= i < j < entries@.len() implies (#[trigger] entries@[i]).0@
            != (#[trigger] entries@[j]).0@ by {
            if j < es.len() {
                assert(entries@[i] == es[i] && entries@[j] == es[j]);
            } else {
                assert(entries@[i] == es[i] && entries@[j] == e);
            }
        }
    }
}

/// A key held by no entry looks up to nothing.
pub proof fn lemma_entries_get_none(entries: Seq<(String, JsonValue)>, key: Seq<char>)
    requires
        forall|i: int| 0 <= i < entries.len() ==> (#[trigger] entries[i]).0@ != key,
    ensures
        entries_get(entries, key) is None,
    decreases entries.len(),
{
    if entries.len() > 0 {
        assert(forall|i: int|
            0 <= i < entries.drop_first().len() ==> (#[trigger] entries.drop_first()[i])
                == entries[i + 1]);
        lemma_entries_get_none(entries.drop_first(), key);
    }
}

/// Every JSON value is equivalent to itself.
pub proof fn lemma_equiv_refl(v: JsonValue)
    ensures
        equiv(v, v),
    decreases v,
{
    match v {
        JsonValue::Arr(items) => {
            assert forall|i: int| 0 <= i < items@.len() implies equiv(
                #[trigger] items@[i],
                items@[i],
            ) by {
                assert(decreases_to!(v => v->Arr_0));
                assert(decreases_to!(v->Arr_0 => v->Arr_0@));
                assert(decreases_to!(v->Arr_0@ => v->Arr_0@[i]));
                lemma_equiv_refl(items@[i]);
            }
        },
        JsonValue::Obj(entries) => {
            assert forall|k: Seq<char>| #[trigger] entries_get(entries@, k) is Some implies equiv(
                entries_get(entries@, k)->Some_0,
                entries_get(entries@, k)->Some_0,
            ) by {
                let i = lemma_entries_get_index(entries@, k);
                assert(decreases_to!(v => v->Obj_0));
                assert(decreases_to!(v->Obj_0 => v->Obj_0@));
                assert(decreases_to!(v->Obj_0@ => v->Obj_0@[i]));
                assert(decreases_to!(v->Obj_0@[i] => v->Obj_0@[i].1));
                lemma_equiv_refl(entries@[i].1);
            }
        },
        _ => {},
    }
}

/// Whether a string list mirrors a JSON array of strings, element by
/// element.
pub open spec fn str_items_match(ss: Seq<String>, vs: Seq<JsonValue>) -> bool {
    ss.len() == vs.len() && forall|i: int|
        0 <= i < vs.len() ==> (#[trigger] vs[i]) is Str && ss[i]@ == vs[i]->Str_0@
}

/// Reads a JSON array of strings into a string list; rejected exactly when
/// the value is not an array of strings.
#[verifier::loop_isolation(false)]
pub fn strings_from_json(v: &JsonValue) -> (r: Result<Vec<String>, ()>)
    ensures
        r is Ok <==> (v is Arr && forall|i: int|
            0 <= i < v->Arr_0@.len() ==> (#[trigger] v->Arr_0@[i]) is Str),
        r matches Ok(ss) ==> str_items_match(ss@, v->Arr_0@),
{
    match v {
        JsonValue::Arr(items) => {
            let n = items.len();
            let mut out: Vec<String> = Vec::new();
            for i in 0..n
                invariant
                    n == items@.len(),
                    out@.len() == i,
                    forall|j: int| 0 <= j < i ==> (#[trigger] items@[j]) is Str && out@[j]@
                        == items@[j]->Str_0@,
                decreases n - i,
            {
                match &items[i] {
                    JsonValue::Str(s) => out.push(s.clone()),
                    _ => {
                        return Err(());
                    },
                }
            }
            Ok(out)
        },
        _ => Err(()),
    }
}

/// Encodes a string list as a JSON array of strings.
#[verifier::loop_isolation(false)]
pub fn strings_to_json(ss: &Vec<String>) -> (r: JsonValue)
    ensures
        r is Arr,
        str_items_match(ss@, r->Arr_0@),
{
    let n = ss.len();
    let mut items: Vec<JsonValue> = Vec::new();
    for i in 0..n
        invariant
            n == ss@.len(),
            items@.len() == i,
            forall|j: int| 0 <= j < i ==> (#[trigger] items@[j]) is Str && ss@[j]@
                == items@[j]->Str_0@,
        decreases n - i,
    {
        items.push(JsonValue::Str(ss[i].clone()));
    }
    JsonValue::Arr(items)
}

/// The set of keys an entry list binds.
pub open spec fn key_set(entries: Seq<(String, JsonValue)>) -> Set<Seq<char>> {
    Set::new(|k: Seq<char>| entries_get(entries, k) is Some)
}

/// With distinct keys, an entry list binds exactly as many keys as it has
/// entries.
pub proof fn lemma_key_set_card(entries: Seq<(String, JsonValue)>)
    requires
        distinct_keys(entries),
    ensures
        key_set(entries).finite(),
        key_set(entries).len() == entries.len(),
    decreases entries.len(),
{
    if entries.len() == 0 {
        assert(key_set(entries) =~= Set::<Seq<char>>::empty());
    } else {
        let rest = entries.drop_first();
        assert(forall|i: int|
            0 <= i < rest.len() ==> (#[trigger] rest[i]) == entries[i + 1]);
        lemma_key_set_card(rest);
        lemma_entries_get_none(rest, entries[0].0@);
        assert(key_set(entries) =~= key_set(rest).insert(entries[0].0@));
    }
}

/// Object equivalence from lookups: two distinct-keyed entry lists of equal
/// length, where every key of the first is bound by the second and bound
/// keys hold equivalent values, bind the same key set.
pub proof fn lemma_obj_equiv_of_lookups(
    xs: Seq<(String, JsonValue)>,
    ys: Seq<(String, JsonValue)>,
)
    requires
        distinct_keys(xs),
        distinct_keys(ys),
        xs.len() == ys.len(),
        forall|i: int| 0 <= i < xs.len() ==> entries_get(ys, (#[trigger] xs[i]).0@) is Some,
    ensures
        forall|k: Seq<char>| #[trigger] entries_get(xs, k) is Some <==> entries_get(ys, k) is Some,
{
    lemma_key_set_card(xs);
    lemma_key_set_card(ys);
    assert forall|k: Seq<char>| #[trigger] key_set(xs).contains(k) implies key_set(ys).contains(
        k,
    ) by {
        let i = lemma_entries_get_index(xs, k);
        assert(entries_get(ys, xs[i].0@) is Some);
    }
    assert(key_set(xs).subset_of(key_set(ys)));
    assert forall|k: Seq<char>|
        #[trigger] entries_get(xs, k) is Some <==> entries_get(ys, k) is Some by {
        if entries_get(ys, k) is Some && !(entries_get(xs, k) is Some) {
            key_set(xs).lemma_subset_not_in_lt(key_set(ys), k);
        }
        if entries_get(xs, k) is Some {
            assert(key_set(xs).contains(k));
            assert(key_set(ys).contains(k));
        }
    }
}

/// Two objects without entries are equivalent.
pub proof fn lemma_equiv_empty_obj(a: JsonValue, b: JsonValue)
    requires
        a is Obj && a->Obj_0@.len() == 0,
        b is Obj && b->Obj_0@.len() == 0,
    ensures
        equiv(a, b),
{
    assert forall|k: Seq<char>| true implies !(#[trigger] entries_get(a->Obj_0@, k) is Some) && !(
    entries_get(b->Obj_0@, k) is Some) by {
        lemma_entries_get_none(a->Obj_0@, k);
        lemma_entries_get_none(b->Obj_0@, k);
    }
}

/// Equivalence is symmetric.
pub proof fn lemma_equiv_sym(a: JsonValue, b: JsonValue)
    requires
        equiv(a, b),
    ensures
        equiv(b, a),
    decreases a,
{
    match (a, b) {
        (JsonValue::Arr(xs), JsonValue::Arr(ys)) => {
            assert forall|i: int| 0 <= i < ys@.len() implies equiv(#[trigger] ys@[i], xs@[i]) by {
                assert(decreases_to!(a => a->Arr_0));
                assert(decreases_to!(a->Arr_0 => a->Arr_0@));
                assert(decreases_to!(a->Arr_0@ => a->Arr_0@[i]));
                lemma_equiv_sym(xs@[i], ys@[i]);
            }
        },
        (JsonValue::Obj(xs), JsonValue::Obj(ys)) => {
            assert forall|k: Seq<char>| #[trigger] entries_get(ys@, k) is Some implies equiv(
                entries_get(ys@, k)->Some_0,
                entries_get(xs@, k)->Some_0,
            ) by {
                let i = lemma_entries_get_index(xs@, k);
                assert(decreases_to!(a => a->Obj_0));
                assert(decreases_to!(a->Obj_0 => a->Obj_0@));
                assert(decreases_to!(a->Obj_0@ => a->Obj_0@[i]));
                assert(decreases_to!(a->Obj_0@[i] => a->Obj_0@[i].1));
                lemma_equiv_sym(entries_get(xs@, k)->Some_0, entries_get(ys@, k)->Some_0);
            }
        },
        _ => {},
    }
}

/// Equivalence is transitive.
pub proof fn lemma_equiv_trans(a: JsonValue, b: JsonValue, c: JsonValue)
    requires
        equiv(a, b),
        equiv(b, c),
    ensures
        equiv(a, c),
    decreases a,
{
    match (a, b) {
        (JsonValue::Arr(xs), JsonValue::Arr(ys)) => {
            let zs = c->Arr_0;
            assert forall|i: int| 0 <= i < xs@.len() implies equiv(#[trigger] xs@[i], zs@[i]) by {
                assert(decreases_to!(a => a->Arr_0));
                assert(decreases_to!(a->Arr_0 => a->Arr_0@));
                assert(decreases_to!(a->Arr_0@ => a->Arr_0@[i]));
                lemma_equiv_trans(xs@[i], ys@[i], zs@[i]);
            }
        },
        (JsonValue::Obj(xs), JsonValue::Obj(ys)) => {
            let zs = c->Obj_0;
            assert forall|k: Seq<char>| #[trigger] entries_get(xs@, k) is Some implies equiv(
                entries_get(xs@, k)->Some_0,
                entries_get(zs@, k)->Some_0,
            ) by {
                let i = lemma_entries_get_index(xs@, k);
                assert(decreases_to!(a => a->Obj_0));
                assert(decreases_to!(a->Obj_0 => a->Obj_0@));
                assert(decreases_to!(a->Obj_0@ => a->Obj_0@[i]));
                assert(decreases_to!(a->Obj_0@[i] => a->Obj_0@[i].1));
                lemma_equiv_trans(
                    entries_get(xs@, k)->Some_0,
                    entries_get(ys@, k)->Some_0,
                    entries_get(zs@, k)->Some_0,
                );
            }
        },
        _ => {},
    }
}

/// Two entry lists with the same keys in the same order, holding equivalent
/// values position by position, look up equivalently under every key.
pub proof fn lemma_entries_get_pointwise(
    xs: Seq<(String, JsonValue)>,
    ys: Seq<(String, JsonValue)>,
    k: Seq<char>,
)
    requires
        xs.len() == ys.len(),
        forall|j: int| 0 <= j < xs.len() ==> (#[trigger] ys[j]).0@ == (#[trigger] xs[j]).0@
            && equiv(xs[j].1, ys[j].1),
    ensures
        entries_get(xs, k) is Some <==> entries_get(ys, k) is Some,
        entries_get(xs, k) is Some ==> equiv(entries_get(xs, k)->Some_0, entries_get(ys, k)->Some_0),
    decreases xs.len(),
{
    if xs.len() == 0 {
    } else if xs[0].0@ == k {
        assert(ys[0].0@ == xs[0].0@);
    } else {
        assert(forall|j: int|
            0 <= j < xs.drop_first().len() ==> (#[trigger] ys.drop_first()[j]) == ys[j + 1]
                && (#[trigger] xs.drop_first()[j]) == xs[j + 1]);
        lemma_entries_get_pointwise(xs.drop_first(), ys.drop_first(), k);
    }
}

/// Pointwise key equality and value equivalence give object equivalence.
pub proof fn lemma_obj_equiv_pointwise(
    xs: Seq<(String, JsonValue)>,
    ys: Seq<(String, JsonValue)>,
)
    requires
        xs.len() == ys.len(),
        forall|j: int| 0 <= j < xs.len() ==> (#[trigger] ys[j]).0@ == (#[trigger] xs[j]).0@
            && equiv(xs[j].1, ys[j].1),
    ensures
        forall|k: Seq<char>|
            #[trigger] entries_get(xs, k) is Some <==> entries_get(ys, k) is Some,
        forall|k: Seq<char>|
            #[trigger] entries_get(xs, k) is Some ==> equiv(
                entries_get(xs, k)->Some_0,
                entries_get(ys, k)->Some_0,
            ),
{
    assert forall|k: Seq<char>| true implies (#[trigger] entries_get(xs, k) is Some <==> entries_get(
        ys,
        k,
    ) is Some) && (entries_get(xs, k) is Some ==> equiv(
        entries_get(xs, k)->Some_0,
        entries_get(ys, k)->Some_0,
    )) by {
        lemma_entries_get_pointwise(xs, ys, k);
    }
}

/// The value bound to `key` in an entry list: the first match wins.
pub open spec fn entries_get(entries: Seq<(String, JsonValue)>, key: Seq<char>) -> Option<
    JsonValue,
>
    decreases entries.len(),
{
    if entries.len() == 0 {
        None
    } else if entries[0].0@ == key {
        Some(entries[0].1)
    } else {
        entries_get(entries.drop_first(), key)
    }
}

/// Whether an entry list binds each key at most once.
pub open spec fn distinct_keys(entries: Seq<(String, JsonValue)>) -> bool {
    forall|i: int, j: int|
        0 <= i < j < entries.len() ==> (#[trigger] entries[i]).0@ != (#[trigger] entries[j]).0@
}

} // verus!
