use vstd::prelude::*;

verus! {

/// A JSON value: the template parameters of a transactional email form a
/// free-form JSON object, so the library carries its own JSON model.
///
/// An object is a sequence of key/value entries; the builder keeps the
/// top-level parameter object's keys distinct (see [`wf_params`]), while a
/// nested object is carried through untouched, exactly as supplied.
/// Numbers are integers: template substitution values in this API are
/// identifiers, counts and strings.
#[derive(Debug, PartialEq)]
pub enum JsonValue {
    Null,
    Bool(bool),
    Int(i64),
    Str(String),
    Arr(Vec<JsonValue>),
    Obj(Vec<(String, JsonValue)>),
}

impl JsonValue {
    /// True exactly when this value is JSON `null`.
    pub fn is_null(&self) -> (r: bool)
        ensures
            r == (self is Null),
    {
        matches!(self, JsonValue::Null)
    }
}

/// The map an object's entry sequence denotes: entries apply left to right,
/// so on a repeated key the later entry wins.
pub open spec fn entries_map(s: Seq<(String, JsonValue)>) -> Map<Seq<char>, JsonValue>
    decreases s.len(),
{
    if s.len() == 0 {
        Map::empty()
    } else {
        entries_map(s.drop_last()).insert(s.last().0@, s.last().1)
    }
}

/// No two entries share a key.
pub open spec fn distinct_keys(s: Seq<(String, JsonValue)>) -> bool {
    forall|i: int, j: int| #![trigger s[i], s[j]] 0 <= i < j < s.len() ==> s[i].0@ != s[j].0@
}

/// A well-formed parameter container: either no parameters yet (JSON
/// `null`, the state a fresh builder starts in) or a JSON object with
/// distinct keys.
pub open spec fn wf_params(v: JsonValue) -> bool {
    match v {
        JsonValue::Null => true,
        JsonValue::Obj(es) => distinct_keys(es@),
        _ => false,
    }
}

/// The mathematical content of a parameter container: its key/value map.
/// The `null` container holds nothing.
pub open spec fn params_map(v: JsonValue) -> Map<Seq<char>, JsonValue> {
    match v {
        JsonValue::Obj(es) => entries_map(es@),
        _ => Map::empty(),
    }
}

pub proof fn lemma_distinct_keys_drop_last(s: Seq<(String, JsonValue)>)
    requires
        distinct_keys(s),
        s.len() > 0,
    ensures
        distinct_keys(s.drop_last()),
{
    let t = s.drop_last();
    assert forall|i: int, j: int| #![trigger t[i], t[j]] 0 <= i < j < t.len() implies t[i].0@
        != t[j].0@ by {
        assert(t[i] == s[i]);
        assert(t[j] == s[j]);
    }
}

/// A key is in the entry map exactly when some entry carries it.
pub proof fn lemma_entries_map_dom(s: Seq<(String, JsonValue)>, k: Seq<char>)
    ensures
        entries_map(s).dom().contains(k) <==> exists|i: int| 0 <= i < s.len() && s[i].0@ == k,
    decreases s.len(),
{
    if s.len() > 0 {
        let t = s.drop_last();
        lemma_entries_map_dom(t, k);
        if entries_map(s).dom().contains(k) {
            if s.last().0@ == k {
                assert(s[s.len() - 1].0@ == k);
            } else {
                let i = choose|i: int| 0 <= i < t.len() && t[i].0@ == k;
                assert(s[i].0@ == k);
            }
        }
        if exists|i: int| 0 <= i < s.len() && s[i].0@ == k {
            let i = choose|i: int| 0 <= i < s.len() && s[i].0@ == k;
            if i < s.len() - 1 {
                assert(t[i].0@ == k);
                assert(entries_map(t).dom().contains(k));
            }
        }
    }
}

/// With distinct keys, the entry map carries each entry's value exactly.
pub proof fn lemma_entries_map_value(s: Seq<(String, JsonValue)>, i: int)
    requires
        distinct_keys(s),
        0 <= i < s.len(),
    ensures
        entries_map(s).dom().contains(s[i].0@),
        entries_map(s)[s[i].0@] == s[i].1,
    decreases s.len(),
{
    let t = s.drop_last();
    if i == s.len() - 1 {
        assert(s.last() == s[i]);
    } else {
        lemma_distinct_keys_drop_last(s);
        assert(t[i] == s[i]);
        lemma_entries_map_value(t, i);
        assert(s[i].0@ != s[s.len() - 1].0@);
    }
}

/// Replacing the entry that already carries a key updates the map at that
/// key and keeps the keys distinct.
pub proof fn lemma_entries_map_update(s: Seq<(String, JsonValue)>, i: int, e: (String, JsonValue))
    requires
        distinct_keys(s),
        0 <= i < s.len(),
        e.0@ == s[i].0@,
    ensures
        entries_map(s.update(i, e)) == entries_map(s).insert(e.0@, e.1),
        distinct_keys(s.update(i, e)),
    decreases s.len(),
{
    let s2 = s.update(i, e);
    assert forall|a: int, b: int| #![trigger s2[a], s2[b]] 0 <= a < b < s2.len() implies s2[a].0@
        != s2[b].0@ by {
        assert(s2[a].0@ == s[a].0@);
        assert(s2[b].0@ == s[b].0@);
    }
    let t = s.drop_last();
    if i == s.len() - 1 {
        assert(s2.drop_last() =~= t);
        assert(s2.last() == e);
        assert(entries_map(t).insert(s.last().0@, s.last().1).insert(e.0@, e.1) =~= entries_map(
            t,
        ).insert(e.0@, e.1));
    } else {
        lemma_distinct_keys_drop_last(s);
        assert(t[i] == s[i]);
        lemma_entries_map_update(t, i, e);
        assert(s2.drop_last() =~= t.update(i, e));
        assert(s2.last() == s.last());
        assert(s[i].0@ != s[s.len() - 1].0@);
        assert(entries_map(t).insert(e.0@, e.1).insert(s.last().0@, s.last().1) =~= entries_map(
            t,
        ).insert(s.last().0@, s.last().1).insert(e.0@, e.1));
    }
}

/// Insert a key/value pair into an object's entry sequence: overwrite the
/// entry carrying the key if there is one, append otherwise.
pub(crate) fn obj_insert(entries: &mut Vec<(String, JsonValue)>, key: String, value: JsonValue)
    requires
        distinct_keys(old(entries)@),
    ensures
        distinct_keys(final(entries)@),
        entries_map(final(entries)@) == entries_map(old(entries)@).insert(key@, value),
{
    let ghost gkey = key;
    let ghost gvalue = value;
    let n = entries.len();
    let mut idx: usize = 0;
    while idx < n
        invariant
            n == entries@.len(),
            distinct_keys(entries@),
            entries@ == old(entries)@,
            idx <= n,
            gkey == key,
            gvalue == value,
            forall|j: int| 0 <= j < idx ==> entries@[j].0@ != key@,
        decreases n - idx,
    {
        if entries[idx].0.eq(&key) {
            let ghost pre = entries@;
            entries[idx] = (key, value);
            proof {
                lemma_entries_map_update(pre, idx as int, (gkey, gvalue));
            }
            return ;
        }
        idx += 1;
    }
    let ghost pre = entries@;
    entries.push((key, value));
    proof {
        assert(entries@.drop_last() =~= pre);
        assert(entries@.last() == (gkey, gvalue));
        assert forall|a: int, b: int| #![trigger entries@[a], entries@[b]] 0 <= a < b
            < entries@.len() implies entries@[a].0@ != entries@[b].0@ by {
            if b < entries@.len() - 1 {
                assert(entries@[a] == pre[a]);
                assert(entries@[b] == pre[b]);
            } else {
                assert(entries@[a] == pre[a]);
                assert(pre[a].0@ != key@);
            }
        }
    }
}

/// Insert a key/value pair into a parameter container. A first insertion
/// turns the empty (`null`) container into a one-entry object.
pub(crate) fn params_insert(p: JsonValue, key: String, value: JsonValue) -> (r: JsonValue)
    requires
        wf_params(p),
    ensures
        wf_params(r),
        params_map(r) == params_map(p).insert(key@, value),
{
    let ghost gkey = key;
    let ghost gvalue = value;
    match p {
        JsonValue::Obj(mut es) => {
            obj_insert(&mut es, key, value);
            JsonValue::Obj(es)
        },
        _ => {
            let mut es: Vec<(String, JsonValue)> = Vec::new();
            es.push((key, value));
            proof {
                assert(entries_map(Seq::<(String, JsonValue)>::empty()) == Map::<
                    Seq<char>,
                    JsonValue,
                >::empty());
                assert(es@.drop_last() =~= Seq::<(String, JsonValue)>::empty());
                assert(es@.last() == (gkey, gvalue));
                assert(entries_map(es@) =~= Map::<Seq<char>, JsonValue>::empty().insert(
                    gkey@,
                    gvalue,
                ));
            }
            JsonValue::Obj(es)
        },
    }
}

/// One step of the object merge: a `null` value is skipped, any other
/// value is inserted, overwriting the key.
pub open spec fn merge_one(
    m: Map<Seq<char>, JsonValue>,
    k: Seq<char>,
    v: JsonValue,
) -> Map<Seq<char>, JsonValue> {
    if v is Null {
        m
    } else {
        m.insert(k, v)
    }
}

/// The merge of an object's entries into a parameter map, left to right:
/// the operational statement of the builder's object-merge step.
pub open spec fn merge_entries(
    m: Map<Seq<char>, JsonValue>,
    s: Seq<(String, JsonValue)>,
) -> Map<Seq<char>, JsonValue>
    decreases s.len(),
{
    if s.len() == 0 {
        m
    } else {
        merge_entries(merge_one(m, s[0].0@, s[0].1), s.drop_first())
    }
}

/// The keys of `vm` that carry a value other than `null`.
pub open spec fn nonnull_keys(vm: Map<Seq<char>, JsonValue>) -> Set<Seq<char>> {
    Set::new(|k: Seq<char>| vm.dom().contains(k) && !(vm[k] is Null))
}

/// The map-level statement of the merge: the result holds the keys of `m`
/// together with the non-null keys of `vm`, and on any key where `vm`
/// supplies a non-null value, that value wins.
pub open spec fn merged_params(
    m: Map<Seq<char>, JsonValue>,
    vm: Map<Seq<char>, JsonValue>,
) -> Map<Seq<char>, JsonValue> {
    Map::new(
        |k: Seq<char>| m.dom().contains(k) || (vm.dom().contains(k) && !(vm[k] is Null)),
        |k: Seq<char>|
            if vm.dom().contains(k) && !(vm[k] is Null) {
                vm[k]
            } else {
                m[k]
            },
    )
}

pub proof fn lemma_merge_entries_snoc(
    m: Map<Seq<char>, JsonValue>,
    s: Seq<(String, JsonValue)>,
    e: (String, JsonValue),
)
    ensures
        merge_entries(m, s.push(e)) == merge_one(merge_entries(m, s), e.0@, e.1),
    decreases s.len(),
{
    let p = s.push(e);
    if s.len() == 0 {
        assert(p[0] == e);
        assert(p.drop_first() =~= Seq::<(String, JsonValue)>::empty());
        assert(merge_entries(merge_one(m, e.0@, e.1), Seq::<(String, JsonValue)>::empty())
            == merge_one(m, e.0@, e.1));
        assert(merge_entries(m, p) == merge_entries(
            merge_one(m, p[0].0@, p[0].1),
            p.drop_first(),
        ));
    } else {
        assert(p[0] == s[0]);
        assert(p.drop_first() =~= s.drop_first().push(e));
        lemma_merge_entries_snoc(merge_one(m, s[0].0@, s[0].1), s.drop_first(), e);
        assert(merge_entries(m, p) == merge_entries(
            merge_one(m, p[0].0@, p[0].1),
            p.drop_first(),
        ));
        assert(merge_entries(m, s) == merge_entries(
            merge_one(m, s[0].0@, s[0].1),
            s.drop_first(),
        ));
    }
}

/// The operational merge equals the map-level merge, provided the merged
/// object's keys are distinct (as they are in any JSON object).
pub proof fn lemma_merge_entries_is_merged(m: Map<Seq<char>, JsonValue>, s: Seq<
    (String, JsonValue),
>)
    requires
        distinct_keys(s),
    ensures
        merge_entries(m, s) == merged_params(m, entries_map(s)),
    decreases s.len(),
{
    if s.len() == 0 {
        assert(merged_params(m, entries_map(s)) =~= m);
    } else {
        let t = s.drop_last();
        let e = s.last();
        lemma_distinct_keys_drop_last(s);
        lemma_merge_entries_is_merged(m, t);
        assert(t.push(e) =~= s);
        lemma_merge_entries_snoc(m, t, e);
        assert forall|i: int| 0 <= i < t.len() implies t[i].0@ != e.0@ by {
            assert(t[i] == s[i]);
            assert(s[i].0@ != s[s.len() - 1].0@);
        }
        lemma_entries_map_dom(t, e.0@);
        assert(!entries_map(t).dom().contains(e.0@));
        if e.1 is Null {
            assert(merged_params(m, entries_map(t)) =~= merged_params(
                m,
                entries_map(t).insert(e.0@, e.1),
            ));
        } else {
            assert(merged_params(m, entries_map(t)).insert(e.0@, e.1) =~= merged_params(
                m,
                entries_map(t).insert(e.0@, e.1),
            ));
        }
    }
}

/// Folding individual insertions over an object's entries, in order.
pub open spec fn insert_all(
    m: Map<Seq<char>, JsonValue>,
    s: Seq<(String, JsonValue)>,
) -> Map<Seq<char>, JsonValue>
    decreases s.len(),
{
    if s.len() == 0 {
        m
    } else {
        insert_all(m.insert(s[0].0@, s[0].1), s.drop_first())
    }
}

/// Merging an object whose fields are all strings is the same as inserting
/// each key/value pair individually, in the same order.
pub proof fn lemma_merge_matches_individual_inserts(m: Map<Seq<char>, JsonValue>, s: Seq<
    (String, JsonValue),
>)
    requires
        forall|i: int| 0 <= i < s.len() ==> (#[trigger] s[i]).1 is Str,
    ensures
        merge_entries(m, s) == insert_all(m, s),
    decreases s.len(),
{
    if s.len() > 0 {
        assert(s[0].1 is Str);
        let t = s.drop_first();
        assert forall|i: int| 0 <= i < t.len() implies (#[trigger] t[i]).1 is Str by {
            assert(t[i] == s[i + 1]);
        }
        lemma_merge_matches_individual_inserts(m.insert(s[0].0@, s[0].1), t);
    }
}

/// A key whose value is `null` in the merged object is omitted entirely:
/// the result has it only if the map already had it, and then with the
/// map's previous value, never with `null`.
pub proof fn lemma_merge_skips_null(
    m: Map<Seq<char>, JsonValue>,
    s: Seq<(String, JsonValue)>,
    k: Seq<char>,
)
    requires
        distinct_keys(s),
        exists|i: int| 0 <= i < s.len() && (#[trigger] s[i]).0@ == k && s[i].1 is Null,
    ensures
        merge_entries(m, s).dom().contains(k) <==> m.dom().contains(k),
        m.dom().contains(k) ==> merge_entries(m, s)[k] == m[k],
{
    lemma_merge_entries_is_merged(m, s);
    let i = choose|i: int| 0 <= i < s.len() && (#[trigger] s[i]).0@ == k && s[i].1 is Null;
    lemma_entries_map_value(s, i);
}

/// Two sequential merges produce the union of the map's keys with both
/// objects' non-null keys; where both objects supply a non-null value, the
/// second merge's value wins.
pub proof fn lemma_sequential_merge(
    m: Map<Seq<char>, JsonValue>,
    vm1: Map<Seq<char>, JsonValue>,
    vm2: Map<Seq<char>, JsonValue>,
)
    ensures
        merged_params(merged_params(m, vm1), vm2).dom() == m.dom() + nonnull_keys(vm1)
            + nonnull_keys(vm2),
        forall|k: Seq<char>|
            nonnull_keys(vm2).contains(k) ==> #[trigger] merged_params(
                merged_params(m, vm1),
                vm2,
            )[k] == vm2[k],
        forall|k: Seq<char>|
            !nonnull_keys(vm2).contains(k) && nonnull_keys(vm1).contains(k) ==> #[trigger] merged_params(
                merged_params(m, vm1),
                vm2,
            )[k] == vm1[k],
        forall|k: Seq<char>|
            !nonnull_keys(vm2).contains(k) && !nonnull_keys(vm1).contains(k) && m.dom().contains(k)
                ==> #[trigger] merged_params(merged_params(m, vm1), vm2)[k] == m[k],
{
    assert(merged_params(merged_params(m, vm1), vm2).dom() =~= m.dom() + nonnull_keys(vm1)
        + nonnull_keys(vm2));
}

/// A non-null value of the merged object is carried into the parameter map
/// unchanged: the map's entry is the very value supplied, nested arrays and
/// objects included.
pub proof fn lemma_merge_preserves_structure(
    m: Map<Seq<char>, JsonValue>,
    s: Seq<(String, JsonValue)>,
    i: int,
)
    requires
        distinct_keys(s),
        0 <= i < s.len(),
        !(s[i].1 is Null),
    ensures
        merge_entries(m, s).dom().contains(s[i].0@),
        merge_entries(m, s)[s[i].0@] == s[i].1,
{
    lemma_merge_entries_is_merged(m, s);
    lemma_entries_map_value(s, i);
}

} // verus!
