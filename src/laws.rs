//! Properties that relate several operations of the library, proved over the
//! models that their contracts use.
use crate::constant::{is_valid, same_data, Constant, ConstantData};
use crate::normalize::lookup_key;
use crate::presentation::{rendering, uncertainty_line, unit_line};
use crate::registry::{
    build, find, index_of_key, has_key_at, keys_distinct, ConflictData, Registry,
};
use vstd::prelude::*;

verus! {

/// Loading a dataset of one valid record keeps exactly that record, and
/// looking up its name finds it unchanged.
pub proof fn single_record_round_trip(r: ConstantData)
    requires
        is_valid(r),
    ensures
        build(seq![r]).entries == seq![r],
        build(seq![r]).conflicts.len() == 0,
        find(build(seq![r]).entries, r.name) == Some(r),
{
    let s = seq![r];
    reveal_with_fuel(build, 2);
    assert(s.drop_last() =~= Seq::<ConstantData>::empty());
    assert(index_of_key(Seq::<ConstantData>::empty(), lookup_key(r.name)) is None);
    assert(build(s).entries =~= seq![r]);
    assert(has_key_at(seq![r], lookup_key(r.name), 0));
}

/// Two registries loaded from the same dataset hold as many constants and
/// answer every lookup alike.
pub proof fn load_is_repeatable(s: Seq<ConstantData>, a: Registry, b: Registry)
    requires
        a@ == build(s),
        b@ == build(s),
    ensures
        a@.entries.len() == b@.entries.len(),
        forall|q: Seq<char>| find(a@.entries, q) == find(b@.entries, q),
{
}

/// Rendering the same constant with the same number texts twice gives the
/// same text.
pub proof fn format_is_deterministic(
    c: Constant,
    value_text: Seq<char>,
    uncertainty_text: Seq<char>,
    first: Seq<char>,
    second: Seq<char>,
)
    requires
        first == rendering(c@, value_text, uncertainty_text),
        second == rendering(c@, value_text, uncertainty_text),
    ensures
        first == second,
{
}

/// An absent unit and an empty unit both render as `Dimensionless`.
pub proof fn missing_and_empty_units_render_alike(a: ConstantData, b: ConstantData)
    requires
        a.unit is None,
        b.unit == Some(Seq::<char>::empty()),
    ensures
        unit_line(a) == "SI base units: Dimensionless\n"@,
        unit_line(b) == "SI base units: Dimensionless\n"@,
{
    reveal_strlit("SI base units: ");
    reveal_strlit("Dimensionless");
    reveal_strlit("\n");
    reveal_strlit("SI base units: Dimensionless\n");
    assert(unit_line(a) =~= "SI base units: Dimensionless\n"@);
    assert(unit_line(b) =~= "SI base units: Dimensionless\n"@);
}

/// An absent uncertainty renders as `Exact`; a present one, zero included,
/// renders as its number.
pub proof fn exact_only_without_uncertainty(c: ConstantData, text: Seq<char>)
    ensures
        c.uncertainty is None ==> uncertainty_line(c, text) == "Uncertainty: Exact\n"@,
        c.uncertainty is Some ==> uncertainty_line(c, text) == "Uncertainty: "@ + text + "\n"@,
{
    reveal_strlit("Uncertainty: ");
    reveal_strlit("Exact");
    reveal_strlit("\n");
    reveal_strlit("Uncertainty: Exact\n");
    assert(c.uncertainty is None ==> uncertainty_line(c, text) =~= "Uncertainty: Exact\n"@);
}

/// Of two records with the same lookup key and different data, the first is
/// kept and the second is recorded as a conflict.
pub proof fn conflicting_duplicate_keeps_first(a: ConstantData, b: ConstantData)
    requires
        is_valid(a),
        is_valid(b),
        lookup_key(a.name) == lookup_key(b.name),
        !same_data(a, b),
    ensures
        build(seq![a, b]).entries == seq![a],
        build(seq![a, b]).conflicts == seq![ConflictData { index: 1, name: b.name }],
{
    single_record_round_trip(a);
    assert(seq![a, b].drop_last() =~= seq![a]);
    assert(has_key_at(seq![a], lookup_key(b.name), 0));
    assert(index_of_key(seq![a], lookup_key(b.name)) == Some(0int));
    assert(build(seq![a, b]).conflicts =~= seq![ConflictData { index: 1, name: b.name }]);
}

/// The lookup keys of a sequence of records.
pub open spec fn keys_of(s: Seq<ConstantData>) -> Seq<Seq<char>> {
    s.map_values(|d: ConstantData| lookup_key(d.name))
}

/// `es` is the sequence of first occurrences of each key of `s`, in the order of
/// `s`: entry `k` is record `idx[k]` of `s`, the positions increase, and no
/// record before `idx[k]` has the key of entry `k`.
pub open spec fn first_occurrences(s: Seq<ConstantData>, es: Seq<ConstantData>, idx: Seq<int>) -> bool {
    &&& idx.len() == es.len()
    &&& forall|k: int| 0 <= k < idx.len() ==> 0 <= #[trigger] idx[k] < s.len() && es[k] == s[idx[k]]
    &&& forall|k: int, l: int| 0 <= k < l < idx.len() ==> idx[k] < idx[l]
    &&& forall|k: int, j: int|
        0 <= k < idx.len() && 0 <= j < idx[k] ==> lookup_key(#[trigger] s[j].name) != lookup_key(
            #[trigger] es[k].name,
        )
}

proof fn lemma_build_shape(s: Seq<ConstantData>) -> (idx: Seq<int>)
    ensures
        keys_distinct(build(s).entries),
        keys_of(build(s).entries).to_set() == keys_of(s).to_set(),
        first_occurrences(s, build(s).entries, idx),
    decreases s.len(),
{
    broadcast use vstd::seq_lib::group_seq_properties;
    broadcast use vstd::set::group_set_axioms;

    if s.len() == 0 {
        assert(keys_of(build(s).entries) =~= Seq::<Seq<char>>::empty());
        assert(keys_of(s) =~= Seq::<Seq<char>>::empty());
        Seq::empty()
    } else {
        let p = s.drop_last();
        let r = s.last();
        let n = p.len() as int;
        let k_r = lookup_key(r.name);
        let idx0 = lemma_build_shape(p);
        let prev = build(p);
        assert(keys_of(s) =~= keys_of(p).push(k_r));
        assert(keys_of(s).to_set() =~= keys_of(p).to_set().insert(k_r));
        assert forall|j: int| 0 <= j < n implies s[j] == p[j] by {}
        match index_of_key(prev.entries, k_r) {
            None => {
                let es = prev.entries.push(r);
                assert(build(s).entries == es);
                assert(keys_of(es) =~= keys_of(prev.entries).push(k_r));
                assert(keys_of(es).to_set() =~= keys_of(prev.entries).to_set().insert(k_r));
                assert forall|j: int| 0 <= j < n implies lookup_key(#[trigger] s[j].name) != k_r by {
                    assert(keys_of(p)[j] == lookup_key(p[j].name));
                    assert(keys_of(p).to_set().contains(keys_of(p)[j]));
                    assert(keys_of(prev.entries).to_set().contains(lookup_key(p[j].name)));
                    let k = choose|k: int|
                        0 <= k < keys_of(prev.entries).len() && keys_of(prev.entries)[k]
                            == lookup_key(p[j].name);
                    if lookup_key(s[j].name) == k_r {
                        assert(has_key_at(prev.entries, k_r, k));
                    }
                }
                assert forall|a: int, b: int|
                    0 <= a < es.len() && 0 <= b < es.len() && a != b implies lookup_key(
                    es[a].name,
                ) != lookup_key(es[b].name) by {
                    let m = prev.entries.len() as int;
                    if a == m || b == m {
                        let o = if a == m { b } else { a };
                        assert(!has_key_at(prev.entries, k_r, o));
                        assert(es[o] == prev.entries[o]);
                        assert(es[m] == r);
                    } else {
                        assert(es[a] == prev.entries[a]);
                        assert(es[b] == prev.entries[b]);
                    }
                }
                let idx = idx0.push(n);
                assert(first_occurrences(s, es, idx));
                idx
            },
            Some(j) => {
                assert(has_key_at(prev.entries, k_r, j));
                assert(keys_of(prev.entries)[j] == k_r);
                assert(keys_of(prev.entries).to_set().contains(k_r));
                assert(keys_of(s).to_set() =~= keys_of(p).to_set());
                assert(build(s).entries == prev.entries);
                assert(first_occurrences(s, prev.entries, idx0));
                idx0
            },
        }
    }
}

/// The registry built from a dataset holds one constant per distinct lookup
/// key, and lists them in dataset order, each being the first record with its
/// key.
pub proof fn one_entry_per_key_in_dataset_order(s: Seq<ConstantData>)
    ensures
        build(s).entries.len() == keys_of(s).to_set().len(),
        exists|idx: Seq<int>| first_occurrences(s, build(s).entries, idx),
{
    let idx = lemma_build_shape(s);
    let ks = keys_of(build(s).entries);
    assert(ks.no_duplicates());
    ks.unique_seq_to_set();
}

} // verus!
