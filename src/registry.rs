//! The registry: the checked, de-duplicated set of constants of one dataset.
//!
//! Duplicate names (equal lookup keys) are handled first-wins: a later record
//! whose value, unit and uncertainty equal the kept one is a harmless
//! restatement and is dropped silently; a later record that differs is dropped
//! too, and recorded as a conflict that callers can read back.
use crate::constant::{
    is_valid, same_data, validation_error, Constant, ConstantData, InvalidConstant, Record,
};
use crate::normalize::{lookup_key, normalize};
use vstd::prelude::*;

verus! {

/// A record that failed its checks: its position in the dataset and why.
#[derive(Clone, Copy, Debug, PartialEq, Eq, Structural)]
pub struct RecordError {
    pub index: usize,
    pub error: InvalidConstant,
}

/// A failed load: every invalid record of the dataset, in dataset order.
#[derive(Clone, Debug, PartialEq, Eq)]
pub struct DatasetCorrupt {
    pub errors: Vec<RecordError>,
}

/// A record dropped because an earlier record has the same lookup key but
/// different data: its position in the dataset and its name.
#[derive(Clone, Debug, PartialEq, Eq)]
pub struct Conflict {
    pub index: usize,
    pub name: String,
}

/// A lookup found no constant under the normalized name.
#[derive(Clone, Copy, Debug, PartialEq, Eq, Structural)]
pub struct NotFound;

pub struct ConflictData {
    pub index: usize,
    pub name: Seq<char>,
}

impl View for Conflict {
    type V = ConflictData;

    open spec fn view(&self) -> ConflictData {
        ConflictData { index: self.index, name: self.name@ }
    }
}

/// What a registry holds: its constants in dataset order, and the conflicts
/// met while building it.
pub struct RegistryData {
    pub entries: Seq<ConstantData>,
    pub conflicts: Seq<ConflictData>,
}

pub open spec fn data_of(v: Seq<Constant>) -> Seq<ConstantData> {
    v.map_values(|c: Constant| c@)
}

pub open spec fn conflicts_of(v: Seq<Conflict>) -> Seq<ConflictData> {
    v.map_values(|c: Conflict| c@)
}

/// Entry `j` of `es` has lookup key `k`.
pub open spec fn has_key_at(es: Seq<ConstantData>, k: Seq<char>, j: int) -> bool {
    0 <= j < es.len() && lookup_key(es[j].name) == k
}

/// No two entries share a lookup key.
pub open spec fn keys_distinct(es: Seq<ConstantData>) -> bool {
    forall|i: int, j: int|
        0 <= i < es.len() && 0 <= j < es.len() && i != j ==> lookup_key(es[i].name) != lookup_key(
            es[j].name,
        )
}

/// The position of the entry with key `k`, if there is one.
pub open spec fn index_of_key(es: Seq<ConstantData>, k: Seq<char>) -> Option<int> {
    if exists|j: int| has_key_at(es, k, j) {
        Some(choose|j: int| has_key_at(es, k, j))
    } else {
        None
    }
}

/// The entry that a query for `name` finds: the one whose lookup key equals
/// the query's lookup key.
pub open spec fn find(es: Seq<ConstantData>, name: Seq<char>) -> Option<ConstantData> {
    match index_of_key(es, lookup_key(name)) {
        Some(j) => Some(es[j]),
        None => None,
    }
}

/// The registry built from a dataset of valid records, taken in order: a record
/// whose key is new is appended; one whose key is taken is dropped, and recorded
/// as a conflict when its data differ from the kept entry's.
pub open spec fn build(s: Seq<ConstantData>) -> RegistryData
    decreases s.len(),
{
    if s.len() == 0 {
        RegistryData { entries: Seq::empty(), conflicts: Seq::empty() }
    } else {
        let prev = build(s.drop_last());
        let r = s.last();
        match index_of_key(prev.entries, lookup_key(r.name)) {
            None => RegistryData { entries: prev.entries.push(r), conflicts: prev.conflicts },
            Some(j) => if same_data(prev.entries[j], r) {
                prev
            } else {
                RegistryData {
                    entries: prev.entries,
                    conflicts: prev.conflicts.push(
                        ConflictData { index: (s.len() - 1) as usize, name: r.name },
                    ),
                }
            },
        }
    }
}

/// Every invalid record of `s`, in order, with the first check it fails.
pub open spec fn record_errors(s: Seq<ConstantData>) -> Seq<RecordError>
    decreases s.len(),
{
    if s.len() == 0 {
        Seq::empty()
    } else {
        let prev = record_errors(s.drop_last());
        match validation_error(s.last()) {
            Some(e) => prev.push(RecordError { index: (s.len() - 1) as usize, error: e }),
            None => prev,
        }
    }
}

pub open spec fn all_valid(s: Seq<ConstantData>) -> bool {
    forall|i: int| 0 <= i < s.len() ==> is_valid(#[trigger] s[i])
}

pub open spec fn records_data(v: Seq<Record>) -> Seq<ConstantData> {
    v.map_values(|r: Record| r@)
}

/// An immutable, indexed collection of constants. Each constant is stored
/// beside its lookup key; a lookup normalizes the query once and compares it
/// with the stored keys. Enumeration keeps dataset order.
pub struct Registry {
    entries: Vec<Constant>,
    keys: Vec<Vec<char>>,
    conflicts: Vec<Conflict>,
}

impl View for Registry {
    type V = RegistryData;

    closed spec fn view(&self) -> RegistryData {
        RegistryData { entries: data_of(self.entries@), conflicts: conflicts_of(self.conflicts@) }
    }
}

fn same_chars(a: &Vec<char>, b: &Vec<char>) -> (r: bool)
    ensures
        r == (a@ == b@),
{
    if a.len() != b.len() {
        return false;
    }
    let mut i: usize = 0;
    while i < a.len()
        invariant
            i <= a@.len(),
            a@.len() == b@.len(),
            forall|k: int| 0 <= k < i ==> a@[k] == b@[k],
        decreases a@.len() - i,
    {
        if a[i] != b[i] {
            return false;
        }
        i = i + 1;
    }
    assert(a@ =~= b@);
    true
}

/// The position of `key` in `keys`, scanning from the front.
fn position_in(keys: &Vec<Vec<char>>, key: &Vec<char>) -> (r: Option<usize>)
    ensures
        r matches Some(j) ==> j < keys@.len() && keys@[j as int]@ == key@,
        r is None ==> forall|j: int| 0 <= j < keys@.len() ==> keys@[j]@ != key@,
{
    let mut i: usize = 0;
    while i < keys.len()
        invariant
            i <= keys@.len(),
            forall|j: int| 0 <= j < i ==> keys@[j]@ != key@,
        decreases keys@.len() - i,
    {
        if same_chars(&keys[i], key) {
            return Some(i);
        }
        i = i + 1;
    }
    None
}

/// The keys are those of the entries, the entries are valid constants, and no
/// key repeats.
pub open spec fn indexed(entries: Seq<Constant>, keys: Seq<Vec<char>>) -> bool {
    &&& keys.len() == entries.len()
    &&& forall|i: int| 0 <= i < keys.len() ==> #[trigger] keys[i]@ == lookup_key(entries[i]@.name)
    &&& forall|i: int| 0 <= i < entries.len() ==> #[trigger] entries[i].wf()
    &&& keys_distinct(data_of(entries))
}

impl Registry {
    #[verifier::type_invariant]
    spec fn inv(&self) -> bool {
        indexed(self.entries@, self.keys@)
    }

    /// Checks every record and builds the registry (see `build`), or fails with
    /// every invalid record when there is at least one.
    pub fn load(records: &[Record]) -> (res: Result<Registry, DatasetCorrupt>)
        ensures
            res is Ok <==> all_valid(records_data(records@)),
            res matches Ok(reg) ==> reg@ == build(records_data(records@)),
            res matches Err(c) ==> c.errors@ == record_errors(records_data(records@))
                && c.errors@.len() > 0,
    {
        let ghost s = records_data(records@);
        let mut entries: Vec<Constant> = Vec::new();
        let mut keys: Vec<Vec<char>> = Vec::new();
        let mut conflicts: Vec<Conflict> = Vec::new();
        let mut errors: Vec<RecordError> = Vec::new();
        let n = records.len();
        let mut i: usize = 0;
        assert(data_of(entries@) =~= Seq::<ConstantData>::empty());
        assert(conflicts_of(conflicts@) =~= Seq::<ConflictData>::empty());
        assert(s.subrange(0, 0) =~= Seq::<ConstantData>::empty());
        while i < n
            invariant
                n == records@.len(),
                s == records_data(records@),
                i <= n,
                errors@ == record_errors(s.subrange(0, i as int)),
                errors@.len() == 0 <==> all_valid(s.subrange(0, i as int)),
                errors@.len() == 0 ==> indexed(entries@, keys@),
                errors@.len() == 0 ==> build(s.subrange(0, i as int)) == (RegistryData {
                    entries: data_of(entries@),
                    conflicts: conflicts_of(conflicts@),
                }),
            decreases n - i,
        {
            let rec = &records[i];
            let ghost pre = s.subrange(0, i as int);
            let ghost next = s.subrange(0, i + 1);
            assert(next.drop_last() =~= pre);
            assert(next.last() == rec@);
            match Constant::new(rec) {
                Err(e) => {
                    errors.push(RecordError { index: i, error: e });
                    assert(!is_valid(next[i as int]));
                },
                Ok(c) => {
                    assert(all_valid(pre) ==> all_valid(next));
                    assert(!all_valid(pre) ==> !all_valid(next)) by {
                        if !all_valid(pre) {
                            let k = choose|k: int| 0 <= k < pre.len() && !is_valid(#[trigger] pre[k]);
                            assert(next[k] == pre[k]);
                        }
                    }
                    if errors.len() == 0 {
                        let key = normalize(c.name());
                        let ghost es = data_of(entries@);
                        match position_in(&keys, &key) {
                            None => {
                                assert forall|j: int| !has_key_at(es, key@, j) by {
                                    if 0 <= j < es.len() {
                                        assert(keys@[j]@ == lookup_key(entries@[j]@.name));
                                    }
                                }
                                assert(index_of_key(es, key@) is None);
                                let ghost old_entries = entries@;
                                let ghost old_keys = keys@;
                                entries.push(c);
                                keys.push(key);
                                assert(data_of(entries@) =~= es.push(rec@));
                                assert forall|a: int|
                                    0 <= a < keys@.len() implies #[trigger] keys@[a]@
                                    == lookup_key(entries@[a]@.name) by {
                                    if a < old_keys.len() {
                                        assert(keys@[a] == old_keys[a]);
                                        assert(entries@[a] == old_entries[a]);
                                    }
                                }
                                assert forall|a: int|
                                    0 <= a < entries@.len() implies #[trigger] entries@[a].wf() by {
                                    if a < old_entries.len() {
                                        assert(entries@[a] == old_entries[a]);
                                    }
                                }
                                assert forall|a: int, b: int|
                                    0 <= a < entries@.len() && 0 <= b < entries@.len() && a != b
                                    implies lookup_key(data_of(entries@)[a].name) != lookup_key(
                                    data_of(entries@)[b].name,
                                ) by {
                                    assert(keys@[a]@ == lookup_key(entries@[a]@.name));
                                    assert(keys@[b]@ == lookup_key(entries@[b]@.name));
                                    if a < old_keys.len() && b < old_keys.len() {
                                        assert(old_keys[a]@ == lookup_key(old_entries[a]@.name));
                                        assert(old_keys[b]@ == lookup_key(old_entries[b]@.name));
                                        assert(es[a] == old_entries[a]@);
                                        assert(es[b] == old_entries[b]@);
                                    } else if a < old_keys.len() {
                                        assert(old_keys[a]@ != key@);
                                    } else if b < old_keys.len() {
                                        assert(old_keys[b]@ != key@);
                                    }
                                }
                            },
                            Some(j) => {
                                assert(has_key_at(es, key@, j as int));
                                assert(index_of_key(es, key@) == Some(j as int));
                                if !entries[j].same_data_as(&c) {
                                    let ghost cs = conflicts_of(conflicts@);
                                    conflicts.push(Conflict { index: i, name: rec.name.clone() });
                                    assert(conflicts_of(conflicts@) =~= cs.push(
                                        ConflictData { index: i, name: rec@.name },
                                    ));
                                }
                            },
                        }
                    }
                },
            }
            i = i + 1;
        }
        assert(s.subrange(0, n as int) =~= s);
        if errors.len() == 0 {
            Ok(Registry { entries, keys, conflicts })
        } else {
            Err(DatasetCorrupt { errors })
        }
    }

    /// The constant whose lookup key equals that of `name`, or `NotFound`.
    pub fn lookup(&self, name: &str) -> (r: Result<&Constant, NotFound>)
        ensures
            r is Err <==> find(self@.entries, name@) is None,
            r matches Ok(c) ==> find(self@.entries, name@) == Some(c@),
    {
        proof {
            use_type_invariant(self);
        }
        let key = normalize(name);
        match position_in(&self.keys, &key) {
            Some(j) => {
                assert(has_key_at(self@.entries, key@, j as int));
                Ok(&self.entries[j])
            },
            None => {
                assert forall|j: int| !has_key_at(self@.entries, key@, j) by {
                    if 0 <= j < self@.entries.len() {
                        assert(self.keys@[j]@ == lookup_key(self.entries@[j]@.name));
                    }
                }
                Err(NotFound)
            },
        }
    }

    /// The number of distinct constants held.
    pub fn count(&self) -> (r: usize)
        ensures
            r == self@.entries.len(),
    {
        self.entries.len()
    }

    /// The constants, in dataset order. Each call reads the same immutable
    /// sequence afresh.
    pub fn all(&self) -> (r: &[Constant])
        ensures
            data_of(r@) == self@.entries,
    {
        self.entries.as_slice()
    }

    /// The records dropped for conflicting with an earlier one, in dataset order.
    pub fn conflicts(&self) -> (r: &[Conflict])
        ensures
            conflicts_of(r@) == self@.conflicts,
    {
        self.conflicts.as_slice()
    }
}

} // verus!
