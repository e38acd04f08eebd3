//! The store inside the scheduler's own process. It keeps its entries in memory, in the
//! order of their namespaces and keys, and cannot fail.

use vstd::prelude::*;
use vstd::string::StringSliceAdditionalSpecFns;
use vstd::utf8::encode_utf8;

use crate::cloudsrv::state::backend::{
    bytes_of, is_listing, key_lt, key_lt_is_irreflexive, key_lt_is_total, key_lt_is_transitive,
    lookup, pairs, written, Contents, StateBackendClient,
};
use crate::error::HetuError;
use crate::text::{bytes_less, equal, starts_with};

verus! {

struct Entry {
    namespace: String,
    key: String,
    value: Vec<u8>,
}

/// Where an entry is kept: its namespace and its key.
type Place = (Seq<char>, Seq<char>);

spec fn place(entry: Entry) -> Place {
    (entry.namespace@, entry.key@)
}

/// The order of places: by namespace, then by key.
spec fn place_lt(a: Place, b: Place) -> bool {
    key_lt(a.0, b.0) || (a.0 == b.0 && key_lt(a.1, b.1))
}

spec fn ascending(entries: Seq<Entry>) -> bool {
    forall|i: int, j: int|
        0 <= i < j < entries.len() ==> place_lt(
            place(#[trigger] entries[i]),
            place(#[trigger] entries[j]),
        )
}

spec fn holds(entries: Seq<Entry>, at: Place) -> bool {
    exists|i: int| 0 <= i < entries.len() && place(#[trigger] entries[i]) == at
}

spec fn index_of(entries: Seq<Entry>, at: Place) -> int {
    choose|i: int| 0 <= i < entries.len() && place(#[trigger] entries[i]) == at
}

spec fn contents_of(entries: Seq<Entry>) -> Contents {
    Map::new(|at: Place| holds(entries, at), |at: Place| entries[index_of(entries, at)].value@)
}

proof fn place_lt_is_irreflexive(a: Place)
    ensures
        !place_lt(a, a),
{
    key_lt_is_irreflexive(a.0);
    key_lt_is_irreflexive(a.1);
}

proof fn place_lt_is_transitive(a: Place, b: Place, c: Place)
    requires
        place_lt(a, b),
        place_lt(b, c),
    ensures
        place_lt(a, c),
{
    key_lt_is_irreflexive(a.0);
    key_lt_is_irreflexive(b.0);
    if key_lt(a.0, b.0) && key_lt(b.0, c.0) {
        key_lt_is_transitive(a.0, b.0, c.0);
    }
    if a.0 == b.0 && b.0 == c.0 {
        key_lt_is_transitive(a.1, b.1, c.1);
    }
}

proof fn place_lt_is_total(a: Place, b: Place)
    ensures
        a == b || place_lt(a, b) || place_lt(b, a),
{
    key_lt_is_total(a.0, b.0);
    key_lt_is_total(a.1, b.1);
}

/// In an ascending list each place occurs once, so the contents hold at each place the
/// value of the entry that is kept there.
proof fn entry_is_held(entries: Seq<Entry>, i: int)
    requires
        ascending(entries),
        0 <= i < entries.len(),
    ensures
        holds(entries, place(entries[i])),
        index_of(entries, place(entries[i])) == i,
        contents_of(entries).contains_key(place(entries[i])),
        contents_of(entries)[place(entries[i])] == entries[i].value@,
{
    let at = place(entries[i]);
    let k = index_of(entries, at);
    place_lt_is_irreflexive(at);
    if k < i {
        assert(place_lt(place(entries[k]), place(entries[i])));
    }
    if i < k {
        assert(place_lt(place(entries[i]), place(entries[k])));
    }
}

fn copy_bytes(value: &Vec<u8>) -> (copy: Vec<u8>)
    ensures
        copy@ == value@,
{
    let mut copy: Vec<u8> = Vec::new();
    let mut i: usize = 0;
    while i < value.len()
        invariant
            i <= value.len(),
            copy@ == value@.take(i as int),
        decreases value.len() - i,
    {
        copy.push(value[i]);
        assert(copy@ =~= value@.take(i + 1));
        i += 1;
    }
    assert(value@.take(value@.len() as int) =~= value@);
    copy
}

/// A store of the cluster state that lives in the memory of the scheduler.
pub struct StandaloneClient {
    entries: Vec<Entry>,
}

impl StandaloneClient {
    /// An empty store.
    pub fn new() -> (store: StandaloneClient)
        ensures
            store.inv(),
            store.contents() == Map::<(Seq<char>, Seq<char>), Seq<u8>>::empty(),
    {
        let store = StandaloneClient { entries: Vec::new() };
        assert(store.contents() =~= Map::<(Seq<char>, Seq<char>), Seq<u8>>::empty());
        store
    }

    /// Whether the entry at `i` comes before the place `(namespace, key)`, and whether it
    /// is kept at that place.
    fn compare(&self, i: usize, namespace: &str, key: &str) -> (r: (bool, bool))
        requires
            i < self.entries@.len(),
        ensures
            r.0 == place_lt(place(self.entries@[i as int]), (namespace@, key@)),
            r.1 == (place(self.entries@[i as int]) == (namespace@, key@)),
    {
        let entry = &self.entries[i];
        let same_namespace = equal(entry.namespace.as_str(), namespace);
        let before = bytes_less(entry.namespace.as_str().as_bytes(), namespace.as_bytes()) || (
        same_namespace && bytes_less(entry.key.as_str().as_bytes(), key.as_bytes()));
        let same = same_namespace && equal(entry.key.as_str(), key);
        (before, same)
    }
}

impl StateBackendClient for StandaloneClient {
    closed spec fn contents(&self) -> Contents {
        contents_of(self.entries@)
    }

    /// The entries are kept in the order of their places.
    closed spec fn inv(&self) -> bool {
        ascending(self.entries@)
    }

    /// Never fails.
    fn get(&self, namespace: &str, key: &str) -> (r: Result<Option<Vec<u8>>, HetuError>)
        ensures
            r is Ok,
    {
        let mut i: usize = 0;
        while i < self.entries.len()
            invariant
                ascending(self.entries@),
                i <= self.entries.len(),
                forall|j: int| 0 <= j < i ==> place(self.entries@[j]) != (namespace@, key@),
            decreases self.entries.len() - i,
        {
            let (_, same) = self.compare(i, namespace, key);
            if same {
                proof {
                    entry_is_held(self.entries@, i as int);
                }
                return Ok(Some(copy_bytes(&self.entries[i].value)));
            }
            i += 1;
        }
        Ok(None)
    }

    /// Never fails.
    fn put(&mut self, namespace: &str, key: &str, value: Vec<u8>) -> (r: Result<(), HetuError>)
        ensures
            r is Ok,
    {
        let ghost before = self.entries@;
        let ghost at = (namespace@, key@);
        let mut i: usize = 0;
        let mut found = false;
        while i < self.entries.len()
            invariant_except_break
                !found,
            invariant
                self.entries@ == before,
                at == (namespace@, key@),
                ascending(before),
                i <= before.len(),
                forall|j: int| 0 <= j < i ==> place_lt(place(before[j]), at),
            ensures
                i <= before.len(),
                self.entries@ == before,
                forall|j: int| 0 <= j < i ==> place_lt(place(before[j]), at),
                found ==> i < before.len() && place(before[i as int]) == at,
                !found ==> forall|j: int| i <= j < before.len() ==> place_lt(at, place(before[j])),
            decreases self.entries.len() - i,
        {
            let (comes_before, same) = self.compare(i, namespace, key);
            if same {
                found = true;
                break ;
            }
            if !comes_before {
                proof {
                    place_lt_is_total(place(before[i as int]), at);
                    assert forall|j: int| i <= j < before.len() implies place_lt(
                        at,
                        place(before[j]),
                    ) by {
                        if j > i {
                            assert(place_lt(place(before[i as int]), place(before[j])));
                            place_lt_is_transitive(at, place(before[i as int]), place(before[j]));
                        }
                    }
                }
                break ;
            }
            i += 1;
        }
        let entry = Entry {
            namespace: namespace.to_owned(),
            key: key.to_owned(),
            value,
        };
        if found {
            self.entries.set(i, entry);
        } else {
            self.entries.insert(i, entry);
        }
        proof {
            let after = self.entries@;
            assert(place(after[i as int]) == at);
            assert(ascending(after)) by {
                assert forall|a: int, b: int| 0 <= a < b < after.len() implies place_lt(
                    place(#[trigger] after[a]),
                    place(#[trigger] after[b]),
                ) by {
                    let shift = if found {
                        0int
                    } else {
                        1int
                    };
                    let pa = if a < i {
                        a
                    } else {
                        a - shift
                    };
                    let pb = if b < i {
                        b
                    } else {
                        b - shift
                    };
                    if a != i && b != i {
                        assert(after[a] == before[pa]);
                        assert(after[b] == before[pb]);
                        assert(place_lt(place(before[pa]), place(before[pb])));
                    } else if a == i {
                        assert(after[b] == before[pb]);
                        if found {
                            assert(place_lt(place(before[i as int]), place(before[pb])));
                        }
                    } else {
                        assert(after[a] == before[pa]);
                    }
                }
            }
            assert(contents_of(after) =~= written(contents_of(before), namespace@, key@, value@))
                by {
                assert forall|p: Place| #[trigger]
                    contents_of(after).contains_key(p) implies written(
                    contents_of(before),
                    namespace@,
                    key@,
                    value@,
                ).contains_key(p) by {
                    let k = index_of(after, p);
                    if k != i {
                        let pk = if k < i || found {
                            k
                        } else {
                            k - 1
                        };
                        assert(after[k] == before[pk]);
                        assert(place(before[pk]) == p);
                    }
                }
                assert forall|p: Place| #[trigger]
                    written(contents_of(before), namespace@, key@, value@).contains_key(
                        p,
                    ) implies contents_of(after).contains_key(p) && contents_of(after)[p]
                    == written(contents_of(before), namespace@, key@, value@)[p] by {
                    if p == at {
                        entry_is_held(after, i as int);
                    } else {
                        let k = index_of(before, p);
                        let nk = if k < i || found {
                            k
                        } else {
                            k + 1
                        };
                        assert(after[nk] == before[k]);
                        entry_is_held(before, k);
                        entry_is_held(after, nk);
                    }
                }
            }
        }
        Ok(())
    }

    /// Never fails.
    fn list(&self, namespace: &str, prefix: &str) -> (r: Result<
        Vec<(String, Vec<u8>)>,
        HetuError,
    >)
        ensures
            r is Ok,
    {
        let mut found: Vec<(String, Vec<u8>)> = Vec::new();
        let ghost mut source: Seq<int> = Seq::empty();
        let mut i: usize = 0;
        while i < self.entries.len()
            invariant
                ascending(self.entries@),
                i <= self.entries.len(),
                source.len() == found@.len(),
                forall|t: int|
                    0 <= t < source.len() ==> {
                        &&& 0 <= (#[trigger] source[t]) < i
                        &&& self.entries@[source[t]].namespace@ == namespace@
                        &&& prefix@.is_prefix_of(self.entries@[source[t]].key@)
                        &&& pairs(found@)[t] == (
                            self.entries@[source[t]].key@,
                            self.entries@[source[t]].value@,
                        )
                    },
                forall|t: int, u: int|
                    0 <= t < u < source.len() ==> (#[trigger] source[t]) < (#[trigger] source[u]),
                forall|j: int|
                    0 <= j < i && (#[trigger] self.entries@[j]).namespace@ == namespace@
                        && prefix@.is_prefix_of(self.entries@[j].key@) ==> exists|t: int|
                        0 <= t < source.len() && #[trigger] source[t] == j,
            decreases self.entries.len() - i,
        {
            let entry = &self.entries[i];
            if equal(entry.namespace.as_str(), namespace) && starts_with(
                entry.key.as_str(),
                prefix,
            ) {
                let ghost earlier = pairs(found@);
                let ghost earlier_source = source;
                found.push((entry.key.clone(), copy_bytes(&entry.value)));
                proof {
                    source = source.push(i as int);
                    assert(pairs(found@) =~= earlier.push((entry.key@, entry.value@)));
                    assert forall|j: int|
                        0 <= j < i + 1 && (#[trigger] self.entries@[j]).namespace@ == namespace@
                            && prefix@.is_prefix_of(self.entries@[j].key@) implies exists|t: int|
                        0 <= t < source.len() && #[trigger] source[t] == j by {
                        if j < i {
                            let t = choose|t: int|
                                0 <= t < earlier_source.len() && #[trigger] earlier_source[t]
                                    == j;
                            assert(source[t] == j);
                        } else {
                            assert(source[source.len() - 1] == j);
                        }
                    }
                }
            }
            i += 1;
        }
        proof {
            let listed = pairs(found@);
            let entries = self.entries@;
            assert forall|t: int| 0 <= t < listed.len() implies {
                &&& prefix@.is_prefix_of((#[trigger] listed[t]).0)
                &&& lookup(self.contents(), namespace@, listed[t].0) == Some(listed[t].1)
            } by {
                entry_is_held(entries, source[t]);
            }
            assert forall|key: Seq<char>|
                prefix@.is_prefix_of(key) && #[trigger] self.contents().contains_key(
                    (namespace@, key),
                ) implies exists|t: int| 0 <= t < listed.len() && (#[trigger] listed[t]).0
                == key by {
                let j = index_of(entries, (namespace@, key));
                assert(entries[j].namespace@ == namespace@);
                let t = choose|t: int| 0 <= t < source.len() && #[trigger] source[t] == j;
                assert(listed[t].0 == key);
            }
            assert forall|t: int, u: int| 0 <= t < u < listed.len() implies key_lt(
                (#[trigger] listed[t]).0,
                (#[trigger] listed[u]).0,
            ) by {
                assert(source[t] < source[u]);
                assert(place_lt(place(entries[source[t]]), place(entries[source[u]])));
                key_lt_is_irreflexive(namespace@);
            }
        }
        Ok(found)
    }
}

} // verus!
