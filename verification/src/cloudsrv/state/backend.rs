//! The store of the cluster state: what it holds, and what every store promises.

use vstd::prelude::*;
use vstd::utf8::{encode_utf8, encode_utf8_decode_utf8};

use crate::error::HetuError;
use crate::text::{bytes_lt, bytes_lt_is_irreflexive, bytes_lt_is_total, bytes_lt_is_transitive, equal};

verus! {

/// The store that a scheduler keeps the cluster state in. It is chosen once, when the
/// process starts, and the components that use the state never ask which one it is.
#[derive(Clone, Copy, Debug, PartialEq, Eq, Structural)]
pub enum StateBackend {
    /// A client of a distributed key-value service.
    Etcd,
    /// A store inside the scheduler's own process.
    Standalone,
}

impl StateBackend {
    /// The backend that a configured name selects: `Etcd` for exactly that name,
    /// `Standalone` for every other text.
    pub open spec fn named(name: Seq<char>) -> StateBackend {
        if name == "Etcd"@ {
            StateBackend::Etcd
        } else {
            StateBackend::Standalone
        }
    }

    /// Reads the backend from its configured name.
    pub fn from_name(name: &str) -> (backend: StateBackend)
        ensures
            backend == Self::named(name@),
    {
        if equal(name, "Etcd") {
            StateBackend::Etcd
        } else {
            StateBackend::Standalone
        }
    }
}

/// What a store holds: a value for some pairs of a namespace and a key.
pub type Contents = Map<(Seq<char>, Seq<char>), Seq<u8>>;

/// The value kept under a key of a namespace, if there is one.
pub open spec fn lookup(contents: Contents, namespace: Seq<char>, key: Seq<char>) -> Option<
    Seq<u8>,
> {
    if contents.contains_key((namespace, key)) {
        Some(contents[(namespace, key)])
    } else {
        None
    }
}

/// The contents after a value was written under a key of a namespace.
pub open spec fn written(
    contents: Contents,
    namespace: Seq<char>,
    key: Seq<char>,
    value: Seq<u8>,
) -> Contents {
    contents.insert((namespace, key), value)
}

/// The order of keys: that of their UTF-8 bytes.
pub open spec fn key_lt(a: Seq<char>, b: Seq<char>) -> bool {
    bytes_lt(encode_utf8(a), encode_utf8(b))
}

/// Whether `found` lists the entries of a namespace whose keys begin with `prefix`: it
/// holds each of them, with the value kept under it, it holds nothing else, and its keys
/// ascend.
pub open spec fn is_listing(
    found: Seq<(Seq<char>, Seq<u8>)>,
    contents: Contents,
    namespace: Seq<char>,
    prefix: Seq<char>,
) -> bool {
    &&& forall|i: int|
        0 <= i < found.len() ==> {
            &&& prefix.is_prefix_of((#[trigger] found[i]).0)
            &&& lookup(contents, namespace, found[i].0) == Some(found[i].1)
        }
    &&& forall|key: Seq<char>|
        prefix.is_prefix_of(key) && #[trigger] contents.contains_key((namespace, key))
            ==> exists|i: int| 0 <= i < found.len() && (#[trigger] found[i]).0 == key
    &&& forall|i: int, j: int|
        0 <= i < j < found.len() ==> key_lt((#[trigger] found[i]).0, (#[trigger] found[j]).0)
}

/// The keys and values of a list of pairs, as mathematical data.
pub open spec fn pairs(found: Seq<(String, Vec<u8>)>) -> Seq<(Seq<char>, Seq<u8>)> {
    Seq::new(found.len(), |i: int| (found[i].0@, found[i].1@))
}

/// The value of an optional byte string, as mathematical data.
pub open spec fn bytes_of(found: Option<Vec<u8>>) -> Option<Seq<u8>> {
    match found {
        Some(value) => Some(value@),
        None => None,
    }
}

/// A store of the cluster state. A key that holds no value is no error: an error of a
/// store means that the store could not be reached, and it is always an external error.
pub trait StateBackendClient {
    /// What the store holds.
    spec fn contents(&self) -> Contents;

    /// What the store needs to hold of itself between calls.
    spec fn inv(&self) -> bool;

    /// Reads the value kept under a key of a namespace; `None` where there is none.
    fn get(&self, namespace: &str, key: &str) -> (r: Result<Option<Vec<u8>>, HetuError>)
        requires
            self.inv(),
        ensures
            match r {
                Ok(found) => bytes_of(found) == lookup(self.contents(), namespace@, key@),
                Err(e) => e@ is External,
            },
    ;

    /// Writes a value under a key of a namespace. After `Ok` the store holds the value
    /// there and is otherwise as before. After an error the write has taken effect or has
    /// not; nothing else has changed.
    fn put(&mut self, namespace: &str, key: &str, value: Vec<u8>) -> (r: Result<(), HetuError>)
        requires
            old(self).inv(),
        ensures
            final(self).inv(),
            match r {
                Ok(()) => final(self).contents() == written(
                    old(self).contents(),
                    namespace@,
                    key@,
                    value@,
                ),
                Err(e) => e@ is External && (final(self).contents() == old(self).contents()
                    || final(self).contents() == written(
                    old(self).contents(),
                    namespace@,
                    key@,
                    value@,
                )),
            },
    ;

    /// Lists the entries of a namespace whose keys begin with `prefix`, in the order of
    /// their keys.
    fn list(&self, namespace: &str, prefix: &str) -> (r: Result<
        Vec<(String, Vec<u8>)>,
        HetuError,
    >)
        requires
            self.inv(),
        ensures
            match r {
                Ok(found) => is_listing(pairs(found@), self.contents(), namespace@, prefix@),
                Err(e) => e@ is External,
            },
    ;
}

/// A value that was written is the value that is read: after a write under a key, a read
/// of that key gives the written value.
pub proof fn read_your_writes(
    contents: Contents,
    namespace: Seq<char>,
    key: Seq<char>,
    value: Seq<u8>,
)
    ensures
        lookup(written(contents, namespace, key, value), namespace, key) == Some(value),
{
}

/// A write under one key leaves every other key as it was. In particular a write under one
/// namespace never changes what another namespace holds.
pub proof fn write_leaves_other_keys(
    contents: Contents,
    namespace: Seq<char>,
    key: Seq<char>,
    value: Seq<u8>,
    other_namespace: Seq<char>,
    other_key: Seq<char>,
)
    requires
        other_namespace != namespace || other_key != key,
    ensures
        lookup(written(contents, namespace, key, value), other_namespace, other_key) == lookup(
            contents,
            other_namespace,
            other_key,
        ),
{
}

/// Writes under different keys can be made in either order: the store holds the same.
pub proof fn writes_commute(
    contents: Contents,
    namespace_a: Seq<char>,
    key_a: Seq<char>,
    value_a: Seq<u8>,
    namespace_b: Seq<char>,
    key_b: Seq<char>,
    value_b: Seq<u8>,
)
    requires
        namespace_a != namespace_b || key_a != key_b,
    ensures
        written(
            written(contents, namespace_a, key_a, value_a),
            namespace_b,
            key_b,
            value_b,
        ) == written(
            written(contents, namespace_b, key_b, value_b),
            namespace_a,
            key_a,
            value_a,
        ),
{
    assert(written(
        written(contents, namespace_a, key_a, value_a),
        namespace_b,
        key_b,
        value_b,
    ) =~= written(
        written(contents, namespace_b, key_b, value_b),
        namespace_a,
        key_a,
        value_a,
    ));
}

/// One write: a value for a key of a namespace.
pub struct Write {
    pub namespace: Seq<char>,
    pub key: Seq<char>,
    pub value: Seq<u8>,
}

impl Write {
    /// Where the write goes: its namespace and its key.
    pub open spec fn place(self) -> (Seq<char>, Seq<char>) {
        (self.namespace, self.key)
    }
}

/// The contents after a list of writes was made, one after the other.
pub open spec fn written_all(contents: Contents, writes: Seq<Write>) -> Contents
    decreases writes.len(),
{
    if writes.len() == 0 {
        contents
    } else {
        written(
            written_all(contents, writes.drop_last()),
            writes.last().namespace,
            writes.last().key,
            writes.last().value,
        )
    }
}

/// No two writes of the list go to the same place.
pub open spec fn places_are_distinct(writes: Seq<Write>) -> bool {
    forall|i: int, j: int|
        0 <= i < j < writes.len() ==> (#[trigger] writes[i]).place() != (#[trigger] writes[j]).place()
}

/// After writes to distinct places a key holds the value of the write that went to it, and
/// what it held before where no write went to it.
pub proof fn lookup_after_writes(
    contents: Contents,
    writes: Seq<Write>,
    namespace: Seq<char>,
    key: Seq<char>,
)
    requires
        places_are_distinct(writes),
    ensures
        forall|i: int|
            0 <= i < writes.len() && (#[trigger] writes[i]).place() == (namespace, key) ==> lookup(
                written_all(contents, writes),
                namespace,
                key,
            ) == Some(writes[i].value),
        (forall|i: int| 0 <= i < writes.len() ==> (#[trigger] writes[i]).place() != (namespace, key))
            ==> lookup(written_all(contents, writes), namespace, key) == lookup(
            contents,
            namespace,
            key,
        ),
    decreases writes.len(),
{
    if writes.len() > 0 {
        let earlier = writes.drop_last();
        let last = writes.last();
        assert(places_are_distinct(earlier)) by {
            assert forall|i: int, j: int| 0 <= i < j < earlier.len() implies (#[trigger] earlier[i]).place()
                != (#[trigger] earlier[j]).place() by {
                assert(earlier[i] == writes[i] && earlier[j] == writes[j]);
            }
        }
        lookup_after_writes(contents, earlier, namespace, key);
        assert forall|i: int|
            0 <= i < writes.len() && (#[trigger] writes[i]).place() == (
                namespace,
                key,
            ) implies lookup(written_all(contents, writes), namespace, key) == Some(
            writes[i].value,
        ) by {
            if i < writes.len() - 1 {
                assert(earlier[i] == writes[i]);
                assert(writes[i].place() != writes[writes.len() - 1].place());
            }
        }
        if forall|i: int| 0 <= i < writes.len() ==> (#[trigger] writes[i]).place() != (namespace, key) {
            assert(writes[writes.len() - 1].place() != (namespace, key));
            assert forall|i: int| 0 <= i < earlier.len() implies (#[trigger] earlier[i]).place() != (
                namespace,
                key,
            ) by {
                assert(earlier[i] == writes[i]);
            }
        }
    }
}

/// The order of writes does not show in the store: two lists that hold the same writes,
/// each to a place of its own, leave the same contents, in whatever order each list makes
/// them.
pub proof fn order_of_writes_is_irrelevant(contents: Contents, a: Seq<Write>, b: Seq<Write>)
    requires
        places_are_distinct(a),
        places_are_distinct(b),
        forall|w: Write| a.contains(w) <==> b.contains(w),
    ensures
        written_all(contents, a) == written_all(contents, b),
{
    let after_a = written_all(contents, a);
    let after_b = written_all(contents, b);
    assert forall|namespace: Seq<char>, key: Seq<char>|
        lookup(after_a, namespace, key) == lookup(after_b, namespace, key) by {
        lookup_after_writes(contents, a, namespace, key);
        lookup_after_writes(contents, b, namespace, key);
        if exists|i: int| 0 <= i < a.len() && (#[trigger] a[i]).place() == (namespace, key) {
            let i = choose|i: int| 0 <= i < a.len() && (#[trigger] a[i]).place() == (namespace, key);
            assert(a.contains(a[i]));
            assert(b.contains(a[i]));
            let j = choose|j: int| 0 <= j < b.len() && b[j] == a[i];
            assert(b[j].place() == (namespace, key));
        } else {
            if exists|j: int| 0 <= j < b.len() && (#[trigger] b[j]).place() == (namespace, key) {
                let j = choose|j: int|
                    0 <= j < b.len() && (#[trigger] b[j]).place() == (namespace, key);
                assert(b.contains(b[j]));
                assert(a.contains(b[j]));
                let i = choose|i: int| 0 <= i < a.len() && a[i] == b[j];
                assert(a[i].place() == (namespace, key));
            }
        }
    }
    assert(after_a =~= after_b) by {
        assert forall|at: (Seq<char>, Seq<char>)|
            (#[trigger] after_a.dom().contains(at)) == after_b.dom().contains(at) && (
            after_a.dom().contains(at) ==> after_a[at] == after_b[at]) by {
            assert((at.0, at.1) == at);
            assert(lookup(after_a, at.0, at.1) == lookup(after_b, at.0, at.1));
        }
        assert(after_a.dom() =~= after_b.dom());
    }
}

/// A listing does not depend on the order in which the entries were written: after the
/// same writes, each to a place of its own, made in any two orders, the listings of a
/// namespace under a prefix are the same sequence, and no key is in it twice.
pub proof fn listing_ignores_order_of_writes(
    contents: Contents,
    a: Seq<Write>,
    b: Seq<Write>,
    listed_a: Seq<(Seq<char>, Seq<u8>)>,
    listed_b: Seq<(Seq<char>, Seq<u8>)>,
    namespace: Seq<char>,
    prefix: Seq<char>,
)
    requires
        places_are_distinct(a),
        places_are_distinct(b),
        forall|w: Write| a.contains(w) <==> b.contains(w),
        is_listing(listed_a, written_all(contents, a), namespace, prefix),
        is_listing(listed_b, written_all(contents, b), namespace, prefix),
    ensures
        listed_a == listed_b,
        forall|i: int, j: int|
            0 <= i < j < listed_a.len() ==> (#[trigger] listed_a[i]).0 != (#[trigger] listed_a[j]).0,
{
    order_of_writes_is_irrelevant(contents, a, b);
    listing_is_unique(listed_a, listed_b, written_all(contents, a), namespace, prefix);
    assert forall|i: int, j: int| 0 <= i < j < listed_a.len() implies (#[trigger] listed_a[i]).0 != (
    #[trigger] listed_a[j]).0 by {
        assert(key_lt(listed_a[i].0, listed_a[j].0));
        key_lt_is_irreflexive(listed_a[i].0);
    }
}

/// No key comes before itself.
pub proof fn key_lt_is_irreflexive(a: Seq<char>)
    ensures
        !key_lt(a, a),
{
    bytes_lt_is_irreflexive(encode_utf8(a));
}

/// The order of keys is transitive.
pub proof fn key_lt_is_transitive(a: Seq<char>, b: Seq<char>, c: Seq<char>)
    requires
        key_lt(a, b),
        key_lt(b, c),
    ensures
        key_lt(a, c),
{
    bytes_lt_is_transitive(encode_utf8(a), encode_utf8(b), encode_utf8(c));
}

/// Of two keys that differ, one comes before the other, and never both ways.
pub proof fn key_lt_is_total(a: Seq<char>, b: Seq<char>)
    ensures
        a == b || key_lt(a, b) || key_lt(b, a),
        !(key_lt(a, b) && key_lt(b, a)),
{
    bytes_lt_is_total(encode_utf8(a), encode_utf8(b));
    encode_utf8_decode_utf8(a);
    encode_utf8_decode_utf8(b);
}

/// A listing is determined by what the store holds: two listings of the same contents,
/// namespace and prefix are the same sequence. So the order in which the entries were
/// written does not show in a listing.
pub proof fn listing_is_unique(
    a: Seq<(Seq<char>, Seq<u8>)>,
    b: Seq<(Seq<char>, Seq<u8>)>,
    contents: Contents,
    namespace: Seq<char>,
    prefix: Seq<char>,
)
    requires
        is_listing(a, contents, namespace, prefix),
        is_listing(b, contents, namespace, prefix),
    ensures
        a == b,
    decreases a.len(),
{
    if a.len() == 0 {
        if b.len() > 0 {
            assert(lookup(contents, namespace, b[0].0) == Some(b[0].1));
            assert(contents.contains_key((namespace, b[0].0)));
        }
        assert(a =~= b);
    } else if b.len() == 0 {
        assert(lookup(contents, namespace, a[0].0) == Some(a[0].1));
        assert(contents.contains_key((namespace, a[0].0)));
    } else {
        // The last key of each listing is the greatest key listed, so the two agree.
        let la = a.len() - 1;
        let lb = b.len() - 1;
        assert(lookup(contents, namespace, a[la].0) == Some(a[la].1));
        assert(contents.contains_key((namespace, a[la].0)));
        let ib = choose|i: int| 0 <= i < b.len() && (#[trigger] b[i]).0 == a[la].0;
        assert(lookup(contents, namespace, b[lb].0) == Some(b[lb].1));
        assert(contents.contains_key((namespace, b[lb].0)));
        let ia = choose|i: int| 0 <= i < a.len() && (#[trigger] a[i]).0 == b[lb].0;
        key_lt_is_total(a[la].0, b[lb].0);
        if ib < lb {
            assert(key_lt(b[ib].0, b[lb].0));
        }
        if ia < la {
            assert(key_lt(a[ia].0, a[la].0));
        }
        assert(a[la].0 == b[lb].0);
        assert(lookup(contents, namespace, a[la].0) == Some(b[lb].1));
        assert(a[la] == b[lb]);
        let key = a[la].0;
        let rest = contents.remove((namespace, key));
        let a0 = a.drop_last();
        let b0 = b.drop_last();
        assert(is_listing(a0, rest, namespace, prefix)) by {
            listing_without_last(a, contents, namespace, prefix);
        }
        assert(is_listing(b0, rest, namespace, prefix)) by {
            listing_without_last(b, contents, namespace, prefix);
        }
        listing_is_unique(a0, b0, rest, namespace, prefix);
        assert(a =~= a0.push(a[la]));
        assert(b =~= b0.push(b[lb]));
    }
}

proof fn listing_without_last(
    a: Seq<(Seq<char>, Seq<u8>)>,
    contents: Contents,
    namespace: Seq<char>,
    prefix: Seq<char>,
)
    requires
        is_listing(a, contents, namespace, prefix),
        a.len() > 0,
    ensures
        is_listing(a.drop_last(), contents.remove((namespace, a.last().0)), namespace, prefix),
{
    let la = a.len() - 1;
    let key = a[la].0;
    let rest = contents.remove((namespace, key));
    let a0 = a.drop_last();
    assert forall|i: int| 0 <= i < a0.len() implies {
        &&& prefix.is_prefix_of((#[trigger] a0[i]).0)
        &&& lookup(rest, namespace, a0[i].0) == Some(a0[i].1)
    } by {
        assert(a0[i] == a[i]);
        assert(key_lt(a[i].0, a[la].0));
        key_lt_is_irreflexive(key);
        assert(lookup(contents, namespace, a[i].0) == Some(a[i].1));
    }
    assert forall|k: Seq<char>|
        prefix.is_prefix_of(k) && #[trigger] rest.contains_key((namespace, k)) implies exists|
        i: int,
    |
        0 <= i < a0.len() && (#[trigger] a0[i]).0 == k by {
        assert(contents.contains_key((namespace, k)));
        let i = choose|i: int| 0 <= i < a.len() && (#[trigger] a[i]).0 == k;
        assert(i != la);
        assert(a0[i].0 == k);
    }
    assert forall|i: int, j: int| 0 <= i < j < a0.len() implies key_lt(
        (#[trigger] a0[i]).0,
        (#[trigger] a0[j]).0,
    ) by {
        assert(a0[i] == a[i] && a0[j] == a[j]);
    }
}

} // verus!
