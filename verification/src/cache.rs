//! The cache of asset handles for one asset type: a key is loaded once, and
//! every later request for it gets the same handle until the key is removed.
//! Handles are named by numbers the cache hands out.
use vstd::prelude::*;
use vstd::hash_map::HashMapWithView;

use crate::error::{error_from_source, error_view, Error, Report, SourceError};
use crate::handle::{with_registered, Handle, Poll};

verus! {

/// How the task that loads a new handle runs: on the local executor or on one
/// that may move it between threads, and whether the decoded asset is queued
/// for the processor or built at once (its build needs no context).
#[derive(Clone, Copy, Debug, PartialEq, Eq, Structural)]
pub struct LoadTask {
    pub local: bool,
    pub via_processor: bool,
}

/// Effect of a load request for `key`: a cached key gets its handle and starts
/// nothing; a new key gets the next number, which is recorded, and a task.
pub open spec fn load_effect(
    keys0: Map<Seq<char>, u64>,
    next0: u64,
    key: Seq<char>,
    id: u64,
    started: bool,
    keys1: Map<Seq<char>, u64>,
    next1: u64,
) -> bool {
    if keys0.contains_key(key) {
        &&& id == keys0[key]
        &&& !started
        &&& keys1 == keys0
        &&& next1 == next0
    } else {
        &&& id == next0
        &&& started
        &&& keys1 == keys0.insert(key, next0)
        &&& next1 == next0 + 1
    }
}

/// Keys of a cache and the numbers of their handles, in a `hashbrown` map.
#[verifier::external_body]
pub struct KeyTable {
    map: hashbrown::HashMap<String, u64>,
}

/// What a key table holds: each key, by its text, and its handle's number.
pub uninterp spec fn key_table_entries(t: KeyTable) -> Map<Seq<char>, u64>;

/// A key table with no entry.
pub open spec fn no_keys() -> Map<Seq<char>, u64> {
    Map::empty()
}

/// `hashbrown::HashMap::new`: a map with no entry.
#[verifier::external_body]
fn key_table_new() -> (table: KeyTable)
    ensures
        key_table_entries(table) == no_keys(),
{
    KeyTable { map: hashbrown::HashMap::new() }
}

/// `hashbrown::HashMap::get`: the number recorded for the key equal to `key`,
/// if there is one.
#[verifier::external_body]
fn key_table_get(t: &KeyTable, key: &str) -> (r: Option<u64>)
    ensures
        match r {
            Some(v) => key_table_entries(*t).contains_key(key@) && key_table_entries(*t)[key@] == v,
            None => !key_table_entries(*t).contains_key(key@),
        },
{
    t.map.get(key).copied()
}

/// `hashbrown::HashMap::insert`: records `v` for `key`, replacing the number
/// recorded for an equal key.
#[verifier::external_body]
fn key_table_insert(t: &mut KeyTable, key: String, v: u64)
    ensures
        key_table_entries(*final(t)) == key_table_entries(*old(t)).insert(key@, v),
{
    t.map.insert(key, v);
}

/// `hashbrown::HashMap::remove`: removes the key equal to `key`, returning its
/// number if it was there.
#[verifier::external_body]
fn key_table_remove(t: &mut KeyTable, key: &str) -> (r: Option<u64>)
    ensures
        key_table_entries(*final(t)) == key_table_entries(*old(t)).remove(key@),
        match r {
            Some(v) => key_table_entries(*old(t)).contains_key(key@) && key_table_entries(*old(t))[key@] == v,
            None => !key_table_entries(*old(t)).contains_key(key@),
        },
{
    t.map.remove(key)
}

/// Handles of one asset type, by key.
#[verifier::reject_recursive_types(A)]
pub struct Cache<A> {
    keys: KeyTable,
    handles: HashMapWithView<u64, Handle<A>>,
    next: u64,
}

impl<A: Clone> Cache<A> {
    pub closed spec fn keys(&self) -> Map<Seq<char>, u64> {
        key_table_entries(self.keys)
    }

    pub closed spec fn handles(&self) -> Map<u64, Handle<A>> {
        self.handles@
    }

    /// The number the next new handle gets.
    pub closed spec fn next_id(&self) -> u64 {
        self.next
    }

    /// Every key names a handle, and every handle has a number below the next.
    pub open spec fn wf(&self) -> bool {
        &&& forall|k: Seq<char>| #[trigger]
            self.keys().contains_key(k) ==> self.handles().contains_key(self.keys()[k])
        &&& forall|id: u64| #[trigger] self.handles().contains_key(id) ==> id < self.next_id()
    }

    /// An empty cache.
    pub fn new() -> (r: Self)
        ensures
            r.wf(),
            r.keys() == Map::<Seq<char>, u64>::empty(),
            r.handles() == Map::<u64, Handle<A>>::empty(),
            r.next_id() == 0,
    {
        Cache { keys: key_table_new(), handles: HashMapWithView::new(), next: 0 }
    }

    /// Whether a new key can still get a handle number: numbers are 64-bit
    /// and handed out in order.
    pub fn can_allocate(&self) -> (r: bool)
        ensures
            r == (self.next_id() < u64::MAX),
    {
        self.next < u64::MAX
    }

    /// Requests the asset at `key`. A key requested before, even if its
    /// loading is incomplete, gets the same handle and nothing is started. A new
    /// key gets a new pending handle and the task that loads it: on the local
    /// executor when one is available, through the processor unless the asset's
    /// build needs no context.
    pub fn load_with_format(&mut self, key: &str, can_spawn_local: bool, phantom_context: bool) -> (r:
        (u64, Option<LoadTask>))
        requires
            old(self).wf(),
            old(self).next_id() < u64::MAX,
        ensures
            final(self).wf(),
            load_effect(
                old(self).keys(),
                old(self).next_id(),
                key@,
                r.0,
                r.1 is Some,
                final(self).keys(),
                final(self).next_id(),
            ),
            final(self).handles().contains_key(r.0),
            r.1 is None ==> final(self).handles() == old(self).handles(),
            r.1 matches Some(t) ==> {
                &&& t.local == can_spawn_local
                &&& t.via_processor == !phantom_context
                &&& final(self).handles() == old(self).handles().insert(r.0, final(self).handles()[r.0])
                &&& final(self).handles()[r.0].outcome() is None
                &&& final(self).handles()[r.0].wakers().len() == 0
            },
    {
        match key_table_get(&self.keys, key) {
            Some(id) => (id, None),
            None => {
                let id = self.next;
                let h = Handle::new();
                self.handles.insert(id, h);
                key_table_insert(&mut self.keys, key.to_owned(), id);
                self.next = id + 1;
                proof {
                    assert forall|k: Seq<char>| #[trigger] self.keys().contains_key(k) implies self.handles().contains_key(
                        self.keys()[k],
                    ) by {
                        if k != key@ {
                            assert(old(self).keys().contains_key(k));
                        }
                    }
                    assert forall|j: u64| #[trigger] self.handles().contains_key(j) implies j < self.next_id() by {
                        if j != id {
                            assert(old(self).handles().contains_key(j));
                        }
                    }
                }
                (id, Some(LoadTask { local: can_spawn_local, via_processor: !phantom_context }))
            },
        }
    }

    /// Removes `key` from the cache; a later request for it starts loading
    /// anew, while handles given out stay valid. Returns whether it was there.
    pub fn remove(&mut self, key: &str) -> (r: bool)
        requires
            old(self).wf(),
        ensures
            final(self).wf(),
            r == old(self).keys().contains_key(key@),
            final(self).keys() == old(self).keys().remove(key@),
            final(self).handles() == old(self).handles(),
            final(self).next_id() == old(self).next_id(),
    {
        let r = key_table_remove(&mut self.keys, key).is_some();
        proof {
            assert forall|k: Seq<char>| #[trigger] self.keys().contains_key(k) implies self.handles().contains_key(
                self.keys()[k],
            ) by {
                assert(old(self).keys().contains_key(k));
            }
            assert forall|j: u64| #[trigger] self.handles().contains_key(j) implies j < self.next_id() by {
                assert(old(self).handles().contains_key(j));
            }
        }
        r
    }

    /// Resolves handle `id`, whose outcome is not set yet; returns the wakers to wake.
    pub fn set(&mut self, id: u64, result: Result<A, Error>) -> (wake: Vec<u64>)
        requires
            old(self).wf(),
            old(self).handles().contains_key(id),
            old(self).handles()[id].outcome() is None,
        ensures
            final(self).wf(),
            final(self).keys() == old(self).keys(),
            final(self).next_id() == old(self).next_id(),
            final(self).handles().dom() == old(self).handles().dom(),
            forall|j: u64| j != id && #[trigger] old(self).handles().contains_key(j) ==> final(self).handles()[j]
                == old(self).handles()[j],
            final(self).handles()[id].outcome() == Some(result),
            wake@ == old(self).handles()[id].wakers(),
    {
        let ghost h0 = self.handles@;
        let mut h = self.handles.remove(&id).unwrap();
        let wake = h.set(result);
        self.handles.insert(id, h);
        assert(self.handles@.dom() =~= h0.dom());
        proof {
            assert forall|k: Seq<char>| #[trigger] self.keys().contains_key(k) implies self.handles().contains_key(
                self.keys()[k],
            ) by {
                assert(old(self).keys().contains_key(k));
            }
            assert forall|j: u64| #[trigger] self.handles().contains_key(j) implies j < self.next_id() by {
                assert(old(self).handles().contains_key(j));
            }
        }
        wake
    }

    /// The task that would load handle `id` could not be spawned: the handle
    /// resolves to a spawn error.
    pub fn spawn_failed(&mut self, id: u64) -> (wake: Vec<u64>)
        requires
            old(self).wf(),
            old(self).handles().contains_key(id),
            old(self).handles()[id].outcome() is None,
        ensures
            final(self).wf(),
            final(self).keys() == old(self).keys(),
            final(self).handles().dom() == old(self).handles().dom(),
            final(self).handles()[id].outcome() matches Some(Err(e)) && e is SpawnError,
            wake@ == old(self).handles()[id].wakers(),
    {
        self.set(id, Err(Error::SpawnError))
    }

    /// Polls handle `id` for the task with `waker`.
    pub fn poll(&mut self, id: u64, waker: u64) -> (r: Option<Poll<Result<A, Error>>>)
        requires
            old(self).wf(),
        ensures
            final(self).wf(),
            final(self).keys() == old(self).keys(),
            final(self).next_id() == old(self).next_id(),
            final(self).handles().dom() == old(self).handles().dom(),
            r is None <==> !old(self).handles().contains_key(id),
            old(self).handles().contains_key(id) ==> {
                let h0 = old(self).handles()[id];
                let h1 = final(self).handles()[id];
                &&& h1.outcome() == h0.outcome()
                &&& match h0.outcome() {
                    Some(o) => h1.wakers() == h0.wakers() && (r matches Some(Poll::Ready(ro))
                        && match (o, ro) {
                        (Ok(a), Ok(b)) => cloned(a, b),
                        (Err(e), Err(f)) => error_view(f) == error_view(e),
                        _ => false,
                    }),
                    None => (r matches Some(Poll::Pending)) && h1.wakers() == with_registered(
                        h0.wakers(),
                        waker,
                    ),
                }
            },
    {
        let ghost h0 = self.handles@;
        match self.handles.remove(&id) {
            None => {
                proof {
                    assert forall|k: Seq<char>| #[trigger] self.keys().contains_key(k) implies self.handles().contains_key(
                        self.keys()[k],
                    ) by {
                        assert(old(self).keys().contains_key(k));
                    }
                    assert forall|j: u64| #[trigger] self.handles().contains_key(j) implies j < self.next_id() by {
                        assert(old(self).handles().contains_key(j));
                    }
                }
                None
            },
            Some(h) => {
                let mut h = h;
                let r = h.poll(waker);
                self.handles.insert(id, h);
                assert(self.handles@.dom() =~= h0.dom());
                proof {
                    assert forall|k: Seq<char>| #[trigger] self.keys().contains_key(k) implies self.handles().contains_key(
                        self.keys()[k],
                    ) by {
                        assert(old(self).keys().contains_key(k));
                    }
                    assert forall|j: u64| #[trigger] self.handles().contains_key(j) implies j < self.next_id() by {
                        assert(old(self).handles().contains_key(j));
                    }
                }
                Some(r)
            },
        }
    }
}

/// The bytes a source read gives, or the loading error its failure becomes.
pub fn after_read(read: Result<Vec<u8>, SourceError>) -> (r: Result<Vec<u8>, Error>)
    ensures
        match read {
            Ok(bytes) => r == Ok::<Vec<u8>, Error>(bytes),
            Err(e) => r matches Err(f) && error_view(f) == error_from_source(e),
        },
{
    match read {
        Ok(bytes) => Ok(bytes),
        Err(e) => Err(Error::from(e)),
    }
}

/// The decoded representation, or a format error with the decoder's report.
pub fn after_decode<R>(decoded: Result<R, Report>) -> (r: Result<R, Error>)
    ensures
        match decoded {
            Ok(repr) => r == Ok::<R, Error>(repr),
            Err(rep) => r matches Err(f) && error_view(f) == (3int, rep@),
        },
{
    match decoded {
        Ok(repr) => Ok(repr),
        Err(rep) => Err(Error::Format(rep)),
    }
}

/// The built asset, or an asset error with the builder's report.
pub fn after_build<A>(built: Result<A, Report>) -> (r: Result<A, Error>)
    ensures
        match built {
            Ok(a) => r == Ok::<A, Error>(a),
            Err(rep) => r matches Err(f) && error_view(f) == (2int, rep@),
        },
{
    match built {
        Ok(a) => Ok(a),
        Err(rep) => Err(Error::Asset(rep)),
    }
}

/// Law: a key requested twice, with no removal between, gets the same handle
/// the second time and starts nothing.
pub proof fn lemma_load_twice_is_cached(
    keys0: Map<Seq<char>, u64>,
    next0: u64,
    key: Seq<char>,
    id1: u64,
    started1: bool,
    keys1: Map<Seq<char>, u64>,
    next1: u64,
    id2: u64,
    started2: bool,
    keys2: Map<Seq<char>, u64>,
    next2: u64,
)
    requires
        load_effect(keys0, next0, key, id1, started1, keys1, next1),
        load_effect(keys1, next1, key, id2, started2, keys2, next2),
    ensures
        id2 == id1,
        !started2,
        keys2 == keys1,
{
}

/// Law: after a key is removed, requesting it starts loading anew with a
/// handle numbered apart from every handle given out before.
pub proof fn lemma_removed_key_loads_anew(
    keys0: Map<Seq<char>, u64>,
    next0: u64,
    key: Seq<char>,
    id: u64,
    started: bool,
    keys1: Map<Seq<char>, u64>,
    next1: u64,
)
    requires
        forall|k: Seq<char>| #[trigger] keys0.contains_key(k) ==> keys0[k] < next0,
        load_effect(keys0.remove(key), next0, key, id, started, keys1, next1),
    ensures
        started,
        forall|k: Seq<char>| #[trigger] keys0.contains_key(k) ==> keys0[k] != id,
{
}

} // verus!
