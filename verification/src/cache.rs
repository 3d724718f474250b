//! The memoizing computation cache.
//!
//! A `MemoizingCache` owns one deterministic computation and one memo store
//! (a key-to-value map). Its single operation, [`MemoizingCache::get_or_compute`],
//! returns the stored value for a key if one is present, and otherwise runs the
//! computation once, stores the result under that key, and returns it. Entries
//! are only ever added, never removed or replaced, so the store grows
//! monotonically and each key is computed at most once.

use vstd::prelude::*;
use std::collections::HashMap;
use std::hash::Hash;

verus! {

/// A cache that composes one computation with one memo store.
///
/// The computation is supplied once at construction and never replaced; it
/// must be total on the keys it is asked about and, for the cache to be of
/// use, deterministic. The store maps each key seen so far to the value the
/// computation returned for it.
#[verifier::reject_recursive_types(K)]
#[verifier::reject_recursive_types(V)]
pub struct MemoizingCache<K, V, F> where K: Copy + Eq + Hash, V: Copy, F: Fn(K) -> V {
    calculation: F,
    store: HashMap<K, V>,
}

impl<K, V, F> MemoizingCache<K, V, F> where K: Copy + Eq + Hash, V: Copy, F: Fn(K) -> V {
    /// The memo store's contents: every key resolved so far, with its cached value.
    pub closed spec fn entries(&self) -> Map<K, V> {
        self.store@
    }

    /// The computation the cache was built around.
    pub closed spec fn computation(&self) -> F {
        self.calculation
    }

    /// Well-formedness: the key type behaves as a hash-table key (equal keys
    /// hash equally, and equality is stable), and every cached value is one
    /// the computation can return for its key.
    pub open spec fn wf(&self) -> bool {
        &&& vstd::std_specs::hash::obeys_key_model::<K>()
        &&& forall|k: K| #[trigger] self.entries().contains_key(k)
                ==> call_ensures(self.computation(), (k,), self.entries()[k])
    }

    /// Builds a cache around `calculation` with an empty memo store: a fresh
    /// cache has zero entries, so its first call for any key is a miss.
    pub fn new(calculation: F) -> (cache: Self)
        requires
            vstd::std_specs::hash::obeys_key_model::<K>(),
        ensures
            cache.entries() == Map::<K, V>::empty(),
            forall|key: K| !cache.entries().contains_key(key),
            cache.computation() == calculation,
            cache.wf(),
    {
        MemoizingCache { calculation, store: HashMap::new() }
    }

    /// Resolves `key`: on a hit the stored value is returned and the store is
    /// untouched; on a miss the computation runs once and its result is
    /// stored under `key` and returned. Keys other than `key` are unaffected
    /// either way.
    pub fn get_or_compute(&mut self, key: K) -> (value: V)
        requires
            old(self).wf(),
            !old(self).entries().contains_key(key)
                ==> call_requires(old(self).computation(), (key,)),
        ensures
            final(self).wf(),
            final(self).computation() == old(self).computation(),
            // the key is now cached, and the caller got the cached value
            final(self).entries() == old(self).entries().insert(key, value),
            final(self).entries().dom() == old(self).entries().dom().insert(key),
            final(self).entries().contains_key(key),
            final(self).entries()[key] == value,
            // hit: no side effect, the stored value comes back unchanged
            old(self).entries().contains_key(key) ==> {
                &&& value == old(self).entries()[key]
                &&& final(self).entries() == old(self).entries()
            },
            // miss: the value is one the computation returned for `key`
            !old(self).entries().contains_key(key)
                ==> call_ensures(old(self).computation(), (key,), value),
            // independence: no other key's presence or value changes
            forall|other: K| other != key ==> {
                &&& final(self).entries().contains_key(other)
                        == old(self).entries().contains_key(other)
                &&& old(self).entries().contains_key(other)
                        ==> final(self).entries()[other] == old(self).entries()[other]
            },
    {
        match self.store.get(&key) {
            Some(stored) => {
                let value = *stored;
                proof {
                    assert(old(self).entries().insert(key, value) =~= old(self).entries());
                    assert(old(self).entries().dom().insert(key) =~= old(self).entries().dom());
                }
                value
            },
            None => {
                let value = (self.calculation)(key);
                self.store.insert(key, value);
                proof {
                    assert(self.entries().dom() =~= old(self).entries().dom().insert(key));
                }
                value
            },
        }
    }

    /// How many distinct keys have been resolved so far.
    pub fn len(&self) -> (n: usize)
        requires
            self.wf(),
        ensures
            n == self.entries().len(),
    {
        self.store.len()
    }

    /// Whether `key` is already cached: true exactly when the next
    /// `get_or_compute(key)` would be a hit.
    pub fn is_cached(&self, key: K) -> (cached: bool)
        requires
            self.wf(),
        ensures
            cached == self.entries().contains_key(key),
    {
        self.store.contains_key(&key)
    }
}

// What follows states the cache's laws over its mathematical model. Each call
// to `get_or_compute(key)` turns a store `m` into `m.insert(key, value)`, runs
// the computation exactly when `key` is absent, and on a hit returns
// `m[key]` unchanged: that is what its `ensures` states. The laws below follow
// the store through whole sequences of such calls.
/// How many of the calls in `calls`, resolved in order against a store whose
/// key set starts as `dom`, run the computation for `key`: a call runs it
/// exactly when its key is not yet present, and afterwards its key is.
pub open spec fn runs_for<K>(dom: Set<K>, calls: Seq<K>, key: K) -> nat
    decreases calls.len(),
{
    if calls.len() == 0 {
        0
    } else {
        (if calls[0] == key && !dom.contains(key) { 1nat } else { 0nat })
            + runs_for(dom.insert(calls[0]), calls.drop_first(), key)
    }
}

/// Single-computation law: across any sequence of calls, the computation runs
/// for `key` exactly once if some call asks for `key` and it was not already
/// cached, and never runs for `key` otherwise. In particular, on a fresh
/// cache (`dom` empty) N calls for `key` (N >= 1) run it exactly once.
pub proof fn lemma_single_computation<K>(dom: Set<K>, calls: Seq<K>, key: K)
    ensures
        runs_for(dom, calls, key) == if calls.contains(key) && !dom.contains(key) {
            1nat
        } else {
            0nat
        },
    decreases calls.len(),
{
    if calls.len() == 0 {
    } else {
        lemma_single_computation(dom.insert(calls[0]), calls.drop_first(), key);
        if calls[0] == key {
            assert(calls.contains(key));
        } else {
            if calls.drop_first().contains(key) {
                let i = choose|i: int|
                    0 <= i < calls.drop_first().len() && calls.drop_first()[i] == key;
                assert(calls[i + 1] == key);
                assert(calls.contains(key));
            }
            if calls.contains(key) {
                let i = choose|i: int| 0 <= i < calls.len() && calls[i] == key;
                assert(calls.drop_first()[i - 1] == key);
                assert(calls.drop_first().contains(key));
            }
        }
    }
}

/// The store after the calls in `steps` resolve in order, each call recording
/// the value it returned under the key it was asked for.
pub open spec fn store_after<K, V>(store: Map<K, V>, steps: Seq<(K, V)>) -> Map<K, V>
    decreases steps.len(),
{
    if steps.len() == 0 {
        store
    } else {
        store_after(store.insert(steps[0].0, steps[0].1), steps.drop_first())
    }
}

/// Whether every call in `steps` repeats the stored value when its key is
/// already cached, which is what `get_or_compute` ensures of each call.
pub open spec fn steps_respect_store<K, V>(store: Map<K, V>, steps: Seq<(K, V)>) -> bool
    decreases steps.len(),
{
    if steps.len() == 0 {
        true
    } else {
        &&& (store.contains_key(steps[0].0) ==> steps[0].1 == store[steps[0].0])
        &&& steps_respect_store(store.insert(steps[0].0, steps[0].1), steps.drop_first())
    }
}

/// Consistency law: once `key` is cached with `value`, every later call for
/// `key` returns `value`, and the store keeps mapping `key` to `value`, no
/// matter what other keys are resolved in between. So the value returned by
/// the first call for a key equals the value returned by every later call
/// for it.
pub proof fn lemma_consistency<K, V>(store: Map<K, V>, steps: Seq<(K, V)>, key: K, value: V)
    requires
        store.contains_key(key),
        store[key] == value,
        steps_respect_store(store, steps),
    ensures
        forall|i: int| 0 <= i < steps.len() && steps[i].0 == key ==> steps[i].1 == value,
        store_after(store, steps).contains_key(key),
        store_after(store, steps)[key] == value,
    decreases steps.len(),
{
    if steps.len() == 0 {
    } else {
        let next = store.insert(steps[0].0, steps[0].1);
        lemma_consistency(next, steps.drop_first(), key, value);
        assert forall|i: int| 0 <= i < steps.len() && steps[i].0 == key implies steps[i].1
            == value by {
            if i > 0 {
                assert(steps.drop_first()[i - 1] == steps[i]);
            }
        }
    }
}

/// Round-trip law: the value a miss stores for `key` is exactly the value
/// that the immediately following hit for `key` reads back.
pub proof fn lemma_round_trip<K, V>(store: Map<K, V>, key: K, value: V)
    ensures
        store.insert(key, value).contains_key(key),
        store.insert(key, value)[key] == value,
{
}

} // verus!
