//! Deduplication of storage writes.
//!
//! Seal criteria must count a storage slot only once however many times a
//! batch writes to it. The deduplicator keeps the set of slots already
//! written in the open batch and classifies each incoming write as initial
//! (first touch of the slot) or repeated.

use vstd::prelude::*;

use crate::seal::DeduplicatedWritesMetrics;

verus! {

/// One storage write produced by the VM: a slot and the value written.
#[derive(Clone, Copy, Debug, PartialEq, Eq, Structural)]
pub struct StorageLog {
    pub key: u64,
    pub value: u64,
}

pub open spec fn spec_keys_of(logs: Seq<StorageLog>) -> Seq<u64> {
    logs.map_values(|l: StorageLog| l.key)
}

/// Saturating successor, so write counters never wrap.
pub open spec fn spec_sat_inc(a: u64) -> u64 {
    if a == u64::MAX {
        a
    } else {
        (a + 1) as u64
    }
}

/// Applying one write: a slot already touched counts as repeated, a fresh
/// slot is recorded and counts as initial.
pub open spec fn spec_apply_one(
    keys: Seq<u64>,
    m: DeduplicatedWritesMetrics,
    k: u64,
) -> (Seq<u64>, DeduplicatedWritesMetrics) {
    if keys.contains(k) {
        (
            keys,
            DeduplicatedWritesMetrics {
                initial_storage_writes: m.initial_storage_writes,
                repeated_storage_writes: spec_sat_inc(m.repeated_storage_writes),
            },
        )
    } else {
        (
            keys.push(k),
            DeduplicatedWritesMetrics {
                initial_storage_writes: spec_sat_inc(m.initial_storage_writes),
                repeated_storage_writes: m.repeated_storage_writes,
            },
        )
    }
}

/// Applying a sequence of writes, left to right.
pub open spec fn spec_apply_logs(
    keys: Seq<u64>,
    m: DeduplicatedWritesMetrics,
    ks: Seq<u64>,
) -> (Seq<u64>, DeduplicatedWritesMetrics)
    decreases ks.len(),
{
    if ks.len() == 0 {
        (keys, m)
    } else {
        let prev = spec_apply_logs(keys, m, ks.drop_last());
        spec_apply_one(prev.0, prev.1, ks.last())
    }
}

/// The state after applying writes extends the state before.
proof fn lemma_apply_extends(keys: Seq<u64>, m: DeduplicatedWritesMetrics, ks: Seq<u64>)
    ensures
        spec_apply_logs(keys, m, ks).0.len() >= keys.len(),
        spec_apply_logs(keys, m, ks).0.take(keys.len() as int) == keys,
    decreases ks.len(),
{
    if ks.len() == 0 {
        assert(spec_apply_logs(keys, m, ks).0.take(keys.len() as int) =~= keys);
    } else {
        lemma_apply_extends(keys, m, ks.drop_last());
        let prev = spec_apply_logs(keys, m, ks.drop_last());
        let next = spec_apply_one(prev.0, prev.1, ks.last());
        assert(next.0.take(keys.len() as int) =~= prev.0.take(keys.len() as int));
    }
}

/// Collapses repeated writes to the same slot so that seal criteria can use
/// post-deduplication counts.
#[derive(Clone, Debug)]
pub struct StorageWritesDeduplicator {
    keys: Vec<u64>,
    metrics: DeduplicatedWritesMetrics,
}

impl StorageWritesDeduplicator {
    pub closed spec fn keys_spec(self) -> Seq<u64> {
        self.keys@
    }

    pub closed spec fn metrics_spec(self) -> DeduplicatedWritesMetrics {
        self.metrics
    }

    pub fn new() -> (r: StorageWritesDeduplicator)
        ensures
            r.keys_spec() == Seq::<u64>::empty(),
            r.metrics_spec() == (DeduplicatedWritesMetrics {
                initial_storage_writes: 0,
                repeated_storage_writes: 0,
            }),
    {
        let r = StorageWritesDeduplicator {
            keys: Vec::new(),
            metrics: DeduplicatedWritesMetrics { initial_storage_writes: 0, repeated_storage_writes: 0 },
        };
        proof {
            assert(r.keys@ =~= Seq::<u64>::empty());
        }
        r
    }

    /// The counts accumulated so far.
    pub fn metrics(&self) -> (r: DeduplicatedWritesMetrics)
        ensures
            r == self.metrics_spec(),
    {
        self.metrics
    }

    fn contains_key(&self, k: u64) -> (r: bool)
        ensures
            r == self.keys_spec().contains(k),
    {
        let n = self.keys.len();
        let mut i: usize = 0;
        while i < n
            invariant
                n == self.keys@.len(),
                i <= n,
                forall|j: int| 0 <= j < i ==> self.keys@[j] != k,
            decreases n - i,
        {
            if self.keys[i] == k {
                return true;
            }
            i += 1;
        }
        false
    }

    /// Applies the writes for good; the new tallies count them.
    pub fn apply(&mut self, logs: &Vec<StorageLog>) -> (r: DeduplicatedWritesMetrics)
        ensures
            final(self).keys_spec() == spec_apply_logs(
                old(self).keys_spec(),
                old(self).metrics_spec(),
                spec_keys_of(logs@),
            ).0,
            final(self).metrics_spec() == spec_apply_logs(
                old(self).keys_spec(),
                old(self).metrics_spec(),
                spec_keys_of(logs@),
            ).1,
            r == final(self).metrics_spec(),
    {
        let ghost ks = spec_keys_of(logs@);
        let n = logs.len();
        let mut i: usize = 0;
        while i < n
            invariant
                n == logs@.len(),
                ks == spec_keys_of(logs@),
                i <= n,
                self.keys@ == spec_apply_logs(old(self).keys@, old(self).metrics, ks.take(i as int)).0,
                self.metrics == spec_apply_logs(old(self).keys@, old(self).metrics, ks.take(i as int)).1,
            decreases n - i,
        {
            let k = logs[i].key;
            assert(ks[i as int] == k);
            if self.contains_key(k) {
                self.metrics.repeated_storage_writes =
                    if self.metrics.repeated_storage_writes == u64::MAX {
                        u64::MAX
                    } else {
                        self.metrics.repeated_storage_writes + 1
                    };
            } else {
                self.keys.push(k);
                self.metrics.initial_storage_writes =
                    if self.metrics.initial_storage_writes == u64::MAX {
                        u64::MAX
                    } else {
                        self.metrics.initial_storage_writes + 1
                    };
            }
            proof {
                assert(ks.take(i + 1).drop_last() =~= ks.take(i as int));
                assert(ks.take(i + 1).last() == k);
            }
            i += 1;
        }
        proof {
            assert(ks.take(n as int) =~= ks);
        }
        self.metrics
    }

    /// Computes what the tallies would be with the writes applied, leaving
    /// the deduplicator exactly as it was. The restoration clauses state the
    /// apply/rollback law: the call has no residual effect on `self`.
    pub fn apply_and_rollback(&mut self, logs: &Vec<StorageLog>) -> (r: DeduplicatedWritesMetrics)
        ensures
            final(self).keys_spec() == old(self).keys_spec(),
            final(self).metrics_spec() == old(self).metrics_spec(),
            r == spec_apply_logs(
                old(self).keys_spec(),
                old(self).metrics_spec(),
                spec_keys_of(logs@),
            ).1,
    {
        let saved_len = self.keys.len();
        let saved_metrics = self.metrics;
        let r = self.apply(logs);
        proof {
            lemma_apply_extends(old(self).keys@, old(self).metrics, spec_keys_of(logs@));
        }
        self.keys.truncate(saved_len);
        proof {
            assert(self.keys@ =~= old(self).keys@);
        }
        self.metrics = saved_metrics;
        r
    }

    /// The tallies of the writes alone, as if applied to a fresh state.
    pub fn apply_on_empty_state(logs: &Vec<StorageLog>) -> (r: DeduplicatedWritesMetrics)
        ensures
            r == spec_apply_logs(
                Seq::<u64>::empty(),
                DeduplicatedWritesMetrics { initial_storage_writes: 0, repeated_storage_writes: 0 },
                spec_keys_of(logs@),
            ).1,
    {
        let mut fresh = StorageWritesDeduplicator::new();
        fresh.apply(logs)
    }
}

} // verus!
