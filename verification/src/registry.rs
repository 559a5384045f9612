//! The table of subscribers: for each feed, the writer of every subscribed
//! process.
//!
//! The table owns the writers. It is generic in their type: the daemon stores
//! the write half of a socket, and nothing here looks inside one.

use std::collections::HashMap;
use vstd::prelude::*;
use vstd::std_specs::hash::*;
use vstd::std_specs::iter::IteratorSpec;
use crate::subscription::SubscriptionID;

verus! {

broadcast use group_hash_axioms;

/// The subscribers of `kind`: none where the table has no bucket for it.
pub open spec fn spec_bucket<W>(table: Map<SubscriptionID, Map<u32, W>>, kind: SubscriptionID) -> Map<
    u32,
    W,
> {
    if table.contains_key(kind) {
        table[kind]
    } else {
        Map::empty()
    }
}

/// The writer of process `pid` under `kind`, if it is subscribed.
pub open spec fn spec_lookup<W>(
    table: Map<SubscriptionID, Map<u32, W>>,
    kind: SubscriptionID,
    pid: u32,
) -> Option<W> {
    if spec_bucket(table, kind).contains_key(pid) {
        Some(spec_bucket(table, kind)[pid])
    } else {
        None
    }
}

/// The table after `pid` subscribed to `kind` with `writer`: the bucket is
/// made if it was missing, and an earlier writer of the same process is
/// replaced.
pub open spec fn spec_insert<W>(
    table: Map<SubscriptionID, Map<u32, W>>,
    kind: SubscriptionID,
    pid: u32,
    writer: W,
) -> Map<SubscriptionID, Map<u32, W>> {
    table.insert(kind, spec_bucket(table, kind).insert(pid, writer))
}

/// The table without the processes in `pids` under `kind`. The bucket stays,
/// even when it becomes empty.
pub open spec fn spec_evict<W>(
    table: Map<SubscriptionID, Map<u32, W>>,
    kind: SubscriptionID,
    pids: Set<u32>,
) -> Map<SubscriptionID, Map<u32, W>> {
    if table.contains_key(kind) {
        table.insert(kind, table[kind].remove_keys(pids))
    } else {
        table
    }
}

/// The table after the subscriptions `requests` were made one after the
/// other.
pub open spec fn spec_insert_all<W>(
    table: Map<SubscriptionID, Map<u32, W>>,
    requests: Seq<(SubscriptionID, u32, W)>,
) -> Map<SubscriptionID, Map<u32, W>>
    decreases requests.len(),
{
    if requests.len() == 0 {
        table
    } else {
        let last = requests.last();
        spec_insert(spec_insert_all(table, requests.drop_last()), last.0, last.1, last.2)
    }
}

/// The writer of the last of `requests` that `pid` made for `kind`.
pub open spec fn spec_last_request<W>(
    requests: Seq<(SubscriptionID, u32, W)>,
    kind: SubscriptionID,
    pid: u32,
) -> Option<W>
    decreases requests.len(),
{
    if requests.len() == 0 {
        None
    } else if requests.last().0 == kind && requests.last().1 == pid {
        Some(requests.last().2)
    } else {
        spec_last_request(requests.drop_last(), kind, pid)
    }
}

/// A subscription changes the entry of its own feed and process only.
pub proof fn lemma_insert_lookup<W>(
    table: Map<SubscriptionID, Map<u32, W>>,
    kind: SubscriptionID,
    pid: u32,
    writer: W,
    other_kind: SubscriptionID,
    other_pid: u32,
)
    ensures
        spec_lookup(spec_insert(table, kind, pid, writer), kind, pid) == Some(writer),
        other_kind != kind || other_pid != pid ==> spec_lookup(
            spec_insert(table, kind, pid, writer),
            other_kind,
            other_pid,
        ) == spec_lookup(table, other_kind, other_pid),
{
}

/// After any sequence of subscriptions the table holds, for each feed and
/// process, the writer of the last subscription that process made for that
/// feed, and what it held before where the process made none.
pub proof fn lemma_last_insert_wins<W>(
    table: Map<SubscriptionID, Map<u32, W>>,
    requests: Seq<(SubscriptionID, u32, W)>,
    kind: SubscriptionID,
    pid: u32,
)
    ensures
        spec_lookup(spec_insert_all(table, requests), kind, pid) == match spec_last_request(
            requests,
            kind,
            pid,
        ) {
            Some(writer) => Some(writer),
            None => spec_lookup(table, kind, pid),
        },
    decreases requests.len(),
{
    if requests.len() > 0 {
        let last = requests.last();
        lemma_last_insert_wins(table, requests.drop_last(), kind, pid);
        lemma_insert_lookup(
            spec_insert_all(table, requests.drop_last()),
            last.0,
            last.1,
            last.2,
            kind,
            pid,
        );
    }
}

/// Evicting processes removes exactly those: of every other process the
/// writer stays as it was, and no feed loses or gains its bucket.
pub proof fn lemma_evict_lookup<W>(
    table: Map<SubscriptionID, Map<u32, W>>,
    kind: SubscriptionID,
    pids: Set<u32>,
    other_kind: SubscriptionID,
    pid: u32,
)
    ensures
        spec_evict(table, kind, pids).dom() == table.dom(),
        pids.contains(pid) ==> spec_lookup(spec_evict(table, kind, pids), kind, pid) is None,
        other_kind != kind || !pids.contains(pid) ==> spec_lookup(
            spec_evict(table, kind, pids),
            other_kind,
            pid,
        ) == spec_lookup(table, other_kind, pid),
{
    assert(spec_evict(table, kind, pids).dom() =~= table.dom());
}

pub struct Registry<W> {
    buckets: HashMap<u8, HashMap<u32, W>>,
}

impl<W> View for Registry<W> {
    type V = Map<SubscriptionID, Map<u32, W>>;

    closed spec fn view(&self) -> Map<SubscriptionID, Map<u32, W>> {
        Map::new(
            |kind: SubscriptionID| self.buckets@.contains_key(kind.spec_to_byte()),
            |kind: SubscriptionID| self.buckets@[kind.spec_to_byte()]@,
        )
    }
}

/// Collects the keys of a bucket.
fn bucket_pids<W>(bucket: &HashMap<u32, W>) -> (pids: Vec<u32>)
    ensures
        pids@.no_duplicates(),
        pids@.to_set() == bucket@.dom(),
{
    let mut pids: Vec<u32> = Vec::new();
    let ghost keys = spec_keys_iter(bucket).remaining();
    for pid in it: bucket.keys()
        invariant
            it.seq() == keys,
            pids@.len() == it.index(),
            forall|i: int| 0 <= i < pids@.len() ==> pids@[i] == *keys[i],
    {
        pids.push(*pid);
    }
    proof {
        axiom_spec_keys_iter(bucket);
        assert(pids@ =~= keys.unref());
        assert forall|i: int, j: int|
            0 <= i < pids@.len() && 0 <= j < pids@.len() && i != j implies pids@[i] != pids@[j] by {
            assert(keys[i] != keys[j]);
        }
    }
    pids
}

impl<W> Registry<W> {
    /// The table without any bucket.
    pub fn new() -> (registry: Registry<W>)
        ensures
            registry@ == Map::<SubscriptionID, Map<u32, W>>::empty(),
    {
        let registry = Registry { buckets: HashMap::new() };
        assert(registry@ =~= Map::<SubscriptionID, Map<u32, W>>::empty());
        registry
    }

    /// Subscribes `pid` to `kind`. Gives back the writer that the process
    /// had under that feed before, if any.
    pub fn insert(&mut self, kind: SubscriptionID, pid: u32, writer: W) -> (replaced: Option<W>)
        ensures
            final(self)@ == spec_insert(old(self)@, kind, pid, writer),
            replaced == spec_lookup(old(self)@, kind, pid),
    {
        let key = u8::from(kind);
        let mut bucket = match self.buckets.remove(&key) {
            Some(bucket) => bucket,
            None => HashMap::new(),
        };
        assert(bucket@ == spec_bucket(old(self)@, kind));
        let replaced = bucket.insert(pid, writer);
        self.buckets.insert(key, bucket);
        assert(self@ =~= spec_insert(old(self)@, kind, pid, writer));
        replaced
    }

    /// Takes `pid` out of `kind` and gives back its writer. The bucket of
    /// the feed stays.
    pub fn remove(&mut self, kind: SubscriptionID, pid: u32) -> (removed: Option<W>)
        ensures
            final(self)@ == spec_evict(old(self)@, kind, set![pid]),
            removed == spec_lookup(old(self)@, kind, pid),
    {
        let key = u8::from(kind);
        match self.buckets.remove(&key) {
            Some(bucket) => {
                let mut bucket = bucket;
                let removed = bucket.remove(&pid);
                assert(bucket@ =~= old(self)@[kind].remove_keys(set![pid]));
                self.buckets.insert(key, bucket);
                assert(self@ =~= spec_evict(old(self)@, kind, set![pid]));
                removed
            },
            None => {
                assert(self@ =~= old(self)@);
                None
            },
        }
    }

    /// Takes every process of `pids` out of `kind`.
    pub fn evict(&mut self, kind: SubscriptionID, pids: &Vec<u32>)
        ensures
            final(self)@ == spec_evict(old(self)@, kind, pids@.to_set()),
    {
        let key = u8::from(kind);
        match self.buckets.remove(&key) {
            Some(bucket) => {
                let mut bucket = bucket;
                let ghost before = bucket@;
                let mut index: usize = 0;
                while index < pids.len()
                    invariant
                        index <= pids@.len(),
                        bucket@ == before.remove_keys(pids@.subrange(0, index as int).to_set()),
                    decreases pids.len() - index,
                {
                    bucket.remove(&pids[index]);
                    proof {
                        let done = pids@.subrange(0, index as int);
                        let next = pids@.subrange(0, index as int + 1);
                        assert(next =~= done.push(pids@[index as int]));
                        done.lemma_push_to_set_commute(pids@[index as int]);
                        assert(next.to_set() =~= done.to_set().insert(pids@[index as int]));
                        assert(bucket@ =~= before.remove_keys(next.to_set()));
                    }
                    index += 1;
                }
                assert(pids@.subrange(0, index as int) =~= pids@);
                self.buckets.insert(key, bucket);
                assert(self@ =~= spec_evict(old(self)@, kind, pids@.to_set()));
            },
            None => {
                assert(self@ =~= old(self)@);
            },
        }
    }

    /// Whether `pid` is subscribed to `kind`.
    pub fn contains(&self, kind: SubscriptionID, pid: u32) -> (found: bool)
        ensures
            found == spec_lookup(self@, kind, pid) is Some,
    {
        let key = u8::from(kind);
        match self.buckets.get(&key) {
            Some(bucket) => bucket.contains_key(&pid),
            None => false,
        }
    }

    /// The writer of `pid` under `kind`.
    pub fn get(&self, kind: SubscriptionID, pid: u32) -> (writer: Option<&W>)
        ensures
            match writer {
                Some(writer) => spec_lookup(self@, kind, pid) == Some(*writer),
                None => spec_lookup(self@, kind, pid) is None,
            },
    {
        let key = u8::from(kind);
        match self.buckets.get(&key) {
            Some(bucket) => bucket.get(&pid),
            None => None,
        }
    }

    /// Whether the table has a bucket for `kind`, be it empty.
    pub fn has_bucket(&self, kind: SubscriptionID) -> (found: bool)
        ensures
            found == self@.contains_key(kind),
    {
        let key = u8::from(kind);
        self.buckets.contains_key(&key)
    }

    /// The number of processes subscribed to `kind`.
    pub fn count(&self, kind: SubscriptionID) -> (count: usize)
        ensures
            count == spec_bucket(self@, kind).len(),
    {
        let key = u8::from(kind);
        match self.buckets.get(&key) {
            Some(bucket) => bucket.len(),
            None => 0,
        }
    }

    /// The processes subscribed to `kind`, each once, in no promised order.
    pub fn pids(&self, kind: SubscriptionID) -> (pids: Vec<u32>)
        ensures
            pids@.no_duplicates(),
            pids@.to_set() == spec_bucket(self@, kind).dom(),
    {
        let key = u8::from(kind);
        match self.buckets.get(&key) {
            Some(bucket) => bucket_pids(bucket),
            None => {
                let pids: Vec<u32> = Vec::new();
                assert(pids@.to_set() =~= Set::<u32>::empty());
                pids
            },
        }
    }
}

} // verus!
