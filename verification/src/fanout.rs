//! Sending one update to every subscriber of a feed.
//!
//! A broadcast walks the subscribers of one feed. Each gets the update
//! written, with one more attempt if the first fails; a subscriber whose
//! attempts all fail is taken out of the table when the broadcast ends. The
//! caller makes the writes and reports how each went.

use vstd::prelude::*;
use crate::error::HyprvisorError;
use crate::registry::{lemma_evict_lookup, spec_bucket, spec_evict, spec_lookup, Registry};
use crate::socket::DELIVERY_ATTEMPTS;
use crate::subscription::SubscriptionID;

verus! {

/// What a broadcast does next.
#[derive(Clone, Copy, Debug, PartialEq, Eq, Structural)]
pub enum FanoutStep {
    /// Write the update to the subscriber with this process id.
    Write(u32),
    /// Every subscriber was served or given up.
    Done,
}

/// A broadcast as a mathematical value.
pub struct FanoutView {
    pub kind: SubscriptionID,
    /// The subscribers to serve, each once.
    pub targets: Seq<u32>,
    /// How many of them are dealt with.
    pub position: nat,
    /// Failed attempts on the subscriber that is being served.
    pub failures: nat,
    /// The subscribers given up, in the order they were met.
    pub failed: Seq<u32>,
}

impl FanoutView {
    pub open spec fn wf(self) -> bool {
        &&& self.targets.no_duplicates()
        &&& self.position <= self.targets.len()
        &&& self.failures < DELIVERY_ATTEMPTS
        &&& self.position == self.targets.len() ==> self.failures == 0
        &&& self.failed.no_duplicates()
        &&& forall|pid: u32|
            self.failed.contains(pid) ==> self.targets.subrange(0, self.position as int).contains(
                pid,
            )
    }

    /// The state a broadcast to `targets` starts in.
    pub open spec fn start(kind: SubscriptionID, targets: Seq<u32>) -> FanoutView {
        FanoutView { kind, targets, position: 0, failures: 0, failed: Seq::empty() }
    }

    pub open spec fn is_done(self) -> bool {
        self.position >= self.targets.len()
    }

    /// The step handed out in this state.
    pub open spec fn step(self) -> FanoutStep {
        if self.is_done() {
            FanoutStep::Done
        } else {
            FanoutStep::Write(self.targets[self.position as int])
        }
    }

    /// The state after the write that was asked for went as `delivered`
    /// says. A delivered update ends the turn of its subscriber. A failed
    /// attempt is followed by another one, until the attempts are used up:
    /// then the subscriber is given up.
    pub open spec fn written(self, delivered: bool) -> FanoutView {
        if self.is_done() {
            self
        } else if delivered {
            FanoutView { position: self.position + 1, failures: 0, ..self }
        } else if self.failures + 1 < DELIVERY_ATTEMPTS {
            FanoutView { failures: self.failures + 1, ..self }
        } else {
            FanoutView {
                position: self.position + 1,
                failures: 0,
                failed: self.failed.push(self.targets[self.position as int]),
                ..self
            }
        }
    }

    /// The state after the subscriber at hand had its turn. `accepts(pid, n)`
    /// tells whether the writer of `pid` takes the write at its attempt
    /// number `n`, counted from 0.
    pub open spec fn serve(self, accepts: spec_fn(u32, nat) -> bool) -> FanoutView {
        if self.is_done() {
            self
        } else if accepts(self.targets[self.position as int], 0) {
            self.written(true)
        } else {
            self.written(false).written(accepts(self.targets[self.position as int], 1))
        }
    }

    /// The state after `count` subscribers had their turn.
    pub open spec fn served(self, accepts: spec_fn(u32, nat) -> bool, count: nat) -> FanoutView
        decreases count,
    {
        if count == 0 {
            self
        } else {
            self.served(accepts, (count - 1) as nat).serve(accepts)
        }
    }

    /// The state at the end of a whole run over `targets`.
    pub open spec fn run(
        kind: SubscriptionID,
        targets: Seq<u32>,
        accepts: spec_fn(u32, nat) -> bool,
    ) -> FanoutView {
        Self::start(kind, targets).served(accepts, targets.len())
    }
}

/// Whether the writer of `pid` fails on both of its attempts.
pub open spec fn spec_fails_twice(accepts: spec_fn(u32, nat) -> bool, pid: u32) -> bool {
    !accepts(pid, 0) && !accepts(pid, 1)
}

/// The steps of a broadcast keep its state well-formed.
pub proof fn lemma_written_wf(state: FanoutView, delivered: bool)
    requires
        state.wf(),
    ensures
        state.written(delivered).wf(),
        state.written(delivered).kind == state.kind,
        state.written(delivered).targets == state.targets,
{
    let after = state.written(delivered);
    if !state.is_done() {
        let target = state.targets[state.position as int];
        let served = state.targets.subrange(0, state.position as int);
        let served_after = state.targets.subrange(0, state.position as int + 1);
        assert(served_after =~= served.push(target));
        assert forall|pid: u32| after.failed.contains(pid) implies state.targets.subrange(
            0,
            after.position as int,
        ).contains(pid) by {
            if state.failed.contains(pid) {
                let i = choose|i: int| 0 <= i < served.len() && served[i] == pid;
                if after.position > state.position {
                    assert(served_after[i] == pid);
                }
            } else {
                assert(pid == target);
                assert(served_after[state.position as int] == pid);
            }
        }
        if after.failed.len() > state.failed.len() {
            assert forall|i: int, j: int|
                0 <= i < after.failed.len() && 0 <= j < after.failed.len() && i
                    != j implies after.failed[i] != after.failed[j] by {
                if i == state.failed.len() || j == state.failed.len() {
                    let k = if i == state.failed.len() {
                        j
                    } else {
                        i
                    };
                    if state.failed[k] == target {
                        assert(state.failed.contains(target));
                        let m = choose|m: int| 0 <= m < served.len() && served[m] == target;
                        assert(state.targets[m] == state.targets[state.position as int]);
                    }
                }
            }
        }
    }
}

/// A subscriber whose write fails on two consecutive attempts is given up,
/// and the broadcast moves on to the next subscriber.
pub proof fn lemma_two_failures_give_up(state: FanoutView)
    requires
        state.wf(),
        !state.is_done(),
        state.failures == 0,
    ensures
        state.written(false).step() == state.step(),
        state.written(false).written(false).failed == state.failed.push(
            state.targets[state.position as int],
        ),
        state.written(false).written(false).position == state.position + 1,
        state.written(false).written(false).failures == 0,
{
}

/// A subscriber that takes the update, at the first attempt or the second,
/// is not given up.
pub proof fn lemma_delivery_keeps_subscriber(state: FanoutView)
    requires
        state.wf(),
        !state.is_done(),
    ensures
        state.written(true).failed == state.failed,
        state.written(true).position == state.position + 1,
        state.failures == 0 ==> state.written(false).written(true).failed == state.failed,
{
}

/// When a broadcast has ended, no subscriber that was given up is left under
/// its feed, and every other subscription is as it was before.
pub proof fn lemma_given_up_is_evicted<W>(
    table: Map<SubscriptionID, Map<u32, W>>,
    state: FanoutView,
    kind: SubscriptionID,
    pid: u32,
)
    ensures
        state.failed.contains(pid) ==> spec_lookup(
            spec_evict(table, state.kind, state.failed.to_set()),
            state.kind,
            pid,
        ) is None,
        kind != state.kind || !state.failed.contains(pid) ==> spec_lookup(
            spec_evict(table, state.kind, state.failed.to_set()),
            kind,
            pid,
        ) == spec_lookup(table, kind, pid),
{
    lemma_evict_lookup(table, state.kind, state.failed.to_set(), kind, pid);
    lemma_evict_lookup(table, state.kind, state.failed.to_set(), state.kind, pid);
}

/// After `count` subscribers had their turn, those of them are given up
/// whose writer failed twice, and nobody else.
pub proof fn lemma_served(
    kind: SubscriptionID,
    targets: Seq<u32>,
    accepts: spec_fn(u32, nat) -> bool,
    count: nat,
)
    requires
        targets.no_duplicates(),
        count <= targets.len(),
    ensures
        ({
            let state = FanoutView::start(kind, targets).served(accepts, count);
            &&& state.wf()
            &&& state.kind == kind
            &&& state.targets == targets
            &&& state.position == count
            &&& state.failures == 0
            &&& forall|pid: u32|
                state.failed.contains(pid) <==> targets.subrange(0, count as int).contains(pid)
                    && spec_fails_twice(accepts, pid)
        }),
    decreases count,
{
    let start = FanoutView::start(kind, targets);
    if count == 0 {
        assert(targets.subrange(0, 0) =~= Seq::<u32>::empty());
    } else {
        lemma_served(kind, targets, accepts, (count - 1) as nat);
        let before = start.served(accepts, (count - 1) as nat);
        let target = targets[count - 1];
        let state = before.serve(accepts);
        lemma_written_wf(before, accepts(target, 0));
        lemma_written_wf(before.written(false), accepts(target, 1));
        let earlier = targets.subrange(0, count - 1);
        let now = targets.subrange(0, count as int);
        assert(now =~= earlier.push(target));
        assert forall|pid: u32|
            state.failed.contains(pid) <==> now.contains(pid) && spec_fails_twice(
                accepts,
                pid,
            ) by {
            if now.contains(pid) {
                let i = choose|i: int| 0 <= i < now.len() && now[i] == pid;
                if i < earlier.len() {
                    assert(earlier[i] == pid);
                }
            }
            if earlier.contains(pid) {
                let i = choose|i: int| 0 <= i < earlier.len() && earlier[i] == pid;
                assert(now[i] == pid);
            }
            assert(now[count - 1] == target);
            if state.failed.contains(pid) {
                let i = choose|i: int| 0 <= i < state.failed.len() && state.failed[i] == pid;
                if i < before.failed.len() {
                    assert(before.failed[i] == pid);
                }
            }
            if before.failed.contains(pid) {
                let i = choose|i: int| 0 <= i < before.failed.len() && before.failed[i] == pid;
                assert(state.failed[i] == pid);
            }
            if spec_fails_twice(accepts, target) {
                assert(state.failed[state.failed.len() - 1] == target);
            }
        }
    }
}

/// A whole run over the subscribers of a feed, followed by the eviction of
/// those given up, takes out of the table exactly the subscribers whose
/// writer failed on both of its attempts. Every other subscriber of the feed
/// keeps its writer, in whatever order the subscribers were visited; the
/// feed keeps its bucket, be it empty; and the other feeds are as they were.
pub proof fn lemma_whole_run<W>(
    table: Map<SubscriptionID, Map<u32, W>>,
    kind: SubscriptionID,
    targets: Seq<u32>,
    accepts: spec_fn(u32, nat) -> bool,
)
    requires
        targets.no_duplicates(),
        targets.to_set() == spec_bucket(table, kind).dom(),
    ensures
        ({
            let end = FanoutView::run(kind, targets, accepts);
            let after = spec_evict(table, kind, end.failed.to_set());
            &&& end.is_done()
            &&& end.step() == FanoutStep::Done
            &&& after.dom() == table.dom()
            &&& forall|pid: u32|
                spec_bucket(after, kind).contains_key(pid) <==> spec_bucket(
                    table,
                    kind,
                ).contains_key(pid) && !spec_fails_twice(accepts, pid)
            &&& forall|pid: u32| #[trigger]
                spec_bucket(after, kind).contains_key(pid) ==> spec_bucket(after, kind)[pid]
                    == spec_bucket(table, kind)[pid]
            &&& forall|other: SubscriptionID|
                other != kind ==> #[trigger] spec_bucket(after, other) == spec_bucket(
                    table,
                    other,
                )
        }),
{
    lemma_served(kind, targets, accepts, targets.len());
    let end = FanoutView::run(kind, targets, accepts);
    let after = spec_evict(table, kind, end.failed.to_set());
    assert(targets.subrange(0, targets.len() as int) =~= targets);
    assert(after.dom() =~= table.dom());
    assert forall|pid: u32|
        spec_bucket(after, kind).contains_key(pid) <==> spec_bucket(table, kind).contains_key(
            pid,
        ) && !spec_fails_twice(accepts, pid) by {
        assert(targets.to_set().contains(pid) <==> targets.contains(pid));
        assert(end.failed.to_set().contains(pid) <==> end.failed.contains(pid));
    }
}

/// One broadcast in progress.
pub struct Fanout {
    kind: SubscriptionID,
    targets: Vec<u32>,
    position: usize,
    failures: u32,
    failed: Vec<u32>,
}

impl View for Fanout {
    type V = FanoutView;

    closed spec fn view(&self) -> FanoutView {
        FanoutView {
            kind: self.kind,
            targets: self.targets@,
            position: self.position as nat,
            failures: self.failures as nat,
            failed: self.failed@,
        }
    }
}

impl Fanout {
    #[verifier::type_invariant]
    spec fn well_formed(self) -> bool {
        self@.wf()
    }

    /// Starts a broadcast to the subscribers of `kind`. Where the feed has
    /// no bucket or nobody in it, there is nothing to do: `NoSubscriber`.
    pub fn begin<W>(registry: &Registry<W>, kind: SubscriptionID) -> (result: Result<
        Fanout,
        HyprvisorError,
    >)
        ensures
            match result {
                Ok(fanout) => {
                    &&& spec_bucket(registry@, kind).len() > 0
                    &&& fanout@ == FanoutView::start(kind, fanout@.targets)
                    &&& fanout@.targets.no_duplicates()
                    &&& fanout@.targets.to_set() == spec_bucket(registry@, kind).dom()
                    &&& fanout@.wf()
                },
                Err(error) => {
                    &&& error == HyprvisorError::NoSubscriber
                    &&& spec_bucket(registry@, kind).len() == 0
                },
            },
    {
        if registry.count(kind) == 0 {
            return Err(HyprvisorError::NoSubscriber);
        }
        let targets = registry.pids(kind);
        let fanout = Fanout { kind, targets, position: 0, failures: 0, failed: Vec::new() };
        assert(fanout@.targets.subrange(0, 0) =~= Seq::<u32>::empty());
        Ok(fanout)
    }

    pub fn kind(&self) -> (kind: SubscriptionID)
        ensures
            kind == self@.kind,
    {
        self.kind
    }

    /// Tells what to do next.
    pub fn next(&self) -> (step: FanoutStep)
        ensures
            self@.wf(),
            step == self@.step(),
    {
        proof {
            use_type_invariant(self);
        }
        if self.position < self.targets.len() {
            FanoutStep::Write(self.targets[self.position])
        } else {
            FanoutStep::Done
        }
    }

    /// Takes note of how the write that `next` asked for went.
    pub fn written(&mut self, delivered: bool)
        ensures
            old(self)@.wf(),
            final(self)@ == old(self)@.written(delivered),
            final(self)@.wf(),
    {
        proof {
            use_type_invariant(&*self);
            lemma_written_wf(self@, delivered);
        }
        if self.position >= self.targets.len() {
            return;
        }
        let target = self.targets[self.position];
        let ghost served = self.targets@.subrange(0, self.position as int);
        if !delivered && self.failures + 1 < DELIVERY_ATTEMPTS {
            self.failures = self.failures + 1;
        } else {
            self.failures = 0;
            assert(self.targets@.subrange(0, self.position as int + 1) =~= served.push(target));
            self.position = self.position + 1;
            if !delivered {
                let mut failed: Vec<u32> = Vec::new();
                core::mem::swap(&mut self.failed, &mut failed);
                failed.push(target);
                core::mem::swap(&mut self.failed, &mut failed);
            }
        }
    }

    /// The subscribers given up so far.
    pub fn failed(&self) -> (failed: &Vec<u32>)
        ensures
            failed@ == self@.failed,
    {
        &self.failed
    }

    /// Ends the broadcast: takes the subscribers that were given up out of
    /// the table and gives back their process ids. Every other subscriber
    /// stays, and so does the bucket of the feed.
    pub fn finish<W>(self, registry: &mut Registry<W>) -> (evicted: Vec<u32>)
        ensures
            evicted@ == self@.failed,
            final(registry)@ == spec_evict(old(registry)@, self@.kind, self@.failed.to_set()),
    {
        registry.evict(self.kind, &self.failed);
        self.failed
    }
}

} // verus!
