//! Batch-level policy: the shared download options and the bounded-
//! concurrency batch scheduler. The scheduler decides which queued track
//! may start next; the surrounding program runs the admitted pipelines and
//! reports their completions back.
use vstd::prelude::*;

use crate::encoder::Format;

verus! {

/// Configuration shared read-only across every pipeline of a batch.
#[derive(Debug, Clone)]
pub struct DownloadOptions {
    /// The base directory of the on-disk layout.
    pub destination: String,
    /// Quality hint for the lossy encoder. It is accepted and recorded but
    /// deliberately not wired into the encoding path yet: a documented
    /// gap, not an option to drop.
    pub compression: Option<u32>,
    /// The most pipelines allowed to run at once.
    pub parallel: usize,
    /// The target container format.
    pub format: Format,
}

impl DownloadOptions {
    /// Packs the options. The caller resolves the default destination (a
    /// process-determined directory) before calling.
    pub fn new(destination: &str, compression: Option<u32>, parallel: usize, format: Format) -> (o:
        DownloadOptions)
        ensures
            o.destination@ == destination@,
            o.compression == compression,
            o.parallel == parallel,
            o.format == format,
    {
        DownloadOptions { destination: destination.to_owned(), compression, parallel, format }
    }

    /// Packs the options, filling the defaults the batch entry point
    /// grants: 5 parallel pipelines and compression hint 4.
    pub fn with_defaults(
        destination: &str,
        compression: Option<u32>,
        parallel: Option<usize>,
        format: Format,
    ) -> (o: DownloadOptions)
        ensures
            o.destination@ == destination@,
            o.compression == Some(
                match compression {
                    Some(c) => c,
                    None => 4u32,
                },
            ),
            o.parallel == match parallel {
                Some(p) => p,
                None => 5usize,
            },
            o.format == format,
    {
        let parallel = match parallel {
            Some(p) => p,
            None => 5,
        };
        let compression = match compression {
            Some(c) => c,
            None => 4,
        };
        DownloadOptions::new(destination, Some(compression), parallel, format)
    }
}

/// What the scheduler observes: it admits a queued track whenever policy
/// allows, and it is told when a running pipeline completes and whether it
/// succeeded.
pub enum SchedulerEvent {
    /// An attempt to start the next queued track.
    Admit,
    /// A running pipeline finished, successfully or not.
    Complete { ok: bool },
}

/// The batch scheduler's state: a queue of `total` tracks admitted in
/// order, at most `parallel` of them running at once, fail-fast once any
/// pipeline reports failure.
#[derive(Debug, Clone, Copy, PartialEq, Eq, Structural)]
pub struct BatchScheduler {
    /// How many tracks the batch holds.
    pub total: usize,
    /// The concurrency bound.
    pub parallel: usize,
    /// The queue position of the next track to admit.
    pub next: usize,
    /// How many pipelines are running now.
    pub active: usize,
    /// Whether some pipeline has failed; set once, never cleared.
    pub failed: bool,
}

/// A scheduler that has admitted nothing yet.
pub open spec fn scheduler_initial(total: usize, parallel: usize) -> BatchScheduler {
    BatchScheduler { total, parallel, next: 0, active: 0, failed: false }
}

/// Whether policy lets the scheduler start the next queued track: no
/// failure seen, tracks left, and a slot free under the bound.
pub open spec fn can_admit(s: BatchScheduler) -> bool {
    !s.failed && s.next < s.total && s.active < s.parallel
}

/// How one event changes the scheduler. An `Admit` that policy refuses
/// changes nothing; a `Complete` releases its slot and records a failure
/// for good.
pub open spec fn scheduler_step(s: BatchScheduler, e: SchedulerEvent) -> BatchScheduler {
    match e {
        SchedulerEvent::Admit => {
            if can_admit(s) {
                BatchScheduler {
                    next: (s.next + 1) as usize,
                    active: (s.active + 1) as usize,
                    ..s
                }
            } else {
                s
            }
        },
        SchedulerEvent::Complete { ok } => {
            if s.active > 0 {
                BatchScheduler { active: (s.active - 1) as usize, failed: s.failed || !ok, ..s }
            } else {
                s
            }
        },
    }
}

/// The scheduler after a whole sequence of events.
pub open spec fn scheduler_run(s0: BatchScheduler, events: Seq<SchedulerEvent>) -> BatchScheduler
    decreases events.len(),
{
    if events.len() == 0 {
        s0
    } else {
        scheduler_step(scheduler_run(s0, events.drop_last()), events.last())
    }
}

impl BatchScheduler {
    /// A scheduler for a batch of `total` tracks, at most `parallel` of
    /// them running at once.
    pub fn new(total: usize, parallel: usize) -> (s: BatchScheduler)
        ensures
            s == scheduler_initial(total, parallel),
    {
        BatchScheduler { total, parallel, next: 0, active: 0, failed: false }
    }

    /// Starts the next queued track if policy allows, returning its queue
    /// position; returns nothing, changing nothing, once a failure was
    /// seen, the queue is exhausted, or the bound is reached.
    pub fn try_admit(&mut self) -> (admitted: Option<usize>)
        ensures
            *final(self) == scheduler_step(*old(self), SchedulerEvent::Admit),
            admitted == if can_admit(*old(self)) {
                Some(old(self).next)
            } else {
                None::<usize>
            },
    {
        if !self.failed && self.next < self.total && self.active < self.parallel {
            let position = self.next;
            self.next = self.next + 1;
            self.active = self.active + 1;
            Some(position)
        } else {
            None
        }
    }

    /// Records that a running pipeline finished and whether it succeeded;
    /// a failure keeps every still-queued track from starting.
    pub fn on_complete(&mut self, ok: bool)
        requires
            old(self).active > 0,
        ensures
            *final(self) == scheduler_step(*old(self), SchedulerEvent::Complete { ok }),
    {
        self.active = self.active - 1;
        if !ok {
            self.failed = true;
        }
    }

    /// Whether every admitted pipeline has completed and nothing is left
    /// to admit, so the batch result is ready.
    pub fn is_done(&self) -> (done: bool)
        ensures
            done == (self.active == 0 && (self.failed || self.next == self.total)),
    {
        self.active == 0 && (self.failed || self.next == self.total)
    }
}

/// The number of simultaneously active pipelines never exceeds the bound:
/// whatever events arrive, a batch run from the initial state keeps
/// `active` at or under `parallel`.
pub proof fn lemma_active_bounded(
    total: usize,
    parallel: usize,
    events: Seq<SchedulerEvent>,
)
    ensures
        scheduler_run(scheduler_initial(total, parallel), events).active <= parallel,
        scheduler_run(scheduler_initial(total, parallel), events).parallel == parallel,
    decreases events.len(),
{
    if events.len() > 0 {
        lemma_active_bounded(total, parallel, events.drop_last());
    }
}

/// Once failed, always failed: a failure is never cleared by later events.
proof fn lemma_failed_stays(s0: BatchScheduler, events: Seq<SchedulerEvent>)
    requires
        s0.failed,
    ensures
        scheduler_run(s0, events).failed,
        scheduler_run(s0, events).next == s0.next,
    decreases events.len(),
{
    if events.len() > 0 {
        lemma_failed_stays(s0, events.drop_last());
    }
}

/// Fail-fast: from the moment a running pipeline reports failure, no
/// further queued track is admitted — the queue position stops moving for
/// the rest of the run, so only tracks admitted before the failure ever
/// start.
pub proof fn lemma_fail_fast(
    s0: BatchScheduler,
    events: Seq<SchedulerEvent>,
    i: int,
)
    requires
        0 <= i < events.len(),
        events[i] matches SchedulerEvent::Complete { ok } && !ok,
        scheduler_run(s0, events.take(i)).active > 0,
    ensures
        scheduler_run(s0, events).failed,
        scheduler_run(s0, events).next == scheduler_run(s0, events.take(i + 1)).next,
{
    lemma_run_prefix_step(s0, events, i);
    let after = scheduler_run(s0, events.take(i + 1));
    assert(after.failed);
    let rest = events.subrange(i + 1, events.len() as int);
    lemma_run_split(s0, events, i + 1);
    lemma_failed_stays(after, rest);
}

/// Running a split sequence equals running its two halves in turn.
proof fn lemma_run_split(s0: BatchScheduler, events: Seq<SchedulerEvent>, mid: int)
    requires
        0 <= mid <= events.len(),
    ensures
        scheduler_run(s0, events) == scheduler_run(
            scheduler_run(s0, events.take(mid)),
            events.subrange(mid, events.len() as int),
        ),
    decreases events.len() - mid,
{
    if mid == events.len() {
        assert(events.take(mid) =~= events);
        assert(scheduler_run(s0, events.subrange(mid, events.len() as int)) == scheduler_run(
            s0,
            Seq::empty(),
        )) by {
            assert(events.subrange(mid, events.len() as int) =~= Seq::<SchedulerEvent>::empty());
        }
    } else {
        lemma_run_prefix_step(s0, events, mid);
        lemma_run_split(s0, events, mid + 1);
        let s_mid = scheduler_run(s0, events.take(mid));
        let s_mid1 = scheduler_run(s0, events.take(mid + 1));
        let rest1 = events.subrange(mid + 1, events.len() as int);
        let rest = events.subrange(mid, events.len() as int);
        assert(rest.drop_first() =~= rest1);
        lemma_run_drop_first(s_mid, rest);
    }
}

/// Running one more event extends the prefix run by one step.
proof fn lemma_run_prefix_step(s0: BatchScheduler, events: Seq<SchedulerEvent>, mid: int)
    requires
        0 <= mid < events.len(),
    ensures
        scheduler_run(s0, events.take(mid + 1)) == scheduler_step(
            scheduler_run(s0, events.take(mid)),
            events[mid],
        ),
{
    assert(events.take(mid + 1).drop_last() =~= events.take(mid));
    assert(events.take(mid + 1).last() == events[mid]);
}

/// Running a non-empty sequence equals stepping its head, then running the
/// rest.
proof fn lemma_run_drop_first(s0: BatchScheduler, events: Seq<SchedulerEvent>)
    requires
        events.len() > 0,
    ensures
        scheduler_run(s0, events) == scheduler_run(
            scheduler_step(s0, events[0]),
            events.drop_first(),
        ),
    decreases events.len(),
{
    if events.len() == 1 {
        assert(events.drop_last() =~= Seq::<SchedulerEvent>::empty());
        assert(events.drop_first() =~= Seq::<SchedulerEvent>::empty());
        assert(events.last() == events[0]);
        assert(scheduler_run(s0, events) == scheduler_step(
            scheduler_run(s0, events.drop_last()),
            events.last(),
        ));
        assert(scheduler_run(s0, events.drop_last()) == s0);
        assert(scheduler_run(scheduler_step(s0, events[0]), events.drop_first())
            == scheduler_step(s0, events[0]));
    } else {
        let e0 = events[0];
        let tail = events.drop_first();
        lemma_run_drop_first(s0, events.drop_last());
        assert(events.drop_last()[0] == e0);
        assert(events.drop_last().drop_first() =~= tail.drop_last());
        assert(scheduler_run(s0, events.drop_last()) == scheduler_run(
            scheduler_step(s0, e0),
            tail.drop_last(),
        ));
        assert(tail.last() == events.last());
        assert(scheduler_run(scheduler_step(s0, e0), tail) == scheduler_step(
            scheduler_run(scheduler_step(s0, e0), tail.drop_last()),
            tail.last(),
        ));
        assert(scheduler_run(s0, events) == scheduler_step(
            scheduler_run(s0, events.drop_last()),
            events.last(),
        ));
    }
}

} // verus!
