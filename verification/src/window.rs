use vstd::prelude::*;

verus! {

/// Length of the trailing window in microseconds: one second.
pub const WINDOW_MICROS: u64 = 1_000_000;

/// A timestamp counts at `now` when less than one second lies between the
/// two. A timestamp ahead of `now` counts.
pub open spec fn is_recent(timestamp: u64, now: u64) -> bool {
    (now as int) - (timestamp as int) < (WINDOW_MICROS as int)
}

/// The timestamps of `stamps` that count at `now`, in their order.
pub open spec fn recent(stamps: Seq<u64>, now: u64) -> Seq<u64> {
    stamps.filter(|t: u64| is_recent(t, now))
}

/// Counts the attempts started within the trailing second. It keeps the
/// start timestamps that may still count and drops the others when it is read.
#[derive(Debug)]
pub struct SlidingWindowCounter {
    starts: Vec<u64>,
}

impl View for SlidingWindowCounter {
    type V = Seq<u64>;

    /// The stored timestamps, oldest record first.
    closed spec fn view(&self) -> Seq<u64> {
        self.starts@
    }
}

/// Whether `timestamp` counts at `now`.
pub fn within_window(timestamp: u64, now: u64) -> (counts: bool)
    ensures
        counts == is_recent(timestamp, now),
{
    timestamp > now || now - timestamp < WINDOW_MICROS
}

impl SlidingWindowCounter {
    /// A counter that holds nothing.
    pub fn new() -> (counter: SlidingWindowCounter)
        ensures
            counter@ == Seq::<u64>::empty(),
    {
        SlidingWindowCounter { starts: Vec::new() }
    }

    /// Number of timestamps stored at the moment, stale ones included.
    pub fn stored(&self) -> (n: usize)
        ensures
            n == self@.len(),
    {
        self.starts.len()
    }

    /// Records the start of an attempt.
    pub fn record_start(&mut self, timestamp: u64)
        ensures
            final(self)@ == old(self)@.push(timestamp),
    {
        self.starts.push(timestamp);
    }

    /// Number of stored timestamps less than a second before `now`. Every
    /// other timestamp is dropped: what stays is what was counted, in the
    /// order of recording.
    pub fn count_recent(&mut self, now: u64) -> (count: usize)
        ensures
            final(self)@ == recent(old(self)@, now),
            count == recent(old(self)@, now).len(),
            forall|i: int| 0 <= i < final(self)@.len() ==> is_recent(#[trigger] final(self)@[i], now),
    {
        let ghost before = self.starts@;
        let ghost counts = |t: u64| is_recent(t, now);
        let n: usize = self.starts.len();
        let mut kept: usize = 0;
        let mut i: usize = 0;
        proof {
            reveal(Seq::filter);
            assert(before.subrange(0, 0) =~= Seq::<u64>::empty());
        }
        while i < n
            invariant
                before == old(self).starts@,
                counts == |t: u64| is_recent(t, now),
                n == before.len(),
                self.starts@.len() == n,
                kept <= i <= n,
                self.starts@.subrange(0, kept as int) == before.subrange(0, i as int).filter(counts),
                forall|j: int| i <= j < n ==> self.starts@[j] == before[j],
            decreases n - i,
        {
            let t: u64 = self.starts[i];
            proof {
                reveal(Seq::filter);
                assert(before.subrange(0, i + 1).drop_last() =~= before.subrange(0, i as int));
                assert(before.subrange(0, i + 1).last() == t);
            }
            if within_window(t, now) {
                let ghost stored = self.starts@;
                self.starts[kept] = t;
                assert(self.starts@.subrange(0, kept + 1) =~= stored.subrange(0, kept as int).push(t));
                kept = kept + 1;
            }
            i = i + 1;
        }
        self.starts.truncate(kept);
        proof {
            assert(before.subrange(0, n as int) =~= before);
            assert forall|i: int| 0 <= i < self.starts@.len() implies is_recent(
                #[trigger] self.starts@[i],
                now,
            ) by {
                before.lemma_filter_pred(counts, i);
            }
        }
        kept
    }
}

/// Reading the counter drops nothing that a later reading would count: for
/// `earlier <= now`, the stamps that count at `now` are the same before and
/// after the stale ones at `earlier` were dropped.
pub proof fn lemma_eviction_loses_nothing(stamps: Seq<u64>, earlier: u64, now: u64)
    requires
        earlier <= now,
    ensures
        recent(recent(stamps, earlier), now) == recent(stamps, now),
    decreases stamps.len(),
{
    reveal(Seq::filter);
    if stamps.len() > 0 {
        lemma_eviction_loses_nothing(stamps.drop_last(), earlier, now);
        let kept = recent(stamps.drop_last(), earlier);
        if is_recent(stamps.last(), earlier) {
            assert(kept.push(stamps.last()).drop_last() =~= kept);
        }
    }
}

/// A timestamp recorded after others is counted after them, and only if it
/// counts by itself.
pub proof fn lemma_recent_push(stamps: Seq<u64>, timestamp: u64, now: u64)
    ensures
        recent(stamps.push(timestamp), now) == if is_recent(timestamp, now) {
            recent(stamps, now).push(timestamp)
        } else {
            recent(stamps, now)
        },
{
    reveal(Seq::filter);
    assert(stamps.push(timestamp).drop_last() =~= stamps);
}

/// What is done to a counter: a start is recorded, or the counter is read.
pub enum WindowOp {
    Record(u64),
    Read(u64),
}

/// The timestamps stored after a history of operations on a new counter.
pub open spec fn stored_after(history: Seq<WindowOp>) -> Seq<u64>
    decreases history.len(),
{
    if history.len() == 0 {
        Seq::empty()
    } else {
        match history.last() {
            WindowOp::Record(timestamp) => stored_after(history.drop_last()).push(timestamp),
            WindowOp::Read(at) => recent(stored_after(history.drop_last()), at),
        }
    }
}

/// Every timestamp that a history of operations recorded, in order.
pub open spec fn recorded_in(history: Seq<WindowOp>) -> Seq<u64>
    decreases history.len(),
{
    if history.len() == 0 {
        Seq::empty()
    } else {
        match history.last() {
            WindowOp::Record(timestamp) => recorded_in(history.drop_last()).push(timestamp),
            WindowOp::Read(_) => recorded_in(history.drop_last()),
        }
    }
}

/// No reading in the history was made at a time after `now`.
pub open spec fn read_by(history: Seq<WindowOp>, now: u64) -> bool {
    forall|i: int|
        0 <= i < history.len() ==> (#[trigger] history[i] matches WindowOp::Read(at) ==> at <= now)
}

/// Window correctness. Whatever was recorded and whenever the counter was
/// read before, a reading at `now`, no earlier than the readings before it,
/// counts exactly the recorded timestamps less than a second before `now`:
/// dropping stale entries along the way changes no later count.
pub proof fn lemma_count_is_exact(history: Seq<WindowOp>, now: u64)
    requires
        read_by(history, now),
    ensures
        recent(stored_after(history), now) == recent(recorded_in(history), now),
    decreases history.len(),
{
    if history.len() > 0 {
        let before = history.drop_last();
        assert forall|i: int| 0 <= i < before.len() implies (#[trigger] before[i] matches WindowOp::Read(
            at,
        ) ==> at <= now) by {
            assert(before[i] == history[i]);
        }
        lemma_count_is_exact(before, now);
        match history.last() {
            WindowOp::Record(timestamp) => {
                lemma_recent_push(stored_after(before), timestamp, now);
                lemma_recent_push(recorded_in(before), timestamp, now);
            },
            WindowOp::Read(at) => {
                assert(history[history.len() - 1] == history.last());
                lemma_eviction_loses_nothing(stored_after(before), at, now);
            },
        }
    }
}

} // verus!
