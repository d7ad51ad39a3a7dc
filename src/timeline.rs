//! The level timeline: a script of enemy spawns, each at a time from the
//! start of the level.
use vstd::prelude::*;
use crate::geometry::{add_time, sat_time, Position};

verus! {

/// One scripted spawn.
pub struct TimelineEvent {
    /// Microseconds from the start of the level.
    pub time: u64,
    /// Name of the enemy descriptor.
    pub enemy: String,
    pub start_pos: Position,
}

pub struct Timeline {
    /// Events, in the order they are to be processed.
    pub events: Vec<TimelineEvent>,
    /// Index of the first event not processed yet.
    pub index: usize,
    /// Microseconds since the start of the level.
    pub time: u64,
}

/// Trigger times of `events`.
pub open spec fn event_times(events: Seq<TimelineEvent>) -> Seq<u64> {
    events.map_values(|e: TimelineEvent| e.time)
}

/// The first index from `i` on whose event is later than `t`, or the number
/// of events when there is none.
pub open spec fn pending_from(times: Seq<u64>, i: int, t: int) -> int
    decreases times.len() - i,
{
    if i >= times.len() {
        times.len() as int
    } else if times[i] > t {
        i
    } else {
        pending_from(times, i + 1, t)
    }
}

/// The indices from `a` up to `b`, excluded.
pub open spec fn index_range(a: int, b: int) -> Seq<int> {
    Seq::new((b - a) as nat, |j: int| a + j)
}

impl Timeline {
    pub open spec fn wf(&self) -> bool {
        self.index <= self.events@.len()
    }

    pub open spec fn times(&self) -> Seq<u64> {
        event_times(self.events@)
    }

    /// A timeline at the start of its level.
    pub fn new(events: Vec<TimelineEvent>) -> (r: Timeline)
        ensures
            r.wf(),
            r.events@ == events@,
            r.index == 0,
            r.time == 0,
    {
        Timeline { events, index: 0, time: 0 }
    }

    /// Whether every event has been processed.
    pub fn is_done(&self) -> (r: bool)
        requires
            self.wf(),
        ensures
            r == (self.index == self.events@.len()),
    {
        self.index == self.events.len()
    }

    /// Moves the clock on by `dt` microseconds and returns the indices of the
    /// events that are now due, in order: those from the first unprocessed one
    /// up to the first that is still in the future. Processing resumes there
    /// on the next call; once all events are processed nothing is due again.
    pub fn advance(&mut self, dt: u64) -> (r: Vec<usize>)
        requires
            old(self).wf(),
        ensures
            final(self).wf(),
            final(self).events@ == old(self).events@,
            final(self).time == sat_time(old(self).time + dt),
            final(self).index == pending_from(
                old(self).times(),
                old(self).index as int,
                final(self).time as int,
            ),
            old(self).index <= final(self).index,
            r@.len() == final(self).index - old(self).index,
            forall|j: int| 0 <= j < r@.len() ==> r@[j] == old(self).index + j,
    {
        self.time = add_time(self.time, dt);
        let ghost times = self.times();
        let ghost start = self.index as int;
        let mut due: Vec<usize> = Vec::new();
        let mut i: usize = self.index;
        while i < self.events.len() && self.events[i].time <= self.time
            invariant
                start <= i <= self.events@.len(),
                times == event_times(self.events@),
                pending_from(times, start, self.time as int) == pending_from(
                    times,
                    i as int,
                    self.time as int,
                ),
                due@.len() == i - start,
                forall|j: int| 0 <= j < due@.len() ==> due@[j] == start + j,
            decreases self.events@.len() - i,
        {
            due.push(i);
            i = i + 1;
        }
        self.index = i;
        due
    }
}

/// A timeline in which every processed event is due by time `t`.
pub open spec fn settled(times: Seq<u64>, index: int, t: int) -> bool {
    &&& 0 <= index <= times.len()
    &&& forall|j: int| 0 <= j < index ==> times[j] <= t
}

/// The events spawned by the ticks `dts`, from the timeline at `index` and
/// time `t`.
pub open spec fn spawned_by(times: Seq<u64>, index: int, t: int, dts: Seq<u64>) -> Seq<int>
    decreases dts.len(),
{
    if dts.len() == 0 {
        Seq::empty()
    } else {
        let t1 = sat_time(t + dts[0]);
        let i1 = pending_from(times, index, t1);
        index_range(index, i1) + spawned_by(times, i1, t1, dts.drop_first())
    }
}

/// Sum of the ticks `dts`.
pub open spec fn total_time(dts: Seq<u64>) -> int
    decreases dts.len(),
{
    if dts.len() == 0 {
        0
    } else {
        dts[0] + total_time(dts.drop_first())
    }
}

proof fn lemma_pending_bounds(times: Seq<u64>, i: int, t: int)
    requires
        0 <= i <= times.len(),
    ensures
        i <= pending_from(times, i, t) <= times.len(),
        forall|j: int| i <= j < pending_from(times, i, t) ==> times[j] <= t,
        pending_from(times, i, t) < times.len() ==> times[pending_from(times, i, t)] > t,
    decreases times.len() - i,
{
    if i < times.len() && times[i] <= t {
        lemma_pending_bounds(times, i + 1, t);
    }
}

/// Scanning from a settled index finds the same place as scanning from the
/// start, at any later time.
proof fn lemma_pending_restart(times: Seq<u64>, index: int, t: int, t1: int)
    requires
        settled(times, index, t),
        t <= t1,
    ensures
        pending_from(times, 0, t1) == pending_from(times, index, t1),
    decreases index,
{
    if index > 0 {
        lemma_pending_restart(times, index - 1, t, t1);
        assert(times[index - 1] <= t1);
    }
}

proof fn lemma_total_time_nonneg(dts: Seq<u64>)
    ensures
        total_time(dts) >= 0,
    decreases dts.len(),
{
    if dts.len() > 0 {
        lemma_total_time_nonneg(dts.drop_first());
    }
}

proof fn lemma_spawned_closed_form(times: Seq<u64>, index: int, t: int, dts: Seq<u64>)
    requires
        settled(times, index, t),
        0 <= t <= u64::MAX,
        dts.len() > 0,
    ensures
        spawned_by(times, index, t, dts) == index_range(
            index,
            pending_from(times, 0, sat_time(t + total_time(dts))),
        ),
    decreases dts.len(),
{
    let t1 = sat_time(t + dts[0]);
    let i1 = pending_from(times, index, t1);
    lemma_pending_bounds(times, index, t1);
    lemma_total_time_nonneg(dts.drop_first());
    let end = sat_time(t + total_time(dts));
    if dts.len() == 1 {
        assert(dts.drop_first().len() == 0);
        assert(total_time(dts.drop_first()) == 0);
        assert(end == t1);
        assert(spawned_by(times, i1, t1, dts.drop_first()) == Seq::<int>::empty());
        lemma_pending_restart(times, index, t, t1);
        assert(index_range(index, i1) + Seq::<int>::empty() =~= index_range(index, i1));
    } else {
        assert(settled(times, i1, t1));
        lemma_spawned_closed_form(times, i1, t1, dts.drop_first());
        assert(sat_time(t1 + total_time(dts.drop_first())) == end);
        lemma_pending_restart(times, i1, t1, end);
        lemma_pending_restart(times, index, t, t1);
        lemma_pending_bounds(times, i1, end);
        assert(index_range(index, i1) + index_range(i1, pending_from(times, i1, end))
            =~= index_range(index, pending_from(times, i1, end)));
    }
}

/// How the ticks of a level are cut does not matter: two non-empty runs of
/// ticks from the start of the level with the same total time spawn the same
/// events, in the same order, each at most once.
pub proof fn lemma_rechunk(times: Seq<u64>, dts1: Seq<u64>, dts2: Seq<u64>)
    requires
        dts1.len() > 0,
        dts2.len() > 0,
        total_time(dts1) == total_time(dts2),
    ensures
        spawned_by(times, 0, 0, dts1) == spawned_by(times, 0, 0, dts2),
        forall|a: int, b: int|
            0 <= a < b < spawned_by(times, 0, 0, dts1).len() ==> spawned_by(times, 0, 0, dts1)[a]
                < spawned_by(times, 0, 0, dts1)[b],
{
    lemma_spawned_closed_form(times, 0, 0, dts1);
    lemma_spawned_closed_form(times, 0, 0, dts2);
}

} // verus!
