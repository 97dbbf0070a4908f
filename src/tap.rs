use vstd::prelude::*;

use crate::record::{GeneratedRecord, RecordGenerator, RecordGeneratorView};
use crate::workload::{Workload, WorkloadView};

verus! {

/// What the pacing loop hears back after an action.
#[derive(Debug, Clone, Copy, PartialEq, Eq, Structural)]
pub enum TapEvent {
    /// The record was handed to the queue.
    Handed,
    /// The queue had no room in time: the record was dropped.
    TimedOut,
    /// The cancellation signal fired.
    Cancelled,
    /// The next tick boundary was reached.
    Ticked,
}

/// What the pacing loop asks to be done next.
#[derive(Debug, Clone, Copy, PartialEq, Eq, Structural)]
pub enum TapAction {
    /// Generate a record and try to hand it to the queue, racing cancellation.
    Produce,
    /// Wait for the next tick boundary.
    AwaitTick,
    /// Close the queue and stop, reporting the seconds produced for.
    Finish(u64),
}

/// Where the pacing loop stands.
#[derive(Debug, Clone, Copy, PartialEq, Eq, Structural)]
pub struct TapProgress {
    /// Seconds since production started.
    pub sec: u64,
    /// Records due in this second.
    pub due: u32,
    /// Records of this second that were handed or dropped.
    pub attempted: u32,
    /// Whether cancellation was heard.
    pub cancelled: bool,
    /// Whether the loop is over.
    pub finished: bool,
}

/// The next action from `p`.
pub open spec fn next_action(p: TapProgress) -> TapAction {
    if p.finished {
        TapAction::Finish(p.sec)
    } else if !p.cancelled && p.attempted < p.due {
        TapAction::Produce
    } else {
        TapAction::AwaitTick
    }
}

/// Where the loop stands after event `e`, under workload `w`: a cancelled loop
/// finishes at the next tick, counting that second.
pub open spec fn after(w: WorkloadView, p: TapProgress, e: TapEvent) -> TapProgress {
    match e {
        TapEvent::Handed | TapEvent::TimedOut => TapProgress { attempted: (p.attempted + 1) as u32, ..p },
        TapEvent::Cancelled => TapProgress { cancelled: true, ..p },
        TapEvent::Ticked => if p.cancelled {
            TapProgress { sec: (p.sec + 1) as u64, finished: true, ..p }
        } else {
            TapProgress {
                sec: (p.sec + 1) as u64,
                due: w.rate_at(p.sec + 1) as u32,
                attempted: 0,
                ..p
            }
        },
    }
}

/// Whether event `e` can follow from `p`: a record's fate after it was asked for,
/// a tick after the loop waited for it, cancellation at any time.
pub open spec fn can_follow(p: TapProgress, e: TapEvent) -> bool {
    &&& !p.finished
    &&& (e is Handed || e is TimedOut) ==> next_action(p) is Produce
    &&& e is Ticked ==> next_action(p) is AwaitTick
}

/// Paces the production of records: each second it asks its [`Workload`] how many
/// records are due, and makes them with its [`RecordGenerator`].
#[derive(Debug, Clone)]
pub struct RecordsTap {
    workload: Workload,
    generator: RecordGenerator,
}

impl RecordsTap {
    pub closed spec fn schedule(&self) -> WorkloadView {
        self.workload@
    }

    pub closed spec fn records(&self) -> RecordGeneratorView {
        self.generator@
    }

    pub open spec fn wf(&self) -> bool {
        self.schedule().wf() && self.records().wf()
    }

    pub fn new(workload: Workload, generator: RecordGenerator) -> (r: RecordsTap)
        requires
            workload.wf(),
            generator.wf(),
        ensures
            r.schedule() == workload@,
            r.records() == generator@,
            r.wf(),
    {
        RecordsTap { workload, generator }
    }

    /// Where the loop stands at the start: second 0, with its records due.
    pub fn start(&self) -> (p: TapProgress)
        requires
            self.wf(),
        ensures
            p == (TapProgress {
                sec: 0,
                due: self.schedule().rate_at(0) as u32,
                attempted: 0,
                cancelled: false,
                finished: false,
            }),
    {
        TapProgress {
            sec: 0,
            due: self.workload.records_per_sec_at(0),
            attempted: 0,
            cancelled: false,
            finished: false,
        }
    }

    /// The action to take from `p`.
    pub fn next_action(&self, p: &TapProgress) -> (a: TapAction)
        ensures
            a == next_action(*p),
    {
        if p.finished {
            TapAction::Finish(p.sec)
        } else if !p.cancelled && p.attempted < p.due {
            TapAction::Produce
        } else {
            TapAction::AwaitTick
        }
    }

    /// Moves `p` on by event `e`.
    pub fn on_event(&self, p: &mut TapProgress, e: TapEvent)
        requires
            self.wf(),
            can_follow(*old(p), e),
            e is Ticked ==> old(p).sec < u64::MAX,
        ensures
            *final(p) == after(self.schedule(), *old(p), e),
    {
        match e {
            TapEvent::Handed | TapEvent::TimedOut => {
                p.attempted = p.attempted + 1;
            },
            TapEvent::Cancelled => {
                p.cancelled = true;
            },
            TapEvent::Ticked => {
                p.sec = p.sec + 1;
                if p.cancelled {
                    p.finished = true;
                } else {
                    p.due = self.workload.records_per_sec_at(p.sec);
                    p.attempted = 0;
                }
            },
        }
    }

    /// Makes the next record; `draw_float` draws the bytes of a float of a range
    /// given by bit patterns.
    pub fn generate_record<F: Fn(u64, u64) -> Vec<u8>>(&self, draw_float: &F) -> (r:
        GeneratedRecord)
        requires
            self.wf(),
            forall|lo: u64, hi: u64| draw_float.requires((lo, hi)),
        ensures
            self.records().produces(r, *draw_float),
    {
        self.generator.generate_record(draw_float)
    }
}

/// Whether the queue is short of room: less than a fifth of its capacity is left.
pub fn is_capacity_low(remaining: usize, max_capacity: usize) -> (r: bool)
    ensures
        r == (5 * remaining < max_capacity),
{
    (remaining as u128) * 5 < max_capacity as u128
}

/// Once cancellation is heard, the loop asks for no more records: it waits for the
/// tick boundary and then finishes, counting that second.
pub proof fn lemma_cancelled_stops_producing(w: WorkloadView, p: TapProgress, e: TapEvent)
    requires
        p.cancelled,
        can_follow(p, e),
    ensures
        !(next_action(p) is Produce),
        after(w, p, e).cancelled,
        e is Ticked ==> after(w, p, e).finished && next_action(after(w, p, e)) == TapAction::Finish(
            (p.sec + 1) as u64,
        ),
{
}

} // verus!
