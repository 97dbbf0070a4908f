use vstd::prelude::*;

verus! {

/// Counts the outcomes of the deliveries that a sink dispatched; each delivery runs
/// on its own, and its outcome is counted when it completes.
#[derive(Debug)]
pub struct ProducerSink {
    send_success: u64,
    send_fail: u64,
}

impl ProducerSink {
    /// Records delivered so far.
    pub closed spec fn successes(&self) -> nat {
        self.send_success as nat
    }

    /// Records whose delivery failed so far.
    pub closed spec fn failures(&self) -> nat {
        self.send_fail as nat
    }

    pub fn new() -> (r: ProducerSink)
        ensures
            r.successes() == 0,
            r.failures() == 0,
    {
        ProducerSink { send_success: 0, send_fail: 0 }
    }

    /// Counts the completion of one delivery.
    pub fn record_delivery(&mut self, delivered: bool)
        requires
            old(self).successes() < u64::MAX,
            old(self).failures() < u64::MAX,
        ensures
            final(self).successes() == old(self).successes() + if delivered { 1int } else { 0 },
            final(self).failures() == old(self).failures() + if delivered { 0int } else { 1 },
    {
        if delivered {
            self.send_success = self.send_success + 1;
        } else {
            self.send_fail = self.send_fail + 1;
        }
    }

    /// Whether one more delivery can be counted.
    pub fn has_room(&self) -> (r: bool)
        ensures
            r == (self.successes() < u64::MAX && self.failures() < u64::MAX),
    {
        self.send_success < u64::MAX && self.send_fail < u64::MAX
    }

    /// The records delivered, and those whose delivery failed.
    pub fn totals(&self) -> (r: (u64, u64))
        ensures
            r.0 == self.successes(),
            r.1 == self.failures(),
    {
        (self.send_success, self.send_fail)
    }
}

/// Counts the outcomes of deliveries made one after the other, each awaited before
/// the next record is taken.
#[derive(Debug)]
pub struct ProducerManager {
    send_success: u64,
    send_fail: u64,
}

impl ProducerManager {
    /// Records delivered so far.
    pub closed spec fn successes(&self) -> nat {
        self.send_success as nat
    }

    /// Records whose delivery failed so far.
    pub closed spec fn failures(&self) -> nat {
        self.send_fail as nat
    }

    pub fn new() -> (r: ProducerManager)
        ensures
            r.successes() == 0,
            r.failures() == 0,
    {
        ProducerManager { send_success: 0, send_fail: 0 }
    }

    /// Counts the outcome of one delivery.
    pub fn record_delivery(&mut self, delivered: bool)
        requires
            old(self).successes() < u64::MAX,
            old(self).failures() < u64::MAX,
        ensures
            final(self).successes() == old(self).successes() + if delivered { 1int } else { 0 },
            final(self).failures() == old(self).failures() + if delivered { 0int } else { 1 },
    {
        if delivered {
            self.send_success = self.send_success + 1;
        } else {
            self.send_fail = self.send_fail + 1;
        }
    }

    /// The records delivered, and those whose delivery failed.
    pub fn totals(&self) -> (r: (u64, u64))
        ensures
            r.0 == self.successes(),
            r.1 == self.failures(),
    {
        (self.send_success, self.send_fail)
    }
}

} // verus!
