use vstd::prelude::*;

verus! {

/// The queue-variant notification channel: a FIFO of overrun counts, one
/// entry per delivered firing. The delivery side pushes at the back, the one
/// consumer drains from the front; nothing is dropped and nothing coalesced.
pub struct NotificationQueue {
    items: Vec<u32>,
}

impl View for NotificationQueue {
    type V = Seq<u32>;

    closed spec fn view(&self) -> Seq<u32> {
        self.items@
    }
}

impl NotificationQueue {
    /// An empty channel.
    pub fn new() -> (r: NotificationQueue)
        ensures
            r@ == Seq::<u32>::empty(),
    {
        NotificationQueue { items: Vec::new() }
    }

    pub fn len(&self) -> (r: usize)
        ensures
            r == self@.len(),
    {
        self.items.len()
    }

    /// Queues one notification behind every earlier one.
    pub fn push(&mut self, overrun: u32)
        ensures
            final(self)@ == old(self)@.push(overrun),
    {
        self.items.push(overrun);
    }

    /// Takes the oldest queued notification, if any: first in, first out.
    pub fn try_receive(&mut self) -> (r: Option<u32>)
        ensures
            old(self)@.len() == 0 ==> r is None && final(self)@ == old(self)@,
            old(self)@.len() > 0 ==> r == Some(old(self)@.first()),
            old(self)@.len() > 0 ==> final(self)@ == old(self)@.drop_first(),
    {
        if self.items.len() == 0 {
            None
        } else {
            let v = self.items.remove(0);
            proof {
                assert(old(self)@.remove(0) =~= old(self)@.drop_first());
            }
            Some(v)
        }
    }
}

/// Running totals over a delivery stream: how many notifications were
/// delivered, and how many timer firings they stand for. A notification
/// carrying overrun `k` stands for `k + 1` firings: the delivered one plus
/// the `k` that were missed before it.
#[derive(Clone, Copy, PartialEq, Eq, Structural, Debug)]
pub struct FiringStats {
    pub notifications: u64,
    pub firings: u64,
}

/// The firings a delivery log stands for: one per notification, plus its
/// overrun count.
pub open spec fn spec_firings_of(log: Seq<u32>) -> int
    decreases log.len(),
{
    if log.len() == 0 {
        0
    } else {
        spec_firings_of(log.drop_last()) + log.last() + 1
    }
}

/// The overruns a delivery log reports, summed.
pub open spec fn spec_overrun_sum(log: Seq<u32>) -> int
    decreases log.len(),
{
    if log.len() == 0 {
        0
    } else {
        spec_overrun_sum(log.drop_last()) + log.last()
    }
}

/// No firing is silently lost: over any delivery log, the firing total
/// equals the number of notifications plus the summed overrun counts.
pub proof fn lemma_no_lost_firings(log: Seq<u32>)
    ensures
        spec_firings_of(log) == log.len() + spec_overrun_sum(log),
    decreases log.len(),
{
    if log.len() > 0 {
        lemma_no_lost_firings(log.drop_last());
    }
}

/// A longer prefix of a delivery log never stands for fewer firings.
pub proof fn lemma_firings_prefix_le(log: Seq<u32>, i: int, j: int)
    requires
        0 <= i <= j <= log.len(),
    ensures
        spec_firings_of(log.subrange(0, i)) <= spec_firings_of(log.subrange(0, j)),
    decreases j - i,
{
    if i < j {
        lemma_firings_prefix_le(log, i, j - 1);
        assert(log.subrange(0, j).drop_last() =~= log.subrange(0, j - 1));
    }
}

impl FiringStats {
    /// Totals that no delivery has touched yet.
    pub fn new() -> (r: FiringStats)
        ensures
            r.notifications == 0,
            r.firings == 0,
    {
        FiringStats { notifications: 0, firings: 0 }
    }

    /// Accounts one delivered notification with the given overrun count.
    pub fn record(&mut self, overrun: u32)
        requires
            old(self).notifications + 1 <= u64::MAX,
            old(self).firings + overrun + 1 <= u64::MAX,
        ensures
            final(self).notifications == old(self).notifications + 1,
            final(self).firings == old(self).firings + overrun + 1,
    {
        self.notifications = self.notifications + 1;
        self.firings = self.firings + overrun as u64 + 1;
    }
}

/// Tallies a whole delivery log: the result counts one notification per
/// entry and `overrun + 1` firings for each.
pub fn tally(log: &Vec<u32>) -> (r: FiringStats)
    requires
        log@.len() <= u64::MAX,
        spec_firings_of(log@) <= u64::MAX,
    ensures
        r.notifications == log@.len(),
        r.firings == spec_firings_of(log@),
{
    let mut stats = FiringStats::new();
    let mut i: usize = 0;
    while i < log.len()
        invariant
            0 <= i <= log@.len(),
            log@.len() <= u64::MAX,
            spec_firings_of(log@) <= u64::MAX,
            stats.notifications == i,
            stats.firings == spec_firings_of(log@.subrange(0, i as int)),
        decreases log@.len() - i,
    {
        proof {
            lemma_firings_prefix_le(log@, i + 1, log@.len() as int);
            assert(log@.subrange(0, log@.len() as int) =~= log@);
            assert(log@.subrange(0, i + 1).drop_last() =~= log@.subrange(0, i as int));
        }
        stats.record(log[i]);
        i = i + 1;
    }
    proof {
        assert(log@.subrange(0, log@.len() as int) =~= log@);
    }
    stats
}

} // verus!
