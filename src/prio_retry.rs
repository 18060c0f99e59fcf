use crate::submission::{ranks_higher, SubmissionParameters};
use vstd::prelude::*;

verus! {

/// Fixed delay, in milliseconds, before a failed submission is retried.
pub const DEFAULT_RETRY_DELAY_MS: u64 = 3000;

/// The abstract state of a [`PrioRetry`].
pub ghost struct QueueModel {
    /// The single candidate in play, if any.
    pub held: Option<SubmissionParameters>,
    /// When the held candidate may be handed out again; `None` means now.
    pub next_eligible: Option<u64>,
    /// Bumped each time a new candidate takes the slot; identifies the
    /// candidate that a handed-out ticket belongs to.
    pub epoch: u64,
    /// Backoff after a failed attempt, in milliseconds.
    pub retry_delay: u64,
}

/// What the dispatcher should do next.
#[derive(Clone, Copy, Debug)]
pub enum Poll {
    /// Submit this candidate; report its outcome with the ticket.
    Ready(SubmissionParameters, u64),
    /// A candidate is held but backing off for this many more milliseconds.
    Wait(u64),
    /// Nothing is held: wait for the next offer.
    Empty,
}

/// The incoming candidate takes the slot when the slot is empty or the
/// candidate ranks strictly higher than the held one.
pub open spec fn takes_slot(held: Option<SubmissionParameters>, c: SubmissionParameters) -> bool {
    match held {
        None => true,
        Some(h) => ranks_higher(c, h),
    }
}

/// The slot after `c` is offered to it.
pub open spec fn offer_held(
    held: Option<SubmissionParameters>,
    c: SubmissionParameters,
) -> Option<SubmissionParameters> {
    if takes_slot(held, c) {
        Some(c)
    } else {
        held
    }
}

/// `offer`: a candidate that takes the slot is eligible at once.
pub open spec fn offer_model(m: QueueModel, c: SubmissionParameters) -> QueueModel {
    if takes_slot(m.held, c) {
        QueueModel {
            held: Some(c),
            next_eligible: None,
            epoch: next_epoch(m.epoch),
            retry_delay: m.retry_delay,
        }
    } else {
        m
    }
}

/// The epoch after `e`, wrapping around at the end of the range.
pub open spec fn next_epoch(e: u64) -> u64 {
    if e == u64::MAX {
        0
    } else {
        (e + 1) as u64
    }
}

/// `take_ready` at time `now`.
pub open spec fn poll_model(m: QueueModel, now: u64) -> Poll {
    match m.held {
        None => Poll::Empty,
        Some(c) => match m.next_eligible {
            None => Poll::Ready(c, m.epoch),
            Some(t) => if t <= now {
                Poll::Ready(c, m.epoch)
            } else {
                Poll::Wait((t - now) as u64)
            },
        },
    }
}

/// The ticket still names the candidate that holds the slot.
pub open spec fn is_current(m: QueueModel, ticket: u64) -> bool {
    m.held is Some && ticket == m.epoch
}

/// `report_failure`: the held candidate backs off, unless it was superseded
/// since the ticket was handed out.
pub open spec fn failure_model(m: QueueModel, ticket: u64, now: u64) -> QueueModel {
    if is_current(m, ticket) {
        QueueModel { next_eligible: Some(saturating_add(now, m.retry_delay)), ..m }
    } else {
        m
    }
}

/// `report_terminal`: the held candidate leaves the slot, unless it was
/// superseded since the ticket was handed out.
pub open spec fn terminal_model(m: QueueModel, ticket: u64) -> QueueModel {
    if is_current(m, ticket) {
        QueueModel { held: None, next_eligible: None, ..m }
    } else {
        m
    }
}

pub open spec fn saturating_add(a: u64, b: u64) -> u64 {
    if a + b > u64::MAX {
        u64::MAX
    } else {
        (a + b) as u64
    }
}

/// The slot after offering each candidate of `cs` in turn to an empty queue.
pub open spec fn held_after(cs: Seq<SubmissionParameters>) -> Option<SubmissionParameters>
    decreases cs.len(),
{
    if cs.len() == 0 {
        None
    } else {
        offer_held(held_after(cs.drop_last()), cs.last())
    }
}

/// `h` ranks at least as high as `c`: a newer block, or the same block on
/// another fork (which `c` can never take over), or the same block and fork
/// with a deadline no worse.
pub open spec fn dominates(h: SubmissionParameters, c: SubmissionParameters) -> bool {
    ||| h.block > c.block
    ||| (h.block == c.block && h.gen_sig@ != c.gen_sig@)
    ||| (h.block == c.block && h.gen_sig@ == c.gen_sig@ && h.deadline <= c.deadline)
}

/// After any sequence of offers to an empty queue, exactly one candidate is
/// held when anything was offered; it is one of those offered, and it ranks
/// at least as high as every candidate offered.
pub proof fn lemma_offers_keep_best(cs: Seq<SubmissionParameters>)
    ensures
        held_after(cs) is Some <==> cs.len() > 0,
        held_after(cs) is Some ==> cs.contains(held_after(cs)->0),
        held_after(cs) is Some ==> forall|i: int|
            0 <= i < cs.len() ==> dominates(held_after(cs)->0, #[trigger] cs[i]),
    decreases cs.len(),
{
    if cs.len() > 0 {
        let prev = cs.drop_last();
        lemma_offers_keep_best(prev);
        let c = cs.last();
        assert(cs[cs.len() - 1] == c);
        let h = held_after(cs)->0;
        assert forall|i: int| 0 <= i < cs.len() implies dominates(h, #[trigger] cs[i]) by {
            if i < cs.len() - 1 {
                assert(cs[i] == prev[i]);
            }
        }
        if takes_slot(held_after(prev), c) {
            assert(cs.contains(h));
        } else {
            let j = choose|j: int| 0 <= j < prev.len() && prev[j] == h;
            assert(cs[j] == h);
        }
    }
}

/// On the same block, a candidate of another fork never takes the slot from
/// the held one.
pub proof fn lemma_other_fork_never_supersedes(m: QueueModel, c: SubmissionParameters)
    requires
        m.held is Some,
        c.block == m.held->0.block,
        c.gen_sig@ != m.held->0.gen_sig@,
    ensures
        offer_model(m, c) == m,
{
}

/// A candidate backing off after a failure is superseded by one that ranks
/// higher: the newcomer is handed out at once, whatever the time, and the
/// old ticket no longer moves the slot, so the old candidate is not
/// submitted again.
pub proof fn lemma_supersede_cancels_retry(
    m: QueueModel,
    a: SubmissionParameters,
    b: SubmissionParameters,
    ticket: u64,
    failed_at: u64,
    now: u64,
    later: u64,
)
    requires
        m.held == Some(a),
        ticket == m.epoch,
        ranks_higher(b, a),
    ensures
        ({
            let backing_off = failure_model(m, ticket, failed_at);
            let m2 = offer_model(backing_off, b);
            &&& m2.held == Some(b)
            &&& poll_model(m2, now) == Poll::Ready(b, m2.epoch)
            &&& !is_current(m2, ticket)
            &&& failure_model(m2, ticket, later) == m2
            &&& terminal_model(m2, ticket) == m2
        }),
{
}

/// A single-slot queue that always holds the best candidate seen so far and
/// retries a failed one after a fixed delay.
pub struct PrioRetry {
    held: Option<SubmissionParameters>,
    next_eligible: Option<u64>,
    epoch: u64,
    retry_delay: u64,
}

impl View for PrioRetry {
    type V = QueueModel;

    closed spec fn view(&self) -> QueueModel {
        QueueModel {
            held: self.held,
            next_eligible: self.next_eligible,
            epoch: self.epoch,
            retry_delay: self.retry_delay,
        }
    }
}

impl PrioRetry {
    /// An empty queue whose failed candidates back off for `retry_delay` ms.
    pub fn new(retry_delay: u64) -> (r: PrioRetry)
        ensures
            r@.held is None,
            r@.next_eligible is None,
            r@.retry_delay == retry_delay,
    {
        PrioRetry { held: None, next_eligible: None, epoch: 0, retry_delay }
    }

    /// Offers a candidate; returns whether it took the slot. A candidate that
    /// takes the slot is eligible at once, cancelling any running backoff.
    pub fn offer(&mut self, c: SubmissionParameters) -> (taken: bool)
        ensures
            final(self)@ == offer_model(old(self)@, c),
            taken == takes_slot(old(self)@.held, c),
            final(self)@.held == offer_held(old(self)@.held, c),
    {
        let take = match &self.held {
            None => true,
            Some(h) => matches!(c.cmp(h), std::cmp::Ordering::Greater),
        };
        if take {
            self.held = Some(c);
            self.next_eligible = None;
            self.epoch = if self.epoch == u64::MAX {
                0
            } else {
                self.epoch + 1
            };
        }
        take
    }

    /// The held candidate and its ticket if it may be submitted at `now`,
    /// else how long to wait, or that nothing is held.
    pub fn take_ready(&self, now: u64) -> (r: Poll)
        ensures
            r == poll_model(self@, now),
    {
        match &self.held {
            None => Poll::Empty,
            Some(c) => match self.next_eligible {
                None => Poll::Ready(*c, self.epoch),
                Some(t) => if t <= now {
                    Poll::Ready(*c, self.epoch)
                } else {
                    Poll::Wait(t - now)
                },
            },
        }
    }

    /// Whether the candidate handed out with `ticket` still holds the slot.
    pub fn is_current(&self, ticket: u64) -> (r: bool)
        ensures
            r == is_current(self@, ticket),
    {
        self.held.is_some() && ticket == self.epoch
    }

    /// The attempt made with `ticket` failed at `now`: the candidate, if it
    /// still holds the slot, is handed out again after the retry delay.
    pub fn report_failure(&mut self, ticket: u64, now: u64)
        ensures
            final(self)@ == failure_model(old(self)@, ticket, now),
    {
        if self.is_current(ticket) {
            self.next_eligible = Some(now.saturating_add(self.retry_delay));
        }
    }

    /// The attempt made with `ticket` ended for good (accepted or rejected):
    /// the candidate, if it still holds the slot, leaves it.
    pub fn report_terminal(&mut self, ticket: u64)
        ensures
            final(self)@ == terminal_model(old(self)@, ticket),
    {
        if self.is_current(ticket) {
            self.held = None;
            self.next_eligible = None;
        }
    }
}

} // verus!
