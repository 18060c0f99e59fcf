use crate::api::{FetchError, SubmitNonceResponse};
use crate::prio_retry::{failure_model, terminal_model, PrioRetry};
use vstd::prelude::*;

verus! {

/// How a submission attempt was settled.
#[derive(Clone, Copy, Debug, PartialEq, Eq, Structural)]
pub enum Settled {
    /// The verifier accepted the deadline; the candidate is done.
    Verified,
    /// The verifier rejected the deadline; resubmitting it cannot succeed,
    /// so the candidate is dropped.
    Rejected,
    /// The attempt failed on the way; the candidate backs off and is retried.
    Retrying,
}

/// Feeds the outcome of the attempt made with `ticket` back into the queue at
/// time `now`: a verifier's answer, accepted or not, ends the candidate; a
/// transport or protocol failure schedules a retry.
pub fn settle(
    queue: &mut PrioRetry,
    ticket: u64,
    res: &Result<SubmitNonceResponse, FetchError>,
    now: u64,
) -> (s: Settled)
    ensures
        match res {
            Ok(resp) => {
                &&& final(queue)@ == terminal_model(old(queue)@, ticket)
                &&& s == if resp.verify_result {
                    Settled::Verified
                } else {
                    Settled::Rejected
                }
            },
            Err(_) => {
                &&& final(queue)@ == failure_model(old(queue)@, ticket, now)
                &&& s == Settled::Retrying
            },
        },
{
    match res {
        Ok(resp) => {
            queue.report_terminal(ticket);
            if resp.verify_result {
                Settled::Verified
            } else {
                Settled::Rejected
            }
        },
        Err(_) => {
            queue.report_failure(ticket, now);
            Settled::Retrying
        },
    }
}

} // verus!
