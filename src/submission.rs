use std::cmp::Ordering;
use vstd::prelude::*;

verus! {

/// Parameters used for nonce submission: one candidate solution targeting a
/// chain height (`block`) on the fork identified by `gen_sig`.
#[derive(Clone, Copy, Debug)]
pub struct SubmissionParameters {
    pub account_id: u64,
    pub nonce: u64,
    pub height: u64,
    pub block: u64,
    pub deadline_unadjusted: u64,
    pub deadline: u64,
    pub gen_sig: [u8; 32],
}

/// Two generation signatures are the same fork.
pub fn same_signature(a: &[u8; 32], b: &[u8; 32]) -> (r: bool)
    ensures
        r == (a@ == b@),
{
    let mut i: usize = 0;
    while i < 32
        invariant
            i <= 32,
            a@.len() == 32,
            b@.len() == 32,
            forall|j: int| 0 <= j < i ==> a@[j] == b@[j],
        decreases 32 - i,
    {
        if a[i] != b[i] {
            return false;
        }
        i = i + 1;
    }
    assert(a@ =~= b@);
    true
}

/// Structural equality: every field is equal. It is distinct from the
/// ranking, which never reports two candidates as equal.
pub open spec fn same_fields(a: SubmissionParameters, b: SubmissionParameters) -> bool {
    &&& a.account_id == b.account_id
    &&& a.nonce == b.nonce
    &&& a.height == b.height
    &&& a.block == b.block
    &&& a.deadline_unadjusted == b.deadline_unadjusted
    &&& a.deadline == b.deadline
    &&& a.gen_sig@ == b.gen_sig@
}

/// `a` ranks strictly above `b`: a newer block always wins; on the same block
/// and fork the lower-or-equal deadline wins; on the same block and another
/// fork, `a` never wins.
pub open spec fn ranks_higher(a: SubmissionParameters, b: SubmissionParameters) -> bool {
    if a.block != b.block {
        a.block > b.block
    } else if a.gen_sig@ == b.gen_sig@ {
        a.deadline <= b.deadline
    } else {
        false
    }
}

/// The ranking as an `Ordering`; it is never `Equal`.
pub open spec fn rank(a: SubmissionParameters, b: SubmissionParameters) -> Ordering {
    if ranks_higher(a, b) {
        Ordering::Greater
    } else {
        Ordering::Less
    }
}

/// A candidate for a newer block ranks higher than one for an older block,
/// whatever their deadlines and signatures.
pub proof fn lemma_newer_block_ranks_higher(a: SubmissionParameters, b: SubmissionParameters)
    requires
        a.block > b.block,
    ensures
        rank(a, b) == Ordering::Greater,
        rank(b, a) == Ordering::Less,
{
}

/// On the same block and fork, the candidate with the lower-or-equal deadline
/// ranks higher; with equal deadlines the incoming one wins.
pub proof fn lemma_same_fork_better_deadline_ranks_higher(
    a: SubmissionParameters,
    b: SubmissionParameters,
)
    requires
        a.block == b.block,
        a.gen_sig@ == b.gen_sig@,
    ensures
        a.deadline <= b.deadline ==> rank(a, b) == Ordering::Greater,
        a.deadline > b.deadline ==> rank(a, b) == Ordering::Less,
{
}

/// On the same block but another fork, the incoming candidate ranks lower
/// than the held one, whatever its deadline.
pub proof fn lemma_other_fork_ranks_lower(
    held: SubmissionParameters,
    incoming: SubmissionParameters,
)
    requires
        incoming.block == held.block,
        incoming.gen_sig@ != held.gen_sig@,
    ensures
        rank(incoming, held) == Ordering::Less,
{
}

/// The ranking never reports `Equal`, not even for a candidate and itself:
/// a later duplicate ranks higher than the one held.
pub proof fn lemma_rank_never_equal(a: SubmissionParameters, b: SubmissionParameters)
    ensures
        rank(a, b) != Ordering::Equal,
        same_fields(a, b) ==> rank(a, b) == Ordering::Greater,
{
}

impl SubmissionParameters {
    /// Compares `self` (the incoming candidate) with `other` (the held one).
    pub fn cmp(&self, other: &Self) -> (r: Ordering)
        ensures
            r == rank(*self, *other),
    {
        if self.block < other.block {
            Ordering::Less
        } else if self.block > other.block {
            Ordering::Greater
        } else if same_signature(&self.gen_sig, &other.gen_sig) {
            if self.deadline <= other.deadline {
                Ordering::Greater
            } else {
                Ordering::Less
            }
        } else {
            Ordering::Less
        }
    }
}

impl PartialEq for SubmissionParameters {
    fn eq(&self, other: &Self) -> (r: bool) {
        self.account_id == other.account_id && self.nonce == other.nonce && self.height
            == other.height && self.block == other.block && self.deadline_unadjusted
            == other.deadline_unadjusted && self.deadline == other.deadline && same_signature(
            &self.gen_sig,
            &other.gen_sig,
        )
    }
}

impl vstd::std_specs::cmp::PartialEqSpecImpl for SubmissionParameters {
    open spec fn obeys_eq_spec() -> bool {
        true
    }

    open spec fn eq_spec(&self, other: &Self) -> bool {
        same_fields(*self, *other)
    }
}

impl Eq for SubmissionParameters {

}

impl PartialOrd for SubmissionParameters {
    fn partial_cmp(&self, other: &Self) -> (r: Option<Ordering>) {
        Some(self.cmp(other))
    }
}

impl vstd::std_specs::cmp::PartialOrdSpecImpl for SubmissionParameters {
    open spec fn obeys_partial_cmp_spec() -> bool {
        true
    }

    open spec fn partial_cmp_spec(&self, other: &Self) -> Option<Ordering> {
        Some(rank(*self, *other))
    }
}

} // verus!
