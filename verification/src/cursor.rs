//! Process-lifetime state of the payment scrape: the pagination offset and
//! the cumulative tallies per payment status and failure reason.

use vstd::prelude::*;
use crate::domain::{ListPaymentsResponse, Payment, PaymentFailureReason, PaymentStatus};

verus! {

/// Cumulative number of payments seen per status.
#[derive(Clone, Copy, Debug, PartialEq, Eq, Structural)]
pub struct StatusCounts {
    pub unknown: i64,
    pub in_flight: i64,
    pub succeeded: i64,
    pub failed: i64,
}

/// Cumulative number of payments seen per failure reason.
#[derive(Clone, Copy, Debug, PartialEq, Eq, Structural)]
pub struct ReasonCounts {
    pub none: i64,
    pub timeout: i64,
    pub no_route: i64,
    pub error: i64,
    pub incorrect_payment_details: i64,
    pub insufficient_balance: i64,
}

/// State carried between payment scrapes: where the next page starts, and
/// the running totals accumulated since the process began.
#[derive(Clone, Copy, Debug, PartialEq, Eq, Structural)]
pub struct ListPaymentsCache {
    pub index_offset: u64,
    pub outgoing_payments: StatusCounts,
    pub payment_failure_reasons: ReasonCounts,
    pub total_fee_msat: i64,
}

/// How many payments of `ps` have status `s`.
pub open spec fn count_status(ps: Seq<Payment>, s: PaymentStatus) -> int
    decreases ps.len(),
{
    if ps.len() == 0 {
        0
    } else {
        count_status(ps.drop_last(), s) + if ps.last().status == s {
            1int
        } else {
            0int
        }
    }
}

/// How many payments of `ps` report failure reason `r`.
pub open spec fn count_reason(ps: Seq<Payment>, r: PaymentFailureReason) -> int
    decreases ps.len(),
{
    if ps.len() == 0 {
        0
    } else {
        count_reason(ps.drop_last(), r) + if ps.last().failure_reason == r {
            1int
        } else {
            0int
        }
    }
}

/// A status count lies between zero and the number of payments counted.
pub proof fn lemma_count_status_bounds(ps: Seq<Payment>, s: PaymentStatus)
    ensures
        0 <= count_status(ps, s) <= ps.len(),
    decreases ps.len(),
{
    if ps.len() > 0 {
        lemma_count_status_bounds(ps.drop_last(), s);
    }
}

/// A reason count lies between zero and the number of payments counted.
pub proof fn lemma_count_reason_bounds(ps: Seq<Payment>, r: PaymentFailureReason)
    ensures
        0 <= count_reason(ps, r) <= ps.len(),
    decreases ps.len(),
{
    if ps.len() > 0 {
        lemma_count_reason_bounds(ps.drop_last(), r);
    }
}

/// Every tally over `ps` lies between zero and the number of payments.
pub proof fn lemma_counts_bounds(ps: Seq<Payment>)
    ensures
        forall|s: PaymentStatus| 0 <= #[trigger] count_status(ps, s) <= ps.len(),
        forall|r: PaymentFailureReason| 0 <= #[trigger] count_reason(ps, r) <= ps.len(),
{
    assert forall|s: PaymentStatus| 0 <= #[trigger] count_status(ps, s) <= ps.len() by {
        lemma_count_status_bounds(ps, s);
    }
    assert forall|r: PaymentFailureReason| 0 <= #[trigger] count_reason(ps, r) <= ps.len() by {
        lemma_count_reason_bounds(ps, r);
    }
}

impl StatusCounts {
    /// All tallies start at zero.
    pub open spec fn zero() -> StatusCounts {
        StatusCounts { unknown: 0, in_flight: 0, succeeded: 0, failed: 0 }
    }

    /// The tally for status `s`.
    pub open spec fn count(self, s: PaymentStatus) -> int {
        match s {
            PaymentStatus::Unknown => self.unknown as int,
            PaymentStatus::InFlight => self.in_flight as int,
            PaymentStatus::Succeeded => self.succeeded as int,
            PaymentStatus::Failed => self.failed as int,
        }
    }

    /// No tally is negative.
    pub open spec fn wf(self) -> bool {
        &&& self.unknown >= 0
        &&& self.in_flight >= 0
        &&& self.succeeded >= 0
        &&& self.failed >= 0
    }

    /// Every tally of `self` is at most the matching tally of `other`.
    pub open spec fn le(self, other: StatusCounts) -> bool {
        &&& self.unknown <= other.unknown
        &&& self.in_flight <= other.in_flight
        &&& self.succeeded <= other.succeeded
        &&& self.failed <= other.failed
    }

    /// Room to add `extra` payments to every tally without overflow.
    pub open spec fn can_absorb(self, extra: int) -> bool {
        &&& self.unknown + extra <= i64::MAX
        &&& self.in_flight + extra <= i64::MAX
        &&& self.succeeded + extra <= i64::MAX
        &&& self.failed + extra <= i64::MAX
    }
}

impl ReasonCounts {
    /// All tallies start at zero.
    pub open spec fn zero() -> ReasonCounts {
        ReasonCounts {
            none: 0,
            timeout: 0,
            no_route: 0,
            error: 0,
            incorrect_payment_details: 0,
            insufficient_balance: 0,
        }
    }

    /// The tally for reason `r`.
    pub open spec fn count(self, r: PaymentFailureReason) -> int {
        match r {
            PaymentFailureReason::FailureReasonNone => self.none as int,
            PaymentFailureReason::FailureReasonTimeout => self.timeout as int,
            PaymentFailureReason::FailureReasonNoRoute => self.no_route as int,
            PaymentFailureReason::FailureReasonError => self.error as int,
            PaymentFailureReason::FailureReasonIncorrectPaymentDetails => self.incorrect_payment_details as int,
            PaymentFailureReason::FailureReasonInsufficientBalance => self.insufficient_balance as int,
        }
    }

    /// No tally is negative.
    pub open spec fn wf(self) -> bool {
        &&& self.none >= 0
        &&& self.timeout >= 0
        &&& self.no_route >= 0
        &&& self.error >= 0
        &&& self.incorrect_payment_details >= 0
        &&& self.insufficient_balance >= 0
    }

    /// Every tally of `self` is at most the matching tally of `other`.
    pub open spec fn le(self, other: ReasonCounts) -> bool {
        &&& self.none <= other.none
        &&& self.timeout <= other.timeout
        &&& self.no_route <= other.no_route
        &&& self.error <= other.error
        &&& self.incorrect_payment_details <= other.incorrect_payment_details
        &&& self.insufficient_balance <= other.insufficient_balance
    }

    /// Room to add `extra` payments to every tally without overflow.
    pub open spec fn can_absorb(self, extra: int) -> bool {
        &&& self.none + extra <= i64::MAX
        &&& self.timeout + extra <= i64::MAX
        &&& self.no_route + extra <= i64::MAX
        &&& self.error + extra <= i64::MAX
        &&& self.incorrect_payment_details + extra <= i64::MAX
        &&& self.insufficient_balance + extra <= i64::MAX
    }
}

/// `post` holds the tallies of `pre` raised by the number of payments of
/// each status in `ps`.
pub open spec fn status_absorbed(pre: StatusCounts, post: StatusCounts, ps: Seq<Payment>) -> bool {
    &&& post.unknown == pre.unknown + count_status(ps, PaymentStatus::Unknown)
    &&& post.in_flight == pre.in_flight + count_status(ps, PaymentStatus::InFlight)
    &&& post.succeeded == pre.succeeded + count_status(ps, PaymentStatus::Succeeded)
    &&& post.failed == pre.failed + count_status(ps, PaymentStatus::Failed)
}

/// `post` holds the tallies of `pre` raised by the number of payments of
/// each failure reason in `ps`.
pub open spec fn reason_absorbed(pre: ReasonCounts, post: ReasonCounts, ps: Seq<Payment>) -> bool {
    &&& post.none == pre.none + count_reason(ps, PaymentFailureReason::FailureReasonNone)
    &&& post.timeout == pre.timeout + count_reason(ps, PaymentFailureReason::FailureReasonTimeout)
    &&& post.no_route == pre.no_route + count_reason(ps, PaymentFailureReason::FailureReasonNoRoute)
    &&& post.error == pre.error + count_reason(ps, PaymentFailureReason::FailureReasonError)
    &&& post.incorrect_payment_details == pre.incorrect_payment_details + count_reason(
        ps,
        PaymentFailureReason::FailureReasonIncorrectPaymentDetails,
    )
    &&& post.insufficient_balance == pre.insufficient_balance + count_reason(
        ps,
        PaymentFailureReason::FailureReasonInsufficientBalance,
    )
}

impl ListPaymentsCache {
    /// The state a fresh process starts from: offset zero, all tallies
    /// zero.
    pub open spec fn initial() -> ListPaymentsCache {
        ListPaymentsCache {
            index_offset: 0,
            outgoing_payments: StatusCounts::zero(),
            payment_failure_reasons: ReasonCounts::zero(),
            total_fee_msat: 0,
        }
    }

    /// No tally is negative.
    pub open spec fn wf(self) -> bool {
        &&& self.outgoing_payments.wf()
        &&& self.payment_failure_reasons.wf()
    }

    /// Room to absorb `extra` more payments without any tally overflowing.
    pub open spec fn can_absorb(self, extra: int) -> bool {
        &&& self.outgoing_payments.can_absorb(extra)
        &&& self.payment_failure_reasons.can_absorb(extra)
    }

    /// Builds the starting state.
    pub fn new() -> (c: ListPaymentsCache)
        ensures
            c == ListPaymentsCache::initial(),
    {
        ListPaymentsCache {
            index_offset: 0,
            outgoing_payments: StatusCounts { unknown: 0, in_flight: 0, succeeded: 0, failed: 0 },
            payment_failure_reasons: ReasonCounts {
                none: 0,
                timeout: 0,
                no_route: 0,
                error: 0,
                incorrect_payment_details: 0,
                insufficient_balance: 0,
            },
            total_fee_msat: 0,
        }
    }
}

/// The whole effect of one successful payment scrape on the cache: every
/// returned payment is tallied once, and the offset becomes the response's
/// reported next offset.
pub open spec fn payments_applied(
    pre: ListPaymentsCache,
    post: ListPaymentsCache,
    resp: ListPaymentsResponse,
) -> bool {
    &&& status_absorbed(pre.outgoing_payments, post.outgoing_payments, resp.payments@)
    &&& reason_absorbed(pre.payment_failure_reasons, post.payment_failure_reasons, resp.payments@)
    &&& post.index_offset == resp.last_index_offset
    &&& post.total_fee_msat == pre.total_fee_msat
}

/// Every tally of `pre` is at most the matching tally of `post`.
pub open spec fn counts_le(pre: ListPaymentsCache, post: ListPaymentsCache) -> bool {
    &&& pre.outgoing_payments.le(post.outgoing_payments)
    &&& pre.payment_failure_reasons.le(post.payment_failure_reasons)
}

/// Law: one successful payment scrape never lowers a tally, and never
/// lowers the offset as long as the response's next offset lies at or
/// past the offset the scrape started from — the guarantee the upstream
/// pagination gives.
pub proof fn lemma_payment_scrape_monotonic(
    pre: ListPaymentsCache,
    post: ListPaymentsCache,
    resp: ListPaymentsResponse,
)
    requires
        payments_applied(pre, post, resp),
    ensures
        counts_le(pre, post),
        resp.last_index_offset >= pre.index_offset ==> post.index_offset >= pre.index_offset,
{
    lemma_counts_bounds(resp.payments@);
}

/// Law: across any run of successful payment scrapes in which each
/// response's next offset lies at or past the offset it was asked from,
/// the offset and every tally are non-decreasing between any two points
/// of the run.
pub proof fn lemma_cursor_monotonic_run(
    states: Seq<ListPaymentsCache>,
    resps: Seq<ListPaymentsResponse>,
    i: int,
    j: int,
)
    requires
        states.len() == resps.len() + 1,
        forall|k: int|
            0 <= k < resps.len() ==> #[trigger] payments_applied(states[k], states[k + 1], resps[k])
                && resps[k].last_index_offset >= states[k].index_offset,
        0 <= i <= j < states.len(),
    ensures
        states[i].index_offset <= states[j].index_offset,
        counts_le(states[i], states[j]),
    decreases j - i,
{
    if i < j {
        lemma_cursor_monotonic_run(states, resps, i, j - 1);
        let k = j - 1;
        assert(payments_applied(states[k], states[k + 1], resps[k]));
        assert(states[k + 1] == states[j]);
        lemma_payment_scrape_monotonic(states[k], states[j], resps[k]);
    }
}

} // verus!
