//! The three scrape operations: each takes the outcome of one RPC call and
//! maps it to metric series, tolerating failure independently.

use vstd::prelude::*;
use crate::cursor::{
    count_reason, count_status, lemma_counts_bounds, payments_applied, ListPaymentsCache,
    reason_absorbed, status_absorbed,
};
use crate::domain::{
    Channel, ListChannelsResponse, ListPaymentsResponse, NodeInfo, Payment, PaymentFailureReason,
    PaymentStatus, RpcError,
};
use crate::metrics::{
    block_height, channel_balance_total_sat, channel_triple, gauge, num_peers_total,
    outgoing_payments, payment_failure_reasons, reason_series, status_series, views, MetricSeries,
    SeriesView,
};

verus! {

/// The two series of one successful get-info scrape: peer count and block
/// height, freshly overwritten each poll.
pub open spec fn getinfo_series(info: NodeInfo) -> Seq<SeriesView> {
    seq![
        gauge("lnd_num_peers_total"@, Seq::<(Seq<char>, Seq<char>)>::empty(), info.num_peers as int),
        gauge("lnd_block_height"@, Seq::<(Seq<char>, Seq<char>)>::empty(), info.block_height as int),
    ]
}

/// Maps the outcome of the get-info call to metric series: two gauges on
/// success, nothing on failure.
pub fn scrape_getinfo(res: Result<NodeInfo, RpcError>) -> (r: Vec<MetricSeries>)
    ensures
        match res {
            Ok(info) => views(r@) == getinfo_series(info),
            Err(_) => r@.len() == 0,
        },
{
    let mut r: Vec<MetricSeries> = Vec::new();
    match res {
        Ok(info) => {
            r.push(num_peers_total(info.num_peers as i64));
            r.push(block_height(info.block_height as i64));
            proof {
                assert(views(r@) =~~= getinfo_series(info));
            }
        },
        Err(_) => {},
    }
    r
}

/// The payment series emitted after a successful payment scrape: both
/// gauge vectors rebuilt from the full current tallies.
pub open spec fn payments_series(c: ListPaymentsCache) -> Seq<SeriesView> {
    status_series(c.outgoing_payments) + reason_series(c.payment_failure_reasons)
}

/// What a payment scrape needs of the cache: on a successful response,
/// room to tally every returned payment without overflowing a counter.
pub open spec fn payments_scrape_pre(
    cache: ListPaymentsCache,
    res: Result<ListPaymentsResponse, RpcError>,
) -> bool {
    match res {
        Ok(resp) => cache.can_absorb(resp.payments@.len() as int),
        Err(_) => true,
    }
}

/// Counting one more payment extends each tally by one exactly for the
/// matching status and failure reason.
proof fn lemma_counts_take_step(ps: Seq<Payment>, i: int)
    requires
        0 <= i < ps.len(),
    ensures
        forall|s: PaymentStatus|
            #[trigger] count_status(ps.take(i + 1), s) == count_status(ps.take(i), s) + if ps[i].status
                == s {
                1int
            } else {
                0int
            },
        forall|r: PaymentFailureReason|
            #[trigger] count_reason(ps.take(i + 1), r) == count_reason(ps.take(i), r) + if ps[i].failure_reason
                == r {
                1int
            } else {
                0int
            },
{
    assert(ps.take(i + 1).drop_last() =~= ps.take(i));
    assert(ps.take(i + 1).last() == ps[i]);
}

/// Maps the outcome of the list-payments call to metric series. On
/// success every returned payment is tallied once, the offset advances to
/// the response's next offset, and both gauge vectors are rebuilt from the
/// full tallies; on failure the cache is left untouched and nothing is
/// emitted.
pub fn scrape_listpayments(
    cache: &mut ListPaymentsCache,
    res: Result<ListPaymentsResponse, RpcError>,
) -> (r: Vec<MetricSeries>)
    requires
        payments_scrape_pre(*old(cache), res),
    ensures
        match res {
            Ok(resp) => payments_applied(*old(cache), *final(cache), resp) && views(r@)
                == payments_series(*final(cache)),
            Err(_) => *final(cache) == *old(cache) && r@.len() == 0,
        },
        old(cache).wf() ==> final(cache).wf(),
{
    match res {
        Ok(resp) => {
            let ghost pre = *cache;
            let ghost ps = resp.payments@;
            let n = resp.payments.len();
            let mut i: usize = 0;
            while i < n
                invariant
                    i <= n,
                    n == ps.len(),
                    ps == resp.payments@,
                    pre.can_absorb(n as int),
                    status_absorbed(pre.outgoing_payments, cache.outgoing_payments, ps.take(i as int)),
                    reason_absorbed(
                        pre.payment_failure_reasons,
                        cache.payment_failure_reasons,
                        ps.take(i as int),
                    ),
                    cache.index_offset == pre.index_offset,
                    cache.total_fee_msat == pre.total_fee_msat,
                decreases n - i,
            {
                proof {
                    lemma_counts_bounds(ps.take(i as int));
                    lemma_counts_take_step(ps, i as int);
                }
                let p = resp.payments[i];
                match p.status {
                    PaymentStatus::Unknown => {
                        cache.outgoing_payments.unknown = cache.outgoing_payments.unknown + 1;
                    },
                    PaymentStatus::InFlight => {
                        cache.outgoing_payments.in_flight = cache.outgoing_payments.in_flight + 1;
                    },
                    PaymentStatus::Succeeded => {
                        cache.outgoing_payments.succeeded = cache.outgoing_payments.succeeded + 1;
                    },
                    PaymentStatus::Failed => {
                        cache.outgoing_payments.failed = cache.outgoing_payments.failed + 1;
                    },
                }
                match p.failure_reason {
                    PaymentFailureReason::FailureReasonNone => {
                        cache.payment_failure_reasons.none = cache.payment_failure_reasons.none + 1;
                    },
                    PaymentFailureReason::FailureReasonTimeout => {
                        cache.payment_failure_reasons.timeout =
                            cache.payment_failure_reasons.timeout + 1;
                    },
                    PaymentFailureReason::FailureReasonNoRoute => {
                        cache.payment_failure_reasons.no_route =
                            cache.payment_failure_reasons.no_route + 1;
                    },
                    PaymentFailureReason::FailureReasonError => {
                        cache.payment_failure_reasons.error =
                            cache.payment_failure_reasons.error + 1;
                    },
                    PaymentFailureReason::FailureReasonIncorrectPaymentDetails => {
                        cache.payment_failure_reasons.incorrect_payment_details =
                            cache.payment_failure_reasons.incorrect_payment_details + 1;
                    },
                    PaymentFailureReason::FailureReasonInsufficientBalance => {
                        cache.payment_failure_reasons.insufficient_balance =
                            cache.payment_failure_reasons.insufficient_balance + 1;
                    },
                }
                i = i + 1;
            }
            proof {
                assert(ps.take(n as int) =~= ps);
                lemma_counts_bounds(ps);
            }
            cache.index_offset = resp.last_index_offset;
            let mut r = outgoing_payments(&cache.outgoing_payments);
            let mut tail = payment_failure_reasons(&cache.payment_failure_reasons);
            r.append(&mut tail);
            proof {
                assert(views(r@) =~~= payments_series(*cache));
            }
            r
        },
        Err(_) => Vec::new(),
    }
}

/// The full channel gauge vector of one successful channel scrape: three
/// balance-category series per returned channel, in response order.
pub open spec fn channel_series(chans: Seq<Channel>) -> Seq<SeriesView>
    decreases chans.len(),
{
    if chans.len() == 0 {
        Seq::empty()
    } else {
        channel_series(chans.drop_last()) + channel_triple(chans.last())
    }
}

/// Maps the outcome of the list-channels call to metric series: the
/// channel gauge vector is fully rebuilt from the response on success, and
/// empty on failure — no channel from an earlier poll survives.
pub fn scrape_listchannels(res: Result<ListChannelsResponse, RpcError>) -> (r: Vec<MetricSeries>)
    ensures
        match res {
            Ok(resp) => views(r@) == channel_series(resp.channels@),
            Err(_) => r@.len() == 0,
        },
{
    match res {
        Ok(resp) => {
            let mut r: Vec<MetricSeries> = Vec::new();
            let n = resp.channels.len();
            let mut i: usize = 0;
            while i < n
                invariant
                    i <= n,
                    n == resp.channels@.len(),
                    views(r@) == channel_series(resp.channels@.take(i as int)),
                decreases n - i,
            {
                let mut triple = channel_balance_total_sat(&resp.channels[i]);
                r.append(&mut triple);
                proof {
                    assert(resp.channels@.take(i as int + 1).drop_last() =~= resp.channels@.take(
                        i as int,
                    ));
                    assert(resp.channels@.take(i as int + 1).last() == resp.channels@[i as int]);
                    assert(views(r@) =~~= channel_series(resp.channels@.take(i as int + 1)));
                }
                i = i + 1;
            }
            proof {
                assert(resp.channels@.take(n as int) =~= resp.channels@);
            }
            r
        },
        Err(_) => Vec::new(),
    }
}

/// Law: the channel gauge vector holds exactly three series per channel of
/// the latest successful response.
pub proof fn lemma_channel_series_len(chans: Seq<Channel>)
    ensures
        channel_series(chans).len() == 3 * chans.len(),
    decreases chans.len(),
{
    if chans.len() > 0 {
        lemma_channel_series_len(chans.drop_last());
    }
}

/// Law: every series of the channel gauge vector belongs to a channel of
/// the response it was built from — no stale channel persists.
pub proof fn lemma_channel_series_fresh(chans: Seq<Channel>, i: int)
    requires
        0 <= i < channel_series(chans).len(),
    ensures
        exists|j: int|
            0 <= j < chans.len() && channel_triple(chans[j]).contains(channel_series(chans)[i]),
    decreases chans.len(),
{
    lemma_channel_series_len(chans);
    let prefix = channel_series(chans.drop_last());
    if i < prefix.len() {
        lemma_channel_series_fresh(chans.drop_last(), i);
        let j = choose|j: int|
            0 <= j < chans.drop_last().len() && channel_triple(chans.drop_last()[j]).contains(
                channel_series(chans.drop_last())[i],
            );
        assert(chans.drop_last()[j] == chans[j]);
        assert(channel_triple(chans[j]).contains(channel_series(chans)[i]));
    } else {
        let j = chans.len() - 1;
        assert(channel_series(chans)[i] == channel_triple(chans.last())[i - prefix.len()]);
        assert(channel_triple(chans[j]).contains(channel_series(chans)[i]));
    }
}

} // verus!
