//! The orchestrator of one collection cycle: it owns the payment cursor
//! cache, runs the three scrapes in a fixed order over the RPC outcomes it
//! is handed, and returns the concatenation of every series produced.
//!
//! The caller holds one value of this type behind a single exclusive lock
//! spanning the whole cycle, together with the RPC connection. `collect`
//! takes the cache through one atomic transition: no caller can observe an
//! offset that has advanced without its tallies, or the reverse.

use vstd::prelude::*;
use vstd::string::StringExecFns;
use crate::cursor::{payments_applied, ListPaymentsCache};
use crate::domain::{ListChannelsResponse, ListPaymentsResponse, NodeInfo, RpcError};
use crate::metrics::{views, MetricSeries, SeriesView};
use crate::scrape::{
    channel_series, getinfo_series, payments_scrape_pre, payments_series, scrape_getinfo,
    scrape_listchannels, scrape_listpayments,
};

verus! {

/// How one cycle changes the cursor cache: a successful payment response
/// is applied in full, a failed one leaves the cache untouched. The other
/// two scrapes never touch it.
pub open spec fn cursor_step(
    pre: ListPaymentsCache,
    post: ListPaymentsCache,
    res: Result<ListPaymentsResponse, RpcError>,
) -> bool {
    match res {
        Ok(resp) => payments_applied(pre, post, resp),
        Err(_) => post == pre,
    }
}

/// The series one cycle owes for the get-info scrape.
pub open spec fn getinfo_batch(res: Result<NodeInfo, RpcError>) -> Seq<SeriesView> {
    match res {
        Ok(info) => getinfo_series(info),
        Err(_) => Seq::empty(),
    }
}

/// The series one cycle owes for the payment scrape, given the cache
/// state the scrape left behind.
pub open spec fn payments_batch(
    cache: ListPaymentsCache,
    res: Result<ListPaymentsResponse, RpcError>,
) -> Seq<SeriesView> {
    match res {
        Ok(_) => payments_series(cache),
        Err(_) => Seq::empty(),
    }
}

/// The series one cycle owes for the channel scrape.
pub open spec fn channels_batch(res: Result<ListChannelsResponse, RpcError>) -> Seq<SeriesView> {
    match res {
        Ok(resp) => channel_series(resp.channels@),
        Err(_) => Seq::empty(),
    }
}

/// Owner of the payment cursor cache for the life of the process.
pub struct LndCollector {
    pub listpayments_cache: ListPaymentsCache,
}

impl LndCollector {
    /// A collector whose cursor starts at offset zero with all tallies at
    /// zero.
    pub fn new() -> (c: LndCollector)
        ensures
            c.listpayments_cache == ListPaymentsCache::initial(),
    {
        LndCollector { listpayments_cache: ListPaymentsCache::new() }
    }

    /// The metric-family names the collector announces up front.
    pub fn desc(&self) -> (d: Vec<String>)
        ensures
            d@.len() == 3,
            d@[0]@ == "lnd_num_peers_total"@,
            d@[1]@ == "lnd_block_height"@,
            d@[2]@ == "lnd_outgoing_payments"@,
    {
        let mut d: Vec<String> = Vec::new();
        d.push(String::from_str("lnd_num_peers_total"));
        d.push(String::from_str("lnd_block_height"));
        d.push(String::from_str("lnd_outgoing_payments"));
        d
    }

    /// Runs one full collection cycle over the outcomes of the three RPC
    /// calls, in fixed order: node info, payments, channels. Each failed
    /// scrape only removes its own series from the batch; the payment
    /// scrape is the only one that moves the cursor cache, and it moves
    /// it in one step together with its series.
    pub fn collect(
        &mut self,
        info_res: Result<NodeInfo, RpcError>,
        payments_res: Result<ListPaymentsResponse, RpcError>,
        channels_res: Result<ListChannelsResponse, RpcError>,
    ) -> (r: Vec<MetricSeries>)
        requires
            payments_scrape_pre(old(self).listpayments_cache, payments_res),
        ensures
            cursor_step(
                old(self).listpayments_cache,
                final(self).listpayments_cache,
                payments_res,
            ),
            views(r@) == getinfo_batch(info_res) + payments_batch(
                final(self).listpayments_cache,
                payments_res,
            ) + channels_batch(channels_res),
            old(self).listpayments_cache.wf() ==> final(self).listpayments_cache.wf(),
    {
        let mut r = scrape_getinfo(info_res);
        let mut pays = scrape_listpayments(&mut self.listpayments_cache, payments_res);
        let mut chans = scrape_listchannels(channels_res);
        r.append(&mut pays);
        r.append(&mut chans);
        proof {
            assert(views(r@) =~~= getinfo_batch(info_res) + payments_batch(
                self.listpayments_cache,
                payments_res,
            ) + channels_batch(channels_res));
        }
        r
    }
}

} // verus!
