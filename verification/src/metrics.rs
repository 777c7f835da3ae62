//! The metric series the exporter emits, and the builders that produce
//! them from domain values.

use vstd::prelude::*;
use vstd::string::StringExecFns;
use crate::cursor::{ReasonCounts, StatusCounts};
use crate::domain::Channel;
use crate::text::{dec_str, u64_to_dec};

verus! {

/// The kind of a metric series; every series this exporter emits is a
/// gauge.
#[derive(Clone, Copy, Debug, PartialEq, Eq, Structural)]
pub enum MetricKind {
    Gauge,
}

/// One metric sample: a name, a kind, a label set (key/value pairs in a
/// fixed order) and a value.
#[derive(Clone, Debug)]
pub struct MetricSeries {
    pub name: String,
    pub kind: MetricKind,
    pub labels: Vec<(String, String)>,
    pub value: i64,
}

/// The mathematical shape of one metric series: its strings as character
/// sequences and its value as an unbounded integer.
#[verifier::ext_equal]
pub struct SeriesView {
    pub name: Seq<char>,
    pub kind: MetricKind,
    pub labels: Seq<(Seq<char>, Seq<char>)>,
    pub value: int,
}

impl View for MetricSeries {
    type V = SeriesView;

    open spec fn view(&self) -> SeriesView {
        SeriesView {
            name: self.name@,
            kind: self.kind,
            labels: self.labels@.map_values(|p: (String, String)| (p.0@, p.1@)),
            value: self.value as int,
        }
    }
}

/// A gauge series with the given name, labels and value.
pub open spec fn gauge(name: Seq<char>, labels: Seq<(Seq<char>, Seq<char>)>, value: int) -> SeriesView {
    SeriesView { name, kind: MetricKind::Gauge, labels, value }
}

/// The views of a batch of series, in order.
pub open spec fn views(ms: Seq<MetricSeries>) -> Seq<SeriesView> {
    ms.map_values(|m: MetricSeries| m@)
}

/// Builds a gauge with no labels.
fn plain_gauge(name: &str, value: i64) -> (m: MetricSeries)
    ensures
        m@ == gauge(name@, Seq::<(Seq<char>, Seq<char>)>::empty(), value as int),
{
    let m = MetricSeries {
        name: String::from_str(name),
        kind: MetricKind::Gauge,
        labels: Vec::new(),
        value,
    };
    proof {
        assert(m@ =~~= gauge(name@, Seq::<(Seq<char>, Seq<char>)>::empty(), value as int));
    }
    m
}

/// Builds a gauge with one label.
pub(crate) fn labeled_gauge(name: &str, key: &str, label: String, value: i64) -> (m: MetricSeries)
    ensures
        m@ == gauge(name@, seq![(key@, label@)], value as int),
{
    let mut labels: Vec<(String, String)> = Vec::new();
    labels.push((String::from_str(key), label));
    let m = MetricSeries { name: String::from_str(name), kind: MetricKind::Gauge, labels, value };
    proof {
        assert(m@ =~~= gauge(name@, seq![(key@, label@)], value as int));
    }
    m
}

/// Gauge of the number of peers connected to the node.
pub fn num_peers_total(value: i64) -> (m: MetricSeries)
    ensures
        m@ == gauge("lnd_num_peers_total"@, Seq::<(Seq<char>, Seq<char>)>::empty(), value as int),
{
    plain_gauge("lnd_num_peers_total", value)
}

/// Gauge of the chain block height the node reports.
pub fn block_height(value: i64) -> (m: MetricSeries)
    ensures
        m@ == gauge("lnd_block_height"@, Seq::<(Seq<char>, Seq<char>)>::empty(), value as int),
{
    plain_gauge("lnd_block_height", value)
}

/// Gauge of the total routing fee paid, in millisatoshi.
pub fn total_fee_msat(value: i64) -> (m: MetricSeries)
    ensures
        m@ == gauge("lnd_total_fee_msat"@, Seq::<(Seq<char>, Seq<char>)>::empty(), value as int),
{
    plain_gauge("lnd_total_fee_msat", value)
}

/// One entry of the outgoing-payments gauge vector.
pub open spec fn status_entry(label: Seq<char>, value: int) -> SeriesView {
    gauge("lnd_outgoing_payments"@, seq![("status"@, label)], value)
}

/// The outgoing-payments gauge vector built from the full current
/// tallies: one series per status that has been seen at least once, in a
/// fixed order.
pub open spec fn status_series(c: StatusCounts) -> Seq<SeriesView> {
    (if c.unknown > 0 {
        seq![status_entry("unknown"@, c.unknown as int)]
    } else {
        Seq::empty()
    }) + (if c.in_flight > 0 {
        seq![status_entry("in_flight"@, c.in_flight as int)]
    } else {
        Seq::empty()
    }) + (if c.succeeded > 0 {
        seq![status_entry("succeeded"@, c.succeeded as int)]
    } else {
        Seq::empty()
    }) + (if c.failed > 0 {
        seq![status_entry("failed"@, c.failed as int)]
    } else {
        Seq::empty()
    })
}

/// One entry of the failure-reasons gauge vector.
pub open spec fn reason_entry(label: Seq<char>, value: int) -> SeriesView {
    gauge("lnd_payment_failure_reasons"@, seq![("reason"@, label)], value)
}

/// The failure-reasons gauge vector built from the full current tallies:
/// one series per reason that has been seen at least once, in a fixed
/// order.
pub open spec fn reason_series(c: ReasonCounts) -> Seq<SeriesView> {
    (if c.none > 0 {
        seq![reason_entry("none"@, c.none as int)]
    } else {
        Seq::empty()
    }) + (if c.timeout > 0 {
        seq![reason_entry("timeout"@, c.timeout as int)]
    } else {
        Seq::empty()
    }) + (if c.no_route > 0 {
        seq![reason_entry("no_route"@, c.no_route as int)]
    } else {
        Seq::empty()
    }) + (if c.error > 0 {
        seq![reason_entry("error"@, c.error as int)]
    } else {
        Seq::empty()
    }) + (if c.incorrect_payment_details > 0 {
        seq![reason_entry("incorrect_payment_details"@, c.incorrect_payment_details as int)]
    } else {
        Seq::empty()
    }) + (if c.insufficient_balance > 0 {
        seq![reason_entry("insufficient_balance"@, c.insufficient_balance as int)]
    } else {
        Seq::empty()
    })
}

/// Builds the outgoing-payments gauge vector from the current tallies.
pub fn outgoing_payments(c: &StatusCounts) -> (r: Vec<MetricSeries>)
    ensures
        views(r@) == status_series(*c),
{
    let mut r: Vec<MetricSeries> = Vec::new();
    if c.unknown > 0 {
        r.push(labeled_gauge("lnd_outgoing_payments", "status", String::from_str("unknown"), c.unknown));
    }
    if c.in_flight > 0 {
        r.push(labeled_gauge("lnd_outgoing_payments", "status", String::from_str("in_flight"), c.in_flight));
    }
    if c.succeeded > 0 {
        r.push(labeled_gauge("lnd_outgoing_payments", "status", String::from_str("succeeded"), c.succeeded));
    }
    if c.failed > 0 {
        r.push(labeled_gauge("lnd_outgoing_payments", "status", String::from_str("failed"), c.failed));
    }
    proof {
        assert(views(r@) =~~= status_series(*c));
    }
    r
}

/// Builds the failure-reasons gauge vector from the current tallies.
pub fn payment_failure_reasons(c: &ReasonCounts) -> (r: Vec<MetricSeries>)
    ensures
        views(r@) == reason_series(*c),
{
    let mut r: Vec<MetricSeries> = Vec::new();
    if c.none > 0 {
        r.push(labeled_gauge("lnd_payment_failure_reasons", "reason", String::from_str("none"), c.none));
    }
    if c.timeout > 0 {
        r.push(labeled_gauge("lnd_payment_failure_reasons", "reason", String::from_str("timeout"), c.timeout));
    }
    if c.no_route > 0 {
        r.push(labeled_gauge("lnd_payment_failure_reasons", "reason", String::from_str("no_route"), c.no_route));
    }
    if c.error > 0 {
        r.push(labeled_gauge("lnd_payment_failure_reasons", "reason", String::from_str("error"), c.error));
    }
    if c.incorrect_payment_details > 0 {
        r.push(labeled_gauge(
            "lnd_payment_failure_reasons",
            "reason",
            String::from_str("incorrect_payment_details"),
            c.incorrect_payment_details,
        ));
    }
    if c.insufficient_balance > 0 {
        r.push(labeled_gauge(
            "lnd_payment_failure_reasons",
            "reason",
            String::from_str("insufficient_balance"),
            c.insufficient_balance,
        ));
    }
    proof {
        assert(views(r@) =~~= reason_series(*c));
    }
    r
}

/// The label set of one channel-balance series: channel id, active flag
/// and channel point, plus the balance category.
pub open spec fn chan_labels(c: Channel, category: Seq<char>) -> Seq<(Seq<char>, Seq<char>)> {
    seq![
        ("chan_id"@, dec_str(c.chan_id as int)),
        ("active"@, if c.active { "true"@ } else { "false"@ }),
        ("channel_point"@, c.channel_point@),
        ("category"@, category),
    ]
}

/// The three balance series of one channel: local, remote and unsettled,
/// in that order.
pub open spec fn channel_triple(c: Channel) -> Seq<SeriesView> {
    seq![
        gauge("lnd_channel_balance_total_sat"@, chan_labels(c, "local"@), c.local_balance as int),
        gauge("lnd_channel_balance_total_sat"@, chan_labels(c, "remote"@), c.remote_balance as int),
        gauge("lnd_channel_balance_total_sat"@, chan_labels(c, "unsettled"@), c.unsettled_balance as int),
    ]
}

fn channel_gauge(c: &Channel, category: &str, value: i64) -> (m: MetricSeries)
    ensures
        m@ == gauge("lnd_channel_balance_total_sat"@, chan_labels(*c, category@), value as int),
{
    let mut labels: Vec<(String, String)> = Vec::new();
    labels.push((String::from_str("chan_id"), u64_to_dec(c.chan_id)));
    let active = if c.active {
        String::from_str("true")
    } else {
        String::from_str("false")
    };
    labels.push((String::from_str("active"), active));
    labels.push((String::from_str("channel_point"), c.channel_point.clone()));
    labels.push((String::from_str("category"), String::from_str(category)));
    let m = MetricSeries {
        name: String::from_str("lnd_channel_balance_total_sat"),
        kind: MetricKind::Gauge,
        labels,
        value,
    };
    proof {
        assert(m@ =~~= gauge("lnd_channel_balance_total_sat"@, chan_labels(*c, category@), value as int));
    }
    m
}

/// Builds the three balance-category series of one channel.
pub fn channel_balance_total_sat(c: &Channel) -> (r: Vec<MetricSeries>)
    ensures
        views(r@) == channel_triple(*c),
{
    let mut r: Vec<MetricSeries> = Vec::new();
    r.push(channel_gauge(c, "local", c.local_balance));
    r.push(channel_gauge(c, "remote", c.remote_balance));
    r.push(channel_gauge(c, "unsettled", c.unsettled_balance));
    proof {
        assert(views(r@) =~~= channel_triple(*c));
    }
    r
}

} // verus!
