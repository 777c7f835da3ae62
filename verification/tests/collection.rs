use lnd_exporter::collector::LndCollector;
use lnd_exporter::cursor::ListPaymentsCache;
use lnd_exporter::domain::{
    Channel, ListChannelsResponse, ListPaymentsResponse, NodeInfo, Payment, PaymentFailureReason,
    PaymentStatus, RpcError,
};
use lnd_exporter::metrics::MetricKind;
use lnd_exporter::scrape::{scrape_getinfo, scrape_listchannels, scrape_listpayments};

fn rpc_err() -> RpcError {
    RpcError { message: String::from("transport failure") }
}

fn payment(status: PaymentStatus, reason: PaymentFailureReason) -> Payment {
    Payment { status, failure_reason: reason }
}

#[test]
fn getinfo_success_emits_peers_and_height() {
    let out = scrape_getinfo(Ok(NodeInfo { num_peers: 5, block_height: 812345 }));
    assert_eq!(out.len(), 2);
    assert_eq!(out[0].name, "lnd_num_peers_total");
    assert!(matches!(out[0].kind, MetricKind::Gauge));
    assert!(out[0].labels.is_empty());
    assert_eq!(out[0].value, 5);
    assert_eq!(out[1].name, "lnd_block_height");
    assert!(out[1].labels.is_empty());
    assert_eq!(out[1].value, 812345);
}

#[test]
fn getinfo_failure_emits_nothing() {
    let out = scrape_getinfo(Err(rpc_err()));
    assert!(out.is_empty());
}

#[test]
fn payment_polls_accumulate_and_advance_offset() {
    let mut cache = ListPaymentsCache::new();
    assert_eq!(cache.index_offset, 0);

    let first = ListPaymentsResponse {
        payments: vec![
            payment(PaymentStatus::Succeeded, PaymentFailureReason::FailureReasonNone),
            payment(PaymentStatus::Succeeded, PaymentFailureReason::FailureReasonNone),
            payment(PaymentStatus::Failed, PaymentFailureReason::FailureReasonTimeout),
        ],
        last_index_offset: 10,
    };
    let out = scrape_listpayments(&mut cache, Ok(first));
    assert_eq!(cache.index_offset, 10);
    assert_eq!(cache.outgoing_payments.succeeded, 2);
    assert_eq!(cache.outgoing_payments.failed, 1);
    // status vector first, then the failure-reason vector
    assert_eq!(out.len(), 4);
    assert_eq!(out[0].name, "lnd_outgoing_payments");
    assert_eq!(out[0].labels, vec![(String::from("status"), String::from("succeeded"))]);
    assert_eq!(out[0].value, 2);
    assert_eq!(out[1].labels, vec![(String::from("status"), String::from("failed"))]);
    assert_eq!(out[1].value, 1);
    assert_eq!(out[2].name, "lnd_payment_failure_reasons");
    assert_eq!(out[2].labels, vec![(String::from("reason"), String::from("none"))]);
    assert_eq!(out[2].value, 2);
    assert_eq!(out[3].labels, vec![(String::from("reason"), String::from("timeout"))]);
    assert_eq!(out[3].value, 1);

    let second = ListPaymentsResponse {
        payments: vec![payment(PaymentStatus::InFlight, PaymentFailureReason::FailureReasonNone)],
        last_index_offset: 10,
    };
    let out = scrape_listpayments(&mut cache, Ok(second));
    assert_eq!(cache.index_offset, 10);
    assert_eq!(out[0].labels, vec![(String::from("status"), String::from("in_flight"))]);
    assert_eq!(out[0].value, 1);
    assert_eq!(out[1].labels, vec![(String::from("status"), String::from("succeeded"))]);
    assert_eq!(out[1].value, 2);
    assert_eq!(out[2].labels, vec![(String::from("status"), String::from("failed"))]);
    assert_eq!(out[2].value, 1);
    assert_eq!(out[3].labels, vec![(String::from("reason"), String::from("none"))]);
    assert_eq!(out[3].value, 3);
}

#[test]
fn failed_payment_poll_leaves_cache_untouched() {
    let mut cache = ListPaymentsCache::new();
    let seed = ListPaymentsResponse {
        payments: vec![payment(PaymentStatus::Succeeded, PaymentFailureReason::FailureReasonNone)],
        last_index_offset: 7,
    };
    scrape_listpayments(&mut cache, Ok(seed));
    let before = cache;
    let out = scrape_listpayments(&mut cache, Err(rpc_err()));
    assert!(out.is_empty());
    assert_eq!(cache, before);
}

#[test]
fn every_status_and_reason_has_a_label() {
    let mut cache = ListPaymentsCache::new();
    let resp = ListPaymentsResponse {
        payments: vec![
            payment(PaymentStatus::Unknown, PaymentFailureReason::FailureReasonNone),
            payment(PaymentStatus::InFlight, PaymentFailureReason::FailureReasonTimeout),
            payment(PaymentStatus::Succeeded, PaymentFailureReason::FailureReasonNoRoute),
            payment(PaymentStatus::Failed, PaymentFailureReason::FailureReasonError),
            payment(
                PaymentStatus::Failed,
                PaymentFailureReason::FailureReasonIncorrectPaymentDetails,
            ),
            payment(
                PaymentStatus::Failed,
                PaymentFailureReason::FailureReasonInsufficientBalance,
            ),
        ],
        last_index_offset: 6,
    };
    let out = scrape_listpayments(&mut cache, Ok(resp));
    let status_labels: Vec<&str> = out
        .iter()
        .filter(|m| m.name == "lnd_outgoing_payments")
        .map(|m| m.labels[0].1.as_str())
        .collect();
    assert_eq!(status_labels, vec!["unknown", "in_flight", "succeeded", "failed"]);
    let reason_labels: Vec<&str> = out
        .iter()
        .filter(|m| m.name == "lnd_payment_failure_reasons")
        .map(|m| m.labels[0].1.as_str())
        .collect();
    assert_eq!(
        reason_labels,
        vec![
            "none",
            "timeout",
            "no_route",
            "error",
            "incorrect_payment_details",
            "insufficient_balance",
        ],
    );
}

#[test]
fn channel_scrape_emits_three_series_per_channel() {
    let resp = ListChannelsResponse {
        channels: vec![Channel {
            chan_id: 123,
            active: true,
            channel_point: String::from("abc:0"),
            local_balance: 1000,
            remote_balance: 2000,
            unsettled_balance: 0,
        }],
    };
    let out = scrape_listchannels(Ok(resp));
    assert_eq!(out.len(), 3);
    let expected = [("local", 1000), ("remote", 2000), ("unsettled", 0)];
    for (m, (category, value)) in out.iter().zip(expected.iter()) {
        assert_eq!(m.name, "lnd_channel_balance_total_sat");
        assert_eq!(
            m.labels,
            vec![
                (String::from("chan_id"), String::from("123")),
                (String::from("active"), String::from("true")),
                (String::from("channel_point"), String::from("abc:0")),
                (String::from("category"), String::from(*category)),
            ],
        );
        assert_eq!(m.value, *value);
    }
}

#[test]
fn channel_scrape_forgets_closed_channels() {
    let one = |chan_id: u64| ListChannelsResponse {
        channels: vec![Channel {
            chan_id,
            active: false,
            channel_point: String::from("def:1"),
            local_balance: 1,
            remote_balance: 2,
            unsettled_balance: 3,
        }],
    };
    let first = scrape_listchannels(Ok(one(42)));
    assert_eq!(first.len(), 3);
    let second = scrape_listchannels(Ok(one(43)));
    assert_eq!(second.len(), 3);
    for m in &second {
        assert_eq!(m.labels[0], (String::from("chan_id"), String::from("43")));
        assert_eq!(m.labels[1], (String::from("active"), String::from("false")));
    }
    let after_failure = scrape_listchannels(Err(rpc_err()));
    assert!(after_failure.is_empty());
}

#[test]
fn collect_concatenates_all_three_scrapes_in_order() {
    let mut collector = LndCollector::new();
    let out = collector.collect(
        Ok(NodeInfo { num_peers: 5, block_height: 812345 }),
        Ok(ListPaymentsResponse {
            payments: vec![payment(
                PaymentStatus::Succeeded,
                PaymentFailureReason::FailureReasonNone,
            )],
            last_index_offset: 1,
        }),
        Ok(ListChannelsResponse {
            channels: vec![Channel {
                chan_id: 9,
                active: true,
                channel_point: String::from("xyz:2"),
                local_balance: 10,
                remote_balance: 20,
                unsettled_balance: 30,
            }],
        }),
    );
    let names: Vec<&str> = out.iter().map(|m| m.name.as_str()).collect();
    assert_eq!(
        names,
        vec![
            "lnd_num_peers_total",
            "lnd_block_height",
            "lnd_outgoing_payments",
            "lnd_payment_failure_reasons",
            "lnd_channel_balance_total_sat",
            "lnd_channel_balance_total_sat",
            "lnd_channel_balance_total_sat",
        ],
    );
}

#[test]
fn collect_survives_getinfo_failure() {
    let mut collector = LndCollector::new();
    let out = collector.collect(
        Err(rpc_err()),
        Ok(ListPaymentsResponse {
            payments: vec![payment(
                PaymentStatus::Succeeded,
                PaymentFailureReason::FailureReasonNone,
            )],
            last_index_offset: 4,
        }),
        Ok(ListChannelsResponse {
            channels: vec![Channel {
                chan_id: 7,
                active: true,
                channel_point: String::from("pt:0"),
                local_balance: 5,
                remote_balance: 6,
                unsettled_balance: 7,
            }],
        }),
    );
    assert!(out.iter().all(|m| m.name != "lnd_num_peers_total"));
    assert!(out.iter().all(|m| m.name != "lnd_block_height"));
    assert!(out.iter().any(|m| m.name == "lnd_outgoing_payments"));
    assert!(out.iter().any(|m| m.name == "lnd_channel_balance_total_sat"));
    assert_eq!(collector.listpayments_cache.index_offset, 4);
}

#[test]
fn collect_with_every_scrape_failed_is_empty() {
    let mut collector = LndCollector::new();
    let before = collector.listpayments_cache;
    let out = collector.collect(Err(rpc_err()), Err(rpc_err()), Err(rpc_err()));
    assert!(out.is_empty());
    assert_eq!(collector.listpayments_cache, before);
}

#[test]
fn collector_desc_names_families() {
    let collector = LndCollector::new();
    let d = collector.desc();
    assert_eq!(
        d,
        vec![
            String::from("lnd_num_peers_total"),
            String::from("lnd_block_height"),
            String::from("lnd_outgoing_payments"),
        ],
    );
}
