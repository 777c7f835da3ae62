use lnd_exporter::domain::{Channel, ListChannelsResponse};
use lnd_exporter::interceptor::Interceptor;
use lnd_exporter::metrics::{
    block_height, channel_balance_total_sat, num_peers_total, total_fee_msat,
};
use lnd_exporter::scrape::scrape_listchannels;
use lnd_exporter::text::u64_to_dec;

#[test]
fn macaroon_header_is_lowercase_hex() {
    let interceptor = Interceptor::new(Some(vec![0xde, 0xad, 0xbe, 0xef]));
    assert_eq!(interceptor.macaroon_hex(), Some(String::from("deadbeef")));
    // cross-check against the encoder relied upon
    assert_eq!(interceptor.macaroon_hex().unwrap(), hex::encode([0xde, 0xad, 0xbe, 0xef]));
}

#[test]
fn macaroon_header_keeps_leading_zero_nibbles() {
    let interceptor = Interceptor::new(Some(vec![0x00, 0x0f, 0x10]));
    assert_eq!(interceptor.macaroon_hex(), Some(String::from("000f10")));
}

#[test]
fn no_macaroon_means_no_header() {
    let interceptor = Interceptor::new(None);
    assert_eq!(interceptor.macaroon_hex(), None);
}

#[test]
fn empty_macaroon_encodes_to_empty_header() {
    let interceptor = Interceptor::new(Some(Vec::new()));
    assert_eq!(interceptor.macaroon_hex(), Some(String::new()));
}

#[test]
fn decimal_rendering_matches_std() {
    for n in [0u64, 1, 9, 10, 99, 100, 123, 65535, u64::MAX] {
        assert_eq!(u64_to_dec(n), n.to_string());
    }
}

#[test]
fn channel_id_label_renders_largest_id() {
    let resp = ListChannelsResponse {
        channels: vec![Channel {
            chan_id: u64::MAX,
            active: true,
            channel_point: String::from("max:0"),
            local_balance: 0,
            remote_balance: 0,
            unsettled_balance: 0,
        }],
    };
    let out = scrape_listchannels(Ok(resp));
    assert_eq!(out[0].labels[0].1, format!("{}", u64::MAX));
}

#[test]
fn plain_gauge_builders_carry_name_and_value() {
    let peers = num_peers_total(12);
    assert_eq!(peers.name, "lnd_num_peers_total");
    assert_eq!(peers.value, 12);
    assert!(peers.labels.is_empty());

    let height = block_height(700000);
    assert_eq!(height.name, "lnd_block_height");
    assert_eq!(height.value, 700000);

    let fee = total_fee_msat(1234);
    assert_eq!(fee.name, "lnd_total_fee_msat");
    assert_eq!(fee.value, 1234);
}

#[test]
fn channel_builder_orders_categories() {
    let c = Channel {
        chan_id: 1,
        active: false,
        channel_point: String::from("a:1"),
        local_balance: -5,
        remote_balance: 7,
        unsettled_balance: 2,
    };
    let out = channel_balance_total_sat(&c);
    let categories: Vec<&str> = out.iter().map(|m| m.labels[3].1.as_str()).collect();
    assert_eq!(categories, vec!["local", "remote", "unsettled"]);
    assert_eq!(out[0].value, -5);
    assert_eq!(out[1].value, 7);
    assert_eq!(out[2].value, 2);
}
