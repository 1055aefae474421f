use marketd::state::{
    protocol_label, ApiMaker, ApiMakerState, ApiOffer, CoinswapOffer, MakerCandidate, MakerProtocol,
    MakerStore,
};
use marketd::text::{append_decimal, loopback_address};

fn sample_offer() -> CoinswapOffer {
    let mut txid = [0u8; 32];
    txid[0] = 0x01;
    txid[31] = 0xde;
    CoinswapOffer {
        base_fee: 1000,
        amount_relative_fee_pct_bits: 0.5f64.to_bits(),
        time_relative_fee_pct_bits: 0.1f64.to_bits(),
        min_size: 10_000,
        max_size: 100_000_000,
        required_confirms: 1,
        minimum_locktime: 144,
        tweakable_point: vec![0x02, 0xab, 0xcd],
        bond_amount_sat: 5_000_000,
        bond_txid: txid,
        bond_vout: 0,
        bond_lock_time: 800_000,
        cert_hash: "feedface".to_string(),
        cert_sig_der: vec![0x30, 0x3d],
    }
}

#[test]
fn protocol_labels() {
    assert_eq!(protocol_label(&MakerProtocol::Legacy), "legacy");
    assert_eq!(protocol_label(&MakerProtocol::Taproot), "taproot");
    assert_eq!(protocol_label(&MakerProtocol::Unified), "unified");
}

#[test]
fn offer_from_coinswap_copies_and_encodes() {
    let offer = ApiOffer::from_coinswap(&sample_offer());
    assert_eq!(offer.base_fee, 1000);
    assert_eq!(f64::from_bits(offer.amount_relative_fee_pct_bits), 0.5);
    assert_eq!(f64::from_bits(offer.time_relative_fee_pct_bits), 0.1);
    assert_eq!(offer.min_size, 10_000);
    assert_eq!(offer.max_size, 100_000_000);
    assert_eq!(offer.required_confirms, 1);
    assert_eq!(offer.minimum_locktime, 144);
    assert_eq!(offer.tweakable_point, "02abcd");
    assert_eq!(offer.fidelity_bond.amount, 5_000_000);
    assert_eq!(offer.fidelity_bond.lock_time, 800_000);
    assert_eq!(offer.fidelity_bond.cert_hash, "feedface");
    assert_eq!(offer.fidelity_bond.cert_sig, "303d");
    assert_eq!(offer.fidelity_bond.outpoint.vout, 0);
    // txids are shown byte-reversed
    let txid = &offer.fidelity_bond.outpoint.txid;
    assert_eq!(txid.len(), 64);
    assert!(txid.starts_with("de00"));
    assert!(txid.ends_with("0001"));
}

#[test]
fn hex_of_empty_bytes_is_empty() {
    let mut raw = sample_offer();
    raw.tweakable_point = vec![];
    raw.cert_sig_der = vec![0x00, 0xff, 0x0a];
    let offer = ApiOffer::from_coinswap(&raw);
    assert_eq!(offer.tweakable_point, "");
    assert_eq!(offer.fidelity_bond.cert_sig, "00ff0a");
}

#[test]
fn maker_from_candidate_with_offer() {
    let candidate = MakerCandidate {
        address: "127.0.0.1:6102".to_string(),
        state: ApiMakerState::Good,
        protocol: Some(MakerProtocol::Taproot),
        last_offer_update_ts: Some(1_234_567_890),
        next_offer_check_ts: Some(1_234_567_950),
        offer: Some(sample_offer()),
    };
    let maker = ApiMaker::from_candidate(&candidate, 1_234_567_890);
    assert_eq!(maker.address, "127.0.0.1:6102");
    assert_eq!(maker.state, ApiMakerState::Good);
    assert_eq!(maker.protocol, Some("taproot"));
    assert_eq!(maker.timestamp, 1_234_567_890);
    assert_eq!(maker.last_offer_update_ts, Some(1_234_567_890));
    assert_eq!(maker.next_offer_check_ts, Some(1_234_567_950));
    let offer = maker.offer.expect("offer");
    assert_eq!(offer.base_fee, 1000);
    assert_eq!(offer.fidelity_bond.amount, 5_000_000);
}

#[test]
fn unresponsive_maker_has_no_offer() {
    let candidate = MakerCandidate {
        address: "127.0.0.1:7777".to_string(),
        state: ApiMakerState::Unresponsive { retries: 3 },
        protocol: None,
        last_offer_update_ts: None,
        next_offer_check_ts: Some(1_234_568_000),
        offer: None,
    };
    let maker = ApiMaker::from_candidate(&candidate, 42);
    assert_eq!(maker.state, ApiMakerState::Unresponsive { retries: 3 });
    assert!(maker.protocol.is_none());
    assert!(maker.offer.is_none());
    assert_eq!(maker.timestamp, 42);
    assert_eq!(maker.next_offer_check_ts, Some(1_234_568_000));
}

#[test]
fn empty_store_by_default() {
    let store = MakerStore::default();
    assert!(store.makers.is_empty());
    assert!(store.last_sync.is_none());
}

#[test]
fn loopback_addresses() {
    assert_eq!(loopback_address(9051), "127.0.0.1:9051");
    assert_eq!(loopback_address(0), "127.0.0.1:0");
    assert_eq!(loopback_address(10), "127.0.0.1:10");
    assert_eq!(loopback_address(65535), "127.0.0.1:65535");
}

#[test]
fn append_decimal_extends() {
    let mut s = String::from("port ");
    append_decimal(&mut s, 1200);
    assert_eq!(s, "port 1200");
}

#[test]
fn bad_maker_offer_is_dropped() {
    for state in [ApiMakerState::Bad, ApiMakerState::Unresponsive { retries: 1 }] {
        let candidate = MakerCandidate {
            address: "127.0.0.1:8888".to_string(),
            state,
            protocol: Some(MakerProtocol::Legacy),
            last_offer_update_ts: Some(5),
            next_offer_check_ts: None,
            offer: Some(sample_offer()),
        };
        let maker = ApiMaker::from_candidate(&candidate, 9);
        assert_eq!(maker.state, state);
        assert_eq!(maker.protocol, Some("legacy"));
        assert!(maker.offer.is_none(), "offer must be null for a maker that is not good");
    }
}
