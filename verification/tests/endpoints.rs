use marketd::api::{health_summary, select_makers};
use marketd::state::{
    ApiFidelityBond, ApiMaker, ApiMakerState, ApiOffer, ApiOutpoint, MakerStore,
};

fn seeded_makers() -> Vec<ApiMaker> {
    vec![
        ApiMaker {
            address: "127.0.0.1:6102".into(),
            state: ApiMakerState::Good,
            protocol: Some("taproot"),
            timestamp: 1_234_567_890,
            last_offer_update_ts: Some(1_234_567_890),
            next_offer_check_ts: Some(1_234_567_950),
            offer: Some(ApiOffer {
                base_fee: 1000,
                amount_relative_fee_pct_bits: 0.5f64.to_bits(),
                time_relative_fee_pct_bits: 0.1f64.to_bits(),
                min_size: 10_000,
                max_size: 100_000_000,
                required_confirms: 1,
                minimum_locktime: 144,
                tweakable_point: "02abcd".into(),
                fidelity_bond: ApiFidelityBond {
                    amount: 5_000_000,
                    outpoint: ApiOutpoint { txid: "deadbeef".into(), vout: 0 },
                    lock_time: 800_000,
                    cert_hash: "feedface".into(),
                    cert_sig: "303d".into(),
                },
            }),
        },
        ApiMaker {
            address: "127.0.0.1:7777".into(),
            state: ApiMakerState::Unresponsive { retries: 3 },
            protocol: None,
            timestamp: 1_234_567_890,
            last_offer_update_ts: None,
            next_offer_check_ts: Some(1_234_568_000),
            offer: None,
        },
        ApiMaker {
            address: "127.0.0.1:8888".into(),
            state: ApiMakerState::Bad,
            protocol: None,
            timestamp: 1_234_567_890,
            last_offer_update_ts: None,
            next_offer_check_ts: None,
            offer: None,
        },
    ]
}

#[test]
fn health_and_makers_empty_store() {
    let store = MakerStore::default();
    let h = health_summary(&store);
    assert_eq!(h.maker_count, 0);
    assert_eq!(h.with_offer, 0);
    assert!(h.last_sync.is_none());
    assert_eq!(select_makers(&store.makers, &None).len(), 0);
}

#[test]
fn makers_returns_seeded_data() {
    let mut store = MakerStore::default();
    store.publish(seeded_makers(), 1_700_000_000);
    let listed = select_makers(&store.makers, &None);
    assert_eq!(listed.len(), 3, "bad and unresponsive makers must be returned");
    assert_eq!(listed[0].address, "127.0.0.1:6102");
    assert_eq!(listed[0].state, ApiMakerState::Good);
    assert_eq!(listed[0].protocol, Some("taproot"));
    let offer = listed[0].offer.as_ref().expect("offer");
    assert_eq!(offer.base_fee, 1000);
    assert_eq!(offer.fidelity_bond.amount, 5_000_000);
    assert_eq!(offer.fidelity_bond.outpoint.txid, "deadbeef");
    assert_eq!(listed[1].state, ApiMakerState::Unresponsive { retries: 3 });
    assert!(listed[1].offer.is_none());
    assert!(listed[1].protocol.is_none());
    assert_eq!(listed[2].state, ApiMakerState::Bad);
    assert!(listed[2].offer.is_none());

    let h = health_summary(&store);
    assert_eq!(h.maker_count, 3);
    assert_eq!(h.with_offer, 1);
    assert_eq!(h.last_sync, Some(1_700_000_000));
}

#[test]
fn state_filter_narrows_listing() {
    let makers = seeded_makers();
    let good = select_makers(&makers, &Some(ApiMakerState::Good));
    assert_eq!(good.len(), 1);
    assert_eq!(good[0].address, "127.0.0.1:6102");
    let bad = select_makers(&makers, &Some(ApiMakerState::Bad));
    assert_eq!(bad.len(), 1);
    assert_eq!(bad[0].address, "127.0.0.1:8888");
    let unresp = select_makers(&makers, &Some(ApiMakerState::Unresponsive { retries: 3 }));
    assert_eq!(unresp.len(), 1);
    assert_eq!(unresp[0].address, "127.0.0.1:7777");
    let other = select_makers(&makers, &Some(ApiMakerState::Unresponsive { retries: 2 }));
    assert!(other.is_empty());
}

#[test]
fn publish_replaces_snapshot() {
    let mut store = MakerStore::default();
    store.publish(seeded_makers(), 10);
    store.publish(Vec::new(), 20);
    let h = health_summary(&store);
    assert_eq!(h.maker_count, 0);
    assert_eq!(h.with_offer, 0);
    assert_eq!(h.last_sync, Some(20));
}
