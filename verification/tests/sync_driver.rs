use marketd::api::health_summary;
use marketd::config::Config;
use marketd::state::{ApiMakerState, CoinswapOffer, MakerCandidate, MakerStore};
use marketd::sync::{
    build_taker_config, snapshot_makers, SyncAction, SyncDriver, SyncEvent, SyncOp, SyncPhase,
    INIT_RETRY_SECS, PROBE_RETRY_SECS,
};

fn probe_addr(a: &SyncAction) -> Option<&str> {
    match &a.op {
        SyncOp::Probe { addr } => Some(addr.as_str()),
        _ => None,
    }
}

fn candidate(address: &str, state: ApiMakerState, with_offer: bool) -> MakerCandidate {
    MakerCandidate {
        address: address.to_string(),
        state,
        protocol: None,
        last_offer_update_ts: None,
        next_offer_check_ts: None,
        offer: if with_offer {
            Some(CoinswapOffer {
                base_fee: 950,
                amount_relative_fee_pct_bits: 0,
                time_relative_fee_pct_bits: 0,
                min_size: 10_000,
                max_size: 5_000_000,
                required_confirms: 1,
                minimum_locktime: 10,
                tweakable_point: vec![0x03],
                bond_amount_sat: 5_000_000,
                bond_txid: [0u8; 32],
                bond_vout: 1,
                bond_lock_time: 1000,
                cert_hash: "00".to_string(),
                cert_sig_der: vec![],
            })
        } else {
            None
        },
    }
}

fn sample_config() -> Config {
    Config {
        bitcoin_rpc_url: "localhost:18443".into(),
        bitcoin_rpc_user: "user".into(),
        bitcoin_rpc_pass: "password".into(),
        zmq_addr: "tcp://127.0.0.1:28332".into(),
        tor_control_port: 9051,
        tor_auth_password: "".into(),
        sync_interval_secs: 60,
        listen_addr: "127.0.0.1:3000".into(),
        static_dir: "web/dist".into(),
        log_filter: "tower_http=debug,info".into(),
        no_color: false,
    }
}

#[test]
fn taker_settings_from_config() {
    let s = build_taker_config(&sample_config());
    assert_eq!(s.wallet_file_name.as_deref(), Some("marketd-wallet"));
    assert_eq!(s.rpc_url, "localhost:18443");
    assert_eq!(s.rpc_user, "user");
    assert_eq!(s.rpc_pass, "password");
    assert_eq!(s.rpc_wallet_name, "marketd-wallet");
    assert_eq!(s.control_port, Some(9051));
    assert_eq!(s.tor_auth_password.as_deref(), Some(""));
    assert_eq!(s.zmq_addr, "tcp://127.0.0.1:28332");
}

#[test]
fn tor_loop_probes_then_syncs() {
    let (mut d, a) = SyncDriver::new(Some("localhost:18443".into()), true, Some(9051), 60);
    assert_eq!(a.delay_secs, 0);
    assert_eq!(probe_addr(&a), Some("localhost:18443"));

    let a = d.step(SyncEvent::Probed { reachable: false });
    assert_eq!(a.delay_secs, PROBE_RETRY_SECS);
    assert_eq!(PROBE_RETRY_SECS, 5);
    assert_eq!(probe_addr(&a), Some("localhost:18443"));

    let a = d.step(SyncEvent::Probed { reachable: true });
    assert_eq!(a.delay_secs, 0);
    assert_eq!(probe_addr(&a), Some("127.0.0.1:9051"));

    let a = d.step(SyncEvent::Probed { reachable: false });
    assert_eq!(a.delay_secs, 5);
    assert_eq!(probe_addr(&a), Some("127.0.0.1:9051"));

    let a = d.step(SyncEvent::Probed { reachable: true });
    assert!(matches!(a.op, SyncOp::InitTaker));

    let a = d.step(SyncEvent::TakerInit { ok: false });
    assert_eq!(a.delay_secs, INIT_RETRY_SECS);
    assert_eq!(INIT_RETRY_SECS, 15);
    assert!(matches!(a.op, SyncOp::InitTaker));

    let a = d.step(SyncEvent::TakerInit { ok: true });
    assert_eq!(a.delay_secs, 0);
    assert!(matches!(a.op, SyncOp::SyncOfferbook));

    let a = d.step(SyncEvent::OfferbookSynced { ok: false });
    assert_eq!(a.delay_secs, 60);
    assert!(matches!(a.op, SyncOp::SyncOfferbook));

    let a = d.step(SyncEvent::OfferbookSynced { ok: true });
    assert_eq!(a.delay_secs, 0);
    assert!(matches!(a.op, SyncOp::FetchOffers));

    let a = d.step(SyncEvent::FetchFailed);
    assert_eq!(a.delay_secs, 60);
    assert!(a.publish.is_none());
    assert!(matches!(a.op, SyncOp::SyncOfferbook));

    d.step(SyncEvent::OfferbookSynced { ok: true });
    let candidates = vec![
        candidate("127.0.0.1:6102", ApiMakerState::Good, true),
        candidate("127.0.0.1:7777", ApiMakerState::Unresponsive { retries: 2 }, false),
        candidate("127.0.0.1:8888", ApiMakerState::Bad, true),
    ];
    let a = d.step(SyncEvent::OffersFetched { candidates, timestamp: 1_700_000_000 });
    assert_eq!(a.delay_secs, 60);
    assert!(matches!(a.op, SyncOp::SyncOfferbook));
    let published = a.publish.expect("snapshot");
    assert_eq!(published.timestamp, 1_700_000_000);
    assert_eq!(published.makers.len(), 3);
    assert_eq!(published.makers[1].state, ApiMakerState::Unresponsive { retries: 2 });

    let mut store = MakerStore::default();
    store.publish(published.makers, published.timestamp);
    let h = health_summary(&store);
    assert_eq!(h.maker_count, 3);
    assert_eq!(h.with_offer, 1);
    assert_eq!(h.last_sync, Some(1_700_000_000));
}

#[test]
fn clearnet_loop_skips_tor_probe() {
    let (mut d, a) = SyncDriver::new(Some("localhost:18443".into()), false, Some(9051), 30);
    assert!(d.tor_control_addr.is_none());
    assert_eq!(probe_addr(&a), Some("localhost:18443"));
    let a = d.step(SyncEvent::Probed { reachable: true });
    assert!(matches!(a.op, SyncOp::InitTaker));
    assert!(matches!(d.phase, SyncPhase::InitTaker));
}

#[test]
fn loop_without_rpc_starts_with_tor_probe_or_init() {
    let (_, a) = SyncDriver::new(None, true, Some(9050), 30);
    assert_eq!(probe_addr(&a), Some("127.0.0.1:9050"));
    let (_, a) = SyncDriver::new(None, true, None, 30);
    assert!(matches!(a.op, SyncOp::InitTaker));
}

#[test]
fn snapshot_keeps_all_makers() {
    let candidates = vec![
        candidate("a", ApiMakerState::Bad, false),
        candidate("b", ApiMakerState::Good, true),
    ];
    let makers = snapshot_makers(&candidates, 7);
    assert_eq!(makers.len(), 2);
    assert_eq!(makers[0].address, "a");
    assert!(makers[0].offer.is_none());
    assert_eq!(makers[1].address, "b");
    assert_eq!(makers[1].timestamp, 7);
    let offer = makers[1].offer.as_ref().expect("offer");
    assert_eq!(offer.base_fee, 950);
    assert_eq!(offer.tweakable_point, "03");
    assert_eq!(offer.fidelity_bond.outpoint.txid, "0".repeat(64));
}
