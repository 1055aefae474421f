//! The sync side of the daemon: the taker settings derived from the daemon's
//! configuration, the snapshot built from the offer book, and the decisions of
//! the sync loop as a state machine. The caller performs each action (a TCP
//! probe, starting the taker, syncing or fetching the offer book, writing the
//! snapshot, sleeping) and reports what came of it.

use vstd::prelude::*;
use crate::api::{has_offer, offer_count};
use crate::config::Config;
use crate::state::{ApiMaker, MakerCandidate};
use crate::text::{decimal, loopback_address};

verus! {

/// The taker settings that the daemon chooses; every other setting of the
/// taker keeps its default.
pub struct TakerSettings {
    pub wallet_file_name: Option<String>,
    pub rpc_url: String,
    pub rpc_user: String,
    pub rpc_pass: String,
    pub rpc_wallet_name: String,
    pub control_port: Option<u16>,
    pub tor_auth_password: Option<String>,
    pub zmq_addr: String,
}

/// Derives the taker's settings from the daemon's configuration: the node's
/// RPC endpoint and credentials, a wallet named `marketd-wallet`, the Tor
/// control port and password, and the ZMQ endpoint.
pub fn build_taker_config(cfg: &Config) -> (res: TakerSettings)
    ensures
        res.wallet_file_name matches Some(w) && w@ == "marketd-wallet"@,
        res.rpc_url == cfg.bitcoin_rpc_url,
        res.rpc_user == cfg.bitcoin_rpc_user,
        res.rpc_pass == cfg.bitcoin_rpc_pass,
        res.rpc_wallet_name@ == "marketd-wallet"@,
        res.control_port == Some(cfg.tor_control_port),
        res.tor_auth_password == Some(cfg.tor_auth_password),
        res.zmq_addr == cfg.zmq_addr,
{
    TakerSettings {
        wallet_file_name: Some(String::from_str("marketd-wallet")),
        rpc_url: cfg.bitcoin_rpc_url.clone(),
        rpc_user: cfg.bitcoin_rpc_user.clone(),
        rpc_pass: cfg.bitcoin_rpc_pass.clone(),
        rpc_wallet_name: String::from_str("marketd-wallet"),
        control_port: Some(cfg.tor_control_port),
        tor_auth_password: Some(cfg.tor_auth_password.clone()),
        zmq_addr: cfg.zmq_addr.clone(),
    }
}

/// `makers` is the snapshot of `candidates` taken at `timestamp`: one record
/// per offer-book entry, in order, whatever the maker's state.
pub open spec fn snapshot_of(makers: Seq<ApiMaker>, candidates: Seq<MakerCandidate>, timestamp: u64) -> bool {
    &&& makers.len() == candidates.len()
    &&& forall|i: int| 0 <= i < makers.len() ==> #[trigger] makers[i].presents(candidates[i], timestamp)
}

/// Builds the snapshot of the offer book: every known maker, good, bad or
/// unresponsive, a good one with its offer where one was fetched.
pub fn snapshot_makers(candidates: &Vec<MakerCandidate>, timestamp: u64) -> (res: Vec<ApiMaker>)
    ensures
        snapshot_of(res@, candidates@, timestamp),
{
    let mut res: Vec<ApiMaker> = Vec::new();
    let n = candidates.len();
    for i in 0..n
        invariant
            n == candidates.len(),
            res@.len() == i,
            forall|j: int| 0 <= j < i ==> #[trigger] res@[j].presents(candidates@[j], timestamp),
    {
        res.push(ApiMaker::from_candidate(&candidates[i], timestamp));
    }
    res
}

/// The predicate "a good maker for which the offer book holds an offer".
pub open spec fn candidate_has_offer() -> spec_fn(MakerCandidate) -> bool {
    |c: MakerCandidate| c.state is Good && c.offer is Some
}

/// A snapshot lists exactly as many makers as the offer book knows, and as
/// many of them carry an offer as there are good makers that the offer book
/// holds offers for.
pub proof fn lemma_snapshot_counts(makers: Seq<ApiMaker>, candidates: Seq<MakerCandidate>, timestamp: u64)
    requires
        snapshot_of(makers, candidates, timestamp),
    ensures
        makers.len() == candidates.len(),
        offer_count(makers) == candidates.filter(candidate_has_offer()).len(),
    decreases candidates.len(),
{
    if candidates.len() > 0 {
        let m0 = makers.drop_last();
        let c0 = candidates.drop_last();
        assert forall|i: int| 0 <= i < m0.len() implies #[trigger] m0[i].presents(c0[i], timestamp) by {
            assert(makers[i].presents(candidates[i], timestamp));
        }
        lemma_snapshot_counts(m0, c0, timestamp);
        assert(makers =~= m0.push(makers.last()));
        assert(candidates =~= c0.push(candidates.last()));
        m0.lemma_filter_push(makers.last(), has_offer());
        c0.lemma_filter_push(candidates.last(), candidate_has_offer());
        assert(makers.last().presents(candidates.last(), timestamp));
    } else {
        assert(makers.filter(has_offer()).len() <= 0) by {
            makers.lemma_filter_len(has_offer());
        }
        assert(candidates.filter(candidate_has_offer()).len() <= 0) by {
            candidates.lemma_filter_len(candidate_has_offer());
        }
    }
}

/// Seconds to wait before probing a port again after it refused.
pub const PROBE_RETRY_SECS: u64 = 5;

/// Seconds to wait before starting the taker again after it failed.
pub const INIT_RETRY_SECS: u64 = 15;

/// Where the sync loop stands.
pub enum SyncPhase {
    /// Waiting for the node's RPC port to accept a connection.
    AwaitRpc { addr: String },
    /// Waiting for the Tor control port to accept a connection.
    AwaitTorControl { addr: String },
    /// Starting the taker.
    InitTaker,
    /// Syncing the offer book.
    SyncOfferbook,
    /// Fetching the offers of the synced offer book.
    FetchOffers,
}

/// What the caller is to do next.
pub enum SyncOp {
    /// Connect to the first address that `addr` resolves to.
    Probe { addr: String },
    InitTaker,
    SyncOfferbook,
    FetchOffers,
}

/// What came of the last operation.
pub enum SyncEvent {
    Probed { reachable: bool },
    TakerInit { ok: bool },
    OfferbookSynced { ok: bool },
    /// The offer book's entries, and the time (seconds since the epoch) at
    /// which they were fetched.
    OffersFetched { candidates: Vec<MakerCandidate>, timestamp: u64 },
    FetchFailed,
}

/// A snapshot to write to the store.
pub struct Published {
    pub makers: Vec<ApiMaker>,
    pub timestamp: u64,
}

/// The caller's next step: write `publish` to the store when there is one,
/// wait `delay_secs`, then perform `op`.
pub struct SyncAction {
    pub publish: Option<Published>,
    pub delay_secs: u64,
    pub op: SyncOp,
}

/// The sync loop's state.
pub struct SyncDriver {
    pub phase: SyncPhase,
    /// The Tor control port's address, when the taker goes through Tor.
    pub tor_control_addr: Option<String>,
    pub interval_secs: u64,
}

/// The operation that a phase performs.
pub open spec fn op_of(phase: SyncPhase) -> SyncOp {
    match phase {
        SyncPhase::AwaitRpc { addr } => SyncOp::Probe { addr },
        SyncPhase::AwaitTorControl { addr } => SyncOp::Probe { addr },
        SyncPhase::InitTaker => SyncOp::InitTaker,
        SyncPhase::SyncOfferbook => SyncOp::SyncOfferbook,
        SyncPhase::FetchOffers => SyncOp::FetchOffers,
    }
}

/// Whether `event` reports on the operation of `phase`.
pub open spec fn expects(phase: SyncPhase, event: SyncEvent) -> bool {
    match phase {
        SyncPhase::AwaitRpc { .. } => event is Probed,
        SyncPhase::AwaitTorControl { .. } => event is Probed,
        SyncPhase::InitTaker => event is TakerInit,
        SyncPhase::SyncOfferbook => event is OfferbookSynced,
        SyncPhase::FetchOffers => event is OffersFetched || event is FetchFailed,
    }
}

/// The phase that follows the port probes.
pub open spec fn after_probes(tor_control_addr: Option<String>) -> SyncPhase {
    match tor_control_addr {
        Some(addr) => SyncPhase::AwaitTorControl { addr },
        None => SyncPhase::InitTaker,
    }
}

/// The phase after `event`: a probe is repeated until the port answers, the
/// taker is started until it comes up, a failed sync or fetch goes back to
/// syncing, and a fetch is followed by the next sync.
pub open spec fn next_phase(phase: SyncPhase, tor_control_addr: Option<String>, event: SyncEvent) -> SyncPhase {
    match phase {
        SyncPhase::AwaitRpc { .. } => if event matches SyncEvent::Probed { reachable: true } {
            after_probes(tor_control_addr)
        } else {
            phase
        },
        SyncPhase::AwaitTorControl { .. } => if event matches SyncEvent::Probed { reachable: true } {
            SyncPhase::InitTaker
        } else {
            phase
        },
        SyncPhase::InitTaker => if event matches SyncEvent::TakerInit { ok: true } {
            SyncPhase::SyncOfferbook
        } else {
            SyncPhase::InitTaker
        },
        SyncPhase::SyncOfferbook => if event matches SyncEvent::OfferbookSynced { ok: true } {
            SyncPhase::FetchOffers
        } else {
            SyncPhase::SyncOfferbook
        },
        SyncPhase::FetchOffers => SyncPhase::SyncOfferbook,
    }
}

/// The wait before the next operation: a refused probe waits
/// `PROBE_RETRY_SECS`, a failed start `INIT_RETRY_SECS`, a failed sync and
/// every fetch, failed or not, the sync interval; anything else goes on at
/// once.
pub open spec fn delay_after(phase: SyncPhase, event: SyncEvent, interval_secs: u64) -> u64 {
    match phase {
        SyncPhase::AwaitRpc { .. } | SyncPhase::AwaitTorControl { .. } => if event matches SyncEvent::Probed { reachable: true } {
            0
        } else {
            PROBE_RETRY_SECS
        },
        SyncPhase::InitTaker => if event matches SyncEvent::TakerInit { ok: true } {
            0
        } else {
            INIT_RETRY_SECS
        },
        SyncPhase::SyncOfferbook => if event matches SyncEvent::OfferbookSynced { ok: true } {
            0
        } else {
            interval_secs
        },
        SyncPhase::FetchOffers => interval_secs,
    }
}

fn clone_addr(addr: &Option<String>) -> (res: Option<String>)
    ensures
        res == *addr,
{
    match addr {
        Some(a) => Some(a.clone()),
        None => None,
    }
}

impl SyncDriver {
    fn current_op(&self) -> (res: SyncOp)
        ensures
            res == op_of(self.phase),
    {
        match &self.phase {
            SyncPhase::AwaitRpc { addr } => SyncOp::Probe { addr: addr.clone() },
            SyncPhase::AwaitTorControl { addr } => SyncOp::Probe { addr: addr.clone() },
            SyncPhase::InitTaker => SyncOp::InitTaker,
            SyncPhase::SyncOfferbook => SyncOp::SyncOfferbook,
            SyncPhase::FetchOffers => SyncOp::FetchOffers,
        }
    }

    /// Starts the loop. It first waits for the node's RPC port when the taker
    /// has an RPC endpoint, then for the Tor control port on the loopback
    /// interface when the taker goes through Tor and has a control port, and
    /// then starts the taker.
    pub fn new(rpc_addr: Option<String>, uses_tor: bool, control_port: Option<u16>, interval_secs: u64) -> (res: (
        SyncDriver,
        SyncAction,
    ))
        ensures
            res.0.interval_secs == interval_secs,
            match res.0.tor_control_addr {
                Some(a) => uses_tor && control_port is Some && a@ == "127.0.0.1:"@ + decimal(
                    control_port.unwrap() as nat,
                ),
                None => !(uses_tor && control_port is Some),
            },
            match rpc_addr {
                Some(a) => res.0.phase == (SyncPhase::AwaitRpc { addr: a }),
                None => res.0.phase == after_probes(res.0.tor_control_addr),
            },
            res.1.publish is None,
            res.1.delay_secs == 0,
            res.1.op == op_of(res.0.phase),
    {
        let tor_control_addr = if uses_tor {
            match control_port {
                Some(port) => Some(loopback_address(port)),
                None => None,
            }
        } else {
            None
        };
        let phase = match rpc_addr {
            Some(addr) => SyncPhase::AwaitRpc { addr },
            None => match &tor_control_addr {
                Some(a) => SyncPhase::AwaitTorControl { addr: a.clone() },
                None => SyncPhase::InitTaker,
            },
        };
        let driver = SyncDriver { phase, tor_control_addr, interval_secs };
        let op = driver.current_op();
        (driver, SyncAction { publish: None, delay_secs: 0, op })
    }

    /// Takes the outcome of the last operation and decides the next step. A
    /// fetched offer book is turned into the snapshot to publish.
    pub fn step(&mut self, event: SyncEvent) -> (res: SyncAction)
        requires
            expects(old(self).phase, event),
        ensures
            final(self).phase == next_phase(old(self).phase, old(self).tor_control_addr, event),
            final(self).tor_control_addr == old(self).tor_control_addr,
            final(self).interval_secs == old(self).interval_secs,
            res.delay_secs == delay_after(old(self).phase, event, old(self).interval_secs),
            res.op == op_of(final(self).phase),
            match event {
                SyncEvent::OffersFetched { candidates, timestamp } => res.publish matches Some(p)
                    && p.timestamp == timestamp && snapshot_of(p.makers@, candidates@, timestamp),
                _ => res.publish is None,
            },
            // a refused probe is repeated on the same address after 5 s
            match old(self).phase {
                SyncPhase::AwaitRpc { addr } => (event matches SyncEvent::Probed { reachable: false })
                    ==> final(self).phase == (SyncPhase::AwaitRpc { addr }) && res.op == (SyncOp::Probe {
                    addr,
                }) && res.delay_secs == 5,
                SyncPhase::AwaitTorControl { addr } => (event matches SyncEvent::Probed { reachable: false })
                    ==> final(self).phase == (SyncPhase::AwaitTorControl { addr }) && res.op == (
                SyncOp::Probe { addr }) && res.delay_secs == 5,
                _ => true,
            },
            // the RPC port answered: probe the Tor control port if there is one, else start the taker
            old(self).phase is AwaitRpc && (event matches SyncEvent::Probed { reachable: true }) ==> res.delay_secs
                == 0 && match old(self).tor_control_addr {
                Some(a) => final(self).phase == (SyncPhase::AwaitTorControl { addr: a }) && res.op == (
                SyncOp::Probe { addr: a }),
                None => final(self).phase is InitTaker && res.op is InitTaker,
            },
            old(self).phase is AwaitTorControl && (event matches SyncEvent::Probed { reachable: true })
                ==> final(self).phase is InitTaker && res.op is InitTaker && res.delay_secs == 0,
            // a failed start is retried after 15 s; a started taker goes on to sync
            old(self).phase is InitTaker && (event matches SyncEvent::TakerInit { ok: false })
                ==> final(self).phase is InitTaker && res.op is InitTaker && res.delay_secs == 15,
            old(self).phase is InitTaker && (event matches SyncEvent::TakerInit { ok: true })
                ==> final(self).phase is SyncOfferbook && res.op is SyncOfferbook && res.delay_secs == 0,
            // a failed sync waits the configured interval and syncs again
            old(self).phase is SyncOfferbook && (event matches SyncEvent::OfferbookSynced { ok: false })
                ==> final(self).phase is SyncOfferbook && res.op is SyncOfferbook && res.delay_secs
                == old(self).interval_secs,
            old(self).phase is SyncOfferbook && (event matches SyncEvent::OfferbookSynced { ok: true })
                ==> final(self).phase is FetchOffers && res.op is FetchOffers && res.delay_secs == 0,
            // every fetch, failed or not, waits the configured interval and syncs again
            old(self).phase is FetchOffers ==> final(self).phase is SyncOfferbook && res.op is SyncOfferbook
                && res.delay_secs == old(self).interval_secs,
    {
        let interval = self.interval_secs;
        let mut publish: Option<Published> = None;
        let delay_secs: u64;
        match event {
            SyncEvent::Probed { reachable } => {
                if reachable {
                    let in_rpc_phase = match &self.phase {
                        SyncPhase::AwaitRpc { .. } => true,
                        _ => false,
                    };
                    if in_rpc_phase {
                        self.phase = match clone_addr(&self.tor_control_addr) {
                            Some(addr) => SyncPhase::AwaitTorControl { addr },
                            None => SyncPhase::InitTaker,
                        };
                    } else {
                        self.phase = SyncPhase::InitTaker;
                    }
                    delay_secs = 0;
                } else {
                    delay_secs = PROBE_RETRY_SECS;
                }
            },
            SyncEvent::TakerInit { ok } => {
                if ok {
                    self.phase = SyncPhase::SyncOfferbook;
                    delay_secs = 0;
                } else {
                    delay_secs = INIT_RETRY_SECS;
                }
            },
            SyncEvent::OfferbookSynced { ok } => {
                if ok {
                    self.phase = SyncPhase::FetchOffers;
                    delay_secs = 0;
                } else {
                    delay_secs = interval;
                }
            },
            SyncEvent::OffersFetched { candidates, timestamp } => {
                let makers = snapshot_makers(&candidates, timestamp);
                publish = Some(Published { makers, timestamp });
                self.phase = SyncPhase::SyncOfferbook;
                delay_secs = interval;
            },
            SyncEvent::FetchFailed => {
                self.phase = SyncPhase::SyncOfferbook;
                delay_secs = interval;
            },
        }
        let op = self.current_op();
        SyncAction { publish, delay_secs, op }
    }
}

/// Once the taker is up, the loop only alternates between syncing and
/// fetching the offer book: the taker is never started again.
pub proof fn lemma_taker_started_once(phase: SyncPhase, tor_control_addr: Option<String>, event: SyncEvent)
    requires
        phase is SyncOfferbook || phase is FetchOffers,
        expects(phase, event),
    ensures
        next_phase(phase, tor_control_addr, event) is SyncOfferbook
            || next_phase(phase, tor_control_addr, event) is FetchOffers,
{
}

/// The taker is started only after the last port probe succeeded (the Tor
/// control port's, or the RPC port's when the taker does not go through Tor),
/// or again after a failed start.
pub proof fn lemma_init_after_probes(phase: SyncPhase, tor_control_addr: Option<String>, event: SyncEvent)
    requires
        expects(phase, event),
        next_phase(phase, tor_control_addr, event) is InitTaker,
    ensures
        phase is InitTaker
            || (event == (SyncEvent::Probed { reachable: true }) && (phase is AwaitTorControl || (
        phase is AwaitRpc && tor_control_addr is None))),
{
}

/// Offers are fetched only right after a successful sync of the offer book.
pub proof fn lemma_fetch_after_sync(phase: SyncPhase, tor_control_addr: Option<String>, event: SyncEvent)
    requires
        expects(phase, event),
        next_phase(phase, tor_control_addr, event) is FetchOffers,
    ensures
        phase is SyncOfferbook,
        event == (SyncEvent::OfferbookSynced { ok: true }),
{
}

/// Every fetch, failed or not, and every failed sync wait exactly the
/// configured sync interval, whatever it is, and then sync again.
pub proof fn lemma_sync_waits_interval(phase: SyncPhase, tor_control_addr: Option<String>, event: SyncEvent, interval_secs: u64)
    requires
        expects(phase, event),
        phase is FetchOffers || (phase is SyncOfferbook && event matches SyncEvent::OfferbookSynced { ok: false }),
    ensures
        delay_after(phase, event, interval_secs) == interval_secs,
        next_phase(phase, tor_control_addr, event) is SyncOfferbook,
{
}

/// A failed start of the taker is retried after 15 s, whether or not the
/// taker goes through Tor; the offer book is synced only after a successful
/// start.
pub proof fn lemma_failed_start_retries(tor_control_addr: Option<String>, event: SyncEvent, interval_secs: u64)
    requires
        expects(SyncPhase::InitTaker, event),
    ensures
        event matches SyncEvent::TakerInit { ok: false } ==> next_phase(SyncPhase::InitTaker, tor_control_addr, event)
            is InitTaker && delay_after(SyncPhase::InitTaker, event, interval_secs) == 15,
        next_phase(SyncPhase::InitTaker, tor_control_addr, event) is SyncOfferbook
            ==> event matches SyncEvent::TakerInit { ok: true },
{
}

/// A refused probe is repeated on the same address after 5 s.
pub proof fn lemma_refused_probe_retries(phase: SyncPhase, tor_control_addr: Option<String>, interval_secs: u64)
    requires
        phase is AwaitRpc || phase is AwaitTorControl,
    ensures
        next_phase(phase, tor_control_addr, SyncEvent::Probed { reachable: false }) == phase,
        delay_after(phase, SyncEvent::Probed { reachable: false }, interval_secs) == 5,
        phase matches SyncPhase::AwaitRpc { addr } ==> op_of(phase) == (SyncOp::Probe { addr }),
        phase matches SyncPhase::AwaitTorControl { addr } ==> op_of(phase) == (SyncOp::Probe { addr }),
{
}

} // verus!
