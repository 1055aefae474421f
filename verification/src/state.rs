//! The records that the API serves, the offer-book entries they are built
//! from, and the store that holds the latest snapshot.

use vstd::prelude::*;
use crate::text::{hex_encode, hex_lower, txid_text};

verus! {

/// A transaction output, with its txid in display form.
pub struct ApiOutpoint {
    pub txid: String,
    pub vout: u32,
}

impl Clone for ApiOutpoint {
    fn clone(&self) -> (res: Self)
        ensures
            res == *self,
    {
        ApiOutpoint { txid: self.txid.clone(), vout: self.vout }
    }
}

/// The fidelity bond that backs a maker's offer.
pub struct ApiFidelityBond {
    /// Bond amount in satoshis.
    pub amount: u64,
    pub outpoint: ApiOutpoint,
    /// The bond's lock time in its consensus encoding.
    pub lock_time: u32,
    pub cert_hash: String,
    /// Lower-case hex of the DER-encoded certificate signature.
    pub cert_sig: String,
}

impl Clone for ApiFidelityBond {
    fn clone(&self) -> (res: Self)
        ensures
            res == *self,
    {
        ApiFidelityBond {
            amount: self.amount,
            outpoint: self.outpoint.clone(),
            lock_time: self.lock_time,
            cert_hash: self.cert_hash.clone(),
            cert_sig: self.cert_sig.clone(),
        }
    }
}

/// Offer payload, populated only when the taker has fetched the maker's
/// advertisement. The two fee percentages are carried as the IEEE-754 bit
/// patterns of their `f64` values; nothing here computes with them.
pub struct ApiOffer {
    pub base_fee: u64,
    pub amount_relative_fee_pct_bits: u64,
    pub time_relative_fee_pct_bits: u64,
    pub min_size: u64,
    pub max_size: u64,
    pub required_confirms: u32,
    pub minimum_locktime: u16,
    /// Lower-case hex of the compressed public key.
    pub tweakable_point: String,
    pub fidelity_bond: ApiFidelityBond,
}

impl Clone for ApiOffer {
    fn clone(&self) -> (res: Self)
        ensures
            res == *self,
    {
        ApiOffer {
            base_fee: self.base_fee,
            amount_relative_fee_pct_bits: self.amount_relative_fee_pct_bits,
            time_relative_fee_pct_bits: self.time_relative_fee_pct_bits,
            min_size: self.min_size,
            max_size: self.max_size,
            required_confirms: self.required_confirms,
            minimum_locktime: self.minimum_locktime,
            tweakable_point: self.tweakable_point.clone(),
            fidelity_bond: self.fidelity_bond.clone(),
        }
    }
}

/// How the taker currently rates a maker.
#[derive(PartialEq, Eq, Structural, Clone, Copy, Debug)]
pub enum ApiMakerState {
    Good,
    Unresponsive { retries: u8 },
    Bad,
}

/// The swap protocol a maker speaks.
#[derive(PartialEq, Eq, Structural, Clone, Copy, Debug)]
pub enum MakerProtocol {
    Legacy,
    Taproot,
    Unified,
}

/// A maker's offer as the taker's offer book holds it, in plain values.
pub struct CoinswapOffer {
    pub base_fee: u64,
    pub amount_relative_fee_pct_bits: u64,
    pub time_relative_fee_pct_bits: u64,
    pub min_size: u64,
    pub max_size: u64,
    pub required_confirms: u32,
    pub minimum_locktime: u16,
    /// The tweakable point's compressed serialisation.
    pub tweakable_point: Vec<u8>,
    /// Bond amount in satoshis.
    pub bond_amount_sat: u64,
    /// The bond outpoint's txid, bytes in internal order.
    pub bond_txid: [u8; 32],
    pub bond_vout: u32,
    /// The bond's lock time in its consensus encoding.
    pub bond_lock_time: u32,
    /// The certificate hash in its display form.
    pub cert_hash: String,
    /// The certificate signature, DER-encoded.
    pub cert_sig_der: Vec<u8>,
}

/// A maker known to the taker's offer book, whether or not there is a
/// current offer for it.
pub struct MakerCandidate {
    pub address: String,
    pub state: ApiMakerState,
    pub protocol: Option<MakerProtocol>,
    pub last_offer_update_ts: Option<u64>,
    pub next_offer_check_ts: Option<u64>,
    pub offer: Option<CoinswapOffer>,
}

/// A maker known to the taker's offer book, whether or not we have a current
/// offer for it: bad and unresponsive makers come through too, with
/// `offer: None`.
pub struct ApiMaker {
    pub address: String,
    pub state: ApiMakerState,
    pub protocol: Option<&'static str>,
    pub timestamp: u64,
    pub last_offer_update_ts: Option<u64>,
    pub next_offer_check_ts: Option<u64>,
    pub offer: Option<ApiOffer>,
}

impl Clone for ApiMaker {
    fn clone(&self) -> (res: Self)
        ensures
            res == *self,
    {
        let offer = match &self.offer {
            Some(o) => Some(o.clone()),
            None => None,
        };
        ApiMaker {
            address: self.address.clone(),
            state: self.state,
            protocol: self.protocol,
            timestamp: self.timestamp,
            last_offer_update_ts: self.last_offer_update_ts,
            next_offer_check_ts: self.next_offer_check_ts,
            offer,
        }
    }
}

/// The label of a protocol in API records.
pub open spec fn protocol_text(p: MakerProtocol) -> Seq<char> {
    match p {
        MakerProtocol::Legacy => "legacy"@,
        MakerProtocol::Taproot => "taproot"@,
        MakerProtocol::Unified => "unified"@,
    }
}

/// The label of a protocol in API records.
pub fn protocol_label(p: &MakerProtocol) -> (res: &'static str)
    ensures
        res@ == protocol_text(*p),
{
    match p {
        MakerProtocol::Legacy => "legacy",
        MakerProtocol::Taproot => "taproot",
        MakerProtocol::Unified => "unified",
    }
}

impl ApiOffer {
    /// `self` is the API form of `offer`: numbers copied, the tweakable point
    /// and certificate signature in lower-case hex, the txid in display form.
    pub open spec fn presents(self, offer: CoinswapOffer) -> bool {
        &&& self.base_fee == offer.base_fee
        &&& self.amount_relative_fee_pct_bits == offer.amount_relative_fee_pct_bits
        &&& self.time_relative_fee_pct_bits == offer.time_relative_fee_pct_bits
        &&& self.min_size == offer.min_size
        &&& self.max_size == offer.max_size
        &&& self.required_confirms == offer.required_confirms
        &&& self.minimum_locktime == offer.minimum_locktime
        &&& self.tweakable_point@ == hex_lower(offer.tweakable_point@)
        &&& self.fidelity_bond.amount == offer.bond_amount_sat
        &&& self.fidelity_bond.outpoint.txid@ == hex_lower(offer.bond_txid@.reverse())
        &&& self.fidelity_bond.outpoint.vout == offer.bond_vout
        &&& self.fidelity_bond.lock_time == offer.bond_lock_time
        &&& self.fidelity_bond.cert_hash == offer.cert_hash
        &&& self.fidelity_bond.cert_sig@ == hex_lower(offer.cert_sig_der@)
    }

    /// Builds the API form of an offer from the offer book.
    pub fn from_coinswap(offer: &CoinswapOffer) -> (res: Self)
        ensures
            res.presents(*offer),
    {
        ApiOffer {
            base_fee: offer.base_fee,
            amount_relative_fee_pct_bits: offer.amount_relative_fee_pct_bits,
            time_relative_fee_pct_bits: offer.time_relative_fee_pct_bits,
            min_size: offer.min_size,
            max_size: offer.max_size,
            required_confirms: offer.required_confirms,
            minimum_locktime: offer.minimum_locktime,
            tweakable_point: hex_encode(offer.tweakable_point.as_slice()),
            fidelity_bond: ApiFidelityBond {
                amount: offer.bond_amount_sat,
                outpoint: ApiOutpoint { txid: txid_text(offer.bond_txid), vout: offer.bond_vout },
                lock_time: offer.bond_lock_time,
                cert_hash: offer.cert_hash.clone(),
                cert_sig: hex_encode(offer.cert_sig_der.as_slice()),
            },
        }
    }
}

impl ApiMaker {
    /// `self` is the API record of `candidate`, stamped with `timestamp`. Only
    /// a good maker carries its offer; bad and unresponsive makers come
    /// through with no offer.
    pub open spec fn presents(self, candidate: MakerCandidate, timestamp: u64) -> bool {
        &&& self.address == candidate.address
        &&& self.state == candidate.state
        &&& match candidate.protocol {
            None => self.protocol is None,
            Some(p) => self.protocol matches Some(label) && label@ == protocol_text(p),
        }
        &&& self.timestamp == timestamp
        &&& self.last_offer_update_ts == candidate.last_offer_update_ts
        &&& self.next_offer_check_ts == candidate.next_offer_check_ts
        &&& if candidate.state is Good {
            match candidate.offer {
                None => self.offer is None,
                Some(o) => self.offer matches Some(a) && a.presents(o),
            }
        } else {
            self.offer is None
        }
    }

    /// Builds the API record of an offer-book entry; the offer is kept for
    /// good makers only.
    pub fn from_candidate(candidate: &MakerCandidate, timestamp: u64) -> (res: Self)
        ensures
            res.presents(*candidate, timestamp),
    {
        let protocol = match &candidate.protocol {
            Some(p) => Some(protocol_label(p)),
            None => None,
        };
        let offer = match (&candidate.state, &candidate.offer) {
            (ApiMakerState::Good, Some(o)) => Some(ApiOffer::from_coinswap(o)),
            _ => None,
        };
        ApiMaker {
            address: candidate.address.clone(),
            state: candidate.state,
            protocol,
            timestamp,
            last_offer_update_ts: candidate.last_offer_update_ts,
            next_offer_check_ts: candidate.next_offer_check_ts,
            offer,
        }
    }
}

/// The latest snapshot of the offer book and when it was taken.
pub struct MakerStore {
    pub makers: Vec<ApiMaker>,
    pub last_sync: Option<u64>,
}

impl Clone for MakerStore {
    fn clone(&self) -> (res: Self)
        ensures
            res.makers@ == self.makers@,
            res.last_sync == self.last_sync,
    {
        let res = MakerStore { makers: self.makers.clone(), last_sync: self.last_sync };
        assert(res.makers@ =~= self.makers@);
        res
    }
}

impl Default for MakerStore {
    fn default() -> (res: Self)
        ensures
            res.makers@ == Seq::<ApiMaker>::empty(),
            res.last_sync is None,
    {
        MakerStore { makers: Vec::new(), last_sync: None }
    }
}

impl MakerStore {
    /// Replaces the snapshot with `makers`, taken at `timestamp`.
    pub fn publish(&mut self, makers: Vec<ApiMaker>, timestamp: u64)
        ensures
            final(self).makers@ == makers@,
            final(self).last_sync == Some(timestamp),
    {
        self.makers = makers;
        self.last_sync = Some(timestamp);
    }
}

} // verus!
