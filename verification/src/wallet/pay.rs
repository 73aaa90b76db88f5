//! Paying what a URI asks for.

use vstd::prelude::*;
use vstd::string::*;

use crate::digits::{bytes_of_preimage, decode_hex, hex_text};
use crate::error::{failure, ldk_err, ErrorCode, NncError};
use crate::foreign::{sha256_digest, sha256_text};
use crate::lightning::PaymentSent;
use crate::nwc::{PayRequest, PayResponse};
use crate::uri::{carried_by, read_text, PaymentUri, UriView};
use crate::wallet::Wallet;

verus! {

// ── what identifies a payment ────────────────────────────────────────

/// The hash of the preimage that a text spells, in hex.
pub open spec fn hash_of_preimage(preimage: Seq<char>) -> Option<Seq<char>> {
    match bytes_of_preimage(preimage) {
        Some(bytes) => Some(hex_text(sha256_digest(bytes))),
        None => None,
    }
}

/// The payment's hash, from the preimage that proves it.
pub fn payment_hash_of(preimage: &str) -> (hash: Option<String>)
    ensures
        hash.deep_view() == hash_of_preimage(preimage@),
{
    match decode_hex(preimage) {
        Some(bytes) => {
            assert(bytes@ =~= bytes.deep_view());
            Some(sha256_text(bytes.as_slice()))
        },
        None => None,
    }
}

/// Whether `a` says that a payment went through at `now`.
///
/// The hash identifies the payment, never the preimage: a client may log an
/// identifier, quote it back or hand it on. An on-chain payment has no hash,
/// so its transaction identifies it.
pub open spec fn is_settled(
    a: PayResponse,
    instruction_type: Seq<char>,
    amount: u64,
    preimage: Option<Seq<char>>,
    txid: Option<Seq<char>>,
    fees_paid: u64,
    now: u64,
) -> bool {
    let hash = match preimage {
        Some(p) => hash_of_preimage(p),
        None => None,
    };
    &&& a.transaction_id@ == (match (hash, txid) {
        (Some(hash), _) => hash,
        (None, Some(txid)) => txid,
        (None, None) => Seq::empty(),
    })
    &&& a.state@ == "settled"@
    &&& a.instruction_type@ == instruction_type
    &&& a.amount == amount
    &&& a.fees_paid == fees_paid
    &&& a.payment_hash.deep_view() == hash
    &&& a.preimage.deep_view() == preimage
    &&& a.payer_proof is None
    &&& a.txid.deep_view() == txid
    &&& a.failure_reason is None
    &&& a.created_at == now
    &&& a.settled_at == Some(now)
}

/// A payment that went through at `now`. The node settles while the caller
/// waits, so the payment is never pending.
pub fn paid(
    instruction_type: &str,
    amount: u64,
    preimage: Option<String>,
    txid: Option<String>,
    fees_paid: u64,
    now: u64,
) -> (answer: PayResponse)
    ensures
        is_settled(
            answer,
            instruction_type@,
            amount,
            preimage.deep_view(),
            txid.deep_view(),
            fees_paid,
            now,
        ),
{
    let hash = match &preimage {
        Some(p) => payment_hash_of(p.as_str()),
        None => None,
    };
    let transaction_id = match (&hash, &txid) {
        (Some(hash), _) => hash.clone(),
        (None, Some(txid)) => txid.clone(),
        (None, None) => String::new(),
    };
    PayResponse {
        transaction_id,
        state: "settled".to_string(),
        instruction_type: instruction_type.to_owned(),
        amount,
        fees_paid,
        payment_hash: hash,
        preimage,
        payer_proof: None,
        txid,
        failure_reason: None,
        created_at: now,
        settled_at: Some(now),
    }
}

// ── what is paid ─────────────────────────────────────────────────────

/// The payment that the node is asked to make.
#[derive(Debug, PartialEq, Eq)]
pub enum PayCall {
    Bolt11 { invoice: String, amount_msat: Option<u64> },
    Bolt12 { offer: String, amount_msat: Option<u64>, payer_note: Option<String> },
    Onchain { address: String, amount_sat: u64 },
}

/// The amount to pay: the caller's, or else the URI's.
pub open spec fn amount_to_pay(uri: UriView, amount: Option<u64>) -> Option<int> {
    match (amount, uri.amount_sat) {
        (Some(msat), _) => Some(msat as int),
        (None, Some(sat)) => Some(sat * 1_000),
        (None, None) => None,
    }
}

/// Whether `call` is what the node does for a URI: the first invoice, or else
/// the first offer, or else the address, or else an error.
pub open spec fn is_payment_of(
    call: Result<PayCall, NncError>,
    uri: UriView,
    amount: Option<u64>,
    payer_note: Option<Seq<char>>,
) -> bool {
    let msat = amount_to_pay(uri, amount);
    if uri.lightning.len() > 0 {
        &&& call matches Ok(PayCall::Bolt11 { invoice, amount_msat })
        &&& invoice@ == uri.lightning[0]
        &&& (match amount_msat {
            Some(m) => Some(m as int),
            None => None,
        }) == msat
    } else if uri.lno.len() > 0 {
        &&& call matches Ok(PayCall::Bolt12 { offer, amount_msat, payer_note: note })
        &&& offer@ == uri.lno[0]
        &&& (match amount_msat {
            Some(m) => Some(m as int),
            None => None,
        }) == msat
        &&& note.deep_view() == payer_note
    } else {
        match (uri.address, msat) {
            (Some(wanted), Some(m)) => {
                &&& call matches Ok(PayCall::Onchain { address, amount_sat })
                &&& address@ == wanted
                &&& amount_sat == m / 1_000
            },
            (Some(_), None) => call matches Err(e) && e.says(
                ErrorCode::BadRequest,
                "an on-chain payment needs an amount"@,
            ),
            (None, _) => call matches Err(e) && e.says(
                ErrorCode::UnsupportedPaymentInstruction,
                "no instruction in this URI is one this node can pay"@,
            ),
        }
    }
}

/// Whether the amount to pay can be held.
pub open spec fn payable(uri: UriView, amount: Option<u64>) -> bool {
    amount is None && uri.amount_sat is Some ==> uri.amount_sat->0 * 1_000 <= u64::MAX
}

/// The message for a URI that cannot be paid as it stands.
pub open spec fn bad_uri(call: Result<PayCall, NncError>, why: Seq<char>) -> bool {
    call matches Err(e) && e.says(ErrorCode::BadRequest, failure("bip321"@, why))
}

/// Whether `call` is what the node does for a request. The fee budget plays no
/// part: this node cannot cap a route, and does not claim that it did.
pub open spec fn is_payment_for(call: Result<PayCall, NncError>, r: PayRequest) -> bool {
    match carried_by(r.payment@) {
        Ok(uri) => if payable(uri, r.amount) {
            is_payment_of(call, uri, r.amount, r.payer_note.deep_view())
        } else {
            bad_uri(call, "the amount is out of range"@)
        },
        Err(why) => bad_uri(call, why),
    }
}

impl Wallet {
    /// Which payment the node is asked to make for what a URI carries. An
    /// invoice comes first, whatever the URI's order: the payer usually cares
    /// most about how fast the payment settles.
    pub fn pay_uri(&self, uri: &PaymentUri, amount: Option<u64>, payer_note: Option<String>) -> (call:
        Result<PayCall, NncError>)
        requires
            payable(uri@, amount),
        ensures
            is_payment_of(call, uri@, amount, payer_note.deep_view()),
            call matches Ok(PayCall::Onchain { amount_sat, .. }) ==> amount_sat * 1_000 <= u64::MAX,
    {
        let amount_msat: Option<u64> = match (amount, uri.amount_sat) {
            (Some(msat), _) => Some(msat),
            (None, Some(sat)) => Some(sat * 1_000),
            (None, None) => None,
        };
        if uri.lightning.len() > 0 {
            return Ok(PayCall::Bolt11 { invoice: uri.lightning[0].clone(), amount_msat });
        }
        if uri.lno.len() > 0 {
            return Ok(PayCall::Bolt12 { offer: uri.lno[0].clone(), amount_msat, payer_note });
        }
        let address = match &uri.address {
            Some(address) => address.clone(),
            None => {
                return Err(
                    NncError::new(
                        ErrorCode::UnsupportedPaymentInstruction,
                        "no instruction in this URI is one this node can pay",
                    ),
                );
            },
        };
        match amount_msat {
            Some(msat) => Ok(PayCall::Onchain { address, amount_sat: msat / 1_000 }),
            None => Err(
                NncError::new(ErrorCode::BadRequest, "an on-chain payment needs an amount"),
            ),
        }
    }

    /// Which payment the node is asked to make for a URI.
    pub fn pay(&self, r: PayRequest) -> (call: Result<PayCall, NncError>)
        ensures
            is_payment_for(call, r),
            call matches Ok(PayCall::Onchain { amount_sat, .. }) ==> amount_sat * 1_000 <= u64::MAX,
    {
        let uri = match read_text(r.payment.as_str()) {
            Ok(uri) => uri,
            Err(e) => {
                return Err(ldk_err("bip321", ErrorCode::BadRequest, e.as_str()));
            },
        };
        if let (None, Some(sat)) = (r.amount, uri.amount_sat) {
            if sat > u64::MAX / 1_000 {
                return Err(ldk_err("bip321", ErrorCode::BadRequest, "the amount is out of range"));
            }
        }
        self.pay_uri(&uri, r.amount, r.payer_note)
    }

    /// What came, at `now`, of paying a URI by an invoice of it.
    pub fn pay_bolt11_reply(
        &self,
        amount_msat: Option<u64>,
        sent: Result<PaymentSent, String>,
        now: u64,
    ) -> (answer: Result<PayResponse, NncError>)
        ensures
            match sent {
                Ok(p) => answer matches Ok(a) && is_settled(
                    a,
                    "bolt11"@,
                    amount_msat.unwrap_or(0),
                    Some(p.preimage@),
                    None,
                    p.fees_paid_msat.unwrap_or(0),
                    now,
                ),
                Err(e) => answer matches Err(error) && error.says(
                    ErrorCode::PaymentFailed,
                    failure("pay/bolt11"@, e@),
                ),
            },
    {
        match sent {
            Ok(p) => Ok(
                paid(
                    "bolt11",
                    amount_msat.unwrap_or(0),
                    Some(p.preimage),
                    None,
                    p.fees_paid_msat.unwrap_or(0),
                    now,
                ),
            ),
            Err(e) => Err(ldk_err("pay/bolt11", ErrorCode::PaymentFailed, e.as_str())),
        }
    }

    /// What came, at `now`, of paying a URI by an offer of it.
    pub fn pay_bolt12_reply(
        &self,
        amount_msat: Option<u64>,
        sent: Result<PaymentSent, String>,
        now: u64,
    ) -> (answer: Result<PayResponse, NncError>)
        ensures
            match sent {
                Ok(p) => answer matches Ok(a) && is_settled(
                    a,
                    "bolt12"@,
                    amount_msat.unwrap_or(0),
                    Some(p.preimage@),
                    None,
                    p.fees_paid_msat.unwrap_or(0),
                    now,
                ),
                Err(e) => answer matches Err(error) && error.says(
                    ErrorCode::PaymentFailed,
                    failure("pay/bolt12"@, e@),
                ),
            },
    {
        match sent {
            Ok(p) => Ok(
                paid(
                    "bolt12",
                    amount_msat.unwrap_or(0),
                    Some(p.preimage),
                    None,
                    p.fees_paid_msat.unwrap_or(0),
                    now,
                ),
            ),
            Err(e) => Err(ldk_err("pay/bolt12", ErrorCode::PaymentFailed, e.as_str())),
        }
    }

    /// What came, at `now`, of paying a URI on chain.
    pub fn pay_onchain_uri_reply(
        &self,
        amount_sat: u64,
        sent: Result<String, String>,
        now: u64,
    ) -> (answer: Result<PayResponse, NncError>)
        requires
            amount_sat * 1_000 <= u64::MAX,
        ensures
            match sent {
                Ok(txid) => answer matches Ok(a) && is_settled(
                    a,
                    "onchain"@,
                    (amount_sat * 1_000) as u64,
                    None,
                    Some(txid@),
                    0,
                    now,
                ),
                Err(e) => answer matches Err(error) && error.says(
                    ErrorCode::PaymentFailed,
                    failure("pay/onchain"@, e@),
                ),
            },
    {
        match sent {
            Ok(txid) => Ok(paid("onchain", amount_sat * 1_000, None, Some(txid), 0, now)),
            Err(e) => Err(ldk_err("pay/onchain", ErrorCode::PaymentFailed, e.as_str())),
        }
    }
}

}
