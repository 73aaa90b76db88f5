//! BOLT 12 offers, issued, paid, listed and disabled.

use vstd::prelude::*;

use crate::digits::{bytes_of_hex, hex_text};
use crate::error::{failure, ldk_err, ErrorCode, NncError};
use crate::foreign::{hex_decode, hex_encode, offer_id, offer_id_of};
use crate::lightning::PaymentSent;
use crate::lists::lemma_filter_step;
use crate::nwc::{
    DisableOfferRequest, DisableOfferResponse, ListOffersRequest, ListOffersResponse,
    MakeOfferRequest, MakeOfferResponse, OfferRecord, PayOfferRequest, PayOfferResponse,
};
use crate::state::{NewOffer, StoredOffer};
use crate::wallet::pay::{hash_of_preimage, payment_hash_of};
use crate::wallet::Wallet;

verus! {

/// An offer for the node to issue.
#[derive(Debug, PartialEq, Eq)]
pub struct MakeOfferCall {
    pub amount_msat: u64,
    pub description: String,
    /// Seconds from now.
    pub expiry: Option<u32>,
}

/// An offer for the node to pay.
#[derive(Debug, PartialEq, Eq)]
pub struct PayOfferCall {
    pub offer: String,
    pub amount_msat: Option<u64>,
    pub payer_note: Option<String>,
}

/// An offer to remember, and the answer that hands it out.
#[derive(Debug, PartialEq, Eq)]
pub struct IssuedOffer {
    pub remember: NewOffer,
    pub answer: MakeOfferResponse,
}

/// An offer to disable, and the answer that says so.
#[derive(Debug, PartialEq, Eq)]
pub struct DisabledOffer {
    pub disable: String,
    pub answer: DisableOfferResponse,
}

/// What an offer says it is for.
pub open spec fn offer_description(description: Option<Seq<char>>) -> Seq<char> {
    match description {
        Some(d) => d,
        None => "offer"@,
    }
}

/// The seconds left until `expires_at`, where the node can be told them.
pub open spec fn seconds_left(expires_at: Option<u64>, now: u64) -> Option<u32> {
    match expires_at {
        Some(at) => {
            let left = if at > now {
                at - now
            } else {
                0
            };
            if left <= u32::MAX {
                Some(left as u32)
            } else {
                None
            }
        },
        None => None,
    }
}

/// The id to file an offer under; all zeros for a text that is no offer.
pub open spec fn filed_under(id: Option<Seq<u8>>) -> Seq<u8> {
    match id {
        Some(id) => id,
        None => Seq::new(32, |i: int| 0u8),
    }
}

/// Whether `o` is the offer that the node issued for `r` at `now`, both to
/// remember and to hand out.
pub open spec fn is_issued_offer(
    o: IssuedOffer,
    r: MakeOfferRequest,
    offer: Seq<char>,
    id: Option<Seq<u8>>,
    now: u64,
) -> bool {
    &&& o.remember.offer@ == offer
    &&& o.remember.description@ == offer_description(r.description.deep_view())
    &&& o.remember.amount_msat == r.amount.unwrap_or(0)
    &&& o.remember.offer_id@ == filed_under(id)
    &&& o.answer.offer_id@ == hex_text(filed_under(id))
    &&& o.answer.offer@ == offer
    &&& o.answer.amount == r.amount
    &&& o.answer.description == r.description
    &&& o.answer.issuer == r.issuer
    &&& o.answer.single_use == r.single_use.unwrap_or(false)
    &&& o.answer.created_at == now
    &&& o.answer.expires_at == r.expires_at
}

/// Whether `a` says that an offer was paid. The payment's hash identifies it,
/// as in a payment lookup; the id is empty where the preimage spells none.
pub open spec fn is_offer_paid(
    a: PayOfferResponse,
    preimage: Seq<char>,
    fees_paid: Option<u64>,
) -> bool {
    &&& a.transaction_id@ == (match hash_of_preimage(preimage) {
        Some(hash) => hash,
        None => Seq::empty(),
    })
    &&& a.preimage@ == preimage
    &&& a.fees_paid == fees_paid
}

/// Whether `r` is what a list says of the remembered offer `o`.
pub open spec fn is_offer_record(r: OfferRecord, o: StoredOffer) -> bool {
    &&& r.offer_id@ == hex_text(o.offer_id@)
    &&& r.offer == o.offer
    &&& r.description == Some(o.description)
    &&& r.issuer is None
    &&& r.amount == Some(o.amount_msat)
    &&& r.active == o.active
    &&& r.single_use == false
    &&& r.num_payments_received == o.num_payments_received
    &&& r.total_received == o.total_received_msat
    &&& r.created_at == 0
    &&& r.expires_at is None
}

/// Whether `answer` disables the offer that was found, or says that none was.
pub open spec fn is_disabled(
    answer: Result<DisabledOffer, NncError>,
    found: Option<Seq<char>>,
) -> bool {
    match found {
        Some(offer) => answer matches Ok(d) && d.disable@ == offer,
        None => answer matches Err(e) && e.says(ErrorCode::NotFound, "no such offer"@),
    }
}

/// The first remembered offer of that id.
pub open spec fn offer_with_id(stored: Seq<StoredOffer>, id: Seq<u8>) -> Option<Seq<char>>
    decreases stored.len(),
{
    if stored.len() == 0 {
        None
    } else if stored[0].offer_id@ == id {
        Some(stored[0].offer@)
    } else {
        offer_with_id(stored.drop_first(), id)
    }
}

/// What is remembered once an offer is disabled: the same, and that offer not
/// active.
pub open spec fn with_disabled(stored: Seq<StoredOffer>, offer: Seq<char>) -> Seq<StoredOffer> {
    stored.map_values(
        |o: StoredOffer|
            if o.offer@ == offer {
                StoredOffer { active: false, ..o }
            } else {
                o
            },
    )
}

/// The offers that a list shows: all of them, or the active ones.
pub open spec fn shown(r: ListOffersRequest) -> spec_fn(StoredOffer) -> bool {
    |o: StoredOffer| r.active_only != Some(true) || o.active
}

pub(crate) fn id_or_zeros(id: Option<[u8; 32]>) -> (filed: [u8; 32])
    ensures
        filed@ == filed_under(id.deep_view()),
{
    match id {
        Some(id) => {
            assert(id@ =~= id.deep_view());
            id
        },
        None => {
            let zeros = [0u8;32];
            assert(zeros@ =~= filed_under(None));
            zeros
        },
    }
}

impl Wallet {
    /// Which offer the node is asked to issue. An offer with an amount has to
    /// say what is being paid for.
    pub fn make_offer(&self, r: &MakeOfferRequest, now: u64) -> (call: Result<
        MakeOfferCall,
        NncError,
    >)
        ensures
            match call {
                Ok(c) => {
                    &&& r.amount is None || r.description is Some
                    &&& c.amount_msat == r.amount.unwrap_or(0)
                    &&& c.description@ == offer_description(r.description.deep_view())
                    &&& c.expiry == seconds_left(r.expires_at, now)
                },
                Err(e) => {
                    &&& r.amount is Some && r.description is None
                    &&& e.says(
                        ErrorCode::BadRequest,
                        "an amount-bearing offer requires a description"@,
                    )
                },
            },
    {
        if r.amount.is_some() && r.description.is_none() {
            return Err(
                NncError::new(
                    ErrorCode::BadRequest,
                    "an amount-bearing offer requires a description",
                ),
            );
        }
        let expiry: Option<u32> = match r.expires_at {
            Some(at) => {
                let left: u64 = at.saturating_sub(now);
                if left <= u32::MAX as u64 {
                    Some(left as u32)
                } else {
                    None
                }
            },
            None => None,
        };
        Ok(
            MakeOfferCall {
                amount_msat: r.amount.unwrap_or(0),
                description: match &r.description {
                    Some(d) => d.clone(),
                    None => "offer".to_string(),
                },
                expiry,
            },
        )
    }

    /// An offer of a given id, issued for `r` at `now`.
    pub fn issue_offer(&self, r: MakeOfferRequest, offer: String, id: Option<[u8; 32]>, now: u64) -> (o:
        IssuedOffer)
        ensures
            is_issued_offer(o, r, offer@, id.deep_view(), now),
    {
        let filed = id_or_zeros(id);
        IssuedOffer {
            remember: NewOffer {
                offer: offer.clone(),
                description: match &r.description {
                    Some(d) => d.clone(),
                    None => "offer".to_string(),
                },
                amount_msat: r.amount.unwrap_or(0),
                offer_id: filed,
            },
            answer: MakeOfferResponse {
                offer_id: hex_encode(&filed),
                offer,
                amount: r.amount,
                description: r.description,
                issuer: r.issuer,
                single_use: r.single_use.unwrap_or(false),
                created_at: now,
                expires_at: r.expires_at,
            },
        }
    }

    /// The offer that the node issued at `now`: remembered first, then handed
    /// out.
    pub fn make_offer_reply(
        &self,
        r: MakeOfferRequest,
        made: Result<String, String>,
        now: u64,
    ) -> (answer: Result<IssuedOffer, NncError>)
        ensures
            match made {
                Ok(offer) => answer matches Ok(o) && is_issued_offer(
                    o,
                    r,
                    offer@,
                    offer_id_of(offer@),
                    now,
                ),
                Err(e) => answer matches Err(error) && error.says(
                    ErrorCode::Internal,
                    failure("make_offer"@, e@),
                ),
            },
    {
        match made {
            Ok(offer) => {
                let id = offer_id(offer.as_str());
                Ok(self.issue_offer(r, offer, id, now))
            },
            Err(e) => Err(ldk_err("make_offer", ErrorCode::Internal, e.as_str())),
        }
    }

    /// Which offer the node is asked to pay.
    pub fn pay_offer(&self, r: PayOfferRequest) -> (call: PayOfferCall)
        ensures
            call.offer == r.offer,
            call.amount_msat == r.amount,
            call.payer_note == r.payer_note,
    {
        PayOfferCall { offer: r.offer, amount_msat: r.amount, payer_note: r.payer_note }
    }

    /// What came of paying an offer.
    pub fn pay_offer_reply(&self, sent: Result<PaymentSent, String>) -> (answer: Result<
        PayOfferResponse,
        NncError,
    >)
        ensures
            match sent {
                Ok(p) => answer matches Ok(a) && is_offer_paid(a, p.preimage@, p.fees_paid_msat),
                Err(e) => answer matches Err(error) && error.says(
                    ErrorCode::PaymentFailed,
                    failure("pay_offer"@, e@),
                ),
            },
    {
        match sent {
            Ok(p) => {
                let transaction_id = match payment_hash_of(p.preimage.as_str()) {
                    Some(hash) => hash,
                    None => String::new(),
                };
                Ok(
                    PayOfferResponse {
                        transaction_id,
                        preimage: p.preimage,
                        fees_paid: p.fees_paid_msat,
                    },
                )
            },
            Err(e) => Err(ldk_err("pay_offer", ErrorCode::PaymentFailed, e.as_str())),
        }
    }

    /// The offers that the node remembers, in its order, or of them the active
    /// ones. When an offer was issued or expires is not remembered.
    pub fn list_offers(&self, r: &ListOffersRequest, stored: &Vec<StoredOffer>) -> (answer:
        ListOffersResponse)
        ensures
            answer.offers@.len() == stored@.filter(shown(*r)).len(),
            forall|i: int|
                0 <= i < answer.offers@.len() ==> is_offer_record(
                    #[trigger] answer.offers@[i],
                    stored@.filter(shown(*r))[i],
                ),
    {
        let active_only = r.active_only.unwrap_or(false);
        let mut offers: Vec<OfferRecord> = Vec::new();
        let ghost keep = shown(*r);
        for n in 0..stored.len()
            invariant
                keep == shown(*r),
                active_only == (r.active_only == Some(true)),
                offers@.len() == stored@.take(n as int).filter(keep).len(),
                forall|i: int|
                    0 <= i < offers@.len() ==> is_offer_record(
                        #[trigger] offers@[i],
                        stored@.take(n as int).filter(keep)[i],
                    ),
        {
            proof {
                lemma_filter_step(stored@, keep, n as int);
            }
            let o = &stored[n];
            if !active_only || o.active {
                offers.push(
                    OfferRecord {
                        offer_id: hex_encode(&o.offer_id),
                        offer: o.offer.clone(),
                        description: Some(o.description.clone()),
                        issuer: None,
                        amount: Some(o.amount_msat),
                        active: o.active,
                        single_use: false,
                        num_payments_received: o.num_payments_received,
                        total_received: o.total_received_msat,
                        created_at: 0,
                        expires_at: None,
                    },
                );
            }
        }
        assert(stored@.take(stored@.len() as int) =~= stored@);
        ListOffersResponse { offers }
    }

    /// The id of the offer to disable.
    pub fn disable_offer(&self, r: &DisableOfferRequest) -> (id: Result<[u8; 32], NncError>)
        ensures
            match id {
                Ok(id) => bytes_of_hex(r.offer_id@) == Some(id@),
                Err(e) => {
                    &&& bytes_of_hex(r.offer_id@) is Some ==> bytes_of_hex(r.offer_id@)->0.len()
                        != 32
                    &&& e.says(ErrorCode::BadRequest, "offer_id must be 32 bytes, hex"@)
                },
            },
    {
        if let Some(bytes) = hex_decode(r.offer_id.as_str()) {
            assert(bytes@ =~= bytes.deep_view());
            if bytes.len() == 32 {
                let mut id = [0u8;32];
                for i in 0usize..32
                    invariant
                        bytes@.len() == 32,
                        forall|j: int| 0 <= j < i ==> #[trigger] id@[j] == bytes@[j],
                {
                    id[i] = bytes[i];
                }
                assert(id@ =~= bytes@);
                return Ok(id);
            }
        }
        Err(NncError::new(ErrorCode::BadRequest, "offer_id must be 32 bytes, hex"))
    }

    /// The offer of that id, if the node remembers one, whether or not it is
    /// disabled already: it is disabled, and disabling it again succeeds as well.
    pub fn disable_offer_reply(&self, found: Option<String>) -> (answer: Result<
        DisabledOffer,
        NncError,
    >)
        ensures
            is_disabled(answer, found.deep_view()),
    {
        match found {
            Some(offer) => Ok(DisabledOffer { disable: offer, answer: DisableOfferResponse {  } }),
            None => Err(NncError::new(ErrorCode::NotFound, "no such offer")),
        }
    }
}

}
