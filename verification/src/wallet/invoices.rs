//! Paying and issuing: invoices, hold invoices and keysend.

use vstd::prelude::*;

use crate::error::{failure, ldk_err, ErrorCode, NncError};
use crate::foreign::trimmed;
use crate::lightning::{InvoiceInfo, PaymentSent};
use crate::nwc::{
    CancelHoldInvoiceRequest, CancelHoldInvoiceResponse, MakeHoldInvoiceRequest,
    MakeHoldInvoiceResponse, MakeInvoiceRequest, PayInvoiceRequest, PayInvoiceResponse,
    PayKeysendRequest, PayKeysendResponse, SettleHoldInvoiceRequest, SettleHoldInvoiceResponse,
    Transaction, TransactionState, TransactionType,
};
use crate::wallet::Wallet;

verus! {

/// An invoice for the node to pay.
#[derive(Debug, PartialEq, Eq)]
pub struct PayInvoiceCall {
    pub invoice: String,
    pub amount_msat: Option<u64>,
}

/// An invoice for the node to issue.
#[derive(Debug, PartialEq, Eq)]
pub struct MakeInvoiceCall {
    pub amount_msat: u64,
    pub description: Option<String>,
    pub description_hash: Option<String>,
    pub expiry: Option<u64>,
}

/// A hold invoice for the node to issue.
#[derive(Debug, PartialEq, Eq)]
pub struct MakeHoldInvoiceCall {
    pub amount_msat: u64,
    pub description: Option<String>,
    pub expiry: Option<u64>,
    pub payment_hash: String,
}

/// A payment for the node to push to a peer.
#[derive(Debug, PartialEq, Eq)]
pub struct PayKeysendCall {
    pub pubkey: String,
    pub amount_msat: u64,
}

/// Whether `t` is the invoice that the node issued for `r`: open, and settled
/// by nobody.
pub open spec fn is_issued(
    t: Transaction,
    r: MakeInvoiceRequest,
    made: InvoiceInfo,
    now: u64,
) -> bool {
    &&& t.transaction_type == TransactionType::Incoming
    &&& t.state == Some(TransactionState::Pending)
    &&& t.invoice == Some(made.invoice)
    &&& t.description == r.description
    &&& t.description_hash == r.description_hash
    &&& t.preimage is None
    &&& t.payment_hash@ == (match made.payment_hash {
        Some(hash) => hash@,
        None => Seq::empty(),
    })
    &&& t.amount == made.amount_msat.unwrap_or(r.amount)
    &&& t.fees_paid == 0
    &&& t.created_at == now
    &&& t.expires_at == made.expires_at
    &&& t.settled_at is None
    &&& t.metadata == r.metadata
}

impl Wallet {
    /// Which invoice the node is asked to pay. Zero is no amount and a blank
    /// is no invoice: both are refused before the node is asked.
    pub fn pay_invoice(&self, r: &PayInvoiceRequest) -> (call: Result<PayInvoiceCall, NncError>)
        ensures
            match call {
                Ok(c) => {
                    &&& r.amount != Some(0u64) && trimmed(r.invoice@).len() > 0
                    &&& c.invoice@ == trimmed(r.invoice@)
                    &&& c.amount_msat == r.amount
                },
                Err(e) => if r.amount == Some(0u64) {
                    e.says(ErrorCode::BadRequest, "amount must be greater than 0"@)
                } else {
                    &&& trimmed(r.invoice@).len() == 0
                    &&& e.says(ErrorCode::BadRequest, "invoice is required"@)
                },
            },
    {
        if let Some(amount) = r.amount {
            if amount == 0 {
                return Err(NncError::new(ErrorCode::BadRequest, "amount must be greater than 0"));
            }
        }
        let invoice = r.invoice.as_str().trim();
        if invoice.is_empty() {
            return Err(NncError::new(ErrorCode::BadRequest, "invoice is required"));
        }
        Ok(PayInvoiceCall { invoice: invoice.to_owned(), amount_msat: r.amount })
    }

    /// What came of paying an invoice.
    pub fn pay_invoice_reply(&self, paid: Result<PaymentSent, String>) -> (answer: Result<
        PayInvoiceResponse,
        NncError,
    >)
        ensures
            match paid {
                Ok(p) => {
                    &&& answer matches Ok(a)
                    &&& a.preimage == p.preimage
                    &&& a.fees_paid == p.fees_paid_msat
                },
                Err(e) => answer matches Err(error) && error.says(
                    ErrorCode::PaymentFailed,
                    failure("pay_invoice"@, e@),
                ),
            },
    {
        match paid {
            Ok(p) => Ok(PayInvoiceResponse { preimage: p.preimage, fees_paid: p.fees_paid_msat }),
            Err(e) => Err(ldk_err("pay_invoice", ErrorCode::PaymentFailed, e.as_str())),
        }
    }

    /// Which invoice the node is asked to issue. The node cannot bind a
    /// description hash, and an invoice whose hash commits to nothing is worse
    /// than none.
    pub fn make_invoice(&self, r: &MakeInvoiceRequest) -> (call: Result<MakeInvoiceCall, NncError>)
        ensures
            match call {
                Ok(c) => {
                    &&& r.description_hash is None
                    &&& c.amount_msat == r.amount
                    &&& c.description == r.description
                    &&& c.description_hash is None
                    &&& c.expiry == r.expiry
                },
                Err(e) => {
                    &&& r.description_hash is Some
                    &&& e.says(
                        ErrorCode::BadRequest,
                        "this node does not support description_hash"@,
                    )
                },
            },
    {
        if r.description_hash.is_some() {
            return Err(
                NncError::new(ErrorCode::BadRequest, "this node does not support description_hash"),
            );
        }
        Ok(
            MakeInvoiceCall {
                amount_msat: r.amount,
                description: r.description.clone(),
                description_hash: None,
                expiry: r.expiry,
            },
        )
    }

    /// The invoice that the node issued at `now`, as a transaction that nobody
    /// has paid.
    pub fn make_invoice_reply(
        &self,
        r: MakeInvoiceRequest,
        made: Result<InvoiceInfo, String>,
        now: u64,
    ) -> (answer: Result<Transaction, NncError>)
        ensures
            match made {
                Ok(m) => answer matches Ok(t) && is_issued(t, r, m, now),
                Err(e) => answer matches Err(error) && error.says(
                    ErrorCode::Internal,
                    failure("make_invoice"@, e@),
                ),
            },
    {
        match made {
            Ok(m) => Ok(
                Transaction {
                    transaction_type: TransactionType::Incoming,
                    state: Some(TransactionState::Pending),
                    invoice: Some(m.invoice),
                    description: r.description,
                    description_hash: r.description_hash,
                    preimage: None,
                    payment_hash: match m.payment_hash {
                        Some(hash) => hash,
                        None => String::new(),
                    },
                    amount: m.amount_msat.unwrap_or(r.amount),
                    fees_paid: 0,
                    created_at: now,
                    expires_at: m.expires_at,
                    settled_at: None,
                    metadata: r.metadata,
                },
            ),
            Err(e) => Err(ldk_err("make_invoice", ErrorCode::Internal, e.as_str())),
        }
    }

    /// Which hold invoice the node is asked to issue.
    pub fn make_hold_invoice(&self, r: &MakeHoldInvoiceRequest) -> (call: MakeHoldInvoiceCall)
        ensures
            call.amount_msat == r.amount,
            call.description == r.description,
            call.expiry == r.expiry,
            call.payment_hash == r.payment_hash,
    {
        MakeHoldInvoiceCall {
            amount_msat: r.amount,
            description: r.description.clone(),
            expiry: r.expiry,
            payment_hash: r.payment_hash.clone(),
        }
    }

    /// The hold invoice that the node issued at `now`, under the hash that the
    /// caller chose.
    pub fn make_hold_invoice_reply(
        &self,
        r: MakeHoldInvoiceRequest,
        made: Result<InvoiceInfo, String>,
        now: u64,
    ) -> (answer: Result<MakeHoldInvoiceResponse, NncError>)
        ensures
            match made {
                Ok(m) => {
                    &&& answer matches Ok(a)
                    &&& a.kind@ == "incoming"@
                    &&& a.invoice == Some(m.invoice)
                    &&& a.payment_hash == r.payment_hash
                    &&& a.amount == m.amount_msat.unwrap_or(r.amount)
                    &&& a.created_at == now
                    &&& a.expires_at == m.expires_at
                    &&& a.description == r.description
                    &&& a.description_hash == r.description_hash
                    &&& a.metadata is None
                },
                Err(e) => answer matches Err(error) && error.says(
                    ErrorCode::Internal,
                    failure("make_hold_invoice"@, e@),
                ),
            },
    {
        match made {
            Ok(m) => Ok(
                MakeHoldInvoiceResponse {
                    kind: "incoming".to_string(),
                    invoice: Some(m.invoice),
                    payment_hash: r.payment_hash,
                    amount: m.amount_msat.unwrap_or(r.amount),
                    created_at: now,
                    expires_at: m.expires_at,
                    description: r.description,
                    description_hash: r.description_hash,
                    metadata: None,
                },
            ),
            Err(e) => Err(ldk_err("make_hold_invoice", ErrorCode::Internal, e.as_str())),
        }
    }

    /// The preimage by which the node is asked to settle a held payment.
    pub fn settle_hold_invoice(&self, r: SettleHoldInvoiceRequest) -> (preimage: String)
        ensures
            preimage == r.preimage,
    {
        r.preimage
    }

    /// What came of settling a held payment.
    pub fn settle_hold_invoice_reply(&self, settled: Result<(), String>) -> (answer: Result<
        SettleHoldInvoiceResponse,
        NncError,
    >)
        ensures
            match settled {
                Ok(_) => answer is Ok,
                Err(e) => answer matches Err(error) && error.says(
                    ErrorCode::Internal,
                    failure("settle_hold_invoice"@, e@),
                ),
            },
    {
        match settled {
            Ok(_) => Ok(SettleHoldInvoiceResponse {  }),
            Err(e) => Err(ldk_err("settle_hold_invoice", ErrorCode::Internal, e.as_str())),
        }
    }

    /// The hash of the held payment that the node is asked to cancel.
    pub fn cancel_hold_invoice(&self, r: CancelHoldInvoiceRequest) -> (payment_hash: String)
        ensures
            payment_hash == r.payment_hash,
    {
        r.payment_hash
    }

    /// What came of cancelling a held payment.
    pub fn cancel_hold_invoice_reply(&self, cancelled: Result<(), String>) -> (answer: Result<
        CancelHoldInvoiceResponse,
        NncError,
    >)
        ensures
            match cancelled {
                Ok(_) => answer is Ok,
                Err(e) => answer matches Err(error) && error.says(
                    ErrorCode::Internal,
                    failure("cancel_hold_invoice"@, e@),
                ),
            },
    {
        match cancelled {
            Ok(_) => Ok(CancelHoldInvoiceResponse {  }),
            Err(e) => Err(ldk_err("cancel_hold_invoice", ErrorCode::Internal, e.as_str())),
        }
    }

    /// Which payment the node is asked to push. Zero is refused before it is
    /// asked.
    pub fn pay_keysend(&self, r: PayKeysendRequest) -> (call: Result<PayKeysendCall, NncError>)
        ensures
            match call {
                Ok(c) => r.amount != 0 && c.pubkey == r.pubkey && c.amount_msat == r.amount,
                Err(e) => r.amount == 0 && e.says(
                    ErrorCode::BadRequest,
                    "amount must be greater than 0"@,
                ),
            },
    {
        if r.amount == 0 {
            return Err(NncError::new(ErrorCode::BadRequest, "amount must be greater than 0"));
        }
        Ok(PayKeysendCall { pubkey: r.pubkey, amount_msat: r.amount })
    }

    /// What came of pushing a payment.
    pub fn pay_keysend_reply(&self, paid: Result<PaymentSent, String>) -> (answer: Result<
        PayKeysendResponse,
        NncError,
    >)
        ensures
            match paid {
                Ok(p) => {
                    &&& answer matches Ok(a)
                    &&& a.preimage == p.preimage
                    &&& a.fees_paid == p.fees_paid_msat
                },
                Err(e) => answer matches Err(error) && error.says(
                    ErrorCode::PaymentFailed,
                    failure("pay_keysend"@, e@),
                ),
            },
    {
        match paid {
            Ok(p) => Ok(PayKeysendResponse { preimage: p.preimage, fees_paid: p.fees_paid_msat }),
            Err(e) => Err(ldk_err("pay_keysend", ErrorCode::PaymentFailed, e.as_str())),
        }
    }
}

}
