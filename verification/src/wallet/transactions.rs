//! The node's payment records, listed and looked up.

use vstd::prelude::*;

use crate::digits::hex_text;
use crate::error::{failure, ldk_err, ErrorCode, NncError};
use crate::foreign::{json_names, json_object, json_text, json_texts};
use crate::lightning::{
    hex_option, payment_hash_from_kind, preimage_from_kind, PaymentDetails, PaymentDirection,
    PaymentKind, PaymentStatus,
};
use crate::lists::lemma_filter_step;
use crate::nwc::{
    InvoiceRecord, InvoiceState, ListInvoicesRequest, ListInvoicesResponse, ListTransactionsRequest,
    ListTransactionsResponse, LookupInvoiceRequest, LookupPaymentRequest, LookupPaymentResponse,
    PaymentState, Transaction, TransactionState, TransactionType,
};
use crate::wallet::Wallet;

verus! {

// ── a record, as a transaction ───────────────────────────────────────

pub open spec fn type_of(direction: PaymentDirection) -> TransactionType {
    match direction {
        PaymentDirection::Inbound => TransactionType::Incoming,
        PaymentDirection::Outbound => TransactionType::Outgoing,
    }
}

pub open spec fn state_of(status: PaymentStatus) -> TransactionState {
    match status {
        PaymentStatus::Succeeded => TransactionState::Settled,
        PaymentStatus::Failed => TransactionState::Failed,
        PaymentStatus::Pending => TransactionState::Pending,
    }
}

/// The hash that a payment goes by, in hex; empty where it has none.
pub open spec fn hash_text(kind: PaymentKind) -> Seq<char> {
    match kind.hash() {
        Some(hash) => hex_text(hash),
        None => Seq::empty(),
    }
}

/// When a payment was settled, if it was.
pub open spec fn settled_at(p: PaymentDetails) -> Option<u64> {
    if p.status == PaymentStatus::Succeeded {
        Some(p.latest_update_timestamp)
    } else {
        None
    }
}

/// Whether `t` is the record `p`. The node keeps neither the invoice nor its
/// description, so a transaction has none.
pub open spec fn is_transaction_of(t: Transaction, p: PaymentDetails) -> bool {
    &&& t.transaction_type == type_of(p.direction)
    &&& t.state == Some(state_of(p.status))
    &&& t.invoice is None
    &&& t.description is None
    &&& t.description_hash is None
    &&& t.preimage.deep_view() == hex_option(p.kind.preimage())
    &&& t.payment_hash@ == hash_text(p.kind)
    &&& t.amount == p.amount_msat.unwrap_or(0)
    &&& t.fees_paid == p.fee_paid_msat.unwrap_or(0)
    &&& t.created_at == p.latest_update_timestamp
    &&& t.expires_at is None
    &&& t.settled_at == settled_at(p)
    &&& t.metadata is None
}

/// A payment record, as a transaction.
pub fn to_transaction(p: &PaymentDetails) -> (t: Transaction)
    ensures
        is_transaction_of(t, *p),
{
    let settled = p.status == PaymentStatus::Succeeded;
    Transaction {
        transaction_type: match p.direction {
            PaymentDirection::Inbound => TransactionType::Incoming,
            PaymentDirection::Outbound => TransactionType::Outgoing,
        },
        state: Some(
            match p.status {
                PaymentStatus::Succeeded => TransactionState::Settled,
                PaymentStatus::Failed => TransactionState::Failed,
                PaymentStatus::Pending => TransactionState::Pending,
            },
        ),
        invoice: None,
        description: None,
        description_hash: None,
        preimage: preimage_from_kind(&p.kind),
        payment_hash: match payment_hash_from_kind(&p.kind) {
            Some(hash) => hash,
            None => String::new(),
        },
        amount: p.amount_msat.unwrap_or(0),
        fees_paid: p.fee_paid_msat.unwrap_or(0),
        created_at: p.latest_update_timestamp,
        expires_at: None,
        settled_at: if settled {
            Some(p.latest_update_timestamp)
        } else {
            None
        },
        metadata: None,
    }
}

// ── what the node is asked ───────────────────────────────────────────

/// A search through the node's payment records.
#[derive(Debug, Clone, Copy, PartialEq, Eq)]
pub struct PaymentQuery {
    pub from: Option<u64>,
    pub until: Option<u64>,
    pub limit: Option<u64>,
    pub offset: Option<u64>,
    pub unpaid: Option<bool>,
    pub direction: Option<PaymentDirection>,
}

/// A search for one payment.
#[derive(Debug, PartialEq, Eq)]
pub enum PaymentSelector {
    Hash(String),
    Bolt11(String),
}

/// Whether `s` goes by the hash, where there is one, and else by the invoice.
pub open spec fn selects(
    s: PaymentSelector,
    hash: Option<Seq<char>>,
    invoice: Option<Seq<char>>,
) -> bool {
    match (s, hash) {
        (PaymentSelector::Hash(h), Some(wanted)) => h@ == wanted,
        (PaymentSelector::Bolt11(i), None) => invoice == Some(i@),
        _ => false,
    }
}

/// The hash that a request selects by, where its selector form names one. A
/// lookup counts beside its payment type alone.
pub open spec fn wanted_hash(r: LookupPaymentRequest) -> Option<Seq<char>> {
    if r.transaction_id is Some {
        r.transaction_id.deep_view()
    } else if r.payment_hash is Some {
        r.payment_hash.deep_view()
    } else {
        match r.lookup {
            Some(lookup) if r.payment_type is Some && json_texts(lookup).contains_key(
                "payment_hash"@,
            ) => json_texts(lookup)["payment_hash"@],
            _ => None,
        }
    }
}

/// How many of the three selector forms a request uses: the transaction id,
/// the invoice fields, or a payment type with its lookup.
pub open spec fn selector_forms(r: LookupPaymentRequest) -> int {
    (if r.transaction_id is Some {
        1int
    } else {
        0
    }) + (if r.payment_hash is Some || r.invoice is Some {
        1int
    } else {
        0
    }) + (if r.payment_type is Some && r.lookup is Some {
        1int
    } else {
        0
    })
}

pub open spec fn payment_state_of(status: PaymentStatus) -> PaymentState {
    match status {
        PaymentStatus::Succeeded => PaymentState::Settled,
        PaymentStatus::Failed => PaymentState::Failed,
        PaymentStatus::Pending => PaymentState::Pending,
    }
}

/// Whether a JSON value is the object of those four members, absent ones null.
pub open spec fn is_details_of(details: serde_json::Value, p: PaymentDetails) -> bool {
    &&& json_names(details) == set!["payment_hash"@, "invoice"@, "preimage"@, "description"@]
    &&& json_texts(details) == map![
        "payment_hash"@ => Some(hash_text(p.kind)),
        "invoice"@ => None,
        "preimage"@ => hex_option(p.kind.preimage()),
        "description"@ => None,
    ]
}

/// Whether `a` is what a lookup says of the record `p`.
pub open spec fn is_lookup_of(a: LookupPaymentResponse, p: PaymentDetails) -> bool {
    &&& a.transaction_id@ == hash_text(p.kind)
    &&& a.payment_direction == type_of(p.direction)
    &&& a.state == payment_state_of(p.status)
    &&& a.payment_type@ == "bolt11"@
    &&& a.amount == p.amount_msat.unwrap_or(0)
    &&& a.fees_paid == Some(p.fee_paid_msat.unwrap_or(0))
    &&& a.created_at == p.latest_update_timestamp
    &&& a.updated_at is None
    &&& a.expires_at is None
    &&& a.settled_at == settled_at(p)
    &&& a.failure_reason is None
    &&& a.metadata is None
    &&& is_details_of(a.details, p)
}

fn details_of(t: &Transaction, Ghost(p): Ghost<PaymentDetails>) -> (details: serde_json::Value)
    requires
        is_transaction_of(*t, p),
    ensures
        is_details_of(details, p),
{
    let members = vec![
        ("payment_hash".to_string(), Some(t.payment_hash.clone())),
        ("invoice".to_string(), t.invoice.clone()),
        ("preimage".to_string(), t.preimage.clone()),
        ("description".to_string(), t.description.clone()),
    ];
    proof {
        reveal_strlit("payment_hash");
        reveal_strlit("invoice");
        reveal_strlit("preimage");
        reveal_strlit("description");
        assert("preimage"@[0] != "payment_hash"@[0] || "preimage"@[1] != "payment_hash"@[1]);
        assert("invoice"@[0] != "payment_hash"@[0]);
    }
    let ghost names = members@.map_values(|m: (String, Option<String>)| m.0@);
    let details = json_object(members);
    proof {
        assert(names =~= seq!["payment_hash"@, "invoice"@, "preimage"@, "description"@]);
        let wanted = set!["payment_hash"@, "invoice"@, "preimage"@, "description"@];
        assert(json_names(details) =~= wanted) by {
            assert(names[0] == "payment_hash"@ && names[1] == "invoice"@ && names[2] == "preimage"@
                && names[3] == "description"@);
            assert forall|n: Seq<char>| wanted.contains(n) implies names.to_set().contains(n) by {
                assert(names.contains(names[0]) && names.contains(names[1]) && names.contains(names[2])
                    && names.contains(names[3]));
            }
        }
        assert(json_texts(details) =~= map![
            "payment_hash"@ => Some(hash_text(p.kind)),
            "invoice"@ => None,
            "preimage"@ => hex_option(p.kind.preimage()),
            "description"@ => None,
        ]) by {
            assert(json_texts(details)[members@[0].0@] == members@[0].1.deep_view());
            assert(json_texts(details)[members@[1].0@] == members@[1].1.deep_view());
            assert(json_texts(details)[members@[2].0@] == members@[2].1.deep_view());
            assert(json_texts(details)[members@[3].0@] == members@[3].1.deep_view());
        }
    }
    details
}

// ── invoices ─────────────────────────────────────────────────────────

/// The state of an invoice: settled, or past its time, or open.
pub open spec fn invoice_state_of(
    state: Option<TransactionState>,
    expires_at: Option<u64>,
    now: u64,
) -> InvoiceState {
    if state == Some(TransactionState::Settled) {
        InvoiceState::Settled
    } else if expires_at is Some && expires_at->0 < now {
        InvoiceState::Expired
    } else {
        InvoiceState::Pending
    }
}

/// Whether `i` is the invoice behind `t`. What proves a payment is shown of a
/// settled invoice only.
pub open spec fn is_invoice_of(i: InvoiceRecord, t: Transaction, now: u64) -> bool {
    let state = invoice_state_of(t.state, t.expires_at, now);
    &&& i.invoice@ == (match t.invoice {
        Some(invoice) => invoice@,
        None => Seq::empty(),
    })
    &&& i.description == t.description
    &&& i.payment_hash == t.payment_hash
    &&& i.amount == t.amount
    &&& i.preimage == (if state == InvoiceState::Settled {
        t.preimage
    } else {
        None
    })
    &&& i.settled_at == (if state == InvoiceState::Settled {
        t.settled_at
    } else {
        None
    })
    &&& i.state == state
    &&& i.created_at == t.created_at
    &&& i.expires_at == t.expires_at.unwrap_or(0)
}

/// The invoice behind a transaction.
pub fn to_invoice(t: Transaction, now: u64) -> (i: InvoiceRecord)
    ensures
        is_invoice_of(i, t, now),
{
    let expired = match t.expires_at {
        Some(e) => e < now,
        None => false,
    };
    let state = match t.state {
        Some(TransactionState::Settled) => InvoiceState::Settled,
        _ => if expired {
            InvoiceState::Expired
        } else {
            InvoiceState::Pending
        },
    };
    let settled = state == InvoiceState::Settled;
    InvoiceRecord {
        invoice: match t.invoice {
            Some(invoice) => invoice,
            None => String::new(),
        },
        description: t.description,
        payment_hash: t.payment_hash,
        amount: t.amount,
        preimage: if settled {
            t.preimage
        } else {
            None
        },
        settled_at: if settled {
            t.settled_at
        } else {
            None
        },
        state,
        created_at: t.created_at,
        expires_at: t.expires_at.unwrap_or(0),
    }
}

/// The state of the invoice behind a payment record.
pub open spec fn record_state(p: PaymentDetails) -> InvoiceState {
    if p.status == PaymentStatus::Succeeded {
        InvoiceState::Settled
    } else {
        InvoiceState::Pending
    }
}

/// Whether `i` is the invoice behind the record `p`.
pub open spec fn is_invoice_of_record(i: InvoiceRecord, p: PaymentDetails) -> bool {
    let settled = p.status == PaymentStatus::Succeeded;
    &&& i.invoice@ == Seq::<char>::empty()
    &&& i.description is None
    &&& i.payment_hash@ == hash_text(p.kind)
    &&& i.amount == p.amount_msat.unwrap_or(0)
    &&& i.preimage.deep_view() == (if settled {
        hex_option(p.kind.preimage())
    } else {
        None
    })
    &&& i.settled_at == settled_at(p)
    &&& i.state == record_state(p)
    &&& i.created_at == p.latest_update_timestamp
    &&& i.expires_at == 0
}

/// The records whose invoice is in the wanted state.
pub open spec fn in_state(wanted: Option<InvoiceState>) -> spec_fn(PaymentDetails) -> bool {
    |p: PaymentDetails| wanted is None || wanted->0 == record_state(p)
}

impl Wallet {
    /// Which records a history request asks the node for.
    pub fn list_transactions(&self, r: ListTransactionsRequest) -> (query: PaymentQuery)
        ensures
            query.from == r.from,
            query.until == r.until,
            query.limit == r.limit,
            query.offset == r.offset,
            query.unpaid == r.unpaid,
            query.direction == (match r.transaction_type {
                Some(TransactionType::Incoming) => Some(PaymentDirection::Inbound),
                Some(TransactionType::Outgoing) => Some(PaymentDirection::Outbound),
                None => None,
            }),
    {
        let direction = match r.transaction_type {
            Some(TransactionType::Incoming) => Some(PaymentDirection::Inbound),
            Some(TransactionType::Outgoing) => Some(PaymentDirection::Outbound),
            None => None,
        };
        PaymentQuery {
            from: r.from,
            until: r.until,
            limit: r.limit,
            offset: r.offset,
            unpaid: r.unpaid,
            direction,
        }
    }

    /// The records that the node found, in its order, and how many.
    pub fn list_transactions_reply(&self, found: &Vec<PaymentDetails>) -> (answer:
        ListTransactionsResponse)
        ensures
            answer.transactions@.len() == found@.len(),
            forall|i: int|
                0 <= i < found@.len() ==> is_transaction_of(
                    #[trigger] answer.transactions@[i],
                    found@[i],
                ),
            answer.total_count == Some(found@.len() as u64),
    {
        let mut transactions: Vec<Transaction> = Vec::new();
        for i in 0..found.len()
            invariant
                transactions@.len() == i,
                forall|j: int|
                    0 <= j < i ==> is_transaction_of(#[trigger] transactions@[j], found@[j]),
        {
            transactions.push(to_transaction(&found[i]));
        }
        let total_count = Some(transactions.len() as u64);
        ListTransactionsResponse { transactions, total_count }
    }

    /// Which record an invoice lookup asks the node for: by hash where the
    /// request has one, by invoice otherwise.
    pub fn lookup_invoice(&self, r: LookupInvoiceRequest) -> (selector: Result<
        PaymentSelector,
        NncError,
    >)
        ensures
            match selector {
                Ok(s) => selects(s, r.payment_hash.deep_view(), r.invoice.deep_view()),
                Err(e) => {
                    &&& r.payment_hash is None && r.invoice is None
                    &&& e.says(
                        ErrorCode::BadRequest,
                        "one of payment_hash or invoice is required"@,
                    )
                },
            },
    {
        match (r.payment_hash, r.invoice) {
            (Some(h), _) => Ok(PaymentSelector::Hash(h)),
            (None, Some(i)) => Ok(PaymentSelector::Bolt11(i)),
            (None, None) => Err(
                NncError::new(ErrorCode::BadRequest, "one of payment_hash or invoice is required"),
            ),
        }
    }

    /// The record that the node found, as a transaction.
    pub fn lookup_invoice_reply(&self, found: Result<PaymentDetails, String>) -> (answer: Result<
        Transaction,
        NncError,
    >)
        ensures
            match found {
                Ok(p) => answer matches Ok(t) && is_transaction_of(t, p),
                Err(e) => answer matches Err(error) && error.says(
                    ErrorCode::NotFound,
                    failure("lookup_invoice"@, e@),
                ),
            },
    {
        match found {
            Ok(p) => Ok(to_transaction(&p)),
            Err(e) => Err(ldk_err("lookup_invoice", ErrorCode::NotFound, e.as_str())),
        }
    }

    /// Which record a payment lookup asks the node for. A request that uses
    /// more than one selector form, or none, is refused: a wallet that guessed
    /// could answer with the wrong payment.
    ///
    /// The node keys payments by hash, so a transaction id is a hash.
    pub fn lookup_payment(&self, r: LookupPaymentRequest) -> (selector: Result<
        PaymentSelector,
        NncError,
    >)
        ensures
            match selector {
                Ok(s) => selector_forms(r) == 1 && selects(s, wanted_hash(r), r.invoice.deep_view()),
                Err(e) => if selector_forms(r) != 1 {
                    e.says(
                        ErrorCode::BadRequest,
                        "exactly one of transaction_id, the bolt11 fields, or payment_type with lookup"@,
                    )
                } else {
                    &&& wanted_hash(r) is None && r.invoice is None
                    &&& e.says(ErrorCode::BadRequest, "no usable selector"@)
                },
            },
    {
        let mut forms: u8 = 0;
        if r.transaction_id.is_some() {
            forms = forms + 1;
        }
        if r.payment_hash.is_some() || r.invoice.is_some() {
            forms = forms + 1;
        }
        if r.payment_type.is_some() && r.lookup.is_some() {
            forms = forms + 1;
        }
        if forms != 1 {
            return Err(
                NncError::new(
                    ErrorCode::BadRequest,
                    "exactly one of transaction_id, the bolt11 fields, or payment_type with lookup",
                ),
            );
        }
        let named = match (&r.payment_type, &r.lookup) {
            (Some(_), Some(lookup)) => json_text(lookup, "payment_hash"),
            _ => None,
        };
        let hash = match (r.transaction_id, r.payment_hash) {
            (Some(id), _) => Some(id),
            (None, Some(hash)) => Some(hash),
            (None, None) => named,
        };
        match (hash, r.invoice) {
            (Some(h), _) => Ok(PaymentSelector::Hash(h)),
            (None, Some(i)) => Ok(PaymentSelector::Bolt11(i)),
            (None, None) => Err(NncError::new(ErrorCode::BadRequest, "no usable selector")),
        }
    }

    /// The record that the node found, as a lookup answers it.
    pub fn lookup_payment_reply(&self, found: Result<PaymentDetails, String>) -> (answer: Result<
        LookupPaymentResponse,
        NncError,
    >)
        ensures
            match found {
                Ok(p) => answer matches Ok(a) && is_lookup_of(a, p),
                Err(e) => answer matches Err(error) && error.says(
                    ErrorCode::NotFound,
                    failure("lookup_payment"@, e@),
                ),
            },
    {
        let p = match found {
            Ok(p) => p,
            Err(e) => {
                return Err(ldk_err("lookup_payment", ErrorCode::NotFound, e.as_str()));
            },
        };
        let t = to_transaction(&p);
        let details = details_of(&t, Ghost(p));
        Ok(
            LookupPaymentResponse {
                transaction_id: t.payment_hash,
                payment_direction: t.transaction_type,
                state: match t.state {
                    Some(TransactionState::Settled) => PaymentState::Settled,
                    Some(TransactionState::Failed) => PaymentState::Failed,
                    Some(TransactionState::Accepted) => PaymentState::Accepted,
                    Some(TransactionState::Expired) => PaymentState::Expired,
                    _ => PaymentState::Pending,
                },
                payment_type: "bolt11".to_string(),
                amount: t.amount,
                fees_paid: Some(t.fees_paid),
                created_at: t.created_at,
                updated_at: None,
                expires_at: t.expires_at,
                settled_at: t.settled_at,
                failure_reason: None,
                metadata: None,
                details,
            },
        )
    }

    /// Which records an invoice list asks the node for: incoming only, and the
    /// unpaid with the paid. An invoice that nobody paid is what this lists.
    pub fn list_invoices(&self, r: &ListInvoicesRequest) -> (query: PaymentQuery)
        ensures
            query.from == r.from,
            query.until == r.until,
            query.limit == r.limit,
            query.offset == r.offset,
            query.unpaid == Some(true),
            query.direction == Some(PaymentDirection::Inbound),
    {
        PaymentQuery {
            from: r.from,
            until: r.until,
            limit: r.limit,
            offset: r.offset,
            unpaid: Some(true),
            direction: Some(PaymentDirection::Inbound),
        }
    }

    /// The invoices behind the records that the node found, in its order, and
    /// of them those in the wanted state.
    pub fn list_invoices_reply(
        &self,
        r: &ListInvoicesRequest,
        found: &Vec<PaymentDetails>,
        now: u64,
    ) -> (answer: ListInvoicesResponse)
        ensures
            answer.invoices@.len() == found@.filter(in_state(r.state)).len(),
            forall|i: int|
                0 <= i < answer.invoices@.len() ==> is_invoice_of_record(
                    #[trigger] answer.invoices@[i],
                    found@.filter(in_state(r.state))[i],
                ),
    {
        let mut invoices: Vec<InvoiceRecord> = Vec::new();
        let ghost keep = in_state(r.state);
        for n in 0..found.len()
            invariant
                keep == in_state(r.state),
                invoices@.len() == found@.take(n as int).filter(keep).len(),
                forall|i: int|
                    0 <= i < invoices@.len() ==> is_invoice_of_record(
                        #[trigger] invoices@[i],
                        found@.take(n as int).filter(keep)[i],
                    ),
        {
            let invoice = to_invoice(to_transaction(&found[n]), now);
            proof {
                lemma_filter_step(found@, keep, n as int);
                assert(is_invoice_of_record(invoice, found@[n as int]));
            }
            let wanted = match r.state {
                Some(state) => state == invoice.state,
                None => true,
            };
            if wanted {
                invoices.push(invoice);
            }
        }
        assert(found@.take(found@.len() as int) =~= found@);
        ListInvoicesResponse { invoices }
    }
}

}
