//! What a payment would cost.

use vstd::prelude::*;

use crate::error::{failure, ldk_err, ErrorCode, NncError};
use crate::foreign::{invoice_terms, invoice_terms_of, InvoiceTerms, InvoiceView};
use crate::lightning::RouteInfo;
use crate::nwc::{QuotePaymentRequest, QuotePaymentResponse};
use crate::wallet::Wallet;

verus! {

/// Routes for the node to find.
#[derive(Debug, PartialEq, Eq)]
pub struct FindRoutesCall {
    pub destination: String,
    pub amount_msat: u64,
    pub max_routes: u64,
}

/// Whether `call` asks for one route to the invoice's payee, for the caller's
/// amount or else the invoice's.
pub open spec fn is_quote(
    call: Result<FindRoutesCall, NncError>,
    amount: Option<u64>,
    terms: Result<InvoiceView, Seq<char>>,
) -> bool {
    match terms {
        Ok(invoice) => if amount is Some || invoice.amount_msat is Some {
            &&& call matches Ok(c)
            &&& c.destination@ == invoice.payee
            &&& c.amount_msat == (if amount is Some {
                amount->0
            } else {
                invoice.amount_msat->0
            })
            &&& c.max_routes == 1
        } else {
            call matches Err(e) && e.says(ErrorCode::BadRequest, "the invoice has no amount"@)
        },
        Err(why) => call matches Err(e) && e.says(
            ErrorCode::BadRequest,
            failure("invoice"@, why),
        ),
    }
}

/// What the first of some routes costs.
pub open spec fn quote_of(amount: u64, routes: Seq<RouteInfo>) -> QuotePaymentResponse {
    if routes.len() > 0 {
        QuotePaymentResponse {
            amount,
            fee_msat: routes[0].total_fee,
            cltv_expiry_delta: routes[0].total_time_lock,
            route_found: true,
        }
    } else {
        QuotePaymentResponse { amount, fee_msat: 0, cltv_expiry_delta: 0, route_found: false }
    }
}

/// Terms by their contents.
pub open spec fn terms_view(terms: Result<InvoiceTerms, String>) -> Result<InvoiceView, Seq<char>> {
    match terms {
        Ok(t) => Ok(t@),
        Err(e) => Err(e@),
    }
}

impl Wallet {
    /// Which routes the node is asked for, given what the invoice says.
    pub fn quote_terms(&self, amount: Option<u64>, terms: Result<InvoiceTerms, String>) -> (call:
        Result<FindRoutesCall, NncError>)
        ensures
            is_quote(call, amount, terms_view(terms)),
    {
        match terms {
            Ok(t) => match (amount, t.amount_msat) {
                (Some(amount_msat), _) | (None, Some(amount_msat)) => Ok(
                    FindRoutesCall { destination: t.payee, amount_msat, max_routes: 1 },
                ),
                (None, None) => Err(
                    NncError::new(ErrorCode::BadRequest, "the invoice has no amount"),
                ),
            },
            Err(e) => Err(ldk_err("invoice", ErrorCode::BadRequest, e.as_str())),
        }
    }

    /// Which routes the node is asked for to quote a payment. The invoice says
    /// where the payment goes.
    pub fn quote_payment(&self, r: &QuotePaymentRequest) -> (call: Result<FindRoutesCall, NncError>)
        ensures
            is_quote(call, r.amount, invoice_terms_of(r.invoice@)),
    {
        self.quote_terms(r.amount, invoice_terms(r.invoice.as_str()))
    }

    /// What the first of the routes costs. That there is none is an answer and
    /// no failure: it is what the caller asked.
    pub fn quote_payment_reply(&self, amount: u64, routes: &Vec<RouteInfo>) -> (answer:
        QuotePaymentResponse)
        ensures
            answer == quote_of(amount, routes@),
    {
        if routes.len() == 0 {
            return QuotePaymentResponse {
                amount,
                fee_msat: 0,
                cltv_expiry_delta: 0,
                route_found: false,
            };
        }
        QuotePaymentResponse {
            amount,
            fee_msat: routes[0].total_fee,
            cltv_expiry_delta: routes[0].total_time_lock,
            route_found: true,
        }
    }
}

}
