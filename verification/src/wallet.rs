//! The wallet: twenty-three methods over a Lightning node.
//!
//! A handler is split where the node is asked. What comes before says what
//! the node is asked, or refuses; what comes after turns the node's word into
//! the answer. Between the two stands a call that only the node can make.

pub mod account;
pub mod invoices;
pub mod onchain;
pub mod offers;
pub mod pay;
pub mod receive;
pub mod route;
pub mod transactions;

use vstd::prelude::*;

verus! {

/// The wallet side of the node, under the name it goes by.
#[derive(Debug, PartialEq, Eq)]
pub struct Wallet {
    pub alias: Option<String>,
}

/// The methods that the wallet serves.
pub open spec fn wallet_methods() -> Seq<Seq<char>> {
    seq![
        "get_info"@,
        "get_balance"@,
        "pay_invoice"@,
        "make_invoice"@,
        "lookup_invoice"@,
        "pay_onchain"@,
        "make_new_address"@,
        "lookup_address"@,
        "list_addresses"@,
        "make_hold_invoice"@,
        "settle_hold_invoice"@,
        "cancel_hold_invoice"@,
        "pay_keysend"@,
        "list_transactions"@,
        "lookup_payment"@,
        "list_invoices"@,
        "make_offer"@,
        "pay_offer"@,
        "list_offers"@,
        "disable_offer"@,
        "quote_payment"@,
        "pay"@,
        "receive"@,
    ]
}

/// The notifications that the wallet sends.
pub open spec fn wallet_notifications() -> Seq<Seq<char>> {
    seq!["payment_received"@, "payment_sent"@, "hold_invoice_accepted"@]
}

impl Wallet {
    pub fn new(alias: Option<String>) -> (wallet: Wallet)
        ensures
            wallet.alias == alias,
    {
        Wallet { alias }
    }

    /// What this wallet serves, for discovery.
    pub fn methods(&self) -> (names: Vec<String>)
        ensures
            names.deep_view() == wallet_methods(),
    {
        let names = vec![
            "get_info".to_string(),
            "get_balance".to_string(),
            "pay_invoice".to_string(),
            "make_invoice".to_string(),
            "lookup_invoice".to_string(),
            "pay_onchain".to_string(),
            "make_new_address".to_string(),
            "lookup_address".to_string(),
            "list_addresses".to_string(),
            "make_hold_invoice".to_string(),
            "settle_hold_invoice".to_string(),
            "cancel_hold_invoice".to_string(),
            "pay_keysend".to_string(),
            "list_transactions".to_string(),
            "lookup_payment".to_string(),
            "list_invoices".to_string(),
            "make_offer".to_string(),
            "pay_offer".to_string(),
            "list_offers".to_string(),
            "disable_offer".to_string(),
            "quote_payment".to_string(),
            "pay".to_string(),
            "receive".to_string(),
        ];
        assert(names.deep_view() =~= wallet_methods());
        names
    }

    /// What this wallet sends, for discovery.
    pub fn notifications(&self) -> (names: Vec<String>)
        ensures
            names.deep_view() == wallet_notifications(),
    {
        let names = vec![
            "payment_received".to_string(),
            "payment_sent".to_string(),
            "hold_invoice_accepted".to_string(),
        ];
        assert(names.deep_view() =~= wallet_notifications());
        names
    }
}

}
