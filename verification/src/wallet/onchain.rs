//! Money on the chain.

use vstd::prelude::*;
use vstd::string::*;

use crate::error::{failure, ldk_err, ErrorCode, NncError};
use crate::nwc::{
    AddressRecord, AddressTransaction, ListAddressesResponse, LookupAddressResponse,
    MakeNewAddressRequest, MakeNewAddressResponse, PayOnchainRequest, PayOnchainResponse,
};
use crate::state::{AddressPayment, WatchedAddress};
use crate::wallet::Wallet;

verus! {

/// A transaction for the node to send.
#[derive(Debug, PartialEq, Eq)]
pub struct PayOnchainCall {
    pub address: String,
    pub amount_sats: u64,
    pub feerate: Option<u64>,
}

/// A new address to watch, and the answer that hands it out.
#[derive(Debug, PartialEq, Eq)]
pub struct NewAddress {
    pub register: String,
    pub answer: MakeNewAddressResponse,
}

/// What was paid in all, in sats.
pub open spec fn total_sats(payments: Seq<AddressPayment>) -> int
    decreases payments.len(),
{
    if payments.len() == 0 {
        0
    } else {
        total_sats(payments.drop_last()) + payments.last().amount_sats
    }
}

/// Whether `at` is when the first of the payments arrived; zero where none
/// has.
pub open spec fn is_first_seen(at: u64, payments: Seq<AddressPayment>) -> bool {
    if payments.len() == 0 {
        at == 0
    } else {
        &&& exists|i: int| 0 <= i < payments.len() && (#[trigger] payments[i]).timestamp == at
        &&& forall|i: int| 0 <= i < payments.len() ==> at <= (#[trigger] payments[i]).timestamp
    }
}

/// Whether `t` is the payment `p`. The node does not track confirmations and
/// reports none: a client then waits, which is the safe way to be wrong.
pub open spec fn is_address_transaction(t: AddressTransaction, p: AddressPayment) -> bool {
    &&& t.txid == p.txid
    &&& t.amount_sats == p.amount_sats
    &&& t.confirmations == 0
    &&& t.timestamp == p.timestamp
}

/// Whether `l` is what a lookup says of the watched address `a`.
pub open spec fn is_address_lookup(l: LookupAddressResponse, a: WatchedAddress) -> bool {
    &&& l.address == a.address
    &&& l.address_type@ == "p2tr"@
    &&& l.total_received_sats == total_sats(a.transactions@)
    &&& l.transactions@.len() == a.transactions@.len()
    &&& forall|i: int|
        0 <= i < a.transactions@.len() ==> is_address_transaction(
            #[trigger] l.transactions@[i],
            a.transactions@[i],
        )
}

/// Whether `r` is the record of the watched address `a`.
pub open spec fn is_address_record(r: AddressRecord, a: WatchedAddress) -> bool {
    &&& r.address == a.address
    &&& r.address_type@ == "p2tr"@
    &&& r.total_received_sats == total_sats(a.transactions@)
    &&& is_first_seen(r.created_at, a.transactions@)
}

/// A longer history has received no less.
proof fn lemma_total_grows(payments: Seq<AddressPayment>, i: int)
    requires
        0 <= i <= payments.len(),
    ensures
        0 <= total_sats(payments.take(i)) <= total_sats(payments),
    decreases payments.len() - i,
{
    lemma_total_nonnegative(payments.take(i));
    if i == payments.len() {
        assert(payments.take(i) =~= payments);
    } else {
        lemma_total_grows(payments, i + 1);
        assert(payments.take(i + 1).drop_last() =~= payments.take(i));
    }
}

proof fn lemma_total_nonnegative(payments: Seq<AddressPayment>)
    ensures
        0 <= total_sats(payments),
    decreases payments.len(),
{
    if payments.len() > 0 {
        lemma_total_nonnegative(payments.drop_last());
    }
}

fn total_received(payments: &Vec<AddressPayment>) -> (total: u64)
    requires
        total_sats(payments@) <= u64::MAX,
    ensures
        total == total_sats(payments@),
{
    let mut total: u64 = 0;
    for i in 0..payments.len()
        invariant
            total_sats(payments@) <= u64::MAX,
            total == total_sats(payments@.take(i as int)),
    {
        proof {
            lemma_total_grows(payments@, i + 1);
            assert(payments@.take(i + 1).drop_last() =~= payments@.take(i as int));
        }
        total = total + payments[i].amount_sats;
    }
    assert(payments@.take(payments@.len() as int) =~= payments@);
    total
}

fn first_seen(payments: &Vec<AddressPayment>) -> (at: u64)
    ensures
        is_first_seen(at, payments@),
{
    if payments.len() == 0 {
        return 0;
    }
    let mut at: u64 = payments[0].timestamp;
    for i in 1..payments.len()
        invariant
            payments@.len() >= 1,
            exists|j: int| 0 <= j < payments@.len() && (#[trigger] payments@[j]).timestamp == at,
            forall|j: int| 0 <= j < i ==> at <= (#[trigger] payments@[j]).timestamp,
    {
        if payments[i].timestamp < at {
            at = payments[i].timestamp;
        }
    }
    at
}

impl Wallet {
    /// Which transaction the node is asked to send.
    pub fn pay_onchain(&self, r: PayOnchainRequest) -> (call: PayOnchainCall)
        ensures
            call.address == r.address,
            call.amount_sats == r.amount_sats,
            call.feerate == r.feerate,
    {
        PayOnchainCall { address: r.address, amount_sats: r.amount_sats, feerate: r.feerate }
    }

    /// What came of sending a transaction.
    pub fn pay_onchain_reply(&self, sent: Result<String, String>) -> (answer: Result<
        PayOnchainResponse,
        NncError,
    >)
        ensures
            match sent {
                Ok(txid) => answer matches Ok(a) && a.txid == txid && a.fee_sats is None,
                Err(e) => answer matches Err(error) && error.says(
                    ErrorCode::PaymentFailed,
                    failure("pay_onchain"@, e@),
                ),
            },
    {
        match sent {
            Ok(txid) => Ok(PayOnchainResponse { txid, fee_sats: None }),
            Err(e) => Err(ldk_err("pay_onchain", ErrorCode::PaymentFailed, e.as_str())),
        }
    }

    /// Whether the node is asked for an address. It issues taproot addresses,
    /// and a caller that wants another kind is told so.
    pub fn make_new_address(&self, r: &MakeNewAddressRequest) -> (asked: Result<(), NncError>)
        ensures
            match asked {
                Ok(_) => r.address_type is None || r.address_type->0@ == "p2tr"@,
                Err(e) => {
                    &&& r.address_type is Some && r.address_type->0@ != "p2tr"@
                    &&& e.says(
                        ErrorCode::BadRequest,
                        "this node generates p2tr, not "@ + r.address_type->0@,
                    )
                },
            },
    {
        if let Some(t) = &r.address_type {
            if !t.eq(&"p2tr".to_string()) {
                let mut message = "this node generates p2tr, not ".to_string();
                message.append(t.as_str());
                return Err(NncError { code: ErrorCode::BadRequest, message });
            }
        }
        Ok(())
    }

    /// The address that the node generated: watched first, then handed out.
    pub fn make_new_address_reply(&self, made: Result<String, String>) -> (answer: Result<
        NewAddress,
        NncError,
    >)
        ensures
            match made {
                Ok(address) => {
                    &&& answer matches Ok(a)
                    &&& a.register == address
                    &&& a.answer.address == address
                    &&& a.answer.address_type@ == "p2tr"@
                },
                Err(e) => answer matches Err(error) && error.says(
                    ErrorCode::Internal,
                    failure("make_new_address"@, e@),
                ),
            },
    {
        match made {
            Ok(address) => Ok(
                NewAddress {
                    register: address.clone(),
                    answer: MakeNewAddressResponse { address, address_type: "p2tr".to_string() },
                },
            ),
            Err(e) => Err(ldk_err("make_new_address", ErrorCode::Internal, e.as_str())),
        }
    }

    /// What the node knows of an address, from what it remembers of it.
    pub fn lookup_address(&self, found: Option<WatchedAddress>) -> (answer: Result<
        LookupAddressResponse,
        NncError,
    >)
        requires
            found is Some ==> total_sats(found->0.transactions@) <= u64::MAX,
        ensures
            match found {
                Some(a) => answer matches Ok(l) && is_address_lookup(l, a),
                None => answer matches Err(e) && e.says(
                    ErrorCode::NotFound,
                    "this node does not watch that address"@,
                ),
            },
    {
        let a = match found {
            Some(a) => a,
            None => {
                return Err(
                    NncError::new(ErrorCode::NotFound, "this node does not watch that address"),
                );
            },
        };
        let mut transactions: Vec<AddressTransaction> = Vec::new();
        for i in 0..a.transactions.len()
            invariant
                transactions@.len() == i,
                forall|j: int|
                    0 <= j < i ==> is_address_transaction(
                        #[trigger] transactions@[j],
                        a.transactions@[j],
                    ),
        {
            let p = &a.transactions[i];
            transactions.push(
                AddressTransaction {
                    txid: p.txid.clone(),
                    amount_sats: p.amount_sats,
                    confirmations: 0,
                    timestamp: p.timestamp,
                },
            );
        }
        Ok(
            LookupAddressResponse {
                total_received_sats: total_received(&a.transactions),
                address: a.address,
                address_type: "p2tr".to_string(),
                transactions,
            },
        )
    }

    /// Every address that the node watches, in the order it remembers them.
    /// When one was generated is not remembered: the first payment to it is
    /// the closest true answer.
    pub fn list_addresses(&self, watched: &Vec<WatchedAddress>) -> (answer:
        ListAddressesResponse)
        requires
            forall|i: int|
                0 <= i < watched@.len() ==> total_sats((#[trigger] watched@[i]).transactions@)
                    <= u64::MAX,
        ensures
            answer.addresses@.len() == watched@.len(),
            forall|i: int|
                0 <= i < watched@.len() ==> is_address_record(
                    #[trigger] answer.addresses@[i],
                    watched@[i],
                ),
    {
        let mut addresses: Vec<AddressRecord> = Vec::new();
        for i in 0..watched.len()
            invariant
                forall|j: int|
                    0 <= j < watched@.len() ==> total_sats((#[trigger] watched@[j]).transactions@)
                        <= u64::MAX,
                addresses@.len() == i,
                forall|j: int|
                    0 <= j < i ==> is_address_record(#[trigger] addresses@[j], watched@[j]),
        {
            let a = &watched[i];
            addresses.push(
                AddressRecord {
                    address: a.address.clone(),
                    address_type: "p2tr".to_string(),
                    total_received_sats: total_received(&a.transactions),
                    created_at: first_seen(&a.transactions),
                },
            );
        }
        ListAddressesResponse { addresses }
    }
}

}
