//! The wallet's handlers, on given requests and given words of the node.

use dln_node::error::ErrorCode;
use dln_node::lightning::{
    BalanceInfo, InvoiceInfo, PaymentDetails, PaymentDirection, PaymentKind, PaymentSent,
    PaymentStatus,
};
use dln_node::nwc::{
    CancelHoldInvoiceRequest, DisableOfferRequest, InvoiceState, ListInvoicesRequest,
    ListOffersRequest, ListTransactionsRequest, LookupInvoiceRequest, LookupPaymentRequest,
    MakeHoldInvoiceRequest, MakeInvoiceRequest, MakeNewAddressRequest, MakeOfferRequest,
    PayInvoiceRequest, PayKeysendRequest, PayOfferRequest, PayOnchainRequest, PaymentState,
    QuotePaymentRequest, SettleHoldInvoiceRequest, TransactionState, TransactionType,
};
use dln_node::state::{AddressPayment, StoredOffer, WatchedAddress};
use dln_node::wallet::account::{BalanceEvent, BalanceStep, NodeIdentity};
use dln_node::wallet::transactions::{to_invoice, to_transaction, PaymentSelector};
use dln_node::wallet::Wallet;

const OFFER: &str = "lno1pqps7sjqpgtyzm3qv4uxzmtsd3jjqer9wd3hy6tsw35k7msjzfpy7nz5yqcnygrfdej82um5wf5k2uckyypwa3eyt44h6txtxquqh7lz5djge4afgfjn7k4rgrkuag0jsd5xvxg";

const INVOICE: &str = "lnbc100p1psj9jhxdqud3jxktt5w46x7unfv9kz6mn0v3jsnp4q0d3p2sfluzdx45tqcsh2pu5qc7lgq0xs578ngs6s0s68ua4h7cvspp5q6rmq35js88zp5dvwrv9m459tnk2zunwj5jalqtyxqulh0l5gflssp5nf55ny5gcrfl30xuhzj3nphgj27rstekmr9fw3ny5989s300gyus9qyysgqcqpcrzjqw2sxwe993h5pcm4dxzpvttgza8zhkqxpgffcrf5v25nwpr3cmfg7z54kuqq8rgqqqqqqqq2qqqqq9qq9qrzjqd0ylaqclj9424x9m8h2vcukcgnm6s56xfgu3j78zyqzhgs4hlpzvznlugqq9vsqqqqqqqlgqqqqqeqq9qrzjqwldmj9dha74df76zhx6l9we0vjdquygcdt3kssupehe64g6yyp5yz5rhuqqwccqqyqqqqlgqqqqjcqq9qrzjqf9e58aguqr0rcun0ajlvmzq3ek63cw2w282gv3z5uupmuwvgjtq2z55qsqqg6qqqyqqqrtnqqqzq3cqygrzjqvphmsywntrrhqjcraumvc4y6r8v4z5v593trte429v4hredj7ms5z52usqq9ngqqqqqqqlgqqqqqqgq9qrzjq2v0vp62g49p7569ev48cmulecsxe59lvaw3wlxm7r982zxa9zzj7z5l0cqqxusqqyqqqqlgqqqqqzsqygarl9fh38s0gyuxjjgux34w75dnc6xp2l35j7es3jd4ugt3lu0xzre26yg5m7ke54n2d5sym4xcmxtl8238xxvw5h5h5j5r6drg6k6zcqj0fcwg";

fn wallet() -> Wallet {
    Wallet::new(None)
}

fn record(status: PaymentStatus) -> PaymentDetails {
    PaymentDetails {
        kind: PaymentKind::Bolt11 { hash: [0xab; 32], preimage: Some([0x01; 32]) },
        direction: PaymentDirection::Inbound,
        status,
        amount_msat: Some(55_000),
        fee_paid_msat: None,
        latest_update_timestamp: 1_700_000_000,
    }
}

fn made(amount_msat: Option<u64>) -> InvoiceInfo {
    InvoiceInfo {
        invoice: "lnbcrt1".to_string(),
        payment_hash: Some("ab".repeat(32)),
        amount_msat,
        expires_at: Some(1_700_003_600),
    }
}

fn sent(preimage: &str) -> PaymentSent {
    PaymentSent { preimage: preimage.to_string(), fees_paid_msat: Some(7) }
}

// ── identity and balance ─────────────────────────────────────────────

#[test]
fn get_info_returns_the_ldk_identity() {
    let info = wallet().get_info(NodeIdentity {
        node_id: "02aa".to_string(),
        network: "regtest".to_string(),
        best_block_height: 101,
    });
    assert_eq!(info.network.as_deref(), Some("regtest"));
    assert_eq!(info.pubkey.as_deref(), Some("02aa"), "the pubkey is the node's");
    assert!(info.methods.contains(&"pay_invoice".to_string()));
    assert!(!info.methods.contains(&"estimate_onchain_fees".to_string()));
    assert_eq!(info.notifications.as_ref().map(|n| n.len()), Some(3));
    assert_eq!(info.alias.as_deref(), Some("dln-node"));
    assert_eq!(info.block_height, Some(101));
    assert!(info.color.is_none() && info.block_hash.is_none() && info.extensions.is_none());
    let methods = info.bip321_methods.expect("capabilities");
    let names: Vec<&str> = methods.iter().map(|m| m.method.as_str()).collect();
    assert_eq!(names, ["bolt11", "bolt12", "onchain"]);
    assert_eq!(methods[2].address_types, Some(vec!["p2tr".to_string()]));
    assert!(methods[0].address_types.is_none() && methods[1].address_types.is_none());
}

#[test]
fn an_alias_is_kept() {
    let w = Wallet::new(Some("carol".to_string()));
    let info = w.get_info(NodeIdentity {
        node_id: "02".to_string(),
        network: "signet".to_string(),
        best_block_height: 0,
    });
    assert_eq!(info.alias.as_deref(), Some("carol"));
}

#[test]
fn the_wallet_advertises_each_method_once() {
    let mut names = wallet().methods();
    assert_eq!(names.len(), 23);
    assert_eq!(names[0], "get_info");
    assert_eq!(names[22], "receive");
    names.sort();
    names.dedup();
    assert_eq!(names.len(), 23);
    assert_eq!(
        wallet().notifications(),
        ["payment_received", "payment_sent", "hold_invoice_accepted"]
    );
}

#[test]
fn get_balance_reports_what_the_chain_paid_in() {
    let w = wallet();
    assert_eq!(w.get_balance(BalanceEvent::Asked), BalanceStep::SyncWallets);
    assert_eq!(w.get_balance(BalanceEvent::Synced(Ok(()))), BalanceStep::ReadBalance);
    let b = BalanceInfo { total_msat: 0, lightning_msat: 0, onchain_msat: 0 };
    match w.get_balance(BalanceEvent::Read(Ok(b))) {
        BalanceStep::Answer(Ok(before)) => assert_eq!(before.balance, 0),
        other => panic!("{other:?}"),
    }
    let b = BalanceInfo {
        total_msat: 100_000_000_999,
        lightning_msat: 0,
        onchain_msat: 100_000_000_999,
    };
    match w.get_balance(BalanceEvent::Read(Ok(b))) {
        BalanceStep::Answer(Ok(after)) => {
            assert!(after.balance > 0, "the funding arrived");
            assert_eq!(after.onchain_balance_sats, Some(after.balance / 1_000));
            assert_eq!(after.onchain_balance_sats, Some(100_000_000));
            assert_eq!(after.lightning_balance, Some(0));
        }
        other => panic!("{other:?}"),
    }
}

#[test]
fn a_balance_that_cannot_be_had_says_which_half_failed() {
    let w = wallet();
    for (event, message) in [
        (BalanceEvent::Synced(Err("no chain".to_string())), "sync: no chain"),
        (BalanceEvent::Read(Err("no node".to_string())), "balance: no node"),
    ] {
        match w.get_balance(event) {
            BalanceStep::Answer(Err(e)) => {
                assert_eq!(e.code, ErrorCode::Internal);
                assert_eq!(e.message, message);
            }
            other => panic!("{other:?}"),
        }
    }
}

// ── invoices ─────────────────────────────────────────────────────────

#[test]
fn make_invoice_produces_one() {
    let w = wallet();
    let request = || MakeInvoiceRequest {
        amount: 123_000,
        description: Some("invoice from a handler".into()),
        description_hash: None,
        expiry: Some(3600),
        metadata: None,
    };
    let call = w.make_invoice(&request()).expect("make_invoice");
    assert_eq!(call.amount_msat, 123_000);
    assert_eq!(call.description.as_deref(), Some("invoice from a handler"));
    assert_eq!(call.expiry, Some(3600));
    assert!(call.description_hash.is_none());

    let inv = w.make_invoice_reply(request(), Ok(made(None)), 1_700_000_000).expect("reply");
    assert!(inv.invoice.is_some_and(|i| !i.is_empty()));
    assert_eq!(inv.amount, 123_000);
    assert!(inv.settled_at.is_none(), "nothing has paid it");
    assert_eq!(inv.state, Some(TransactionState::Pending));
    assert_eq!(inv.transaction_type, TransactionType::Incoming);
    assert_eq!(inv.payment_hash, "ab".repeat(32));
    assert_eq!(inv.created_at, 1_700_000_000);
    assert_eq!(inv.expires_at, Some(1_700_003_600));
    assert!(inv.metadata.is_none());
    assert_eq!(inv.fees_paid, 0);

    let inv = w.make_invoice_reply(request(), Ok(made(Some(124_000))), 0).expect("reply");
    assert_eq!(inv.amount, 124_000, "the node's word on the amount");

    let e = w.make_invoice_reply(request(), Err("down".into()), 0).expect_err("down");
    assert_eq!((e.code, e.message.as_str()), (ErrorCode::Internal, "make_invoice: down"));
}

#[test]
fn an_invoice_keeps_its_metadata() {
    let request = MakeInvoiceRequest {
        amount: 1,
        description: None,
        description_hash: None,
        expiry: None,
        metadata: Some(serde_json::Value::Bool(true)),
    };
    let inv = wallet().make_invoice_reply(request, Ok(made(None)), 0).expect("reply");
    assert_eq!(inv.metadata, Some(serde_json::Value::Bool(true)));
}

#[test]
fn make_invoice_refuses_a_description_hash() {
    let e = wallet()
        .make_invoice(&MakeInvoiceRequest {
            amount: 123_000,
            description: None,
            description_hash: Some("ab".repeat(32)),
            expiry: None,
            metadata: None,
        })
        .expect_err("the node cannot bind a description hash");
    assert_eq!(e.code, ErrorCode::BadRequest);
    assert!(e.message.contains("description_hash"));
}

#[test]
fn paying_zero_is_refused_before_the_node_is_asked() {
    let w = wallet();
    let e = w
        .pay_invoice(&PayInvoiceRequest { invoice: "lnbcrt1...".into(), amount: Some(0) })
        .expect_err("zero is not an amount");
    assert_eq!(e.code, ErrorCode::BadRequest);
    assert_eq!(e.message, "amount must be greater than 0");

    let e = w
        .pay_keysend(PayKeysendRequest {
            amount: 0,
            pubkey: "03".to_string() + &"ab".repeat(32),
        })
        .expect_err("nor for keysend");
    assert_eq!(e.code, ErrorCode::BadRequest);
    assert_eq!(e.message, "amount must be greater than 0");
}

#[test]
fn an_invalid_invoice_fails_as_a_payment_failure() {
    let w = wallet();
    let call = w
        .pay_invoice(&PayInvoiceRequest { invoice: "not-an-invoice".into(), amount: None })
        .expect("the node decides");
    assert_eq!(call.invoice, "not-an-invoice");
    let e = w.pay_invoice_reply(Err("it is not an invoice".into())).expect_err("refused");
    assert_eq!(e.code, ErrorCode::PaymentFailed);
    assert_eq!(e.message, "pay_invoice: it is not an invoice");
}

#[test]
fn an_invalid_pubkey_fails_as_a_payment_failure() {
    let w = wallet();
    let call = w
        .pay_keysend(PayKeysendRequest { amount: 1_000, pubkey: "not-a-pubkey".into() })
        .expect("the node decides");
    assert_eq!((call.pubkey.as_str(), call.amount_msat), ("not-a-pubkey", 1_000));
    let e = w.pay_keysend_reply(Err("it is not a pubkey".into())).expect_err("refused");
    assert_eq!(e.code, ErrorCode::PaymentFailed);
    assert_eq!(e.message, "pay_keysend: it is not a pubkey");
}

#[test]
fn white_space_around_an_invoice_is_trimmed() {
    let w = wallet();
    let call = w
        .pay_invoice(&PayInvoiceRequest {
            invoice: " \t\u{3000}lnbc1 x\u{a0}\n".into(),
            amount: Some(5),
        })
        .expect("an invoice");
    assert_eq!(call.invoice, "lnbc1 x");
    assert_eq!(call.amount_msat, Some(5));
    let e = w
        .pay_invoice(&PayInvoiceRequest { invoice: " \u{2003}\r\n".into(), amount: None })
        .expect_err("blank");
    assert_eq!((e.code, e.message.as_str()), (ErrorCode::BadRequest, "invoice is required"));
}

#[test]
fn a_payment_answers_its_preimage_and_fees() {
    let w = wallet();
    let a = w.pay_invoice_reply(Ok(sent("cafe"))).expect("paid");
    assert_eq!((a.preimage.as_str(), a.fees_paid), ("cafe", Some(7)));
    let a = w.pay_keysend_reply(Ok(sent("cafe"))).expect("paid");
    assert_eq!((a.preimage.as_str(), a.fees_paid), ("cafe", Some(7)));
}

#[test]
fn a_hold_invoice_keeps_the_hash_it_was_asked_for() {
    let w = wallet();
    let request = || MakeHoldInvoiceRequest {
        amount: 9_000,
        description: Some("held".into()),
        description_hash: Some("dd".into()),
        expiry: Some(60),
        payment_hash: "cd".repeat(32),
    };
    let call = w.make_hold_invoice(&request());
    assert_eq!(call.payment_hash, "cd".repeat(32));
    assert_eq!((call.amount_msat, call.expiry), (9_000, Some(60)));
    assert_eq!(call.description.as_deref(), Some("held"));
    let a = w.make_hold_invoice_reply(request(), Ok(made(None)), 12).expect("made");
    assert_eq!(a.kind, "incoming");
    assert_eq!(a.payment_hash, "cd".repeat(32));
    assert_eq!((a.amount, a.created_at), (9_000, 12));
    assert_eq!(a.invoice.as_deref(), Some("lnbcrt1"));
    assert_eq!(a.description_hash.as_deref(), Some("dd"));
    assert!(a.metadata.is_none());
    let e = w.make_hold_invoice_reply(request(), Err("x".into()), 0).expect_err("x");
    assert_eq!((e.code, e.message.as_str()), (ErrorCode::Internal, "make_hold_invoice: x"));
}

#[test]
fn held_payments_are_settled_and_cancelled() {
    let w = wallet();
    assert_eq!(w.settle_hold_invoice(SettleHoldInvoiceRequest { preimage: "p".into() }), "p");
    assert_eq!(w.cancel_hold_invoice(CancelHoldInvoiceRequest { payment_hash: "h".into() }), "h");
    assert!(w.settle_hold_invoice_reply(Ok(())).is_ok());
    assert!(w.cancel_hold_invoice_reply(Ok(())).is_ok());
    let e = w.settle_hold_invoice_reply(Err("late".into())).expect_err("late");
    assert_eq!((e.code, e.message.as_str()), (ErrorCode::Internal, "settle_hold_invoice: late"));
    let e = w.cancel_hold_invoice_reply(Err("late".into())).expect_err("late");
    assert_eq!((e.code, e.message.as_str()), (ErrorCode::Internal, "cancel_hold_invoice: late"));
}

// ── records ──────────────────────────────────────────────────────────

#[test]
fn a_record_becomes_a_transaction() {
    let t = to_transaction(&record(PaymentStatus::Succeeded));
    assert_eq!(t.transaction_type, TransactionType::Incoming);
    assert_eq!(t.state, Some(TransactionState::Settled));
    assert_eq!(t.payment_hash, "ab".repeat(32));
    assert_eq!(t.preimage, Some("01".repeat(32)));
    assert_eq!((t.amount, t.fees_paid), (55_000, 0));
    assert_eq!((t.created_at, t.settled_at), (1_700_000_000, Some(1_700_000_000)));

    let mut p = record(PaymentStatus::Failed);
    p.direction = PaymentDirection::Outbound;
    p.kind = PaymentKind::Onchain;
    p.amount_msat = None;
    p.fee_paid_msat = Some(3);
    let t = to_transaction(&p);
    assert_eq!(t.transaction_type, TransactionType::Outgoing);
    assert_eq!(t.state, Some(TransactionState::Failed));
    assert_eq!(t.payment_hash, "");
    assert!(t.preimage.is_none() && t.settled_at.is_none());
    assert_eq!((t.amount, t.fees_paid), (0, 3));
}

#[test]
fn a_history_is_counted() {
    let w = wallet();
    let q = w.list_transactions(ListTransactionsRequest {
        from: Some(1),
        until: Some(2),
        limit: Some(3),
        offset: Some(4),
        unpaid: Some(false),
        transaction_type: Some(TransactionType::Outgoing),
    });
    assert_eq!(q.direction, Some(PaymentDirection::Outbound));
    assert_eq!((q.from, q.until, q.limit, q.offset), (Some(1), Some(2), Some(3), Some(4)));
    assert_eq!(q.unpaid, Some(false));
    let a = w.list_transactions_reply(&vec![
        record(PaymentStatus::Pending),
        record(PaymentStatus::Succeeded),
    ]);
    assert_eq!(a.total_count, Some(2));
    assert_eq!(a.transactions[0].state, Some(TransactionState::Pending));
    assert_eq!(a.transactions[1].state, Some(TransactionState::Settled));
}

#[test]
fn an_invoice_is_looked_up_by_hash_first() {
    let w = wallet();
    let both = LookupInvoiceRequest {
        payment_hash: Some("h".into()),
        invoice: Some("i".into()),
    };
    assert_eq!(w.lookup_invoice(both), Ok(PaymentSelector::Hash("h".into())));
    let invoice = LookupInvoiceRequest { payment_hash: None, invoice: Some("i".into()) };
    assert_eq!(w.lookup_invoice(invoice), Ok(PaymentSelector::Bolt11("i".into())));
    let e = w
        .lookup_invoice(LookupInvoiceRequest { payment_hash: None, invoice: None })
        .expect_err("nothing to go by");
    assert_eq!(e.code, ErrorCode::BadRequest);
    assert_eq!(e.message, "one of payment_hash or invoice is required");
    let e = w.lookup_invoice_reply(Err("unknown".into())).expect_err("unknown");
    assert_eq!((e.code, e.message.as_str()), (ErrorCode::NotFound, "lookup_invoice: unknown"));
    let t = w.lookup_invoice_reply(Ok(record(PaymentStatus::Pending))).expect("found");
    assert_eq!(t.amount, 55_000);
}

fn lookup() -> LookupPaymentRequest {
    LookupPaymentRequest {
        transaction_id: None,
        payment_hash: None,
        invoice: None,
        payment_type: None,
        lookup: None,
    }
}

fn json(text: &str) -> serde_json::Value {
    serde_json::from_str(text).expect("json")
}

#[test]
fn a_payment_is_looked_up_by_exactly_one_selector() {
    let w = wallet();
    let hash = |h: &str| Ok(PaymentSelector::Hash(h.to_string()));

    let by_id = LookupPaymentRequest { transaction_id: Some("t".into()), ..lookup() };
    assert_eq!(w.lookup_payment(by_id), hash("t"));
    let by_fields = LookupPaymentRequest {
        payment_hash: Some("h".into()),
        invoice: Some("i".into()),
        ..lookup()
    };
    assert_eq!(w.lookup_payment(by_fields), hash("h"));
    let by_invoice = LookupPaymentRequest { invoice: Some("i".into()), ..lookup() };
    assert_eq!(w.lookup_payment(by_invoice), Ok(PaymentSelector::Bolt11("i".into())));
    let by_type = LookupPaymentRequest {
        payment_type: Some("bolt11".into()),
        lookup: Some(json(r#"{"payment_hash":"inner","n":1}"#)),
        ..lookup()
    };
    assert_eq!(w.lookup_payment(by_type), hash("inner"));

    let two = LookupPaymentRequest {
        transaction_id: Some("t".into()),
        invoice: Some("i".into()),
        ..lookup()
    };
    for request in [lookup(), two] {
        let e = w.lookup_payment(request).expect_err("not one selector");
        assert_eq!(e.code, ErrorCode::BadRequest);
        assert_eq!(
            e.message,
            "exactly one of transaction_id, the bolt11 fields, or payment_type with lookup"
        );
    }
    for text in [r#"{"payment_hash":7}"#, r#"{"payment_hash":null}"#, "{}", "[]", "\"x\""] {
        let e = w
            .lookup_payment(LookupPaymentRequest {
                payment_type: Some("bolt12".into()),
                lookup: Some(json(text)),
                ..lookup()
            })
            .expect_err("no hash in it");
        assert_eq!((e.code, e.message.as_str()), (ErrorCode::BadRequest, "no usable selector"));
    }
}

#[test]
fn a_stray_lookup_selects_nothing() {
    let w = wallet();
    let stray = || Some(json(r#"{"payment_hash":"stray"}"#));
    let by_invoice =
        LookupPaymentRequest { invoice: Some("i".into()), lookup: stray(), ..lookup() };
    assert_eq!(w.lookup_payment(by_invoice), Ok(PaymentSelector::Bolt11("i".into())));
    let by_id =
        LookupPaymentRequest { transaction_id: Some("t".into()), lookup: stray(), ..lookup() };
    assert_eq!(w.lookup_payment(by_id), Ok(PaymentSelector::Hash("t".into())));
    let e = w
        .lookup_payment(LookupPaymentRequest { lookup: stray(), ..lookup() })
        .expect_err("no form is complete");
    assert_eq!(e.code, ErrorCode::BadRequest);
}

#[test]
fn a_lookup_calls_a_payment_by_the_hash_it_is_listed_under() {
    let w = wallet();
    let p = record(PaymentStatus::Succeeded);
    let listed = w.list_transactions_reply(&vec![p]).transactions.remove(0);
    let by_id = LookupPaymentRequest {
        transaction_id: Some(listed.payment_hash.clone()),
        ..lookup()
    };
    assert_eq!(
        w.lookup_payment(by_id),
        Ok(PaymentSelector::Hash("ab".repeat(32)))
    );
    let a = w.lookup_payment_reply(Ok(p)).expect("found");
    assert_eq!(a.transaction_id, listed.payment_hash);
    assert_eq!(a.state, PaymentState::Settled);
    assert_eq!(a.payment_type, "bolt11");
    assert_eq!(a.payment_direction, TransactionType::Incoming);
    assert_eq!((a.amount, a.fees_paid), (55_000, Some(0)));
    assert_eq!(a.settled_at, Some(1_700_000_000));
    let details = json(&format!(
        r#"{{"payment_hash":"{}","invoice":null,"preimage":"{}","description":null}}"#,
        "ab".repeat(32),
        "01".repeat(32)
    ));
    assert_eq!(a.details, details);
    let e = w.lookup_payment_reply(Err("gone".into())).expect_err("gone");
    assert_eq!((e.code, e.message.as_str()), (ErrorCode::NotFound, "lookup_payment: gone"));
    for (status, state) in [
        (PaymentStatus::Pending, PaymentState::Pending),
        (PaymentStatus::Failed, PaymentState::Failed),
    ] {
        assert_eq!(w.lookup_payment_reply(Ok(record(status))).expect("found").state, state);
    }
}

fn list(state: Option<InvoiceState>) -> ListInvoicesRequest {
    ListInvoicesRequest { from: None, until: None, limit: None, offset: None, state }
}

#[test]
fn list_invoices_shows_one_nobody_paid() {
    let w = wallet();
    let request = MakeInvoiceRequest {
        amount: 55_000,
        description: Some("unpaid".into()),
        description_hash: None,
        expiry: Some(3600),
        metadata: None,
    };
    let call = w.make_invoice(&request).expect("make_invoice");
    assert_eq!(call.amount_msat, 55_000);
    let inv = w.make_invoice_reply(request, Ok(made(None)), 1_700_000_000).expect("make_invoice");

    let q = w.list_invoices(&list(None));
    assert_eq!(q.unpaid, Some(true));
    assert_eq!(q.direction, Some(PaymentDirection::Inbound));
    let listed = w.list_invoices_reply(&list(None), &vec![record(PaymentStatus::Pending)], 0);
    assert_eq!(listed.invoices.len(), 1);
    assert_eq!(listed.invoices[0].state, InvoiceState::Pending);
    assert!(listed.invoices[0].preimage.is_none(), "unpaid, so no preimage");
    assert!(listed.invoices[0].settled_at.is_none());
    assert_eq!(listed.invoices[0].payment_hash, inv.payment_hash);
    assert_eq!(listed.invoices[0].amount, inv.amount);
}

#[test]
fn invoices_are_listed_by_state() {
    let w = wallet();
    let found = vec![
        record(PaymentStatus::Pending),
        record(PaymentStatus::Succeeded),
        record(PaymentStatus::Failed),
    ];
    let all = w.list_invoices_reply(&list(None), &found, 0);
    assert_eq!(all.invoices.len(), 3);
    let settled = w.list_invoices_reply(&list(Some(InvoiceState::Settled)), &found, 0);
    assert_eq!(settled.invoices.len(), 1);
    assert_eq!(settled.invoices[0].preimage, Some("01".repeat(32)));
    assert_eq!(settled.invoices[0].settled_at, Some(1_700_000_000));
    let pending = w.list_invoices_reply(&list(Some(InvoiceState::Pending)), &found, 0);
    assert_eq!(pending.invoices.len(), 2);
    let expired = w.list_invoices_reply(&list(Some(InvoiceState::Expired)), &found, u64::MAX);
    assert!(expired.invoices.is_empty());
}

#[test]
fn an_invoice_past_its_time_is_expired() {
    let mut t = to_transaction(&record(PaymentStatus::Pending));
    t.expires_at = Some(99);
    t.invoice = Some("lnbc".to_string());
    let i = to_invoice(t, 100);
    assert_eq!(i.state, InvoiceState::Expired);
    assert_eq!((i.expires_at, i.invoice.as_str()), (99, "lnbc"));
    assert!(i.preimage.is_none());
    let mut t = to_transaction(&record(PaymentStatus::Pending));
    t.expires_at = Some(100);
    assert_eq!(to_invoice(t, 100).state, InvoiceState::Pending);
}

// ── on chain ─────────────────────────────────────────────────────────

#[test]
fn an_onchain_payment_answers_its_transaction() {
    let w = wallet();
    let call = w.pay_onchain(PayOnchainRequest {
        address: "bc1".into(),
        amount_sats: 5,
        feerate: Some(2),
    });
    assert_eq!((call.address.as_str(), call.amount_sats, call.feerate), ("bc1", 5, Some(2)));
    let a = w.pay_onchain_reply(Ok("tx".into())).expect("sent");
    assert_eq!((a.txid.as_str(), a.fee_sats), ("tx", None));
    let e = w.pay_onchain_reply(Err("broke".into())).expect_err("broke");
    assert_eq!((e.code, e.message.as_str()), (ErrorCode::PaymentFailed, "pay_onchain: broke"));
}

#[test]
fn only_taproot_addresses_are_made() {
    let w = wallet();
    let ask = |t: Option<&str>| {
        w.make_new_address(&MakeNewAddressRequest { address_type: t.map(|t| t.to_string()) })
    };
    assert!(ask(None).is_ok());
    assert!(ask(Some("p2tr")).is_ok());
    let e = ask(Some("p2wpkh")).expect_err("not taproot");
    assert_eq!(e.code, ErrorCode::BadRequest);
    assert_eq!(e.message, "this node generates p2tr, not p2wpkh");
    let a = w.make_new_address_reply(Ok("bc1p".into())).expect("made");
    assert_eq!(a.register, "bc1p");
    assert_eq!((a.answer.address.as_str(), a.answer.address_type.as_str()), ("bc1p", "p2tr"));
    let e = w.make_new_address_reply(Err("no".into())).expect_err("no");
    assert_eq!((e.code, e.message.as_str()), (ErrorCode::Internal, "make_new_address: no"));
}

fn watched() -> WatchedAddress {
    WatchedAddress {
        address: "bc1p".to_string(),
        transactions: vec![
            AddressPayment { txid: "b".to_string(), amount_sats: 30, timestamp: 900 },
            AddressPayment { txid: "a".to_string(), amount_sats: 12, timestamp: 700 },
        ],
    }
}

#[test]
fn an_address_is_listed_as_it_is_looked_up() {
    let w = wallet();
    let found = w.lookup_address(Some(watched())).expect("watched");
    assert_eq!(found.total_received_sats, 42);
    assert_eq!(found.transactions.len(), 2);
    assert_eq!(found.transactions[1].txid, "a");
    assert!(found.transactions.iter().all(|t| t.confirmations == 0));
    let empty = WatchedAddress { address: "bc1q".to_string(), transactions: vec![] };
    let listed = w.list_addresses(&vec![watched(), empty]);
    assert_eq!(listed.addresses.len(), 2);
    assert_eq!(listed.addresses[0].total_received_sats, 42);
    assert_eq!(listed.addresses[0].created_at, 700, "the first payment");
    assert_eq!(listed.addresses[1].total_received_sats, 0);
    assert_eq!(listed.addresses[1].created_at, 0);
    let e = w.lookup_address(None).expect_err("not watched");
    assert_eq!(e.code, ErrorCode::NotFound);
    assert_eq!(e.message, "this node does not watch that address");
}

// ── offers ───────────────────────────────────────────────────────────

fn offer(amount: Option<u64>, description: Option<&str>) -> MakeOfferRequest {
    MakeOfferRequest {
        amount,
        description: description.map(|d| d.to_string()),
        issuer: Some("me".to_string()),
        single_use: None,
        expires_at: Some(1_100),
    }
}

#[test]
fn an_offer_with_an_amount_says_what_for() {
    let w = wallet();
    let e = w.make_offer(&offer(Some(1), None), 0).expect_err("undescribed");
    assert_eq!(e.code, ErrorCode::BadRequest);
    assert_eq!(e.message, "an amount-bearing offer requires a description");
    let call = w.make_offer(&offer(None, None), 1_000).expect("open offer");
    assert_eq!((call.amount_msat, call.description.as_str()), (0, "offer"));
    assert_eq!(call.expiry, Some(100));
    let call = w.make_offer(&offer(Some(8), Some("tea")), 2_000).expect("offer");
    assert_eq!((call.amount_msat, call.description.as_str()), (8, "tea"));
    assert_eq!(call.expiry, Some(0), "already past");
    let mut far = offer(None, None);
    far.expires_at = Some(u64::MAX);
    assert_eq!(w.make_offer(&far, 0).expect("offer").expiry, None);
}

#[test]
fn an_issued_offer_is_remembered_listed_and_disabled_by_one_id() {
    let w = wallet();
    let real: ldk_node::lightning::offers::offer::Offer = OFFER.parse().expect("an offer");
    let issued = w
        .make_offer_reply(offer(Some(8), Some("tea")), Ok(OFFER.to_string()), 1_000)
        .expect("issued");
    assert_eq!(issued.remember.offer_id, real.id().0);
    assert_ne!(issued.remember.offer_id, [0u8; 32]);
    assert_eq!(issued.remember.amount_msat, 8);
    assert_eq!(issued.remember.description, "tea");
    assert_eq!(issued.answer.offer, OFFER);
    assert_eq!(issued.answer.offer_id, hex::encode(real.id().0));
    assert_eq!(issued.answer.created_at, 1_000);
    assert_eq!(issued.answer.issuer.as_deref(), Some("me"));
    assert!(!issued.answer.single_use);

    let stored = StoredOffer {
        offer_id: issued.remember.offer_id,
        offer: issued.remember.offer.clone(),
        description: issued.remember.description.clone(),
        amount_msat: issued.remember.amount_msat,
        active: true,
        num_payments_received: 2,
        total_received_msat: 16,
    };
    let listed = w.list_offers(&ListOffersRequest { active_only: None }, &vec![stored]);
    assert_eq!(listed.offers[0].offer_id, issued.answer.offer_id);
    assert_eq!(listed.offers[0].total_received, 16);
    assert_eq!(listed.offers[0].description.as_deref(), Some("tea"));

    let id = w
        .disable_offer(&DisableOfferRequest { offer_id: listed.offers[0].offer_id.clone() })
        .expect("an id");
    assert_eq!(id, issued.remember.offer_id);
    let upper = listed.offers[0].offer_id.to_uppercase();
    assert_eq!(w.disable_offer(&DisableOfferRequest { offer_id: upper }), Ok(id));
    let disabled = w.disable_offer_reply(Some(OFFER.to_string())).expect("found");
    assert_eq!(disabled.disable, OFFER);
    let again = w.disable_offer_reply(Some(OFFER.to_string())).expect("found again");
    assert_eq!(again, disabled);
}

#[test]
fn a_text_that_is_no_offer_is_filed_under_zeros() {
    let w = wallet();
    let issued = w.make_offer_reply(offer(None, None), Ok("lno".to_string()), 5).expect("issued");
    assert_eq!(issued.remember.offer_id, [0u8; 32]);
    assert_eq!(issued.answer.offer_id, "0".repeat(64));
    assert_eq!(issued.remember.description, "offer");
    assert!(issued.answer.description.is_none());
    let e = w.make_offer_reply(offer(None, None), Err("no".into()), 5).expect_err("no");
    assert_eq!((e.code, e.message.as_str()), (ErrorCode::Internal, "make_offer: no"));
}

#[test]
fn an_offer_id_is_thirty_two_bytes_of_hex() {
    let w = wallet();
    for text in ["", "ab", "zz", &"ab".repeat(33), &"+a".repeat(32), &"g0".repeat(32), "é"] {
        let e = w
            .disable_offer(&DisableOfferRequest { offer_id: text.to_string() })
            .expect_err("not an id");
        assert_eq!(e.code, ErrorCode::BadRequest);
        assert_eq!(e.message, "offer_id must be 32 bytes, hex");
    }
    let e = w.disable_offer_reply(None).expect_err("unknown");
    assert_eq!((e.code, e.message.as_str()), (ErrorCode::NotFound, "no such offer"));
}

#[test]
fn active_offers_are_listed_alone_on_request() {
    let w = wallet();
    let stored = |n: u8, active: bool| StoredOffer {
        offer_id: [n; 32],
        offer: "lno".to_string(),
        description: "d".to_string(),
        amount_msat: 0,
        active,
        num_payments_received: 0,
        total_received_msat: 0,
    };
    let all = vec![stored(1, true), stored(2, false), stored(3, true)];
    let ids = |active_only: Option<bool>| -> Vec<String> {
        let a = w.list_offers(&ListOffersRequest { active_only }, &all);
        a.offers.iter().map(|o| o.offer_id[..2].to_string()).collect()
    };
    assert_eq!(ids(None), ["01", "02", "03"]);
    assert_eq!(ids(Some(false)), ["01", "02", "03"]);
    assert_eq!(ids(Some(true)), ["01", "03"]);
}

#[test]
fn a_paid_offer_is_identified_by_its_hash() {
    let w = wallet();
    let call = w.pay_offer(PayOfferRequest {
        offer: "lno".into(),
        amount: Some(1),
        payer_note: Some("hi".into()),
    });
    assert_eq!((call.offer.as_str(), call.amount_msat), ("lno", Some(1)));
    assert_eq!(call.payer_note.as_deref(), Some("hi"));
    let a = w.pay_offer_reply(Ok(sent(&"00".repeat(32)))).expect("paid");
    assert_eq!(
        a.transaction_id,
        "66687aadf862bd776c8fc18b8e9f8e20089714856ee233b3902a591d0d5f2925"
    );
    assert_eq!(a.preimage, "00".repeat(32));
    assert_eq!(a.fees_paid, Some(7));
    for preimage in ["short".to_string(), "+f".repeat(32)] {
        let a = w.pay_offer_reply(Ok(sent(&preimage))).expect("paid");
        assert_eq!(a.transaction_id, "");
    }
    let e = w.pay_offer_reply(Err("no route".into())).expect_err("no route");
    assert_eq!((e.code, e.message.as_str()), (ErrorCode::PaymentFailed, "pay_offer: no route"));
}

// ── routes ───────────────────────────────────────────────────────────

#[test]
fn a_quote_asks_for_one_route_to_the_payee() {
    let w = wallet();
    let real: ldk_node::lightning_invoice::Bolt11Invoice = INVOICE.parse().expect("an invoice");
    let call = w
        .quote_payment(&QuotePaymentRequest { invoice: INVOICE.into(), amount: None })
        .expect("a quote");
    assert_eq!(call.destination, real.recover_payee_pub_key().to_string());
    assert_eq!(call.destination.len(), 66);
    assert_eq!(call.amount_msat, 10);
    assert_eq!(call.max_routes, 1);
    let call = w
        .quote_payment(&QuotePaymentRequest { invoice: INVOICE.into(), amount: Some(11) })
        .expect("a quote");
    assert_eq!(call.amount_msat, 11, "the caller's amount goes first");
    let e = w
        .quote_payment(&QuotePaymentRequest { invoice: "lnbc".into(), amount: Some(1) })
        .expect_err("no invoice");
    assert_eq!(e.code, ErrorCode::BadRequest);
    assert!(e.message.starts_with("invoice: ") && e.message.len() > 9);
}

#[test]
fn a_quote_without_an_amount_is_refused() {
    let terms = dln_node::foreign::InvoiceTerms {
        amount_msat: None,
        payee: "02".to_string(),
    };
    let e = wallet().quote_terms(None, Ok(terms)).expect_err("no amount");
    assert_eq!((e.code, e.message.as_str()), (ErrorCode::BadRequest, "the invoice has no amount"));
}

#[test]
fn no_route_is_an_answer() {
    let w = wallet();
    let none = w.quote_payment_reply(500, &vec![]);
    assert!(!none.route_found);
    assert_eq!((none.amount, none.fee_msat, none.cltv_expiry_delta), (500, 0, 0));
    let route = |fee: u64| dln_node::lightning::RouteInfo {
        total_fee: fee,
        total_time_lock: 144,
        hops: vec![],
    };
    let some = w.quote_payment_reply(500, &vec![route(3), route(1)]);
    assert!(some.route_found);
    assert_eq!((some.amount, some.fee_msat, some.cltv_expiry_delta), (500, 3, 144));
}
