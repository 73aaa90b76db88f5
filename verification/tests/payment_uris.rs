//! Paying URIs, and making them.

use dln_node::error::ErrorCode;
use dln_node::lightning::{InvoiceInfo, PaymentSent};
use dln_node::nwc::{Bip321Method, PayRequest, ReceiveRequest};
use dln_node::foreign::UriTerms;
use dln_node::uri::{complete, read_text, sort, taken, write_text, PaymentUri, Sorted};
use dln_node::wallet::pay::{paid, PayCall};
use dln_node::wallet::receive::{received, Receiving, ReceiveStep};
use dln_node::wallet::Wallet;

const OFFER: &str = "lno1pqps7sjqpgtyzm3qv4uxzmtsd3jjqer9wd3hy6tsw35k7msjzfpy7nz5yqcnygrfdej82um5wf5k2uckyypwa3eyt44h6txtxquqh7lz5djge4afgfjn7k4rgrkuag0jsd5xvxg";

const INVOICE: &str = "lnbc100p1psj9jhxdqud3jxktt5w46x7unfv9kz6mn0v3jsnp4q0d3p2sfluzdx45tqcsh2pu5qc7lgq0xs578ngs6s0s68ua4h7cvspp5q6rmq35js88zp5dvwrv9m459tnk2zunwj5jalqtyxqulh0l5gflssp5nf55ny5gcrfl30xuhzj3nphgj27rstekmr9fw3ny5989s300gyus9qyysgqcqpcrzjqw2sxwe993h5pcm4dxzpvttgza8zhkqxpgffcrf5v25nwpr3cmfg7z54kuqq8rgqqqqqqqq2qqqqq9qq9qrzjqd0ylaqclj9424x9m8h2vcukcgnm6s56xfgu3j78zyqzhgs4hlpzvznlugqq9vsqqqqqqqlgqqqqqeqq9qrzjqwldmj9dha74df76zhx6l9we0vjdquygcdt3kssupehe64g6yyp5yz5rhuqqwccqqyqqqqlgqqqqjcqq9qrzjqf9e58aguqr0rcun0ajlvmzq3ek63cw2w282gv3z5uupmuwvgjtq2z55qsqqg6qqqyqqqrtnqqqzq3cqygrzjqvphmsywntrrhqjcraumvc4y6r8v4z5v593trte429v4hredj7ms5z52usqq9ngqqqqqqqlgqqqqqqgq9qrzjq2v0vp62g49p7569ev48cmulecsxe59lvaw3wlxm7r982zxa9zzj7z5l0cqqxusqqyqqqqlgqqqqqzsqygarl9fh38s0gyuxjjgux34w75dnc6xp2l35j7es3jd4ugt3lu0xzre26yg5m7ke54n2d5sym4xcmxtl8238xxvw5h5h5j5r6drg6k6zcqj0fcwg";

const MAIN: &str = "bc1p0xlxvlhemja6c4dqv22uapctqupfhlxm9h8z3k2e72q4k9hcz7vqzk5jj0";
const TEST: &str = "tb1pqqqqp399et2xygdj5xreqhjjvcmzhxw4aywxecjdzew6hylgvsesf3hn0c";

fn wallet() -> Wallet {
    Wallet::new(None)
}

fn request(payment: &str, amount: Option<u64>) -> PayRequest {
    PayRequest {
        payment: payment.to_string(),
        amount,
        payer_note: Some("note".to_string()),
        max_fee: None,
    }
}

fn empty() -> PaymentUri {
    PaymentUri {
        amount_sat: None,
        label: None,
        message: None,
        lightning: vec![],
        lno: vec![],
        address: None,
    }
}

// ── paying ───────────────────────────────────────────────────────────

#[test]
fn an_invoice_is_paid_before_an_offer_before_an_address() {
    let w = wallet();
    let all = format!("bitcoin:{MAIN}?amount=0.00000002&lno={OFFER}&lightning={INVOICE}");
    assert_eq!(
        w.pay(request(&all, None)),
        Ok(PayCall::Bolt11 { invoice: INVOICE.to_string(), amount_msat: Some(2_000) })
    );
    let offer = format!("bitcoin:{MAIN}?lno={OFFER}");
    assert_eq!(
        w.pay(request(&offer, Some(7))),
        Ok(PayCall::Bolt12 {
            offer: OFFER.to_string(),
            amount_msat: Some(7),
            payer_note: Some("note".to_string()),
        })
    );
    let address = format!("bitcoin:{MAIN}?amount=0.5");
    assert_eq!(
        w.pay(request(&address, None)),
        Ok(PayCall::Onchain { address: MAIN.to_string(), amount_sat: 50_000_000 })
    );
    for address in [TEST.to_string(), MAIN.to_uppercase()] {
        assert_eq!(
            w.pay(request(&format!("bitcoin:{address}"), Some(2_999))),
            Ok(PayCall::Onchain { address, amount_sat: 2 })
        );
    }
}

#[test]
fn an_instruction_is_paid_as_it_stands() {
    let w = wallet();
    let upper = INVOICE.to_uppercase();
    for (text, invoice) in [
        (format!("BITCOIN:?LIGHTNING={upper}"), upper.as_str()),
        (format!("bitcoin:?req-lightning={INVOICE}"), INVOICE),
        ("bitcoin:?lightning=no%20invoice".to_string(), "no invoice"),
        ("bitcoin:?lightning=x%zz%ff".to_string(), "x%zz%ff"),
        ("bitcoin:?lightning=caf\u{e9}&lightning=2".to_string(), "caf\u{e9}"),
        (format!("bitcoin:{MAIN}?lno=1&sp=2&lightning="), ""),
    ] {
        assert_eq!(
            w.pay(request(&text, Some(1))),
            Ok(PayCall::Bolt11 { invoice: invoice.to_string(), amount_msat: Some(1) })
        );
    }
    assert_eq!(
        w.pay(request("bitcoin:?a=1&LNO=lno1%2Blno2&lno=3", None)),
        Ok(PayCall::Bolt12 {
            offer: "lno1+lno2".to_string(),
            amount_msat: None,
            payer_note: Some("note".to_string()),
        })
    );
}

#[test]
fn an_amount_of_zero_is_an_amount() {
    let w = wallet();
    for query in [
        "amount=0&lightning=x",
        "lightning=x&amount=0",
        "AMOUNT=0.&lightning=x",
        "req-amount=0.00000000&lightning=x",
    ] {
        assert_eq!(
            w.pay(request(&format!("bitcoin:?{query}"), None)),
            Ok(PayCall::Bolt11 { invoice: "x".to_string(), amount_msat: Some(0) })
        );
    }
    assert_eq!(
        w.pay(request(&format!("bitcoin:{MAIN}?amount=0"), None)),
        Ok(PayCall::Onchain { address: MAIN.to_string(), amount_sat: 0 })
    );
}

#[test]
fn the_fee_budget_changes_nothing() {
    let w = wallet();
    let uri = format!("bitcoin:?lno={OFFER}");
    let mut capped = request(&uri, Some(5));
    capped.max_fee = Some(1);
    assert_eq!(w.pay(capped), w.pay(request(&uri, Some(5))));
}

#[test]
fn an_onchain_payment_needs_an_amount() {
    let e = wallet().pay(request(&format!("bitcoin:{MAIN}"), None)).expect_err("no amount");
    assert_eq!(e.code, ErrorCode::BadRequest);
    assert_eq!(e.message, "an on-chain payment needs an amount");
}

#[test]
fn a_uri_with_nothing_payable_is_unsupported() {
    let w = wallet();
    let e = w.pay(request("bitcoin:?sp=sp1qsilent", Some(1))).expect_err("silent payment");
    assert_eq!(e.code, ErrorCode::UnsupportedPaymentInstruction);
    assert_eq!(e.message, "no instruction in this URI is one this node can pay");
    assert_eq!(w.pay(request(&format!("bitcoin:?tb={TEST}"), Some(1))).as_ref(), Err(&e));
    assert_eq!(w.pay_uri(&empty(), None, None), Err(e));
}

#[test]
fn a_text_that_is_no_uri_is_a_bad_request() {
    let w = wallet();
    for (text, message) in [
        ("lightning:x", "bip321: invalid scheme"),
        ("btc", "bip321: uri is too short"),
        ("bitcoin:nobody", "bip321: invalid bitcoin address: nobody"),
        ("bitcoin:?amount=0", "bip321: no payment destination: address or payment instruction required"),
        ("bitcoin:?amount=0&amount=1&lno=x", "bip321: the amount is given twice"),
        ("bitcoin:?amount=0&amount=0&lno=x", "bip321: amount must not be zero"),
        ("bitcoi\u{1f600}", "bip321: invalid scheme"),
        (" bit?x=aa\u{e9}", "bip321: invalid scheme"),
        (
            "bitcoin:?\u{e9}\u{e9}\u{e9}=1",
            "bip321: no payment destination: address or payment instruction required",
        ),
        (
            "bitcoin:?label=\u{e9}",
            "bip321: no payment destination: address or payment instruction required",
        ),
    ] {
        let e = w.pay(request(text, None)).expect_err("no URI");
        assert_eq!((e.code, e.message.as_str()), (ErrorCode::BadRequest, message));
    }
}

#[test]
fn a_label_may_go_beyond_ascii() {
    let uri = format!("\u{3000} bitcoin:{MAIN}?\u{e9}\u{e9}=1&label=Ren\u{e9}e=\u{1f600}&message=?\u{3000}&amount=1 ");
    assert_eq!(
        wallet().pay(request(&uri, None)),
        Ok(PayCall::Onchain { address: MAIN.to_string(), amount_sat: 100_000_000 })
    );
}

#[test]
fn a_settled_payment_is_identified_by_its_hash() {
    let w = wallet();
    let sent = || PaymentSent { preimage: "00".repeat(32), fees_paid_msat: None };
    let hash = "66687aadf862bd776c8fc18b8e9f8e20089714856ee233b3902a591d0d5f2925";
    let a = w.pay_bolt11_reply(Some(5_000), Ok(sent()), 77).expect("paid");
    assert_eq!(a.transaction_id, hash);
    assert_ne!(Some(&a.transaction_id), a.preimage.as_ref(), "the hash, never the preimage");
    assert_eq!(a.payment_hash.as_deref(), Some(hash));
    assert_eq!(a.preimage, Some("00".repeat(32)));
    assert_eq!((a.state.as_str(), a.instruction_type.as_str()), ("settled", "bolt11"));
    assert_eq!((a.amount, a.fees_paid), (5_000, 0));
    assert_eq!((a.created_at, a.settled_at), (77, Some(77)));
    assert!(a.txid.is_none() && a.payer_proof.is_none() && a.failure_reason.is_none());

    let a = w.pay_bolt12_reply(None, Ok(sent()), 78).expect("paid");
    assert_eq!((a.instruction_type.as_str(), a.amount), ("bolt12", 0));
    assert_eq!(a.transaction_id, hash);

    let a = w.pay_onchain_uri_reply(9, Ok("tx".into()), 79).expect("sent");
    assert_eq!((a.transaction_id.as_str(), a.txid.as_deref()), ("tx", Some("tx")));
    assert_eq!((a.amount, a.fees_paid), (9_000, 0));
    assert!(a.payment_hash.is_none() && a.preimage.is_none());

    for preimage in ["not hex".to_string(), "+f".repeat(32)] {
        let a = paid("bolt11", 1, Some(preimage), None, 2, 3);
        assert_eq!((a.transaction_id.as_str(), a.payment_hash), ("", None));
    }
}

#[test]
fn a_failed_payment_names_the_instruction() {
    let w = wallet();
    for (answer, message) in [
        (w.pay_bolt11_reply(None, Err("x".into()), 0), "pay/bolt11: x"),
        (w.pay_bolt12_reply(None, Err("x".into()), 0), "pay/bolt12: x"),
        (w.pay_onchain_uri_reply(0, Err("x".into()), 0), "pay/onchain: x"),
    ] {
        let e = answer.expect_err("failed");
        assert_eq!((e.code, e.message.as_str()), (ErrorCode::PaymentFailed, message));
    }
}

// ── receiving ────────────────────────────────────────────────────────

fn ask(amount: Option<u64>, methods: Option<Vec<Bip321Method>>) -> ReceiveRequest {
    ReceiveRequest {
        amount,
        label: Some("Alice B".to_string()),
        description: Some("tea & cake".to_string()),
        methods,
    }
}

fn method(name: &str) -> Bip321Method {
    Bip321Method { method: name.to_string(), expiry: None, address_type: None }
}

fn invoice() -> Result<InvoiceInfo, String> {
    Ok(InvoiceInfo {
        invoice: INVOICE.to_string(),
        payment_hash: None,
        amount_msat: None,
        expires_at: None,
    })
}

/// Answers every question, and counts them.
fn drive(mut s: Receiving, address: &str) -> (usize, Receiving) {
    let mut asked = 0;
    loop {
        match s.advance() {
            ReceiveStep::MakeInvoice(_) => s.invoice_made(invoice()),
            ReceiveStep::MakeOffer(_) => {
                let o = s.offer_made(Ok(OFFER.to_string())).expect("remembered");
                assert_eq!(o.offer, OFFER);
                assert_ne!(o.offer_id, [0u8; 32]);
            }
            ReceiveStep::NewAddress => {
                assert_eq!(s.address_made(Ok(address.to_string())), Some(address.to_string()));
            }
            ReceiveStep::Finish => return (asked, s),
        }
        asked += 1;
    }
}

#[test]
fn every_method_is_tried_unless_the_caller_says() {
    let w = wallet();
    let (asked, s) = drive(w.receive(ask(Some(123_456_789), None)), MAIN);
    assert_eq!(asked, 3);
    let a = s.finish().expect("a URI");
    assert_eq!(
        a.bip321,
        format!(
            "bitcoin:{MAIN}?amount=0.00123456&label=Alice%20B&message=tea%20%26%20cake\
             &lightning={INVOICE}&lno={OFFER}"
        )
    );
    assert!(a.transaction_id.is_none());
    let call = w.pay(request(&a.bip321, None)).expect("payable");
    assert_eq!(
        call,
        PayCall::Bolt11 { invoice: INVOICE.to_string(), amount_msat: Some(123_456_000) }
    );
}

#[test]
fn a_made_uri_is_paid_as_made() {
    let w = wallet();
    let made = |amount: Option<u64>, methods: &[&str], address: &str| {
        let methods = methods.iter().map(|m| method(m)).collect();
        let (_, s) = drive(w.receive(ask(amount, Some(methods))), address);
        s.finish().expect("a URI").bip321
    };
    let offer = |amount_msat: Option<u64>| PayCall::Bolt12 {
        offer: OFFER.to_string(),
        amount_msat,
        payer_note: Some("note".to_string()),
    };
    let uri = made(Some(2_999), &["onchain", "bolt12"], &TEST.to_uppercase());
    assert_eq!(w.pay(request(&uri, None)), Ok(offer(Some(2_000))));
    let uri = made(None, &["bolt12", "bolt12"], MAIN);
    assert_eq!(w.pay(request(&uri, None)), Ok(offer(None)));
    for address in [MAIN.to_string(), TEST.to_string(), TEST.to_uppercase()] {
        for (amount, amount_sat) in [(u64::MAX, u64::MAX / 1_000), (999, 0)] {
            let uri = made(Some(amount), &["onchain"], &address);
            let onchain = PayCall::Onchain { address: address.clone(), amount_sat };
            assert_eq!(w.pay(request(&uri, None)), Ok(onchain));
        }
    }
}

#[test]
fn an_invoice_needs_an_amount_and_the_rest_does_not() {
    let w = wallet();
    let (asked, s) = drive(w.receive(ask(None, None)), TEST);
    assert_eq!(asked, 2, "no invoice without an amount");
    let a = s.finish().expect("a URI");
    assert_eq!(
        a.bip321,
        format!("bitcoin:{TEST}?label=Alice%20B&message=tea%20%26%20cake&lno={OFFER}")
    );
}

#[test]
fn what_the_node_is_asked_follows_the_request() {
    let w = wallet();
    let mut bolt11 = method("bolt11");
    bolt11.expiry = Some(60);
    let mut bolt12 = method("bolt12");
    bolt12.expiry = Some(1 << 40);
    let mut segwit = method("onchain");
    segwit.address_type = Some("p2wpkh".to_string());
    let mut taproot = method("onchain");
    taproot.address_type = Some("p2tr".to_string());
    let wanted = vec![method("lightning"), bolt11, segwit, bolt12, taproot];
    let mut s = w.receive(ask(Some(1_500), Some(wanted)));
    match s.advance() {
        ReceiveStep::MakeInvoice(c) => {
            assert_eq!((c.amount_msat, c.expiry), (1_500, Some(60)));
            assert_eq!(c.description.as_deref(), Some("tea & cake"));
            assert!(c.description_hash.is_none());
        }
        other => panic!("{other:?}"),
    }
    match s.advance() {
        ReceiveStep::MakeOffer(c) => {
            assert_eq!((c.amount_msat, c.expiry), (1_500, None));
            assert_eq!(c.description, "tea & cake");
        }
        other => panic!("{other:?}"),
    }
    assert_eq!(s.advance(), ReceiveStep::NewAddress);
    assert_eq!(s.advance(), ReceiveStep::Finish);
    assert_eq!(s.advance(), ReceiveStep::Finish);
}

#[test]
fn an_offer_without_a_description_says_where_it_stands() {
    let mut r = ask(None, Some(vec![method("bolt12")]));
    r.description = None;
    let mut s = wallet().receive(r);
    match s.advance() {
        ReceiveStep::MakeOffer(c) => assert_eq!(c.description, "bip321 offer"),
        other => panic!("{other:?}"),
    }
    let o = s.offer_made(Ok("no offer".to_string())).expect("remembered");
    assert_eq!((o.description.as_str(), o.amount_msat), ("bip321 offer", 0));
    assert_eq!(o.offer_id, [0u8; 32]);
}

#[test]
fn a_method_that_fails_is_left_out() {
    let mut s = wallet().receive(ask(Some(5_000), None));
    s.advance();
    s.invoice_made(Err("no".into()));
    s.advance();
    assert!(s.offer_made(Err("no".into())).is_none());
    s.advance();
    assert_eq!(s.address_made(Ok(MAIN.to_string())), Some(MAIN.to_string()));
    assert_eq!(s.advance(), ReceiveStep::Finish);
    let a = s.finish().expect("a URI");
    assert!(a.bip321.starts_with(&format!("bitcoin:{MAIN}?amount=0.00000005&")));
    assert!(!a.bip321.contains("lightning=") && !a.bip321.contains("lno="));
}

#[test]
fn nothing_to_pay_is_refused() {
    let w = wallet();
    let mut s = w.receive(ask(Some(5_000), Some(vec![method("onchain")])));
    s.advance();
    assert_eq!(s.address_made(Ok("no address".into())), Some("no address".to_string()));
    let e = s.finish().expect_err("empty");
    assert_eq!(e.code, ErrorCode::BadRequest);
    assert_eq!(e.message, "no payment instruction could be generated");
    let mut s = w.receive(ask(None, Some(vec![])));
    assert_eq!(s.advance(), ReceiveStep::Finish);
    assert!(s.finish().is_err());
}

#[test]
fn an_amount_below_a_sat_is_written_as_zero() {
    let (_, s) = drive(wallet().receive(ask(Some(999), Some(vec![method("onchain")]))), MAIN);
    let a = s.finish().expect("a URI");
    assert_eq!(
        a.bip321,
        format!("bitcoin:{MAIN}?amount=0&label=Alice%20B&message=tea%20%26%20cake")
    );
}

#[test]
fn the_last_address_counts() {
    let mut s = wallet().receive(ask(None, Some(vec![method("onchain"), method("onchain")])));
    s.advance();
    s.address_made(Ok(TEST.into()));
    s.advance();
    s.address_made(Ok(MAIN.into()));
    let a = s.finish().expect("a URI");
    assert!(a.bip321.starts_with(&format!("bitcoin:{MAIN}?")));
    assert!(!a.bip321.contains(TEST));
}

#[test]
fn an_instruction_that_does_not_parse_stands_as_it_is() {
    let w = wallet();
    let unreadable = || {
        Ok(InvoiceInfo {
            invoice: "no & invoice".to_string(),
            payment_hash: None,
            amount_msat: None,
            expires_at: None,
        })
    };
    let mut s = w.receive(ask(Some(5_000), None));
    s.advance();
    s.invoice_made(unreadable());
    s.advance();
    let o = s.offer_made(Ok("no \u{f6}ffer".to_string())).expect("remembered");
    assert_eq!((o.offer.as_str(), o.offer_id), ("no \u{f6}ffer", [0u8; 32]));
    s.advance();
    s.address_made(Ok("no address".into()));
    let a = s.finish().expect("a URI");
    assert_eq!(
        a.bip321,
        "bitcoin:?amount=0.00000005&label=Alice%20B&message=tea%20%26%20cake\
         &lightning=no%20%26%20invoice&lno=no%20%C3%B6ffer"
    );
    assert_eq!(
        w.pay(request(&a.bip321, None)),
        Ok(PayCall::Bolt11 { invoice: "no & invoice".to_string(), amount_msat: Some(5_000) })
    );

    let mut s = w.receive(ask(Some(5_000), Some(vec![method("bolt11")])));
    s.advance();
    s.invoice_made(unreadable());
    assert!(s.finish().is_ok());
    let e = received(None).expect_err("nothing to pay");
    assert_eq!(e.code, ErrorCode::BadRequest);
    assert_eq!(e.message, "no payment instruction could be generated");
}

// ── the text of a URI ────────────────────────────────────────────────

fn texts(of: &[&str]) -> Vec<String> {
    of.iter().map(|t| t.to_string()).collect()
}

#[test]
fn parameters_are_sorted() {
    let s = sort(texts(&["a=b", "amount=0", "LNO=x%20y", "lightning=z", "sp=w", "req-lno=v", ""]));
    assert!(s.zero);
    assert_eq!(s.lightning, texts(&["z"]));
    assert_eq!(s.lno, texts(&["x y", "v"]));
    assert_eq!(s.handed, texts(&["a=b", "sp=x%20y", "sp=z", "sp=w", "sp=v", ""]));
    let others = ["amount=0.01", "amount=00", "amount=", "lightningx=1", "lno", "req-req-lno=2"];
    let s = sort(texts(&others));
    assert!(!s.zero && s.lightning.is_empty() && s.lno.is_empty());
    assert_eq!(s.handed, texts(&others));
    assert_eq!(sort(texts(&["amount=0.0", "amount=0"])).handed, texts(&["amount=0"]));
}

#[test]
fn what_was_read_is_put_together() {
    let read = |amount_sat| {
        Ok(UriTerms { amount_sat, label: Some("l".to_string()), message: None })
    };
    let sorted = |zero| Sorted {
        zero,
        lightning: texts(&["a"]),
        lno: texts(&["b", "c"]),
        handed: texts(&["sp=a"]),
    };
    let u = taken(read(Some(5)), sorted(false), Some("d".to_string())).expect("a URI");
    assert_eq!(
        u,
        PaymentUri {
            amount_sat: Some(5),
            label: Some("l".to_string()),
            message: None,
            lightning: texts(&["a"]),
            lno: texts(&["b", "c"]),
            address: Some("d".to_string()),
        }
    );
    assert_eq!(taken(read(None), sorted(false), None).expect("a URI").amount_sat, None);
    assert_eq!(taken(read(None), sorted(true), None).expect("a URI").amount_sat, Some(0));
    assert_eq!(
        taken(read(Some(5)), sorted(true), None),
        Err("the amount is given twice".to_string())
    );
    assert_eq!(taken(Err("no".to_string()), sorted(true), None), Err("no".to_string()));
}

#[test]
fn what_was_written_is_completed() {
    let written = "bitcoin:?label=l&sp=a&sp=b&sp=c&sp=d";
    assert_eq!(
        complete(written, 1, 2, Some("d".to_string()), true),
        "bitcoin:d?amount=0&label=l&lightning=a&lno=b&lno=c"
    );
    assert_eq!(complete(written, 4, 0, None, false), written.replace("sp=", "lightning="));
    assert_eq!(complete("bitcoin:?sp=d", 0, 0, Some("d".to_string()), false), "bitcoin:d");
    assert_eq!(complete("bitcoin:", 0, 0, None, true), "bitcoin:?amount=0");
}

#[test]
fn a_written_uri_reads_back() {
    let mut uri = empty();
    uri.amount_sat = Some(0);
    uri.label = Some("l&l \u{1f600}".to_string());
    uri.message = Some(String::new());
    uri.lightning = texts(&["a%41b", "", "?=&#"]);
    uri.lno = texts(&["\u{e9}"]);
    uri.address = Some(TEST.to_string());
    let again = |uri: &PaymentUri| PaymentUri {
        amount_sat: uri.amount_sat,
        label: uri.label.clone(),
        message: uri.message.clone(),
        lightning: uri.lightning.clone(),
        lno: uri.lno.clone(),
        address: uri.address.clone(),
    };
    let text = write_text(again(&uri));
    assert_eq!(
        text,
        format!(
            "bitcoin:{TEST}?amount=0&label=l%26l%20%F0%9F%98%80&message=\
             &lightning=a%2541b&lightning=&lightning=%3F%3D%26%23&lno=%C3%A9"
        )
    );
    assert_eq!(read_text(&text), Ok(again(&uri)));
    assert_eq!(read_text(&format!(" {text}\n")), Ok(uri));
}
