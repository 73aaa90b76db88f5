//! Making a URI that others can pay.
//!
//! Each payment method that the caller wants is tried in turn. One that cannot
//! be had is left out, and so is an address that does not parse. The call fails
//! only where nothing is left: a URI that offers the rest is a useful answer.

use vstd::prelude::*;
use vstd::string::*;

use crate::error::{ErrorCode, NncError};
use crate::foreign::{
    is_address, is_plain_address, offer_id, offer_id_of, parses_as_address,
};
use crate::lightning::InvoiceInfo;
use crate::nwc::{Bip321Method, ReceiveRequest, ReceiveResponse};
use crate::params::is_visible;
use crate::state::NewOffer;
use crate::uri::{
    carried_by, has_instruction, is_sound, reads_back, text_for, write_text, PaymentUri, UriView,
};
use crate::wallet::invoices::MakeInvoiceCall;
use crate::wallet::offers::{filed_under, id_or_zeros, MakeOfferCall};
use crate::wallet::Wallet;

verus! {

/// A wanted method by its contents.
#[verifier::ext_equal]
pub struct MethodView {
    pub method: Seq<char>,
    pub expiry: Option<u64>,
    pub address_type: Option<Seq<char>>,
}

impl View for Bip321Method {
    type V = MethodView;

    open spec fn view(&self) -> MethodView {
        MethodView {
            method: self.method@,
            expiry: self.expiry,
            address_type: self.address_type.deep_view(),
        }
    }
}

/// Wanted methods by their contents.
pub open spec fn methods_view(methods: Seq<Bip321Method>) -> Seq<MethodView> {
    methods.map_values(|m: Bip321Method| m@)
}

/// A method with nothing said about it.
pub open spec fn plain_method(method: Seq<char>) -> MethodView {
    MethodView { method, expiry: None, address_type: None }
}

/// What is tried where the caller does not say: everything.
pub open spec fn default_methods() -> Seq<MethodView> {
    seq![plain_method("bolt11"@), plain_method("bolt12"@), plain_method("onchain"@)]
}

/// A URI in the making.
#[derive(Debug, PartialEq, Eq)]
pub struct Receiving {
    amount: Option<u64>,
    description: Option<String>,
    wanted: Vec<Bip321Method>,
    next: usize,
    uri: PaymentUri,
}

/// A URI in the making by its contents.
#[verifier::ext_equal]
pub struct ReceivingView {
    /// In millisatoshis.
    pub amount: Option<u64>,
    pub description: Option<Seq<char>>,
    pub wanted: Seq<MethodView>,
    /// The first method that has not been tried.
    pub next: int,
    pub uri: UriView,
}

impl View for Receiving {
    type V = ReceivingView;

    closed spec fn view(&self) -> ReceivingView {
        ReceivingView {
            amount: self.amount,
            description: self.description.deep_view(),
            wanted: methods_view(self.wanted@),
            next: self.next as int,
            uri: self.uri@,
        }
    }
}

impl Receiving {
    /// Whatever has been made so far, the URI is sound.
    #[verifier::type_invariant]
    spec fn inv(self) -> bool {
        self@.wf()
    }
}

impl ReceivingView {
    /// Whether the URI has something to pay.
    pub open spec fn any(self) -> bool {
        has_instruction(self.uri)
    }

    /// The methods are tried in order, the URI carries what the request said, and
    /// its address parses.
    pub open spec fn wf(self) -> bool {
        &&& 0 <= self.next <= self.wanted.len()
        &&& self.uri.message == self.description
        &&& self.uri.amount_sat == sats(self.amount)
        &&& is_sound(self.uri)
    }

    /// The same with one more invoice to pay.
    pub open spec fn with_invoice(self, invoice: Seq<char>) -> ReceivingView {
        ReceivingView {
            uri: UriView { lightning: self.uri.lightning.push(invoice), ..self.uri },
            ..self
        }
    }

    /// The same with one more offer to pay.
    pub open spec fn with_offer(self, offer: Seq<char>) -> ReceivingView {
        ReceivingView {
            uri: UriView { lno: self.uri.lno.push(offer), ..self.uri },
            ..self
        }
    }

    /// The same with an address to pay, in place of any before.
    pub open spec fn with_address(self, address: Seq<char>) -> ReceivingView {
        ReceivingView { uri: UriView { address: Some(address), ..self.uri }, ..self }
    }
}

/// Millisatoshis in whole sats.
pub open spec fn sats(amount: Option<u64>) -> Option<u64> {
    match amount {
        Some(msat) => Some(msat / 1_000),
        None => None,
    }
}

/// What the node is asked for next.
#[derive(Debug, PartialEq, Eq)]
pub enum ReceiveStep {
    MakeInvoice(MakeInvoiceCall),
    MakeOffer(MakeOfferCall),
    NewAddress,
    Finish,
}

/// Whether a wanted method asks anything of the node. An invoice needs an
/// amount, the node generates taproot addresses alone, and a method that it
/// does not know it leaves out.
pub open spec fn asks(m: MethodView, amount: Option<u64>) -> bool {
    ||| m.method == "bolt11"@ && amount is Some
    ||| m.method == "bolt12"@
    ||| m.method == "onchain"@ && (m.address_type is None || m.address_type == Some("p2tr"@))
}

/// The first method from `from` on that asks something of the node, or the end
/// of the list.
pub open spec fn next_asking(wanted: Seq<MethodView>, amount: Option<u64>, from: int) -> int
    decreases wanted.len() - from,
{
    if from >= wanted.len() {
        wanted.len() as int
    } else if asks(wanted[from], amount) {
        from
    } else {
        next_asking(wanted, amount, from + 1)
    }
}

/// Whether `step` is what the method `m` asks of the node.
pub open spec fn is_step_for(
    step: ReceiveStep,
    m: MethodView,
    amount: Option<u64>,
    description: Option<Seq<char>>,
) -> bool {
    if m.method == "bolt11"@ {
        &&& step matches ReceiveStep::MakeInvoice(c)
        &&& amount == Some(c.amount_msat)
        &&& c.description.deep_view() == description
        &&& c.description_hash is None
        &&& c.expiry == m.expiry
    } else if m.method == "bolt12"@ {
        &&& step matches ReceiveStep::MakeOffer(c)
        &&& c.amount_msat == amount.unwrap_or(0)
        &&& c.description@ == uri_offer_description(description)
        &&& c.expiry == (match m.expiry {
            Some(secs) if secs <= u32::MAX => Some(secs as u32),
            _ => None,
        })
    } else {
        step is NewAddress
    }
}

/// What an offer in a URI says it is for.
pub open spec fn uri_offer_description(description: Option<Seq<char>>) -> Seq<char> {
    match description {
        Some(d) => d,
        None => "bip321 offer"@,
    }
}

/// Whether `o` is what the node remembers of an offer it put into a URI.
pub open spec fn is_remembered(
    o: NewOffer,
    s: ReceivingView,
    offer: Seq<char>,
    id: Option<Seq<u8>>,
) -> bool {
    &&& o.offer@ == offer
    &&& o.description@ == uri_offer_description(s.description)
    &&& o.amount_msat == s.amount.unwrap_or(0)
    &&& o.offer_id@ == filed_under(id)
}

/// What came of one question to the node.
pub ghost enum Outcome {
    Nothing,
    Invoice(Seq<char>),
    Offer(Seq<char>),
    /// An address that parses.
    Address(Seq<char>),
}

impl Outcome {
    /// Whether an address that came of the question parses.
    pub open spec fn is_sound(self) -> bool {
        self matches Outcome::Address(address) ==> is_plain_address(address)
    }
}

impl ReceivingView {
    /// The same with what came of a question.
    pub open spec fn with_outcome(self, outcome: Outcome) -> ReceivingView {
        match outcome {
            Outcome::Nothing => self,
            Outcome::Invoice(invoice) => self.with_invoice(invoice),
            Outcome::Offer(offer) => self.with_offer(offer),
            Outcome::Address(address) => self.with_address(address),
        }
    }

    /// The same, gone on to the next method that asks something of the node.
    pub open spec fn advanced(self) -> ReceivingView {
        let at = next_asking(self.wanted, self.amount, self.next);
        ReceivingView {
            next: if at < self.wanted.len() {
                at + 1
            } else {
                at
            },
            ..self
        }
    }

    /// What becomes of it over some questions, each asked and then answered.
    pub open spec fn after(self, outcomes: Seq<Outcome>) -> ReceivingView
        decreases outcomes.len(),
    {
        if outcomes.len() == 0 {
            self
        } else {
            self.after(outcomes.drop_last()).advanced().with_outcome(outcomes.last())
        }
    }
}

/// Whether `answer` is the answer with that text, or the error for its lack.
pub open spec fn is_received(
    answer: Result<ReceiveResponse, NncError>,
    text: Option<Seq<char>>,
) -> bool {
    match text {
        Some(text) => answer matches Ok(a) && a.bip321@ == text && a.transaction_id is None,
        None => answer matches Err(e) && e.says(
            ErrorCode::BadRequest,
            "no payment instruction could be generated"@,
        ),
    }
}

fn plain(method: &str) -> (m: Bip321Method)
    ensures
        m@ == plain_method(method@),
{
    Bip321Method { method: method.to_owned(), expiry: None, address_type: None }
}

impl Wallet {
    /// A URI in the making: empty, but for what the request says of it. Its amount
    /// is in whole sats.
    pub fn receive(&self, r: ReceiveRequest) -> (s: Receiving)
        ensures
            s@.wf(),
            s@.amount == r.amount,
            s@.description == r.description.deep_view(),
            s@.wanted == (match r.methods {
                Some(methods) => methods_view(methods@),
                None => default_methods(),
            }),
            s@.next == 0,
            s@.uri == (UriView {
                amount_sat: sats(r.amount),
                label: r.label.deep_view(),
                message: r.description.deep_view(),
                lightning: seq![],
                lno: seq![],
                address: None,
            }),
            !s@.any(),
    {
        let wanted = match r.methods {
            Some(methods) => methods,
            None => {
                let all = vec![plain("bolt11"), plain("bolt12"), plain("onchain")];
                assert(methods_view(all@) =~= default_methods());
                all
            },
        };
        let amount_sat: Option<u64> = match r.amount {
            Some(msat) => Some(msat / 1_000),
            None => None,
        };
        let s = Receiving {
            amount: r.amount,
            description: r.description.clone(),
            wanted,
            next: 0,
            uri: PaymentUri {
                amount_sat,
                label: r.label,
                message: r.description,
                lightning: Vec::new(),
                lno: Vec::new(),
                address: None,
            },
        };
        proof {
            use_type_invariant(&s);
        }
        assert(s@.uri =~= UriView {
            amount_sat: sats(r.amount),
            label: r.label.deep_view(),
            message: r.description.deep_view(),
            lightning: seq![],
            lno: seq![],
            address: None,
        });
        s
    }
}

/// The answer to a request for a URI, given the text of one that has something
/// to pay.
pub fn received(text: Option<String>) -> (answer: Result<ReceiveResponse, NncError>)
    ensures
        is_received(answer, text.deep_view()),
{
    match text {
        Some(bip321) => Ok(ReceiveResponse { bip321, transaction_id: None }),
        None => Err(
            NncError::new(ErrorCode::BadRequest, "no payment instruction could be generated"),
        ),
    }
}

impl Receiving {
    /// Goes on to the next method that asks something of the node, and says
    /// what it asks.
    pub fn advance(&mut self) -> (step: ReceiveStep)
        ensures
            final(self)@.wf(),
            final(self)@ == old(self)@.advanced(),
            ({
                let s = old(self)@;
                let at = next_asking(s.wanted, s.amount, s.next);
                if at < s.wanted.len() {
                    is_step_for(step, s.wanted[at], s.amount, s.description)
                } else {
                    step is Finish
                }
            }),
    {
        proof {
            use_type_invariant(&*self);
        }
        while self.next < self.wanted.len()
            invariant
                self@.wf(),
                old(self)@.wf(),
                self@ == (ReceivingView { next: self@.next, ..old(self)@ }),
                next_asking(old(self)@.wanted, old(self)@.amount, old(self)@.next) == next_asking(
                    old(self)@.wanted,
                    old(self)@.amount,
                    self@.next,
                ),
            decreases self.wanted.len() - self.next,
        {
            let at = self.next;
            self.next = self.next + 1;
            let m = &self.wanted[at];
            proof {
                assert(old(self)@.wanted[at as int] == m@);
                reveal_strlit("bolt11");
                reveal_strlit("bolt12");
                reveal_strlit("onchain");
                assert("bolt11"@[5] != "bolt12"@[5]);
                assert("onchain"@.len() == 7);
            }
            if m.method.eq(&"bolt11".to_string()) {
                if let Some(amount_msat) = self.amount {
                    return ReceiveStep::MakeInvoice(
                        MakeInvoiceCall {
                            amount_msat,
                            description: self.description.clone(),
                            description_hash: None,
                            expiry: m.expiry,
                        },
                    );
                }
            } else if m.method.eq(&"bolt12".to_string()) {
                let expiry: Option<u32> = match m.expiry {
                    Some(secs) => if secs <= u32::MAX as u64 {
                        Some(secs as u32)
                    } else {
                        None
                    },
                    None => None,
                };
                return ReceiveStep::MakeOffer(
                    MakeOfferCall {
                        amount_msat: self.amount.unwrap_or(0),
                        description: self.offer_description(),
                        expiry,
                    },
                );
            } else if m.method.eq(&"onchain".to_string()) {
                let taproot = match &m.address_type {
                    Some(t) => t.eq(&"p2tr".to_string()),
                    None => true,
                };
                if taproot {
                    return ReceiveStep::NewAddress;
                }
            }
        }
        ReceiveStep::Finish
    }

    fn offer_description(&self) -> (description: String)
        ensures
            description@ == uri_offer_description(self@.description),
    {
        match &self.description {
            Some(d) => d.clone(),
            None => "bip321 offer".to_string(),
        }
    }

    /// Takes in what came of the invoice.
    pub fn invoice_made(&mut self, made: Result<InvoiceInfo, String>)
        ensures
            final(self)@.wf(),
            final(self)@ == (match made {
                Ok(m) => old(self)@.with_invoice(m.invoice@),
                Err(_) => old(self)@,
            }),
    {
        proof {
            use_type_invariant(&*self);
        }
        if let Ok(m) = made {
            let mut lightning: Vec<String> = Vec::new();
            std::mem::swap(&mut lightning, &mut self.uri.lightning);
            lightning.push(m.invoice);
            assert(lightning.deep_view() =~= old(self)@.uri.lightning.push(m.invoice@));
            self.uri.lightning = lightning;
            assert(self@ =~~= old(self)@.with_invoice(m.invoice@));
        }
    }

    /// Takes in an offer with its id, if it has one, and says what to remember of
    /// it.
    pub fn offer_added(&mut self, offer: String, id: Option<[u8; 32]>) -> (remember: NewOffer)
        ensures
            final(self)@.wf(),
            final(self)@ == old(self)@.with_offer(offer@),
            is_remembered(remember, old(self)@, offer@, id.deep_view()),
    {
        proof {
            use_type_invariant(&*self);
        }
        let remember = NewOffer {
            offer: offer.clone(),
            description: self.offer_description(),
            amount_msat: self.amount.unwrap_or(0),
            offer_id: id_or_zeros(id),
        };
        let mut lno: Vec<String> = Vec::new();
        std::mem::swap(&mut lno, &mut self.uri.lno);
        lno.push(offer);
        assert(lno.deep_view() =~= old(self)@.uri.lno.push(offer@));
        self.uri.lno = lno;
        assert(self@ =~~= old(self)@.with_offer(offer@));
        remember
    }

    /// Takes in what came of the offer, and says what to remember of it.
    pub fn offer_made(&mut self, made: Result<String, String>) -> (remember: Option<NewOffer>)
        ensures
            final(self)@.wf(),
            match made {
                Ok(offer) => {
                    &&& final(self)@ == old(self)@.with_offer(offer@)
                    &&& remember matches Some(o)
                    &&& is_remembered(o, old(self)@, offer@, offer_id_of(offer@))
                },
                Err(_) => final(self)@ == old(self)@ && remember is None,
            },
    {
        proof {
            use_type_invariant(&*self);
        }
        match made {
            Ok(offer) => {
                let id = offer_id(offer.as_str());
                Some(self.offer_added(offer, id))
            },
            Err(_) => None,
        }
    }

    /// Takes in an address that parses, of whatever network, in place of any
    /// before, and leaves out a text that is no address.
    pub fn address_added(&mut self, address: String, parses: bool)
        requires
            parses ==> is_plain_address(address@),
        ensures
            final(self)@.wf(),
            final(self)@ == (if parses {
                old(self)@.with_address(address@)
            } else {
                old(self)@
            }),
    {
        proof {
            use_type_invariant(&*self);
        }
        if parses {
            self.uri.address = Some(address);
            assert(self@ =~~= old(self)@.with_address(address@));
        }
    }

    /// Takes in what came of the address, and says which address to watch. The
    /// node watches what it generated, whether or not the URI can carry it.
    pub fn address_made(&mut self, made: Result<String, String>) -> (register: Option<String>)
        ensures
            final(self)@.wf(),
            match made {
                Ok(address) => {
                    &&& register == Some(address)
                    &&& final(self)@ == (if is_address(address@) {
                        old(self)@.with_address(address@)
                    } else {
                        old(self)@
                    })
                },
                Err(_) => final(self)@ == old(self)@ && register is None,
            },
    {
        proof {
            use_type_invariant(&*self);
        }
        match made {
            Ok(address) => {
                let parses = parses_as_address(address.as_str());
                self.address_added(address.clone(), parses);
                Some(address)
            },
            Err(_) => None,
        }
    }

    /// The URI, if there is anything in it to pay.
    pub fn finish(self) -> (answer: Result<ReceiveResponse, NncError>)
        ensures
            is_received(
                answer,
                if self@.any() {
                    Some(text_for(self@.uri))
                } else {
                    None
                },
            ),
            answer is Ok <==> self@.any(),
            answer matches Ok(a) ==> {
                &&& is_visible(a.bip321@)
                &&& reads_back(carried_by(a.bip321@), self@.uri)
            },
    {
        proof {
            use_type_invariant(&self);
        }
        let uri = self.uri;
        if uri.lightning.len() == 0 && uri.lno.len() == 0 && uri.address.is_none() {
            return received(None);
        }
        received(Some(write_text(uri)))
    }
}

}
