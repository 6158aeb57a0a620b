//! Payment processors: what each can do, the registry that finds them by
//! name, and the page that a hosted payment sends the buyer back to.

use crate::checkout::{
    Config, ConfigView, Outcome, SagaView, Step, begin, cancel_url, fail, finish, finish_with, hand_over,
    new_saga, stop, success_url,
};
use crate::errors::CheckoutError;
use crate::models::PaymentStatus;
use crate::seqs::{find_where, lemma_first_found, lemma_first_none};
use crate::store::OrderStore;
use crate::store_view::StoreView;
use crate::text::{Id, id_to_string, join3, text_eq};
use vstd::prelude::*;
use vstd::string::StringExecFns;

verus! {

/// The way in which a payment processor takes a payment.
#[derive(Clone, Copy, Debug, PartialEq, Eq, Structural)]
pub enum PaymentProcessorBehavior {
    /// The processor holds the amount on a card, then captures it.
    AuthThenComplete,
    /// The processor shows the buyer a page of its own, and reports later.
    RedirectToPaymentPage,
}

/// A payment processor as the registry knows it.
#[derive(Debug)]
pub struct PaymentProcessor {
    pub name: String,
    pub behavior: PaymentProcessorBehavior,
}

pub struct PaymentProcessorView {
    pub name: Seq<char>,
    pub behavior: PaymentProcessorBehavior,
}

impl View for PaymentProcessor {
    type V = PaymentProcessorView;

    open spec fn view(&self) -> PaymentProcessorView {
        PaymentProcessorView { name: self.name@, behavior: self.behavior }
    }
}

pub open spec fn named(name: Seq<char>) -> spec_fn(PaymentProcessorView) -> bool {
    |p: PaymentProcessorView| p.name == name
}

/// What the first processor registered under `name` does.
pub open spec fn behavior_of(processors: Seq<PaymentProcessorView>, name: Seq<char>) -> Option<
    PaymentProcessorBehavior,
> {
    match find_where(processors, named(name)) {
        Some(p) => Some(p.behavior),
        None => None,
    }
}

/// The registry of payment processors.
pub struct ServiceLocator {
    processors: Vec<PaymentProcessor>,
}

impl View for ServiceLocator {
    type V = Seq<PaymentProcessorView>;

    closed spec fn view(&self) -> Seq<PaymentProcessorView> {
        self.processors@.map_values(|p: PaymentProcessor| p@)
    }
}

impl ServiceLocator {
    /// A registry without processors.
    pub fn new() -> (locator: ServiceLocator)
        ensures
            locator@ == Seq::<PaymentProcessorView>::empty(),
    {
        let locator = ServiceLocator { processors: Vec::new() };
        assert(locator@ =~= Seq::empty());
        locator
    }

    /// Registers a processor. A name that is taken keeps its first processor.
    pub fn register(&mut self, name: String, behavior: PaymentProcessorBehavior)
        ensures
            final(self)@ == old(self)@.push(PaymentProcessorView { name: name@, behavior }),
    {
        let processor = PaymentProcessor { name, behavior };
        let ghost v = processor@;
        self.processors.push(processor);
        assert(self@ =~= old(self)@.push(v));
    }

    /// What the processor registered under the name does.
    pub fn create_payment_processor(&self, name: &str) -> (r: Result<PaymentProcessorBehavior, CheckoutError>)
        ensures
            r == match behavior_of(self@, name@) {
                Some(b) => Ok::<PaymentProcessorBehavior, CheckoutError>(b),
                None => Err(CheckoutError::UnknownProvider),
            },
    {
        let mut i: usize = 0;
        while i < self.processors.len()
            invariant
                i <= self.processors.len(),
                forall|j: int| 0 <= j < i ==> !#[trigger] named(name@)(self@[j]),
            decreases self.processors.len() - i,
        {
            if text_eq(self.processors[i].name.as_str(), name) {
                proof {
                    lemma_first_found(self@, named(name@), i as int);
                }
                return Ok(self.processors[i].behavior);
            }
            i += 1;
        }
        proof {
            lemma_first_none(self@, named(name@));
        }
        Err(CheckoutError::UnknownProvider)
    }
}

/// What the buyer's browser says on the way back from a hosted payment page.
#[derive(Debug)]
pub struct QueryParams {
    pub success: bool,
}

/// The order that the buyer comes back for, and the secret of its payment.
#[derive(Debug)]
pub struct PathParams {
    pub id: Id,
    pub nonce: String,
}

impl StoreView {
    /// What the return of a buyer from a hosted payment page comes to. The
    /// order, its payment with the secret and an event of the order must
    /// exist. A buyer who reports success is sent to the success page and
    /// nothing changes: only the provider confirms a payment. A buyer who
    /// gave up is sent to the confirmation page; the payment is cancelled
    /// and the order can be checked out again.
    pub open spec fn called_back(self, config: ConfigView, success: bool, order_id: Id, nonce: Seq<char>) -> (
        StoreView,
        Result<Seq<char>, CheckoutError>,
    ) {
        match self.order(order_id) {
            None => (self, Err(CheckoutError::NotFound)),
            Some(_) => match self.payment_by_nonce(order_id, nonce) {
                None => (self, Err(CheckoutError::NotFound)),
                Some(p) => match self.main_event(order_id) {
                    None => (self, Err(CheckoutError::NoEvent)),
                    Some(event_id) => if success {
                        (self, Ok(success_url(config, event_id)))
                    } else {
                        (
                            self.with_payment_status(p.id, PaymentStatus::Cancelled).reset(order_id),
                            Ok(cancel_url(config, event_id)),
                        )
                    },
                },
            },
        }
    }
}

/// Receives a buyer who comes back from a hosted payment page, and says
/// where to send the buyer next.
///
/// `NotFound` where the order does not exist or has no payment with the
/// secret, `NoEvent` where the order holds no event. A return does not
/// confirm a payment: on success nothing changes. A buyer who gave up has
/// the payment cancelled and the order made a draft again (or cancelled,
/// where the buyer has started another cart).
pub fn callback(store: &mut OrderStore, config: &Config, query: &QueryParams, path: &PathParams) -> (r: Result<
    String,
    CheckoutError,
>)
    requires
        old(store).wf(),
    ensures
        final(store).wf(),
        final(store)@ == old(store)@.called_back(config@, query.success, path.id, path.nonce@).0,
        match r {
            Ok(url) => Ok(url@),
            Err(e) => Err(e),
        } == old(store)@.called_back(config@, query.success, path.id, path.nonce@).1,
{
    if store.order(path.id).is_none() {
        return Err(CheckoutError::NotFound);
    }
    let payment = match store.payment_by_nonce(path.id, path.nonce.as_str()) {
        Some(p) => p,
        None => {
            return Err(CheckoutError::NotFound);
        },
    };
    let event_id = match store.main_event_id(path.id) {
        Some(id) => id,
        None => {
            return Err(CheckoutError::NoEvent);
        },
    };
    let event = id_to_string(event_id);
    if query.success {
        Ok(join3(config.front_end_url.as_str(), "/events/", event.as_str()).concat("/tickets/success"))
    } else {
        store.set_payment_status(payment.id, PaymentStatus::Cancelled);
        store.reset_to_draft(path.id);
        Ok(join3(config.front_end_url.as_str(), "/events/", event.as_str()).concat("/tickets/confirmation"))
    }
}

impl StoreView {
    /// What a provider's notification about a payment on its page comes to.
    /// The order and its payment under the provider's reference must exist
    /// (`NotFound`), and the payment must still be requested
    /// (`NotPending`). A payment that went through is completed, the order
    /// is paid, and the tokens held for the order are handed over to its
    /// user. A payment that did not is cancelled, and the order can be
    /// checked out again. Either way the change is counted, and what the
    /// provider sent is kept with the payment.
    pub open spec fn notified(self, order_id: Id, reference: Seq<char>, paid: bool, raw: Seq<char>) -> Outcome {
        match self.order(order_id) {
            None => fail(self, new_saga(order_id, 0, 0, Seq::empty()), CheckoutError::NotFound),
            Some(o) => {
                let saga = new_saga(order_id, o.user_id, o.version, Seq::empty());
                match self.payment_by_reference(order_id, reference) {
                    None => fail(self, saga, CheckoutError::NotFound),
                    Some(p) => if p.status != PaymentStatus::Requested {
                        fail(self, saga, CheckoutError::NotPending)
                    } else if paid {
                        self.touched(order_id).marked(p.id, PaymentStatus::Completed, Some(raw)).completed(
                            order_id,
                        ).hand_over(SagaView { transfers: self.transfers(order_id), ..saga }, 0)
                    } else {
                        finish(
                            self.touched(order_id).marked(p.id, PaymentStatus::Cancelled, Some(raw)).reset(
                                order_id,
                            ),
                            saga,
                        )
                    },
                }
            },
        }
    }
}

/// Receives a provider's notification about a payment on its page: the
/// only word that confirms such a payment.
///
/// `NotFound` where the order does not exist or has no payment under the
/// reference, `NotPending` where that payment is settled already. A
/// payment that went through is completed and the order is paid; the step
/// then asks for the first transfer of the tokens held for the order, or
/// for the message to the buyer, and is resumed like any checkout. A
/// payment that did not go through is cancelled and the order is made a
/// draft again.
pub fn ipn(store: &mut OrderStore, order_id: Id, reference: &str, paid: bool, raw: String) -> (step: Step)
    requires
        old(store).wf(),
    ensures
        final(store).wf(),
        final(store)@ == old(store)@.notified(order_id, reference@, paid, raw@).store,
        step@ == old(store)@.notified(order_id, reference@, paid, raw@).step,
{
    let o = match store.order(order_id) {
        Some(o) => o,
        None => {
            return stop(begin(order_id, 0, 0, String::new()), Err(CheckoutError::NotFound));
        },
    };
    let saga = begin(order_id, o.user_id, o.version, String::new());
    let payment = match store.payment_by_reference(order_id, reference) {
        Some(p) => p,
        None => {
            return stop(saga, Err(CheckoutError::NotFound));
        },
    };
    if payment.status != PaymentStatus::Requested {
        return stop(saga, Err(CheckoutError::NotPending));
    }
    if paid {
        let transfers = store.transfers(order_id);
        store.touch(order_id);
        store.mark_payment(payment.id, PaymentStatus::Completed, Some(raw));
        store.complete(order_id);
        let mut saga = saga;
        saga.transfers = transfers;
        hand_over(store, saga, 0)
    } else {
        store.touch(order_id);
        store.mark_payment(payment.id, PaymentStatus::Cancelled, Some(raw));
        store.reset_to_draft(order_id);
        finish_with(store, saga)
    }
}

} // verus!
