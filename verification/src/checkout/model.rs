//! What a checkout is: every step as a mathematical function of the store,
//! the state of the checkout and the outcome handed in.

use crate::errors::{CheckoutError, ProviderError};
use crate::models::{
    DisplayOrderView, OrderStatus, OrderView, PaymentMethod, PaymentMethodView, PaymentMethods, PaymentStatus,
    PaymentView, Scopes, UserView,
};
use crate::payments::{PaymentProcessorBehavior, PaymentProcessorView, behavior_of};

use crate::store_view::{StoreView, next_version};
use crate::text::{Id, lowercase, uuid_text};
use crate::checkout::{
    ActionView, ConfigView, NextView, Outcome, PaymentRequest, PaymentRequestView, ReplyView, SagaView, Stage,
    StepView,
};
use vstd::prelude::*;

verus! {

/// The label under which providers keep tokens for repeat charges.
pub open spec fn repeat_label() -> Seq<char> {
    "Big Neon"@
}

/// The description of a charge.
pub open spec fn charge_description() -> Seq<char> {
    "Big Neon Tickets"@
}

/// The provider name of payments that no provider handled.
pub open spec fn external_provider() -> Seq<char> {
    "External"@
}

/// The reference of the payment of a free checkout.
pub open spec fn free_reference() -> Seq<char> {
    "Free Checkout"@
}

/// The state of a checkout that has just begun.
pub open spec fn new_saga(order_id: Id, user_id: Id, version: u64, nonce: Seq<char>) -> SagaView {
    SagaView {
        stage: Stage::Done,
        order_id,
        user_id,
        version,
        provider: Seq::empty(),
        set_default: false,
        amount: 0,
        payment_id: 0,
        auth_id: Seq::empty(),
        nonce,
        transfers: Seq::empty(),
        next_transfer: 0,
        failure: CheckoutError::NotPending,
    }
}

/// The end of a checkout.
pub open spec fn done_step(saga: SagaView, result: Result<DisplayOrderView, CheckoutError>) -> StepView {
    StepView { saga: SagaView { stage: Stage::Done, ..saga }, next: NextView::Done(result) }
}

/// The request for an action.
pub open spec fn perform_step(saga: SagaView, stage: Stage, action: ActionView) -> StepView {
    StepView { saga: SagaView { stage, ..saga }, next: NextView::Perform(action) }
}

/// The step that ends a checkout.
pub open spec fn done(s: StoreView, saga: SagaView, result: Result<DisplayOrderView, CheckoutError>) -> Outcome {
    Outcome { store: s, step: done_step(saga, result) }
}

/// The step that ends a checkout with a failure.
pub open spec fn fail(s: StoreView, saga: SagaView, e: CheckoutError) -> Outcome {
    done(s, saga, Err(e))
}

/// The step that asks for an action.
pub open spec fn perform(s: StoreView, saga: SagaView, stage: Stage, action: ActionView) -> Outcome {
    Outcome { store: s, step: perform_step(saga, stage, action) }
}

/// The failure that an outcome stands for: its own, or a transport failure
/// where the outcome is not one of the action that was asked for.
pub open spec fn reply_error(reply: ReplyView) -> ProviderError {
    match reply {
        ReplyView::Failed(e) => e,
        _ => ProviderError::Transport,
    }
}

/// The order as a checkout returns it.
pub open spec fn display_result(s: StoreView, order_id: Id) -> Result<DisplayOrderView, CheckoutError> {
    match s.order(order_id) {
        None => Err(CheckoutError::NotFound),
        Some(_) => match s.display(order_id) {
            Some(d) => Ok(d),
            None => Err(CheckoutError::TotalOverflow),
        },
    }
}

/// The step that ends a checkout with the order as it is now.
pub open spec fn finish(s: StoreView, saga: SagaView) -> Outcome {
    done(s, saga, display_result(s, saga.order_id))
}

/// The payment that a free checkout records.
pub open spec fn free_payment(order_id: Id, user_id: Id) -> PaymentView {
    PaymentView {
        id: 0,
        order_id,
        created_by: Some(user_id),
        status: PaymentStatus::Completed,
        payment_method: PaymentMethods::External,
        amount: 0,
        provider: external_provider(),
        external_reference: Some(free_reference()),
        raw_data: None,
        url_nonce: None,
    }
}

/// The payment that records money taken elsewhere.
pub open spec fn external_payment(order_id: Id, user_id: Id, amount: i64, reference: Option<Seq<char>>) -> PaymentView {
    PaymentView {
        id: 0,
        order_id,
        created_by: Some(user_id),
        status: PaymentStatus::Completed,
        payment_method: PaymentMethods::External,
        amount,
        provider: external_provider(),
        external_reference: reference,
        raw_data: None,
        url_nonce: None,
    }
}

/// The payment that records an authorization.
pub open spec fn card_payment(saga: SagaView, auth_id: Seq<char>, raw: Seq<char>) -> PaymentView {
    PaymentView {
        id: 0,
        order_id: saga.order_id,
        created_by: Some(saga.user_id),
        status: PaymentStatus::Authorized,
        payment_method: PaymentMethods::CreditCard,
        amount: saga.amount,
        provider: saga.provider,
        external_reference: Some(auth_id),
        raw_data: Some(raw),
        url_nonce: None,
    }
}

/// The payment that records a request for a hosted payment page. Its
/// reference is the provider's name, a hyphen and the provider's identifier.
pub open spec fn requested_payment(saga: SagaView, id: Seq<char>, raw: Seq<char>) -> PaymentView {
    PaymentView {
        id: 0,
        order_id: saga.order_id,
        created_by: Some(saga.user_id),
        status: PaymentStatus::Requested,
        payment_method: PaymentMethods::Provider,
        amount: saga.amount,
        provider: saga.provider,
        external_reference: Some(saga.provider + "-"@ + id),
        raw_data: Some(raw),
        url_nonce: Some(saga.nonce),
    }
}

/// The address that the buyer returns to after a payment on a hosted page.
pub open spec fn success_url(config: ConfigView, event_id: Id) -> Seq<char> {
    config.front_end_url + "/events/"@ + uuid_text(event_id) + "/tickets/success"@
}

/// The address that the buyer returns to after giving up on a hosted page.
pub open spec fn cancel_url(config: ConfigView, event_id: Id) -> Seq<char> {
    config.front_end_url + "/events/"@ + uuid_text(event_id) + "/tickets/confirmation"@
}

/// The address for the provider's notifications, unless they are switched off.
pub open spec fn ipn_url(config: ConfigView) -> Option<Seq<char>> {
    if lowercase(config.ipn_base_url) == "test"@ {
        None
    } else {
        Some(config.ipn_base_url + "/ipns/globee"@)
    }
}

impl StoreView {
    /// Whether the user may record outside payments for every event in the cart.
    pub open spec fn external_allowed(self, order_id: Id, user_id: Id) -> bool {
        forall|i: int|
            0 <= i < self.items.len() && (#[trigger] self.items[i]).order_id == order_id
                && self.items[i].event_id is Some ==> self.may_pay_externally(
                user_id,
                self.items[i].event_id->0,
            )
    }

    /// Whether the user may record outside payments for the event.
    pub open spec fn may_pay_externally(self, user_id: Id, event_id: Id) -> bool {
        self.event(event_id) matches Some(e) && self.has_scope(
            user_id,
            e.organization_id,
            Scopes::OrderMakeExternalPayment,
        )
    }

    /// The user that an outside payment is for: the first with the email
    /// address, else the first with the phone number.
    pub open spec fn guest(self, email: Option<Seq<char>>, phone: Option<Seq<char>>) -> Option<Id> {
        let by_phone = match phone {
            Some(p) => match self.user_by_phone(p) {
                Some(u) => Some(u.id),
                None => None,
            },
            None => None,
        };
        match email {
            Some(e) => match self.user_by_email(e) {
                Some(u) => Some(u.id),
                None => by_phone,
            },
            None => by_phone,
        }
    }

    /// The step that hands over the tokens from place `k` of the list on:
    /// the transfer of the asset at `k`, or the message to the buyer once
    /// the list is through.
    pub open spec fn hand_over(self, saga: SagaView, k: int) -> Outcome {
        if k >= saga.transfers.len() {
            self.notify(saga)
        } else {
            let g = saga.transfers[k];
            match self.asset(g.asset_id) {
                None => fail(self, saga, CheckoutError::AssetNotOnLedger),
                Some(a) => match a.blockchain_asset_id {
                    None => fail(self, saga, CheckoutError::AssetNotOnLedger),
                    Some(ledger_id) => match self.wallet(g.wallet_id) {
                        None => fail(self, saga, CheckoutError::WalletNotFound),
                        Some(from) => match self.default_wallet(saga.user_id) {
                            None => fail(self, saga, CheckoutError::WalletNotFound),
                            Some(to) => perform(
                                self,
                                SagaView { next_transfer: k as usize, ..saga },
                                Stage::Transfer,
                                ActionView::Transfer {
                                    sender_secret_key: from.secret_key,
                                    sender_public_key: from.public_key,
                                    asset_id: ledger_id,
                                    token_ids: g.token_ids,
                                    recipient_public_key: to.public_key,
                                },
                            ),
                        },
                    },
                },
            }
        }
    }

    /// The step after the tokens were handed over: the message to the one
    /// the order is for, if a first name and an email address are known,
    /// else the end of the checkout.
    pub open spec fn notify(self, saga: SagaView) -> Outcome {
        match self.order(saga.order_id) {
            None => fail(self, saga, CheckoutError::NotFound),
            Some(o) => {
                let who = match o.on_behalf_of_user_id {
                    Some(g) => g,
                    None => o.user_id,
                };
                match self.user(who) {
                    Some(u) => match u.first_name {
                        Some(first_name) => match u.email {
                            Some(email) => perform(
                                self,
                                saga,
                                Stage::Notify,
                                ActionView::Notify { first_name, email, order_id: saga.order_id },
                            ),
                            None => finish(self, saga),
                        },
                        None => finish(self, saga),
                    },
                    None => finish(self, saga),
                }
            },
        }
    }

    /// A free checkout: the order must be a draft in the version that the
    /// checkout read. A payment of zero is recorded as completed, the order
    /// is paid, and the tokens are handed over.
    pub open spec fn checkout_free(self, saga: SagaView) -> Outcome {
        match self.order(saga.order_id) {
            None => fail(self, saga, CheckoutError::NotFound),
            Some(o) => if o.status != OrderStatus::Draft {
                fail(self, saga, CheckoutError::NotDraft)
            } else if o.version != saga.version {
                fail(self, saga, CheckoutError::Conflict)
            } else {
                self.touched(saga.order_id).with_payment(free_payment(saga.order_id, saga.user_id)).completed(
                    saga.order_id,
                ).hand_over(SagaView { version: next_version(saga.version), ..saga }, 0)
            },
        }
    }

    /// A checkout paid elsewhere: the user must hold the capability for
    /// every event in the cart, the order must be a draft in the version
    /// read, and its total must fit. The guest is looked up or made, the
    /// order is said to be the guest's, the whole total is recorded as a
    /// completed payment, the order is paid, and the tokens are handed over.
    pub open spec fn checkout_external(
        self,
        saga: SagaView,
        reference: Option<Seq<char>>,
        first_name: Seq<char>,
        last_name: Seq<char>,
        email: Option<Seq<char>>,
        phone: Option<Seq<char>>,
        note: Option<Seq<char>>,
    ) -> Outcome {
        if !self.external_allowed(saga.order_id, saga.user_id) {
            fail(self, saga, CheckoutError::MissingScope)
        } else {
            match self.order(saga.order_id) {
                None => fail(self, saga, CheckoutError::NotFound),
                Some(o) => if o.status != OrderStatus::Draft {
                    fail(self, saga, CheckoutError::NotDraft)
                } else if self.total(saga.order_id) > i64::MAX {
                    fail(self, saga, CheckoutError::TotalOverflow)
                } else if o.version != saga.version {
                    fail(self, saga, CheckoutError::Conflict)
                } else {
                    let s1 = self.touched(saga.order_id);
                    let s2 = match s1.guest(email, phone) {
                        Some(_) => s1,
                        None => s1.with_user(
                            UserView {
                                id: 0,
                                first_name: Some(first_name),
                                last_name: Some(last_name),
                                email,
                                phone,
                            },
                        ),
                    };
                    let guest_id = match s1.guest(email, phone) {
                        Some(g) => g,
                        None => s1.next_id,
                    };
                    s2.with_beneficiary(saga.order_id, guest_id, note).with_payment(
                        external_payment(
                            saga.order_id,
                            saga.user_id,
                            self.total(saga.order_id) as i64,
                            reference,
                        ),
                    ).completed(saga.order_id).hand_over(
                        SagaView { version: next_version(saga.version), ..saga },
                        0,
                    )
                },
            }
        }
    }

    /// The authorization of a card: the total must fit and the order must be
    /// in the version read. The step asks the provider to hold the total as
    /// it is now.
    pub open spec fn auth_then_complete(self, config: ConfigView, saga: SagaView, token: Seq<char>) -> Outcome {
        if self.total(saga.order_id) > i64::MAX {
            fail(self, saga, CheckoutError::TotalOverflow)
        } else if !self.is_current(saga.order_id, saga.version) {
            fail(self, saga, CheckoutError::Conflict)
        } else {
            perform(
                self.touched(saga.order_id),
                SagaView {
                    version: next_version(saga.version),
                    amount: self.total(saga.order_id) as i64,
                    ..saga
                },
                Stage::Authorize,
                ActionView::Authorize {
                    token,
                    amount: self.total(saga.order_id) as i64,
                    currency: config.primary_currency,
                    description: charge_description(),
                    metadata: seq![("order_id"@, uuid_text(saga.order_id))],
                },
            )
        }
    }

    /// The request for a hosted payment page: the user must have an email
    /// address, the total must fit, the cart must hold an event, and the
    /// order must be in the version read. Nothing is recorded yet.
    pub open spec fn redirect_to_payment_page(self, config: ConfigView, saga: SagaView) -> Outcome {
        match self.user(saga.user_id) {
            None => fail(self, saga, CheckoutError::NoEmail),
            Some(u) => match u.email {
                None => fail(self, saga, CheckoutError::NoEmail),
                Some(email) => if self.total(saga.order_id) > i64::MAX {
                    fail(self, saga, CheckoutError::TotalOverflow)
                } else {
                    match self.main_event(saga.order_id) {
                        None => fail(self, saga, CheckoutError::NoEvent),
                        Some(event_id) => if !self.is_current(saga.order_id, saga.version) {
                            fail(self, saga, CheckoutError::Conflict)
                        } else {
                            perform(
                                self.touched(saga.order_id),
                                SagaView {
                                    version: next_version(saga.version),
                                    amount: self.total(saga.order_id) as i64,
                                    ..saga
                                },
                                Stage::PaymentRequest,
                                ActionView::RequestPayment {
                                    amount_in_cents: self.total(saga.order_id) as i64,
                                    email,
                                    order_id: saga.order_id,
                                    ipn_url: ipn_url(config),
                                    success_url: Some(success_url(config, event_id)),
                                    cancel_url: Some(cancel_url(config, event_id)),
                                },
                            )
                        },
                    }
                },
            },
        }
    }

    /// A checkout through a payment processor: the order must be the user's
    /// draft and the provider must be registered. A processor with a page of
    /// its own is asked for one. A card processor authorizes the token of the
    /// payment method kept, or the token given; where the user wants the
    /// card kept, the provider is first asked for a token for repeat charges.
    pub open spec fn checkout_payment_processor(
        self,
        locator: Seq<PaymentProcessorView>,
        config: ConfigView,
        saga: SagaView,
        token: Option<Seq<char>>,
        provider: Seq<char>,
        use_stored_payment: bool,
        save_payment_method: bool,
        set_default: bool,
    ) -> Outcome {
        match self.order(saga.order_id) {
            None => fail(self, saga, CheckoutError::NotFound),
            Some(o) => if o.user_id != saga.user_id {
                fail(self, saga, CheckoutError::NotOwner)
            } else if o.status != OrderStatus::Draft {
                fail(self, saga, CheckoutError::NotDraft)
            } else {
                let saga = SagaView { provider, set_default, ..saga };
                match behavior_of(locator, provider) {
                    None => fail(self, saga, CheckoutError::UnknownProvider),
                    Some(PaymentProcessorBehavior::RedirectToPaymentPage) => self.redirect_to_payment_page(
                        config,
                        saga,
                    ),
                    Some(PaymentProcessorBehavior::AuthThenComplete) => if use_stored_payment {
                        match self.payment_method(saga.user_id, provider) {
                            Some(m) => self.auth_then_complete(config, saga, m.provider),
                            None => fail(self, saga, CheckoutError::NoStoredPaymentMethod),
                        }
                    } else {
                        match token {
                            None => fail(self, saga, CheckoutError::NoToken),
                            Some(t) => if save_payment_method {
                                if o.version != saga.version {
                                    fail(self, saga, CheckoutError::Conflict)
                                } else {
                                    perform(
                                        self.touched(saga.order_id),
                                        SagaView { version: next_version(saga.version), ..saga },
                                        Stage::RepeatToken,
                                        match self.payment_method(saga.user_id, provider) {
                                            Some(m) => ActionView::UpdateRepeatToken {
                                                stored_token: m.provider,
                                                new_token: t,
                                                label: repeat_label(),
                                            },
                                            None => ActionView::CreateRepeatToken {
                                                token: t,
                                                label: repeat_label(),
                                            },
                                        },
                                    )
                                }
                            } else {
                                self.auth_then_complete(config, saga, t)
                            },
                        }
                    },
                }
            },
        }
    }

    /// The first step of a checkout. In this order: the order must exist,
    /// be the user's, be in the version that the caller read, be a draft,
    /// hold only lines that can be bought, and every asset of its tickets
    /// must be on the ledger. Then the request decides the path.
    pub open spec fn checkout(
        self,
        locator: Seq<PaymentProcessorView>,
        config: ConfigView,
        order: OrderView,
        request: PaymentRequestView,
        user_id: Id,
        nonce: Seq<char>,
    ) -> Outcome {
        let saga = new_saga(order.id, user_id, order.version, nonce);
        match self.order(order.id) {
            None => fail(self, saga, CheckoutError::NotFound),
            Some(o) => if o.user_id != user_id {
                fail(self, saga, CheckoutError::NotOwner)
            } else if o.version != order.version {
                fail(self, saga, CheckoutError::Conflict)
            } else if o.status != OrderStatus::Draft {
                fail(self, saga, CheckoutError::NotDraft)
            } else if !self.items_valid(order.id) {
                fail(self, saga, CheckoutError::InvalidItems)
            } else if !self.all_on_ledger(self.transfers(order.id)) {
                fail(self, saga, CheckoutError::AssetNotOnLedger)
            } else {
                let saga = SagaView { transfers: self.transfers(order.id), ..saga };
                match request {
                    PaymentRequestView::Free => if self.total(order.id) != 0 {
                        fail(self, saga, CheckoutError::TotalNotZero)
                    } else {
                        self.checkout_free(saga)
                    },
                    PaymentRequestView::External { reference, first_name, last_name, email, phone, note } =>
                        self.checkout_external(saga, reference, first_name, last_name, email, phone, note),
                    PaymentRequestView::PaymentMethod { provider } => match provider {
                        Some(p) => self.checkout_payment_processor(
                            locator,
                            config,
                            saga,
                            None,
                            p,
                            true,
                            false,
                            false,
                        ),
                        None => match self.default_payment_method(user_id) {
                            Some(m) => self.checkout_payment_processor(
                                locator,
                                config,
                                saga,
                                None,
                                m.name,
                                true,
                                false,
                                false,
                            ),
                            None => fail(self, saga, CheckoutError::NoDefaultPaymentMethod),
                        },
                    },
                    PaymentRequestView::Provider { provider } => self.checkout_payment_processor(
                        locator,
                        config,
                        saga,
                        None,
                        provider,
                        false,
                        false,
                        false,
                    ),
                    PaymentRequestView::Card { token, provider, save_payment_method, set_default } =>
                        self.checkout_payment_processor(
                        locator,
                        config,
                        saga,
                        Some(token),
                        provider,
                        false,
                        save_payment_method,
                        set_default,
                    ),
                }
            },
        }
    }

    /// The step that undoes an authorization: the payment is cancelled and
    /// the provider is asked to give the amount back. What went wrong is
    /// kept, to be reported once the refund is through.
    pub open spec fn compensate(self, saga: SagaView, cause: CheckoutError) -> Outcome {
        perform(
            self.with_payment_status(saga.payment_id, PaymentStatus::Cancelled),
            SagaView { failure: cause, ..saga },
            Stage::Refund,
            ActionView::Refund { auth_id: saga.auth_id },
        )
    }

    /// The step that follows the outcome of an action. An outcome that is
    /// not one of the action asked for counts as a transport failure of that
    /// action.
    pub open spec fn resume(self, config: ConfigView, saga: SagaView, reply: ReplyView) -> Outcome {
        match saga.stage {
            Stage::RepeatToken => match reply {
                ReplyView::RepeatToken { token, raw } => self.with_payment_method(
                    PaymentMethodView {
                        user_id: saga.user_id,
                        name: saga.provider,
                        is_default: saga.set_default,
                        provider: token,
                        provider_data: raw,
                    },
                ).auth_then_complete(config, saga, token),
                _ => fail(self, saga, CheckoutError::Provider(reply_error(reply))),
            },
            Stage::Authorize => match reply {
                ReplyView::Authorized { id, raw } => if !self.is_current(saga.order_id, saga.version) {
                    perform(
                        self,
                        SagaView { failure: CheckoutError::Conflict, auth_id: id, ..saga },
                        Stage::Refund,
                        ActionView::Refund { auth_id: id },
                    )
                } else {
                    perform(
                        self.touched(saga.order_id).with_payment(card_payment(saga, id, raw)),
                        SagaView {
                            version: next_version(saga.version),
                            payment_id: self.next_id,
                            auth_id: id,
                            ..saga
                        },
                        Stage::Commit,
                        ActionView::Commit,
                    )
                },
                _ => fail(self, saga, CheckoutError::Provider(reply_error(reply))),
            },
            Stage::Commit => match reply {
                ReplyView::Committed => perform(
                    self,
                    saga,
                    Stage::Capture,
                    ActionView::Capture { auth_id: saga.auth_id },
                ),
                _ => self.compensate(saga, CheckoutError::Provider(reply_error(reply))),
            },
            Stage::Capture => match reply {
                ReplyView::Captured { raw } => if !self.is_current(saga.order_id, saga.version) {
                    self.compensate(saga, CheckoutError::Conflict)
                } else {
                    self.touched(saga.order_id).marked(saga.payment_id, PaymentStatus::Completed, Some(raw)).completed(
                        saga.order_id,
                    ).hand_over(SagaView { version: next_version(saga.version), ..saga }, 0)
                },
                _ => self.compensate(saga, CheckoutError::Provider(reply_error(reply))),
            },
            Stage::Refund => match reply {
                ReplyView::Refunded => fail(self, saga, saga.failure),
                _ => fail(self, saga, CheckoutError::RefundFailed(reply_error(reply))),
            },
            Stage::PaymentRequest => match reply {
                ReplyView::PaymentRequested { id, redirect_url, expires_at, raw } => if !self.is_current(
                    saga.order_id,
                    saga.version,
                ) {
                    fail(self, saga, CheckoutError::Conflict)
                } else {
                    finish(
                        self.touched(saga.order_id).pending(saga.order_id, redirect_url, expires_at).with_payment(
                            requested_payment(saga, id, raw),
                        ),
                        SagaView { version: next_version(saga.version), ..saga },
                    )
                },
                _ => fail(self, saga, CheckoutError::Provider(reply_error(reply))),
            },
            Stage::Transfer => match reply {
                ReplyView::Transferred => self.hand_over(saga, saga.next_transfer + 1),
                _ => fail(self, saga, CheckoutError::TransferFailed),
            },
            Stage::Notify => finish(self, saga),
            Stage::Done => fail(self, saga, CheckoutError::NotPending),
        }
    }
}

/// The keys of a list with every run of one key counted once.
pub open spec fn runs(keys: Seq<Option<Id>>) -> Seq<Option<Id>>
    decreases keys.len(),
{
    if keys.len() == 0 {
        Seq::empty()
    } else {
        let rest = runs(keys.drop_last());
        if keys.len() >= 2 && keys[keys.len() - 2] == keys.last() {
            rest
        } else {
            rest.push(keys.last())
        }
    }
}

/// Every key of a list is the key of one of its runs, and the other way round.
pub proof fn lemma_runs(keys: Seq<Option<Id>>)
    ensures
        forall|i: int| 0 <= i < keys.len() ==> runs(keys).contains(#[trigger] keys[i]),
        forall|j: int| 0 <= j < runs(keys).len() ==> keys.contains(#[trigger] runs(keys)[j]),
        keys.len() > 0 ==> runs(keys).len() > 0 && runs(keys).last() == keys.last(),
    decreases keys.len(),
{
    if keys.len() > 0 {
        let front = keys.drop_last();
        lemma_runs(front);
        let rest = runs(front);
        let all = runs(keys);
        assert forall|i: int| 0 <= i < keys.len() implies all.contains(#[trigger] keys[i]) by {
            if i < front.len() {
                assert(front[i] == keys[i]);
                let j = choose|j: int| 0 <= j < rest.len() && rest[j] == front[i];
                assert(all[j] == keys[i]);
            } else {
                if keys.len() >= 2 && keys[keys.len() - 2] == keys.last() {
                    assert(front[front.len() - 1] == keys[i]);
                    let j = choose|j: int| 0 <= j < rest.len() && rest[j] == front[front.len() - 1];
                    assert(all[j] == keys[i]);
                } else {
                    assert(all[all.len() - 1] == keys[i]);
                }
            }
        }
        assert forall|j: int| 0 <= j < all.len() implies keys.contains(#[trigger] all[j]) by {
            if j < rest.len() {
                let i = choose|i: int| 0 <= i < front.len() && front[i] == rest[j];
                assert(keys[i] == all[j]);
            } else {
                assert(keys[keys.len() - 1] == all[j]);
            }
        }
    }
}

} // verus!
