//! What goes into a checkout and what comes out of its steps: the request,
//! the actions that a step asks for, their outcomes, and the state of a
//! checkout between two steps.

use crate::errors::{CheckoutError, ProviderError};
use crate::models::{AssetTokens, AssetTokensView, DisplayOrder, DisplayOrderView, PaymentMethod};

use crate::store_view::StoreView;
use crate::text::{Id, opt_text};
use vstd::prelude::*;

verus! {

/// Where the platform is reached, and in which currency it sells.
#[derive(Debug)]
pub struct Config {
    pub primary_currency: String,
    pub front_end_url: String,
    /// The address that providers send their notifications to; `test` switches them off.
    pub ipn_base_url: String,
}

pub struct ConfigView {
    pub primary_currency: Seq<char>,
    pub front_end_url: Seq<char>,
    pub ipn_base_url: Seq<char>,
}

impl View for Config {
    type V = ConfigView;

    open spec fn view(&self) -> ConfigView {
        ConfigView {
            primary_currency: self.primary_currency@,
            front_end_url: self.front_end_url@,
            ipn_base_url: self.ipn_base_url@,
        }
    }
}

/// How the buyer wants to pay.
#[derive(Debug)]
#[allow(inconsistent_fields)]
pub enum PaymentRequest {
    /// A member of staff records a payment that was made elsewhere, for a guest.
    External {
        reference: Option<String>,
        first_name: String,
        last_name: String,
        email: Option<String>,
        phone: Option<String>,
        note: Option<String>,
    },
    /// A card, by the token that the provider gave the browser.
    Card { token: String, provider: String, save_payment_method: bool, set_default: bool },
    /// The provider's own way, with nothing from the buyer.
    Provider { provider: String },
    /// A payment method kept earlier: that of the provider named, or the user's default.
    PaymentMethod { provider: Option<String> },
    /// Nothing to pay: only for carts that add up to zero.
    Free,
}

#[allow(inconsistent_fields)]
pub enum PaymentRequestView {
    External {
        reference: Option<Seq<char>>,
        first_name: Seq<char>,
        last_name: Seq<char>,
        email: Option<Seq<char>>,
        phone: Option<Seq<char>>,
        note: Option<Seq<char>>,
    },
    Card { token: Seq<char>, provider: Seq<char>, save_payment_method: bool, set_default: bool },
    Provider { provider: Seq<char> },
    PaymentMethod { provider: Option<Seq<char>> },
    Free,
}

impl View for PaymentRequest {
    type V = PaymentRequestView;

    open spec fn view(&self) -> PaymentRequestView {
        match self {
            PaymentRequest::External { reference, first_name, last_name, email, phone, note } =>
                PaymentRequestView::External {
                reference: opt_text(*reference),
                first_name: first_name@,
                last_name: last_name@,
                email: opt_text(*email),
                phone: opt_text(*phone),
                note: opt_text(*note),
            },
            PaymentRequest::Card { token, provider, save_payment_method, set_default } =>
                PaymentRequestView::Card {
                token: token@,
                provider: provider@,
                save_payment_method: *save_payment_method,
                set_default: *set_default,
            },
            PaymentRequest::Provider { provider } => PaymentRequestView::Provider { provider: provider@ },
            PaymentRequest::PaymentMethod { provider } => PaymentRequestView::PaymentMethod {
                provider: opt_text(*provider),
            },
            PaymentRequest::Free => PaymentRequestView::Free,
        }
    }
}

/// The body of a checkout request.
#[derive(Debug)]
pub struct CheckoutCartRequest {
    pub method: PaymentRequest,
}

/// What the caller of a checkout has to do next.
#[derive(Debug)]
pub enum Action {
    /// Ask the provider to put a new card behind a token that it keeps for repeat charges.
    UpdateRepeatToken { stored_token: String, new_token: String, label: String },
    /// Ask the provider for a token for repeat charges.
    CreateRepeatToken { token: String, label: String },
    /// Ask the provider to hold the amount.
    Authorize { token: String, amount: i64, currency: String, description: String, metadata: Vec<(String, String)> },
    /// Make what the store holds durable, and open a new transaction.
    Commit,
    /// Ask the provider to capture the amount that it holds.
    Capture { auth_id: String },
    /// Ask the provider to give the amount back.
    Refund { auth_id: String },
    /// Ask the provider for a payment page.
    RequestPayment {
        amount_in_cents: i64,
        email: String,
        order_id: Id,
        ipn_url: Option<String>,
        success_url: Option<String>,
        cancel_url: Option<String>,
    },
    /// Move the tokens of one asset to the buyer's wallet.
    Transfer {
        sender_secret_key: String,
        sender_public_key: String,
        asset_id: String,
        token_ids: Vec<u64>,
        recipient_public_key: String,
    },
    /// Tell the buyer that the purchase went through.
    Notify { first_name: String, email: String, order_id: Id },
}

pub enum ActionView {
    UpdateRepeatToken { stored_token: Seq<char>, new_token: Seq<char>, label: Seq<char> },
    CreateRepeatToken { token: Seq<char>, label: Seq<char> },
    Authorize {
        token: Seq<char>,
        amount: i64,
        currency: Seq<char>,
        description: Seq<char>,
        metadata: Seq<(Seq<char>, Seq<char>)>,
    },
    Commit,
    Capture { auth_id: Seq<char> },
    Refund { auth_id: Seq<char> },
    RequestPayment {
        amount_in_cents: i64,
        email: Seq<char>,
        order_id: Id,
        ipn_url: Option<Seq<char>>,
        success_url: Option<Seq<char>>,
        cancel_url: Option<Seq<char>>,
    },
    Transfer {
        sender_secret_key: Seq<char>,
        sender_public_key: Seq<char>,
        asset_id: Seq<char>,
        token_ids: Seq<u64>,
        recipient_public_key: Seq<char>,
    },
    Notify { first_name: Seq<char>, email: Seq<char>, order_id: Id },
}

pub open spec fn pair_text(p: (String, String)) -> (Seq<char>, Seq<char>) {
    (p.0@, p.1@)
}

impl View for Action {
    type V = ActionView;

    open spec fn view(&self) -> ActionView {
        match self {
            Action::UpdateRepeatToken { stored_token, new_token, label } => ActionView::UpdateRepeatToken {
                stored_token: stored_token@,
                new_token: new_token@,
                label: label@,
            },
            Action::CreateRepeatToken { token, label } => ActionView::CreateRepeatToken {
                token: token@,
                label: label@,
            },
            Action::Authorize { token, amount, currency, description, metadata } => ActionView::Authorize {
                token: token@,
                amount: *amount,
                currency: currency@,
                description: description@,
                metadata: metadata@.map_values(|p: (String, String)| pair_text(p)),
            },
            Action::Commit => ActionView::Commit,
            Action::Capture { auth_id } => ActionView::Capture { auth_id: auth_id@ },
            Action::Refund { auth_id } => ActionView::Refund { auth_id: auth_id@ },
            Action::RequestPayment { amount_in_cents, email, order_id, ipn_url, success_url, cancel_url } =>
                ActionView::RequestPayment {
                amount_in_cents: *amount_in_cents,
                email: email@,
                order_id: *order_id,
                ipn_url: opt_text(*ipn_url),
                success_url: opt_text(*success_url),
                cancel_url: opt_text(*cancel_url),
            },
            Action::Transfer {
                sender_secret_key,
                sender_public_key,
                asset_id,
                token_ids,
                recipient_public_key,
            } => ActionView::Transfer {
                sender_secret_key: sender_secret_key@,
                sender_public_key: sender_public_key@,
                asset_id: asset_id@,
                token_ids: token_ids@,
                recipient_public_key: recipient_public_key@,
            },
            Action::Notify { first_name, email, order_id } => ActionView::Notify {
                first_name: first_name@,
                email: email@,
                order_id: *order_id,
            },
        }
    }
}

/// What came of the action that a step asked for.
#[derive(Debug)]
pub enum Reply {
    /// The action failed.
    Failed(ProviderError),
    /// The provider keeps a token for repeat charges.
    RepeatToken { token: String, raw: String },
    /// The provider holds the amount.
    Authorized { id: String, raw: String },
    /// The store is durable.
    Committed,
    /// The provider captured the amount.
    Captured { raw: String },
    /// The provider gave the amount back.
    Refunded,
    /// The provider made a payment page.
    PaymentRequested { id: String, redirect_url: String, expires_at: i64, raw: String },
    /// The ledger moved the tokens.
    Transferred,
    /// The message was sent, or was not: the checkout does not depend on it.
    Notified,
}

pub enum ReplyView {
    Failed(ProviderError),
    RepeatToken { token: Seq<char>, raw: Seq<char> },
    Authorized { id: Seq<char>, raw: Seq<char> },
    Committed,
    Captured { raw: Seq<char> },
    Refunded,
    PaymentRequested { id: Seq<char>, redirect_url: Seq<char>, expires_at: i64, raw: Seq<char> },
    Transferred,
    Notified,
}

impl View for Reply {
    type V = ReplyView;

    open spec fn view(&self) -> ReplyView {
        match self {
            Reply::Failed(e) => ReplyView::Failed(*e),
            Reply::RepeatToken { token, raw } => ReplyView::RepeatToken { token: token@, raw: raw@ },
            Reply::Authorized { id, raw } => ReplyView::Authorized { id: id@, raw: raw@ },
            Reply::Committed => ReplyView::Committed,
            Reply::Captured { raw } => ReplyView::Captured { raw: raw@ },
            Reply::Refunded => ReplyView::Refunded,
            Reply::PaymentRequested { id, redirect_url, expires_at, raw } => ReplyView::PaymentRequested {
                id: id@,
                redirect_url: redirect_url@,
                expires_at: *expires_at,
                raw: raw@,
            },
            Reply::Transferred => ReplyView::Transferred,
            Reply::Notified => ReplyView::Notified,
        }
    }
}

/// The action whose outcome a checkout waits for.
#[derive(Clone, Copy, Debug, PartialEq, Eq, Structural)]
pub enum Stage {
    RepeatToken,
    Authorize,
    Commit,
    Capture,
    Refund,
    PaymentRequest,
    Transfer,
    Notify,
    /// The checkout is over.
    Done,
}

/// The state of a checkout between two steps.
#[derive(Debug)]
pub struct Saga {
    pub stage: Stage,
    pub order_id: Id,
    /// The user who checks out.
    pub user_id: Id,
    /// The version of the order that this checkout last wrote or read.
    pub version: u64,
    /// The name of the payment provider.
    pub provider: String,
    /// Whether a payment method made on the way becomes the user's default.
    pub set_default: bool,
    /// The amount that the provider was asked for.
    pub amount: i64,
    /// The payment that records the authorization.
    pub payment_id: Id,
    /// The provider's name for the authorization.
    pub auth_id: String,
    /// The secret that a hosted payment page hands back.
    pub nonce: String,
    /// The tokens to hand over, as they were held for the order when the checkout began.
    pub transfers: Vec<AssetTokens>,
    /// The place in `transfers` of the transfer that is under way.
    pub next_transfer: usize,
    /// What the checkout reports once the refund is through.
    pub failure: CheckoutError,
}

pub struct SagaView {
    pub stage: Stage,
    pub order_id: Id,
    pub user_id: Id,
    pub version: u64,
    pub provider: Seq<char>,
    pub set_default: bool,
    pub amount: i64,
    pub payment_id: Id,
    pub auth_id: Seq<char>,
    pub nonce: Seq<char>,
    pub transfers: Seq<AssetTokensView>,
    pub next_transfer: usize,
    pub failure: CheckoutError,
}

impl View for Saga {
    type V = SagaView;

    open spec fn view(&self) -> SagaView {
        SagaView {
            stage: self.stage,
            order_id: self.order_id,
            user_id: self.user_id,
            version: self.version,
            provider: self.provider@,
            set_default: self.set_default,
            amount: self.amount,
            payment_id: self.payment_id,
            auth_id: self.auth_id@,
            nonce: self.nonce@,
            transfers: self.transfers@.map_values(|g: AssetTokens| g@),
            next_transfer: self.next_transfer,
            failure: self.failure,
        }
    }
}

/// How a step ends.
#[derive(Debug)]
pub enum Next {
    /// The caller performs the action and resumes the checkout with its outcome.
    Perform(Action),
    /// The checkout is over, with the order as it is now, or with what went wrong.
    Done(Result<DisplayOrder, CheckoutError>),
}

pub enum NextView {
    Perform(ActionView),
    Done(Result<DisplayOrderView, CheckoutError>),
}

impl View for Next {
    type V = NextView;

    open spec fn view(&self) -> NextView {
        match self {
            Next::Perform(a) => NextView::Perform(a@),
            Next::Done(Ok(d)) => NextView::Done(Ok(d@)),
            Next::Done(Err(e)) => NextView::Done(Err(*e)),
        }
    }
}

/// A step of a checkout: the state to resume from, and how the step ended.
#[derive(Debug)]
pub struct Step {
    pub saga: Saga,
    pub next: Next,
}

pub struct StepView {
    pub saga: SagaView,
    pub next: NextView,
}

impl View for Step {
    type V = StepView;

    open spec fn view(&self) -> StepView {
        StepView { saga: self.saga@, next: self.next@ }
    }
}

/// The store and the step that a step of a checkout leaves.
pub struct Outcome {
    pub store: StoreView,
    pub step: StepView,
}

} // verus!
