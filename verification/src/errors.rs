//! The failures of cart and checkout operations, and how they are reported.

use vstd::prelude::*;
use vstd::string::StringExecFns;

verus! {

/// How a payment provider call failed. A timeout counts as a transport
/// failure: nothing is known of what happened on the provider's side.
#[derive(Clone, Copy, Debug, PartialEq, Eq, Structural)]
pub enum ProviderError {
    /// The provider could not be reached, or did not answer in time.
    Transport,
    /// The provider answered and refused, with its status code.
    Rejected(u16),
}

/// The classes of failure that callers tell apart.
#[derive(Clone, Copy, Debug, PartialEq, Eq, Structural)]
pub enum ErrorKind {
    ValidationError,
    Forbidden,
    NotFound,
    UnprocessableEntity,
    InvalidState,
    ConcurrencyConflict,
    ProcessorUnavailable,
    ConfigurationError,
    InternalError,
}

/// Every way in which a cart or checkout operation fails.
#[derive(Clone, Copy, Debug, PartialEq, Eq, Structural)]
pub enum CheckoutError {
    /// A cart line names a ticket type that does not exist.
    UnknownTicketType,
    /// A cart line names a ticket type of an event that is not published.
    EventNotPublished,
    /// The order belongs to another user.
    NotOwner,
    /// The caller lacks a capability on an organization that the cart touches.
    MissingScope,
    /// No order, or no payment, answers to the identifier given.
    NotFound,
    /// The user has no cart.
    NoCart,
    /// The cart holds lines that can no longer be bought.
    InvalidItems,
    /// The free path was asked for a cart whose total is not zero.
    TotalNotZero,
    /// No provider was named and the user has no default payment method.
    NoDefaultPaymentMethod,
    /// The user has no stored payment method with the provider named.
    NoStoredPaymentMethod,
    /// The provider authorizes cards and no card token was given.
    NoToken,
    /// A hosted payment page needs an email address to send the buyer to.
    NoEmail,
    /// A hosted payment page needs an event to return the buyer to.
    NoEvent,
    /// The order is not a draft.
    NotDraft,
    /// The order changed since the caller read it.
    Conflict,
    /// The payment provider failed.
    Provider(ProviderError),
    /// The refund that should have undone an authorization failed.
    RefundFailed(ProviderError),
    /// No processor is registered under the provider name.
    UnknownProvider,
    /// A ticket's asset has no identifier on the ledger.
    AssetNotOnLedger,
    /// A wallet that a transfer needs is missing.
    WalletNotFound,
    /// The ledger refused a transfer after the payment went through.
    TransferFailed,
    /// The total of the order does not fit the amount type.
    TotalOverflow,
    /// The checkout is over: there is nothing to resume.
    NotPending,
}

impl CheckoutError {
    /// The class of this failure.
    pub open spec fn spec_kind(self) -> ErrorKind {
        match self {
            CheckoutError::UnknownTicketType | CheckoutError::EventNotPublished => ErrorKind::ValidationError,
            CheckoutError::NotOwner | CheckoutError::MissingScope => ErrorKind::Forbidden,
            CheckoutError::NotFound => ErrorKind::NotFound,
            CheckoutError::NoCart
            | CheckoutError::InvalidItems
            | CheckoutError::TotalNotZero
            | CheckoutError::NoDefaultPaymentMethod
            | CheckoutError::NoStoredPaymentMethod
            | CheckoutError::NoToken
            | CheckoutError::NoEmail
            | CheckoutError::NoEvent => ErrorKind::UnprocessableEntity,
            CheckoutError::NotDraft | CheckoutError::NotPending => ErrorKind::InvalidState,
            CheckoutError::Conflict => ErrorKind::ConcurrencyConflict,
            CheckoutError::Provider(_) | CheckoutError::RefundFailed(_) => ErrorKind::ProcessorUnavailable,
            CheckoutError::UnknownProvider => ErrorKind::ConfigurationError,
            CheckoutError::AssetNotOnLedger
            | CheckoutError::WalletNotFound
            | CheckoutError::TransferFailed
            | CheckoutError::TotalOverflow => ErrorKind::InternalError,
        }
    }

    /// The class of this failure.
    #[verifier::when_used_as_spec(spec_kind)]
    pub fn kind(self) -> (k: ErrorKind)
        ensures
            k == self.spec_kind(),
    {
        match self {
            CheckoutError::UnknownTicketType | CheckoutError::EventNotPublished => ErrorKind::ValidationError,
            CheckoutError::NotOwner | CheckoutError::MissingScope => ErrorKind::Forbidden,
            CheckoutError::NotFound => ErrorKind::NotFound,
            CheckoutError::NoCart
            | CheckoutError::InvalidItems
            | CheckoutError::TotalNotZero
            | CheckoutError::NoDefaultPaymentMethod
            | CheckoutError::NoStoredPaymentMethod
            | CheckoutError::NoToken
            | CheckoutError::NoEmail
            | CheckoutError::NoEvent => ErrorKind::UnprocessableEntity,
            CheckoutError::NotDraft | CheckoutError::NotPending => ErrorKind::InvalidState,
            CheckoutError::Conflict => ErrorKind::ConcurrencyConflict,
            CheckoutError::Provider(_) | CheckoutError::RefundFailed(_) => ErrorKind::ProcessorUnavailable,
            CheckoutError::UnknownProvider => ErrorKind::ConfigurationError,
            CheckoutError::AssetNotOnLedger
            | CheckoutError::WalletNotFound
            | CheckoutError::TransferFailed
            | CheckoutError::TotalOverflow => ErrorKind::InternalError,
        }
    }

    /// The status class of the response: 400 for what the caller can correct,
    /// 409 for conflicts of state, 500 for failures of a processor or of the platform.
    pub open spec fn spec_status_class(self) -> u16 {
        match self.spec_kind() {
            ErrorKind::ValidationError
            | ErrorKind::Forbidden
            | ErrorKind::NotFound
            | ErrorKind::UnprocessableEntity => 400,
            ErrorKind::InvalidState | ErrorKind::ConcurrencyConflict => 409,
            ErrorKind::ProcessorUnavailable
            | ErrorKind::ConfigurationError
            | ErrorKind::InternalError => 500,
        }
    }

    /// The status class of the response.
    #[verifier::when_used_as_spec(spec_status_class)]
    pub fn status_class(self) -> (class: u16)
        ensures
            class == self.spec_status_class(),
    {
        match self.kind() {
            ErrorKind::ValidationError
            | ErrorKind::Forbidden
            | ErrorKind::NotFound
            | ErrorKind::UnprocessableEntity => 400,
            ErrorKind::InvalidState | ErrorKind::ConcurrencyConflict => 409,
            ErrorKind::ProcessorUnavailable
            | ErrorKind::ConfigurationError
            | ErrorKind::InternalError => 500,
        }
    }

    /// The text shown to the user.
    pub open spec fn spec_message(self) -> Seq<char> {
        match self {
            CheckoutError::UnknownTicketType => "Ticket type does not exist."@,
            CheckoutError::EventNotPublished => "Event has not been published."@,
            CheckoutError::NotOwner => "This cart does not belong to you"@,
            CheckoutError::MissingScope => "User does not have the required permissions"@,
            CheckoutError::NotFound => "Not found"@,
            CheckoutError::NoCart => "No cart exists for user"@,
            CheckoutError::InvalidItems =>
                "Could not complete this checkout because it contains invalid order items"@,
            CheckoutError::TotalNotZero =>
                "Could not use free payment method this cart because it has a total greater than zero"@,
            CheckoutError::NoDefaultPaymentMethod =>
                "Could not complete this cart because user has no default payment method"@,
            CheckoutError::NoStoredPaymentMethod =>
                "Could not complete this cart because stored provider does not exist"@,
            CheckoutError::NoToken => "Could not complete this cart because no token provided"@,
            CheckoutError::NoEmail => "User must have an email to check out"@,
            CheckoutError::NoEvent => "Could not complete this cart because it holds no event"@,
            CheckoutError::NotDraft =>
                "Could not complete this cart because it is not in the correct status"@,
            CheckoutError::Conflict => "Could not lock order, another process is busy with it"@,
            CheckoutError::Provider(_) => "The payment provider could not process the request"@,
            CheckoutError::RefundFailed(_) => "The payment could not be refunded"@,
            CheckoutError::UnknownProvider => "The payment provider is not configured"@,
            CheckoutError::AssetNotOnLedger =>
                "Could not complete this checkout because the asset has not been assigned on the blockchain"@,
            CheckoutError::WalletNotFound =>
                "Could not complete this checkout because wallet id not found for asset"@,
            CheckoutError::TransferFailed => "Could not transfer the tickets on the blockchain"@,
            CheckoutError::TotalOverflow => "The total of the order is out of range"@,
            CheckoutError::NotPending => "This checkout is over"@,
        }
    }

    /// The text shown to the user.
    pub fn message(self) -> (text: String)
        ensures
            text@ == self.spec_message(),
    {
        match self {
            CheckoutError::UnknownTicketType => String::from_str("Ticket type does not exist."),
            CheckoutError::EventNotPublished => String::from_str("Event has not been published."),
            CheckoutError::NotOwner => String::from_str("This cart does not belong to you"),
            CheckoutError::MissingScope => String::from_str("User does not have the required permissions"),
            CheckoutError::NotFound => String::from_str("Not found"),
            CheckoutError::NoCart => String::from_str("No cart exists for user"),
            CheckoutError::InvalidItems => String::from_str(
                "Could not complete this checkout because it contains invalid order items",
            ),
            CheckoutError::TotalNotZero => String::from_str(
                "Could not use free payment method this cart because it has a total greater than zero",
            ),
            CheckoutError::NoDefaultPaymentMethod => String::from_str(
                "Could not complete this cart because user has no default payment method",
            ),
            CheckoutError::NoStoredPaymentMethod => String::from_str(
                "Could not complete this cart because stored provider does not exist",
            ),
            CheckoutError::NoToken => String::from_str(
                "Could not complete this cart because no token provided",
            ),
            CheckoutError::NoEmail => String::from_str("User must have an email to check out"),
            CheckoutError::NoEvent => String::from_str(
                "Could not complete this cart because it holds no event",
            ),
            CheckoutError::NotDraft => String::from_str(
                "Could not complete this cart because it is not in the correct status",
            ),
            CheckoutError::Conflict => String::from_str(
                "Could not lock order, another process is busy with it",
            ),
            CheckoutError::Provider(_) => String::from_str(
                "The payment provider could not process the request",
            ),
            CheckoutError::RefundFailed(_) => String::from_str("The payment could not be refunded"),
            CheckoutError::UnknownProvider => String::from_str("The payment provider is not configured"),
            CheckoutError::AssetNotOnLedger => String::from_str(
                "Could not complete this checkout because the asset has not been assigned on the blockchain",
            ),
            CheckoutError::WalletNotFound => String::from_str(
                "Could not complete this checkout because wallet id not found for asset",
            ),
            CheckoutError::TransferFailed => String::from_str(
                "Could not transfer the tickets on the blockchain",
            ),
            CheckoutError::TotalOverflow => String::from_str("The total of the order is out of range"),
            CheckoutError::NotPending => String::from_str("This checkout is over"),
        }
    }
}

} // verus!
