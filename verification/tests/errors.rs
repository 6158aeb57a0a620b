use bigneon::errors::{CheckoutError, ErrorKind, ProviderError};

fn every_error() -> Vec<CheckoutError> {
    vec![
        CheckoutError::UnknownTicketType,
        CheckoutError::EventNotPublished,
        CheckoutError::NotOwner,
        CheckoutError::MissingScope,
        CheckoutError::NotFound,
        CheckoutError::NoCart,
        CheckoutError::InvalidItems,
        CheckoutError::TotalNotZero,
        CheckoutError::NoDefaultPaymentMethod,
        CheckoutError::NoStoredPaymentMethod,
        CheckoutError::NoToken,
        CheckoutError::NoEmail,
        CheckoutError::NoEvent,
        CheckoutError::NotDraft,
        CheckoutError::Conflict,
        CheckoutError::Provider(ProviderError::Transport),
        CheckoutError::RefundFailed(ProviderError::Rejected(402)),
        CheckoutError::UnknownProvider,
        CheckoutError::AssetNotOnLedger,
        CheckoutError::WalletNotFound,
        CheckoutError::TransferFailed,
        CheckoutError::TotalOverflow,
        CheckoutError::NotPending,
    ]
}

#[test]
fn status_class_follows_the_kind() {
    for e in every_error() {
        let expected = match e.kind() {
            ErrorKind::ValidationError
            | ErrorKind::Forbidden
            | ErrorKind::NotFound
            | ErrorKind::UnprocessableEntity => 400,
            ErrorKind::InvalidState | ErrorKind::ConcurrencyConflict => 409,
            ErrorKind::ProcessorUnavailable | ErrorKind::ConfigurationError | ErrorKind::InternalError => 500,
        };
        assert_eq!(e.status_class(), expected, "{:?}", e);
    }
}

#[test]
fn kinds_of_the_errors() {
    assert_eq!(CheckoutError::EventNotPublished.kind(), ErrorKind::ValidationError);
    assert_eq!(CheckoutError::NotOwner.kind(), ErrorKind::Forbidden);
    assert_eq!(CheckoutError::NotFound.kind(), ErrorKind::NotFound);
    assert_eq!(CheckoutError::InvalidItems.kind(), ErrorKind::UnprocessableEntity);
    assert_eq!(CheckoutError::NotDraft.kind(), ErrorKind::InvalidState);
    assert_eq!(CheckoutError::NotPending.kind(), ErrorKind::InvalidState);
    assert_eq!(CheckoutError::Conflict.kind(), ErrorKind::ConcurrencyConflict);
    assert_eq!(CheckoutError::Provider(ProviderError::Rejected(500)).kind(), ErrorKind::ProcessorUnavailable);
    assert_eq!(CheckoutError::RefundFailed(ProviderError::Transport).kind(), ErrorKind::ProcessorUnavailable);
    assert_eq!(CheckoutError::UnknownProvider.kind(), ErrorKind::ConfigurationError);
    assert_eq!(CheckoutError::AssetNotOnLedger.kind(), ErrorKind::InternalError);
    assert_eq!(CheckoutError::TransferFailed.kind(), ErrorKind::InternalError);
    assert_eq!(CheckoutError::NotDraft.status_class(), 409);
    assert_eq!(CheckoutError::Conflict.status_class(), 409);
    assert_eq!(CheckoutError::MissingScope.status_class(), 400);
    assert_eq!(CheckoutError::TransferFailed.status_class(), 500);
}

#[test]
fn every_error_has_a_message() {
    for e in every_error() {
        assert!(!e.message().is_empty(), "{:?}", e);
    }
    assert_eq!(CheckoutError::NoCart.message(), "No cart exists for user");
    assert_eq!(CheckoutError::NotOwner.message(), "This cart does not belong to you");
    assert_eq!(CheckoutError::EventNotPublished.message(), "Event has not been published.");
    assert_eq!(CheckoutError::NoEmail.message(), "User must have an email to check out");
    assert_eq!(
        CheckoutError::NotDraft.message(),
        "Could not complete this cart because it is not in the correct status"
    );
    assert_eq!(
        CheckoutError::AssetNotOnLedger.message(),
        "Could not complete this checkout because the asset has not been assigned on the blockchain"
    );
}
