use signed_connectors::domain::{AttemptStatus, RefundStatus};
use signed_connectors::errors::{ConnectorError, ErrorCategory};
use signed_connectors::monei::transformers::{MoneiPaymentStatus, MoneiRefundStatus};
use signed_connectors::nordea::responses::{
    NordeaPaymentStatus, NordeaSwaggerPaymentStatus, RefundStatus as NordeaRefundStatus,
};

#[test]
fn pending_user_approval_is_authentication_pending() {
    let status = AttemptStatus::from(NordeaSwaggerPaymentStatus::PendingUserApproval);
    assert_eq!(status, AttemptStatus::AuthenticationPending);
    assert_ne!(status, AttemptStatus::Pending);
}

#[test]
fn every_nordea_payment_status_has_one_attempt_status() {
    let table = [
        (NordeaSwaggerPaymentStatus::PendingConfirmation, AttemptStatus::AuthenticationPending),
        (
            NordeaSwaggerPaymentStatus::PendingSecondConfirmation,
            AttemptStatus::AuthenticationPending,
        ),
        (NordeaSwaggerPaymentStatus::PendingUserApproval, AttemptStatus::AuthenticationPending),
        (NordeaSwaggerPaymentStatus::OnHold, AttemptStatus::Pending),
        (NordeaSwaggerPaymentStatus::Confirmed, AttemptStatus::Charged),
        (NordeaSwaggerPaymentStatus::Rejected, AttemptStatus::Failure),
        (NordeaSwaggerPaymentStatus::Paid, AttemptStatus::Charged),
        (NordeaSwaggerPaymentStatus::InsufficientFunds, AttemptStatus::Failure),
        (NordeaSwaggerPaymentStatus::LimitExceeded, AttemptStatus::Failure),
        (NordeaSwaggerPaymentStatus::UserApprovalFailed, AttemptStatus::Failure),
        (NordeaSwaggerPaymentStatus::UserApprovalTimeout, AttemptStatus::Failure),
        (NordeaSwaggerPaymentStatus::UserApprovalCancelled, AttemptStatus::Failure),
        (NordeaSwaggerPaymentStatus::Unknown, AttemptStatus::Pending),
    ];
    assert_eq!(table.len(), 13);
    for (status, expected) in table {
        assert_eq!(AttemptStatus::from(status), expected, "{:?}", status);
        assert_eq!(AttemptStatus::from(status), AttemptStatus::from(status));
    }
}

#[test]
fn every_coarse_nordea_status_has_one_attempt_status() {
    assert_eq!(AttemptStatus::from(NordeaPaymentStatus::Succeeded), AttemptStatus::Charged);
    assert_eq!(AttemptStatus::from(NordeaPaymentStatus::Failed), AttemptStatus::Failure);
    assert_eq!(AttemptStatus::from(NordeaPaymentStatus::Processing), AttemptStatus::Authorizing);
    assert_eq!(NordeaPaymentStatus::default(), NordeaPaymentStatus::Processing);
}

#[test]
fn every_nordea_refund_status_has_one_refund_status() {
    assert_eq!(RefundStatus::from(NordeaRefundStatus::Succeeded), RefundStatus::Success);
    assert_eq!(RefundStatus::from(NordeaRefundStatus::Failed), RefundStatus::Failure);
    assert_eq!(RefundStatus::from(NordeaRefundStatus::Processing), RefundStatus::Pending);
    assert_eq!(NordeaRefundStatus::default(), NordeaRefundStatus::Processing);
}

#[test]
fn every_monei_payment_status_has_one_attempt_status() {
    let table = [
        (MoneiPaymentStatus::SUCCEEDED, AttemptStatus::Charged),
        (MoneiPaymentStatus::AUTHORIZED, AttemptStatus::Authorized),
        (MoneiPaymentStatus::FAILED, AttemptStatus::Failure),
        (MoneiPaymentStatus::PENDING, AttemptStatus::Pending),
        (MoneiPaymentStatus::CANCELED, AttemptStatus::Voided),
        (MoneiPaymentStatus::REFUNDED, AttemptStatus::Charged),
        (MoneiPaymentStatus::PartiallyRefunded, AttemptStatus::Charged),
        (MoneiPaymentStatus::EXPIRED, AttemptStatus::AuthorizationFailed),
    ];
    for (status, expected) in table {
        assert_eq!(AttemptStatus::from(status), expected, "{:?}", status);
    }
    assert_eq!(MoneiPaymentStatus::default(), MoneiPaymentStatus::PENDING);
}

#[test]
fn refunded_payments_stay_charged() {
    assert_eq!(
        AttemptStatus::from(MoneiPaymentStatus::REFUNDED),
        AttemptStatus::from(MoneiPaymentStatus::PartiallyRefunded)
    );
    assert_eq!(AttemptStatus::from(MoneiPaymentStatus::REFUNDED), AttemptStatus::Charged);
}

#[test]
fn every_monei_refund_status_has_one_refund_status() {
    assert_eq!(RefundStatus::from(MoneiRefundStatus::PENDING), RefundStatus::Pending);
    assert_eq!(RefundStatus::from(MoneiRefundStatus::SUCCEEDED), RefundStatus::Success);
    assert_eq!(RefundStatus::from(MoneiRefundStatus::FAILED), RefundStatus::Failure);
    assert_eq!(RefundStatus::from(MoneiRefundStatus::CANCELED), RefundStatus::Failure);
    assert_eq!(MoneiRefundStatus::default(), MoneiRefundStatus::PENDING);
}

#[test]
fn every_failure_has_a_category() {
    let table = [
        (ConnectorError::MissingAccessToken, ErrorCategory::Auth),
        (ConnectorError::FailedToObtainAuthType, ErrorCategory::Auth),
        (ConnectorError::MalformedBaseUrl, ErrorCategory::Config),
        (ConnectorError::InvalidKeyMaterial, ErrorCategory::Config),
        (ConnectorError::InvalidConnectorConfig { config: "x" }, ErrorCategory::Config),
        (ConnectorError::RequestEncodingFailed, ErrorCategory::Encoding),
        (ConnectorError::MissingRequiredField { field_name: "x" }, ErrorCategory::Encoding),
        (ConnectorError::MissingConnectorTransactionID, ErrorCategory::Encoding),
        (
            ConnectorError::UnsupportedPaymentMethod("Card".to_string()),
            ErrorCategory::UnsupportedOperation,
        ),
        (ConnectorError::NotImplemented("x".to_string()), ErrorCategory::UnsupportedOperation),
        (ConnectorError::UnsupportedCurrency, ErrorCategory::UnsupportedOperation),
        (ConnectorError::AmountConversionFailed, ErrorCategory::Encoding),
        (ConnectorError::CaptureMethodNotSupported, ErrorCategory::UnsupportedOperation),
        (ConnectorError::ResponseDeserializationFailed, ErrorCategory::Decoding),
        (ConnectorError::ResponseHandlingFailed, ErrorCategory::Decoding),
        (ConnectorError::WebhooksNotImplemented, ErrorCategory::UnsupportedOperation),
    ];
    for (error, expected) in table {
        assert_eq!(error.category(), expected, "{:?}", error);
    }
}

#[test]
fn failures_render_with_their_context() {
    assert_eq!(ConnectorError::ResponseHandlingFailed.message(), "response handling failed");
    assert_eq!(
        ConnectorError::ResponseDeserializationFailed.message(),
        "response handling failed"
    );
    assert_eq!(ConnectorError::MissingAccessToken.message(), "authentication failed");
    assert_eq!(
        ConnectorError::InvalidConnectorConfig { config: "account_type" }.message(),
        "invalid connector configuration: account_type"
    );
    assert_eq!(
        ConnectorError::MissingRequiredField { field_name: "currency" }.message(),
        "request encoding failed: currency"
    );
    assert_eq!(
        ConnectorError::UnsupportedPaymentMethod("Wallet".to_string()).message(),
        "operation not supported: Wallet"
    );
    assert_eq!(
        ConnectorError::NotImplemented(String::new()).message(),
        "operation not supported"
    );
    assert_eq!(ConnectorError::MalformedBaseUrl.context(), "");
    assert_eq!(ErrorCategory::Decoding.description(), "response handling failed");
    assert_eq!(ErrorCategory::Config.description(), "invalid connector configuration");
    assert_eq!(ErrorCategory::Encoding.description(), "request encoding failed");
    assert_eq!(ErrorCategory::UnsupportedOperation.description(), "operation not supported");
    assert_eq!(ErrorCategory::Auth.description(), "authentication failed");
}
