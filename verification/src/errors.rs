//! Failure causes of the connector layer and the shared error envelope.

use vstd::prelude::*;
use vstd::string::*;

verus! {

/// Code reported when a connector's error body names none.
pub const NO_ERROR_CODE: &'static str = "No error code";

/// Message reported when a connector's error body carries none.
pub const NO_ERROR_MESSAGE: &'static str = "No error message";

/// The five families into which every failure of this layer falls.
#[derive(Clone, Copy, Debug, PartialEq, Eq, Structural)]
pub enum ErrorCategory {
    /// Configuration that cannot be used: base URL, key material, metadata.
    Config,
    /// A digest, a signature or a request body could not be produced.
    Encoding,
    /// The connector does not implement the payment method or the flow.
    UnsupportedOperation,
    /// The connector's answer does not have the expected shape.
    Decoding,
    /// An access token or a credential is missing.
    Auth,
}

impl ErrorCategory {
    /// What a user is told of a failure of this family.
    pub open spec fn spec_description(self) -> Seq<char> {
        match self {
            ErrorCategory::Config => "invalid connector configuration"@,
            ErrorCategory::Encoding => "request encoding failed"@,
            ErrorCategory::UnsupportedOperation => "operation not supported"@,
            ErrorCategory::Decoding => "response handling failed"@,
            ErrorCategory::Auth => "authentication failed"@,
        }
    }

    /// Returns what a user is told of a failure of this family.
    pub fn description(self) -> (result: &'static str)
        ensures
            result@ == self.spec_description(),
    {
        match self {
            ErrorCategory::Config => "invalid connector configuration",
            ErrorCategory::Encoding => "request encoding failed",
            ErrorCategory::UnsupportedOperation => "operation not supported",
            ErrorCategory::Decoding => "response handling failed",
            ErrorCategory::Auth => "authentication failed",
        }
    }
}

/// One failure of the connector layer, with the context needed to report it.
#[derive(Clone, Debug, PartialEq, Eq)]
pub enum ConnectorError {
    /// No access token was supplied for a call that needs one.
    MissingAccessToken,
    /// The credential bundle does not have the shape the connector expects.
    FailedToObtainAuthType,
    /// The configured base URL cannot be parsed or names no host.
    MalformedBaseUrl,
    /// The private key is not valid PEM, or its contents are not a usable key.
    InvalidKeyMaterial,
    /// A configuration entry, named by `config`, cannot be used.
    InvalidConnectorConfig { config: &'static str },
    /// The request could not be encoded or signed.
    RequestEncodingFailed,
    /// A field that the flow requires, named by `field_name`, is absent.
    MissingRequiredField { field_name: &'static str },
    /// The connector's transaction identifier is absent.
    MissingConnectorTransactionID,
    /// The payment method, named by the payload, is not supported.
    UnsupportedPaymentMethod(String),
    /// The operation, described by the payload, is not implemented.
    NotImplemented(String),
    /// The amount cannot be expressed for the currency in the connector's unit.
    UnsupportedCurrency,
    /// The amount could not be converted to or from the connector's unit.
    AmountConversionFailed,
    /// The way of capturing that the payment asks for is not supported.
    CaptureMethodNotSupported,
    /// The response body does not match the expected schema.
    ResponseDeserializationFailed,
    /// The response lacks a part without which it cannot be interpreted.
    ResponseHandlingFailed,
    /// Incoming webhooks are not implemented for the connector.
    WebhooksNotImplemented,
}

impl ConnectorError {
    /// The family of each failure cause.
    pub open spec fn spec_category(self) -> ErrorCategory {
        match self {
            ConnectorError::MissingAccessToken => ErrorCategory::Auth,
            ConnectorError::FailedToObtainAuthType => ErrorCategory::Auth,
            ConnectorError::MalformedBaseUrl => ErrorCategory::Config,
            ConnectorError::InvalidKeyMaterial => ErrorCategory::Config,
            ConnectorError::InvalidConnectorConfig { .. } => ErrorCategory::Config,
            ConnectorError::RequestEncodingFailed => ErrorCategory::Encoding,
            ConnectorError::MissingRequiredField { .. } => ErrorCategory::Encoding,
            ConnectorError::MissingConnectorTransactionID => ErrorCategory::Encoding,
            ConnectorError::UnsupportedPaymentMethod(_) => ErrorCategory::UnsupportedOperation,
            ConnectorError::NotImplemented(_) => ErrorCategory::UnsupportedOperation,
            ConnectorError::UnsupportedCurrency => ErrorCategory::UnsupportedOperation,
            ConnectorError::AmountConversionFailed => ErrorCategory::Encoding,
            ConnectorError::CaptureMethodNotSupported => ErrorCategory::UnsupportedOperation,
            ConnectorError::ResponseDeserializationFailed => ErrorCategory::Decoding,
            ConnectorError::ResponseHandlingFailed => ErrorCategory::Decoding,
            ConnectorError::WebhooksNotImplemented => ErrorCategory::UnsupportedOperation,
        }
    }

    /// The context that the failure carries: the configuration entry, the
    /// field, the payment method or the operation that it names; nothing for
    /// a failure that names none.
    pub open spec fn spec_context(self) -> Seq<char> {
        match self {
            ConnectorError::InvalidConnectorConfig { config } => config@,
            ConnectorError::MissingRequiredField { field_name } => field_name@,
            ConnectorError::UnsupportedPaymentMethod(name) => name@,
            ConnectorError::NotImplemented(what) => what@,
            _ => Seq::empty(),
        }
    }

    /// The message that renders the failure for a user: the description of
    /// its family, and its context behind a colon where it has one.
    pub open spec fn spec_message(self) -> Seq<char> {
        if self.spec_context().len() == 0 {
            self.spec_category().spec_description()
        } else {
            self.spec_category().spec_description() + ": "@ + self.spec_context()
        }
    }

    /// Returns the context that the failure carries.
    pub fn context(&self) -> (result: &str)
        ensures
            result@ == self.spec_context(),
    {
        proof {
            reveal_strlit("");
        }
        match self {
            ConnectorError::InvalidConnectorConfig { config } => config,
            ConnectorError::MissingRequiredField { field_name } => field_name,
            ConnectorError::UnsupportedPaymentMethod(name) => name.as_str(),
            ConnectorError::NotImplemented(what) => what.as_str(),
            _ => {
                assert(""@ =~= Seq::<char>::empty());
                ""
            },
        }
    }

    /// Returns the message that renders the failure for a user.
    pub fn message(&self) -> (result: String)
        ensures
            result@ == self.spec_message(),
    {
        let mut text = String::from_str(self.category().description());
        let context = self.context();
        if !context.is_empty() {
            text.append(": ");
            text.append(context);
        }
        text
    }

    /// Returns the family that this failure belongs to.
    pub fn category(&self) -> (result: ErrorCategory)
        ensures
            result == self.spec_category(),
    {
        match self {
            ConnectorError::MissingAccessToken => ErrorCategory::Auth,
            ConnectorError::FailedToObtainAuthType => ErrorCategory::Auth,
            ConnectorError::MalformedBaseUrl => ErrorCategory::Config,
            ConnectorError::InvalidKeyMaterial => ErrorCategory::Config,
            ConnectorError::InvalidConnectorConfig { .. } => ErrorCategory::Config,
            ConnectorError::RequestEncodingFailed => ErrorCategory::Encoding,
            ConnectorError::MissingRequiredField { .. } => ErrorCategory::Encoding,
            ConnectorError::MissingConnectorTransactionID => ErrorCategory::Encoding,
            ConnectorError::UnsupportedPaymentMethod(_) => ErrorCategory::UnsupportedOperation,
            ConnectorError::NotImplemented(_) => ErrorCategory::UnsupportedOperation,
            ConnectorError::UnsupportedCurrency => ErrorCategory::UnsupportedOperation,
            ConnectorError::AmountConversionFailed => ErrorCategory::Encoding,
            ConnectorError::CaptureMethodNotSupported => ErrorCategory::UnsupportedOperation,
            ConnectorError::ResponseDeserializationFailed => ErrorCategory::Decoding,
            ConnectorError::ResponseHandlingFailed => ErrorCategory::Decoding,
            ConnectorError::WebhooksNotImplemented => ErrorCategory::UnsupportedOperation,
        }
    }
}

/// The shared error envelope: what a failed call reports, whatever the
/// connector.
#[derive(Clone, Debug, PartialEq, Eq)]
pub struct ErrorResponse {
    /// HTTP status of the connector's answer.
    pub status_code: u16,
    /// Connector's error code, or [`NO_ERROR_CODE`].
    pub code: String,
    /// Connector's error message, or [`NO_ERROR_MESSAGE`].
    pub message: String,
    /// Further explanation, where the connector gave one.
    pub reason: Option<String>,
}

} // verus!
