//! The bodies of Nordea's answers.

use vstd::prelude::*;
use crate::amount::StringMinorUnit;

verus! {

/// The coarse status of a payment.
#[derive(Clone, Copy, Debug, PartialEq, Eq, Structural)]
pub enum NordeaPaymentStatus {
    Succeeded,
    Failed,
    Processing,
}

impl Default for NordeaPaymentStatus {
    fn default() -> (result: Self)
        ensures
            result == NordeaPaymentStatus::Processing,
    {
        NordeaPaymentStatus::Processing
    }
}

/// The answer to a payment call. An answer without its payment part cannot
/// be interpreted.
#[derive(Clone, Debug, PartialEq, Eq)]
pub struct NordeaPaymentsResponse {
    pub payments_response: Option<NordeaPaymentDetails>,
}

/// The status of a payment, in Nordea's own vocabulary.
#[derive(Clone, Copy, Debug, PartialEq, Eq, Structural)]
pub enum NordeaSwaggerPaymentStatus {
    PendingConfirmation,
    PendingSecondConfirmation,
    PendingUserApproval,
    OnHold,
    Confirmed,
    Rejected,
    Paid,
    InsufficientFunds,
    LimitExceeded,
    UserApprovalFailed,
    UserApprovalTimeout,
    UserApprovalCancelled,
    /// Any status that this list does not name.
    Unknown,
}

/// The body of a refund in minor units.
#[derive(Clone, Debug, PartialEq, Eq)]
pub struct NordeaRefundRequest {
    pub amount: StringMinorUnit,
}

/// The status of a refund, in Nordea's own vocabulary.
#[derive(Clone, Copy, Debug, PartialEq, Eq, Structural)]
pub enum RefundStatus {
    Succeeded,
    Failed,
    Processing,
}

impl Default for RefundStatus {
    fn default() -> (result: Self)
        ensures
            result == RefundStatus::Processing,
    {
        RefundStatus::Processing
    }
}

/// The answer to a refund call.
#[derive(Clone, Debug, PartialEq, Eq)]
pub struct RefundResponse {
    pub id: String,
    pub status: RefundStatus,
}

/// One failure that an error body lists.
#[derive(Clone, Debug, PartialEq, Eq)]
pub struct NordeaFailures {
    pub code: Option<String>,
    pub description: Option<String>,
    pub failure_type: Option<String>,
}

/// The list of failures of an error body.
#[derive(Clone, Debug, PartialEq, Eq)]
pub struct NordeaErrorBody {
    pub nordea_failures: Option<Vec<NordeaFailures>>,
}

/// The body of a failed call. Any part of it may be missing: an absent code
/// or message arrives as an empty text.
#[derive(Clone, Debug, PartialEq, Eq)]
pub struct NordeaErrorResponse {
    pub status_code: u16,
    pub code: String,
    pub message: String,
    pub reason: Option<String>,
    pub error: Option<NordeaErrorBody>,
}

/// A link that an answer offers for a next step.
#[derive(Clone, Debug, PartialEq, Eq)]
pub struct NordeaLink {
    /// What the link is for; `signing` for the customer's approval.
    pub rel: Option<String>,
    pub href: Option<String>,
}

/// The payment that an answer describes.
#[derive(Clone, Debug, PartialEq, Eq)]
pub struct NordeaPaymentDetails {
    pub payment_id: String,
    pub payment_status: NordeaSwaggerPaymentStatus,
    pub links: Option<Vec<NordeaLink>>,
}

/// The answer to the initiation of a SEPA credit transfer.
#[derive(Clone, Debug, PartialEq, Eq)]
pub struct NordeaSepaCreditTransferResponse {
    pub response: NordeaPaymentDetails,
}

} // verus!
