//! MONEI's transformers: from the domain's request to MONEI's body, and from
//! MONEI's answer to the domain's result.

use vstd::prelude::*;
use vstd::string::*;
use crate::amount::StringMinorUnit;
use crate::domain::{
    clone_opt_text, opt_secret, opt_text, same_call, AttemptStatus, CaptureMethod,
    ConnectorAuthType, PaymentMethodData, PaymentsAuthorizeRouterData, PaymentsResponseData,
    RefundStatus, RefundsData, RefundsResponseData, RefundsRouterData, ResponseId,
    ResponseRouterData, RouterData,
};
use crate::errors::ConnectorError;
use crate::secret::Secret;

verus! {

/// A converted amount together with the call it belongs to: the one input of
/// every request builder.
pub struct MoneiRouterData<T> {
    /// The amount in minor units, as MONEI takes it.
    pub amount: StringMinorUnit,
    pub router_data: T,
}

impl<T> MoneiRouterData<T> {
    /// Pairs a converted amount with the call it belongs to.
    pub fn from(pair: (StringMinorUnit, T)) -> (result: Self)
        ensures
            result.amount == pair.0,
            result.router_data == pair.1,
    {
        MoneiRouterData { amount: pair.0, router_data: pair.1 }
    }
}

/// The body of a payment.
#[derive(Clone, PartialEq, Eq)]
pub struct MoneiPaymentsRequest {
    /// The amount in minor units.
    pub amount: StringMinorUnit,
    /// The currency's ISO 4217 code.
    pub currency: String,
    /// The caller's identifier of the payment.
    pub order_id: Option<String>,
    pub description: Option<String>,
    pub payment_method: MoneiPaymentMethod,
    pub customer: Option<MoneiCustomer>,
    /// `SALE` to capture at once, `AUTH` to authorise only.
    pub transaction_type: String,
    /// Where the customer is sent after the payment.
    pub complete_url: Option<String>,
}

/// The means of a payment.
#[derive(Clone, PartialEq, Eq)]
pub struct MoneiPaymentMethod {
    pub method: Option<String>,
    pub card: Option<MoneiCard>,
    pub bizum: Option<MoneiBizum>,
}

/// The details of a payment by Bizum.
#[derive(Clone, Debug, PartialEq, Eq)]
pub struct MoneiBizum {
    pub phone_number: Option<String>,
}

/// A card: in a request the means to charge it, in an answer what MONEI
/// tells of it.
#[derive(Clone, PartialEq, Eq)]
pub struct MoneiCard {
    pub number: Option<Secret>,
    pub expiry_month: Option<Secret>,
    pub expiry_year: Option<Secret>,
    pub cvc: Option<Secret>,
    pub cardholder_name: Option<String>,
    pub cardholder_email: Option<String>,
    pub country: Option<String>,
    pub last4: Option<String>,
    pub bank: Option<String>,
    pub expiration: Option<i64>,
    pub card_type: Option<String>,
    pub brand: Option<String>,
}

/// The customer of a payment.
#[derive(Clone, Debug, PartialEq, Eq)]
pub struct MoneiCustomer {
    pub email: Option<String>,
    pub name: Option<String>,
    pub phone: Option<String>,
    pub billing: Option<MoneiBillingDetails>,
}

/// Where a customer is billed.
#[derive(Clone, Debug, PartialEq, Eq)]
pub struct MoneiBillingDetails {
    pub address: MoneiAddress,
}

/// A postal address.
#[derive(Clone, Debug, PartialEq, Eq)]
pub struct MoneiAddress {
    pub line1: Option<String>,
    pub line2: Option<String>,
    pub city: Option<String>,
    pub state: Option<String>,
    pub postal_code: Option<String>,
    /// The country's ISO 3166-1 alpha-2 code.
    pub country: Option<String>,
}

/// Whether a payment is captured at once: it is unless it asks for manual
/// capture. `None` for a way of capturing that is not supported.
pub open spec fn auto_capture(capture_method: Option<CaptureMethod>) -> Option<bool> {
    match capture_method {
        Some(CaptureMethod::Automatic) => Some(true),
        Some(CaptureMethod::SequentialAutomatic) => Some(true),
        None => Some(true),
        Some(CaptureMethod::Manual) => Some(false),
        Some(CaptureMethod::ManualMultiple) => None,
        Some(CaptureMethod::Scheduled) => None,
    }
}

/// Tells whether a payment is captured at once.
pub fn is_auto_capture(capture_method: Option<CaptureMethod>) -> (result: Result<
    bool,
    ConnectorError,
>)
    ensures
        match auto_capture(capture_method) {
            Some(at_once) => result == Ok::<bool, ConnectorError>(at_once),
            None => result == Err::<bool, ConnectorError>(
                ConnectorError::CaptureMethodNotSupported,
            ),
        },
{
    match capture_method {
        Some(CaptureMethod::Automatic) | Some(CaptureMethod::SequentialAutomatic) | None => Ok(
            true,
        ),
        Some(CaptureMethod::Manual) => Ok(false),
        Some(CaptureMethod::ManualMultiple) | Some(CaptureMethod::Scheduled) => Err(
            ConnectorError::CaptureMethodNotSupported,
        ),
    }
}

/// The name of a transaction that captures at once, and of one that does
/// not.
pub open spec fn transaction_type(at_once: bool) -> Seq<char> {
    if at_once {
        "SALE"@
    } else {
        "AUTH"@
    }
}

/// Whether `customer` is the customer of a call with the e-mail address
/// `email` and the name `name`: none without an address, else address and
/// name, with neither phone nor billing details.
pub open spec fn is_customer(
    customer: Option<MoneiCustomer>,
    email: Option<Seq<char>>,
    name: Option<Seq<char>>,
) -> bool {
    match (customer, email) {
        (Some(customer), Some(email)) => opt_text(customer.email) == Some(email) && opt_text(
            customer.name,
        ) == name && customer.phone is None && customer.billing is None,
        (None, None) => true,
        _ => false,
    }
}

/// Whether `card` is the card of a request: number, expiry and security
/// code of `source`, the cardholder's name and address, and nothing of what
/// only an answer holds.
pub open spec fn is_request_card(
    card: MoneiCard,
    source: crate::domain::Card,
    name: Option<Seq<char>>,
    email: Option<Seq<char>>,
) -> bool {
    &&& opt_secret(card.number) == Some(source.card_number@)
    &&& opt_secret(card.expiry_month) == Some(source.card_exp_month@)
    &&& opt_secret(card.expiry_year) == Some(source.card_exp_year@)
    &&& opt_secret(card.cvc) == Some(source.card_cvc@)
    &&& opt_text(card.cardholder_name) == name
    &&& opt_text(card.cardholder_email) == email
    &&& card.country is None
    &&& card.last4 is None
    &&& card.bank is None
    &&& card.expiration is None
    &&& card.card_type is None
    &&& card.brand is None
}

/// Whether `method` is payment by the card `source`.
pub open spec fn is_card_method(
    method: MoneiPaymentMethod,
    source: crate::domain::Card,
    name: Option<Seq<char>>,
    email: Option<Seq<char>>,
) -> bool {
    &&& opt_text(method.method) == Some("card"@)
    &&& method.bizum is None
    &&& match method.card {
        Some(card) => is_request_card(card, source, name, email),
        None => false,
    }
}

/// Whether `request` is the payment by the card `source` that the call
/// `router_data` asks for, of `amount`, captured at once or not.
pub open spec fn is_card_payment_request(
    request: MoneiPaymentsRequest,
    amount: Seq<char>,
    source: crate::domain::Card,
    at_once: bool,
    router_data: &PaymentsAuthorizeRouterData,
) -> bool {
    let email = opt_text(router_data.request.email);
    let name = opt_secret(router_data.request.customer_name);
    &&& request.amount@ == amount
    &&& request.currency@ == router_data.request.currency.spec_iso_code()
    &&& opt_text(request.order_id) == Some(router_data.connector_request_reference_id@)
    &&& request.description is None
    &&& is_card_method(request.payment_method, source, name, email)
    &&& is_customer(request.customer, email, name)
    &&& request.transaction_type@ == transaction_type(at_once)
    &&& opt_text(request.complete_url) == opt_text(router_data.request.router_return_url)
}

/// Whether `result` is what building the payment of `amount` for the call
/// `router_data` gives: `CaptureMethodNotSupported` for a way of capturing
/// that is not supported; else, for any payment method but a card,
/// `UnsupportedPaymentMethod` with the method's name; else the payment.
pub open spec fn is_monei_request_outcome(
    result: Result<MoneiPaymentsRequest, ConnectorError>,
    amount: Seq<char>,
    router_data: &PaymentsAuthorizeRouterData,
) -> bool {
    match auto_capture(router_data.request.capture_method) {
        None => match result {
            Err(error) => error == ConnectorError::CaptureMethodNotSupported,
            Ok(_) => false,
        },
        Some(at_once) => match router_data.request.payment_method_data {
            PaymentMethodData::Card(source) => match result {
                Ok(request) => is_card_payment_request(
                    request,
                    amount,
                    source,
                    at_once,
                    router_data,
                ),
                Err(_) => false,
            },
            other => match result {
                Err(ConnectorError::UnsupportedPaymentMethod(name)) => name@ == other.spec_name(),
                _ => false,
            },
        },
    }
}

fn exposed(secret: &Option<Secret>) -> (result: Option<String>)
    ensures
        opt_text(result) == opt_secret(*secret),
{
    match secret {
        Some(secret) => Some(String::from_str(secret.peek())),
        None => None,
    }
}

impl MoneiPaymentsRequest {
    /// Builds the body of the payment that an authorize call asks for, with
    /// its converted amount. Only payment by card is supported.
    pub fn try_from(item: &MoneiRouterData<&PaymentsAuthorizeRouterData>) -> (result: Result<
        Self,
        ConnectorError,
    >)
        ensures
            is_monei_request_outcome(result, item.amount@, item.router_data),
    {
        let router_data = item.router_data;
        let request = &router_data.request;
        let at_once = match is_auto_capture(request.capture_method) {
            Ok(at_once) => at_once,
            Err(error) => {
                return Err(error);
            },
        };
        let customer = match &request.email {
            Some(email) => Some(
                MoneiCustomer {
                    email: Some(email.clone()),
                    name: exposed(&request.customer_name),
                    phone: None,
                    billing: None,
                },
            ),
            None => None,
        };
        match &request.payment_method_data {
            PaymentMethodData::Card(req_card) => {
                let card = MoneiCard {
                    number: Some(req_card.card_number.clone()),
                    expiry_month: Some(req_card.card_exp_month.clone()),
                    expiry_year: Some(req_card.card_exp_year.clone()),
                    cvc: Some(req_card.card_cvc.clone()),
                    cardholder_name: exposed(&request.customer_name),
                    cardholder_email: clone_opt_text(&request.email),
                    country: None,
                    last4: None,
                    bank: None,
                    expiration: None,
                    card_type: None,
                    brand: None,
                };
                let payment_method = MoneiPaymentMethod {
                    method: Some(String::from_str("card")),
                    card: Some(card),
                    bizum: None,
                };
                let kind = if at_once {
                    "SALE"
                } else {
                    "AUTH"
                };
                Ok(
                    MoneiPaymentsRequest {
                        amount: item.amount.duplicate(),
                        currency: String::from_str(request.currency.iso_code()),
                        order_id: Some(router_data.connector_request_reference_id.clone()),
                        description: None,
                        payment_method,
                        customer,
                        transaction_type: String::from_str(kind),
                        complete_url: clone_opt_text(&request.router_return_url),
                    },
                )
            },
            PaymentMethodData::CardDetailsForNetworkTransactionId
            | PaymentMethodData::CardRedirect
            | PaymentMethodData::Wallet
            | PaymentMethodData::PayLater
            | PaymentMethodData::BankRedirect
            | PaymentMethodData::BankDebit(_)
            | PaymentMethodData::BankTransfer
            | PaymentMethodData::Crypto
            | PaymentMethodData::MandatePayment
            | PaymentMethodData::Reward
            | PaymentMethodData::RealTimePayment
            | PaymentMethodData::Upi
            | PaymentMethodData::Voucher
            | PaymentMethodData::GiftCard
            | PaymentMethodData::CardToken
            | PaymentMethodData::OpenBanking
            | PaymentMethodData::NetworkToken
            | PaymentMethodData::MobilePayment => Err(
                ConnectorError::UnsupportedPaymentMethod(
                    String::from_str(request.payment_method_data.name()),
                ),
            ),
        }
    }
}

/// The credentials of a MONEI account.
#[derive(Clone, PartialEq, Eq)]
pub struct MoneiAuthType {
    pub api_key: Secret,
}

impl MoneiAuthType {
    /// Reads MONEI's credentials from the generic bundle. Only a header key
    /// bundle has them; any other gives `FailedToObtainAuthType`.
    pub fn try_from(auth_type: &ConnectorAuthType) -> (result: Result<Self, ConnectorError>)
        ensures
            match *auth_type {
                ConnectorAuthType::HeaderKey { api_key } => result matches Ok(auth)
                    && auth.api_key@ == api_key@,
                _ => result matches Err(error) && error == ConnectorError::FailedToObtainAuthType,
            },
    {
        match auth_type {
            ConnectorAuthType::HeaderKey { api_key } => Ok(
                MoneiAuthType { api_key: api_key.clone() },
            ),
            _ => Err(ConnectorError::FailedToObtainAuthType),
        }
    }
}

/// The status of a payment, in MONEI's own vocabulary.
#[allow(non_camel_case_types)]
#[derive(Clone, Copy, Debug, PartialEq, Eq, Structural)]
pub enum MoneiPaymentStatus {
    SUCCEEDED,
    AUTHORIZED,
    FAILED,
    PENDING,
    CANCELED,
    REFUNDED,
    PartiallyRefunded,
    EXPIRED,
}

impl Default for MoneiPaymentStatus {
    fn default() -> (result: Self)
        ensures
            result == MoneiPaymentStatus::PENDING,
    {
        MoneiPaymentStatus::PENDING
    }
}

/// The attempt status of each of MONEI's payment statuses. A payment that
/// was refunded, in full or in part, stays charged: the attempt status does
/// not tell the two apart.
pub open spec fn monei_attempt_status_of(item: MoneiPaymentStatus) -> AttemptStatus {
    match item {
        MoneiPaymentStatus::AUTHORIZED => AttemptStatus::Authorized,
        MoneiPaymentStatus::SUCCEEDED => AttemptStatus::Charged,
        MoneiPaymentStatus::FAILED => AttemptStatus::Failure,
        MoneiPaymentStatus::PENDING => AttemptStatus::Pending,
        MoneiPaymentStatus::CANCELED => AttemptStatus::Voided,
        MoneiPaymentStatus::REFUNDED => AttemptStatus::Charged,
        MoneiPaymentStatus::PartiallyRefunded => AttemptStatus::Charged,
        MoneiPaymentStatus::EXPIRED => AttemptStatus::AuthorizationFailed,
    }
}

impl From<MoneiPaymentStatus> for AttemptStatus {
    fn from(item: MoneiPaymentStatus) -> (result: Self) {
        match item {
            MoneiPaymentStatus::AUTHORIZED => AttemptStatus::Authorized,
            MoneiPaymentStatus::SUCCEEDED => AttemptStatus::Charged,
            MoneiPaymentStatus::FAILED => AttemptStatus::Failure,
            MoneiPaymentStatus::PENDING => AttemptStatus::Pending,
            MoneiPaymentStatus::CANCELED => AttemptStatus::Voided,
            MoneiPaymentStatus::REFUNDED => AttemptStatus::Charged,
            MoneiPaymentStatus::PartiallyRefunded => AttemptStatus::Charged,
            MoneiPaymentStatus::EXPIRED => AttemptStatus::AuthorizationFailed,
        }
    }
}

impl vstd::std_specs::convert::FromSpecImpl<MoneiPaymentStatus> for AttemptStatus {
    open spec fn obeys_from_spec() -> bool {
        true
    }

    open spec fn from_spec(item: MoneiPaymentStatus) -> Self {
        monei_attempt_status_of(item)
    }
}

/// The answer to a payment call.
#[derive(Clone, PartialEq, Eq)]
pub struct MoneiPaymentsResponse {
    pub id: String,
    /// The amount in minor units.
    pub amount: i64,
    pub currency: String,
    pub order_id: Option<String>,
    pub description: Option<String>,
    pub account_id: String,
    pub authorization_code: Option<String>,
    /// Whether the payment was made in live mode.
    pub livemode: bool,
    pub status: MoneiPaymentStatus,
    pub status_code: String,
    pub status_message: String,
    pub customer: Option<MoneiCustomer>,
    pub billing_details: Option<MoneiBillingDetails>,
    pub refunded_amount: Option<i64>,
    pub last_refund_amount: Option<i64>,
    pub last_refund_reason: Option<String>,
    pub cancellation_reason: Option<String>,
    pub payment_token: Option<String>,
    pub payment_method: Option<MoneiPaymentMethod>,
    /// Further data of the caller, as JSON text.
    pub metadata: Option<String>,
    /// When the payment was created, in seconds since the epoch.
    pub created_at: i64,
    /// When the payment was last changed, in seconds since the epoch.
    pub updated_at: i64,
}

/// Whether `result` is what taking the payment answer `response` into the
/// record `before` gives: the attempt status of the payment's status, and as
/// result the payment's identifier, with neither redirection nor reference.
/// The rest of the record stays.
pub open spec fn is_monei_payments_record<Request>(
    result: Result<RouterData<Request, PaymentsResponseData>, ConnectorError>,
    response: MoneiPaymentsResponse,
    before: RouterData<Request, PaymentsResponseData>,
) -> bool {
    match result {
        Ok(data) => same_call(data, before) && data.status == monei_attempt_status_of(
            response.status,
        ) && match data.response {
            Ok(outcome) => {
                &&& match outcome.resource_id {
                    ResponseId::ConnectorTransactionId(id) => id@ == response.id@,
                    _ => false,
                }
                &&& outcome.redirection_data is None
                &&& outcome.connector_response_reference_id is None
            },
            Err(_) => false,
        },
        Err(_) => false,
    }
}

impl<Request> ResponseRouterData<MoneiPaymentsResponse, Request, PaymentsResponseData> {
    /// Takes MONEI's answer to a payment call into the call's record.
    pub fn try_into_router_data(self) -> (result: Result<
        RouterData<Request, PaymentsResponseData>,
        ConnectorError,
    >)
        ensures
            is_monei_payments_record(result, self.response, self.data),
    {
        let outcome = PaymentsResponseData {
            resource_id: ResponseId::ConnectorTransactionId(self.response.id.clone()),
            redirection_data: None,
            connector_response_reference_id: None,
        };
        let status = AttemptStatus::from(self.response.status);
        let data = self.data;
        Ok(
            RouterData {
                status,
                connector_auth_type: data.connector_auth_type,
                access_token: data.access_token,
                description: data.description,
                connector_request_reference_id: data.connector_request_reference_id,
                connector_meta_data: data.connector_meta_data,
                billing_country: data.billing_country,
                request: data.request,
                response: Ok(outcome),
            },
        )
    }
}

/// The body of a refund.
#[derive(Clone, Debug, PartialEq, Eq)]
pub struct MoneiRefundRequest {
    /// The amount to refund, in minor units.
    pub amount: StringMinorUnit,
    pub refund_reason: Option<String>,
}

impl MoneiRefundRequest {
    /// Builds the body of the refund that a call asks for: the converted
    /// amount and the call's reason.
    pub fn try_from(item: &MoneiRouterData<&RefundsRouterData>) -> (result: Result<
        Self,
        ConnectorError,
    >)
        ensures
            match result {
                Ok(request) => request.amount@ == item.amount@ && opt_text(request.refund_reason)
                    == opt_text(item.router_data.request.reason),
                Err(_) => false,
            },
    {
        let router_data = item.router_data;
        Ok(
            MoneiRefundRequest {
                amount: item.amount.duplicate(),
                refund_reason: clone_opt_text(&router_data.request.reason),
            },
        )
    }
}

/// The status of a refund, in MONEI's own vocabulary.
#[allow(non_camel_case_types)]
#[derive(Clone, Copy, Debug, PartialEq, Eq, Structural)]
pub enum MoneiRefundStatus {
    PENDING,
    SUCCEEDED,
    FAILED,
    CANCELED,
}

impl Default for MoneiRefundStatus {
    fn default() -> (result: Self)
        ensures
            result == MoneiRefundStatus::PENDING,
    {
        MoneiRefundStatus::PENDING
    }
}

/// The refund status of each of MONEI's refund statuses: a refund that was
/// cancelled has failed.
pub open spec fn monei_refund_status_of(item: MoneiRefundStatus) -> RefundStatus {
    match item {
        MoneiRefundStatus::SUCCEEDED => RefundStatus::Success,
        MoneiRefundStatus::FAILED => RefundStatus::Failure,
        MoneiRefundStatus::PENDING => RefundStatus::Pending,
        MoneiRefundStatus::CANCELED => RefundStatus::Failure,
    }
}

impl From<MoneiRefundStatus> for RefundStatus {
    fn from(item: MoneiRefundStatus) -> (result: Self) {
        match item {
            MoneiRefundStatus::SUCCEEDED => RefundStatus::Success,
            MoneiRefundStatus::FAILED => RefundStatus::Failure,
            MoneiRefundStatus::PENDING => RefundStatus::Pending,
            MoneiRefundStatus::CANCELED => RefundStatus::Failure,
        }
    }
}

impl vstd::std_specs::convert::FromSpecImpl<MoneiRefundStatus> for RefundStatus {
    open spec fn obeys_from_spec() -> bool {
        true
    }

    open spec fn from_spec(item: MoneiRefundStatus) -> Self {
        monei_refund_status_of(item)
    }
}

/// The answer to a refund call.
#[derive(Clone, Debug, PartialEq, Eq)]
pub struct MoneiRefundResponse {
    pub id: String,
    /// The payment that was refunded.
    pub payment_id: String,
    /// The amount in minor units.
    pub amount: i64,
    pub currency: String,
    pub status: MoneiRefundStatus,
    pub status_code: Option<String>,
    pub status_message: Option<String>,
    pub reason: Option<String>,
    pub reference: Option<String>,
    /// Whether the refund was made in live mode.
    pub livemode: bool,
    /// When the refund was created, in seconds since the epoch.
    pub created_at: i64,
    /// When the refund was last changed, in seconds since the epoch.
    pub updated_at: i64,
}

/// Whether `result` is what taking the refund answer `response` into the
/// record `before` gives: the refund's identifier and the refund status of
/// its status as the record's result, and the rest of the record, its status
/// too, as it was.
pub open spec fn is_monei_refund_record(
    result: Result<RefundsRouterData, ConnectorError>,
    response: MoneiRefundResponse,
    before: RefundsRouterData,
) -> bool {
    match result {
        Ok(data) => same_call(data, before) && data.status == before.status && match data.response {
            Ok(outcome) => outcome.connector_refund_id@ == response.id@ && outcome.refund_status
                == monei_refund_status_of(response.status),
            Err(_) => false,
        },
        Err(_) => false,
    }
}

impl ResponseRouterData<MoneiRefundResponse, RefundsData, RefundsResponseData> {
    /// Takes MONEI's answer to a refund call, of either refund flow, into
    /// the call's record.
    pub fn try_into_router_data(self) -> (result: Result<RefundsRouterData, ConnectorError>)
        ensures
            is_monei_refund_record(result, self.response, self.data),
    {
        let outcome = RefundsResponseData {
            connector_refund_id: self.response.id.clone(),
            refund_status: RefundStatus::from(self.response.status),
        };
        let data = self.data;
        Ok(
            RouterData {
                status: data.status,
                connector_auth_type: data.connector_auth_type,
                access_token: data.access_token,
                description: data.description,
                connector_request_reference_id: data.connector_request_reference_id,
                connector_meta_data: data.connector_meta_data,
                billing_country: data.billing_country,
                request: data.request,
                response: Ok(outcome),
            },
        )
    }
}

/// One detail of a failed validation.
#[derive(Clone, Debug, PartialEq, Eq)]
pub struct MoneiErrorDetail {
    /// The parameter that caused the failure.
    pub param: Option<String>,
    /// Where in the request the parameter stands.
    pub location: Option<String>,
    pub message: String,
}

/// The body of a failed call.
#[derive(Clone, Debug, PartialEq, Eq)]
pub struct MoneiErrorResponse {
    pub status_code: u16,
    pub code: String,
    pub message: String,
    pub reason: Option<String>,
    pub error_details: Option<Vec<MoneiErrorDetail>>,
    /// The identifier under which support finds the call.
    pub request_id: Option<String>,
}

/// Whether `status` is the attempt status of `item`.
pub open spec fn is_monei_attempt_status_of(item: MoneiPaymentStatus, status: AttemptStatus) -> bool {
    monei_attempt_status_of(item) == status
}

/// Whether `status` is the refund status of `item`.
pub open spec fn is_monei_refund_status_of(item: MoneiRefundStatus, status: RefundStatus) -> bool {
    monei_refund_status_of(item) == status
}

/// The mapping of MONEI's payment statuses is total: every one of them has
/// exactly one attempt status.
pub proof fn lemma_monei_attempt_status_is_total(item: MoneiPaymentStatus)
    ensures
        exists|status: AttemptStatus| #[trigger]
            is_monei_attempt_status_of(item, status) && forall|other: AttemptStatus| #[trigger]
                is_monei_attempt_status_of(item, other) ==> other == status,
{
    assert(is_monei_attempt_status_of(item, monei_attempt_status_of(item)));
}

/// The mapping of MONEI's refund statuses is total: every one of them has
/// exactly one refund status.
pub proof fn lemma_monei_refund_status_is_total(item: MoneiRefundStatus)
    ensures
        exists|status: RefundStatus| #[trigger]
            is_monei_refund_status_of(item, status) && forall|other: RefundStatus| #[trigger]
                is_monei_refund_status_of(item, other) ==> other == status,
{
    assert(is_monei_refund_status_of(item, monei_refund_status_of(item)));
}

} // verus!
