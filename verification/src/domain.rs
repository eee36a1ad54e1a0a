//! The processor-agnostic side of the layer: statuses, credentials, payment
//! methods, and the record that carries one call's request and result.

use vstd::prelude::*;
use vstd::string::*;
use crate::currency::Currency;
use crate::errors::ErrorResponse;
use crate::secret::Secret;
use crate::signature::Method;

verus! {

/// Status of a payment attempt, common to all connectors.
#[derive(Clone, Copy, Debug, PartialEq, Eq, Structural)]
pub enum AttemptStatus {
    Started,
    AuthenticationFailed,
    RouterDeclined,
    AuthenticationPending,
    AuthenticationSuccessful,
    Authorized,
    AuthorizationFailed,
    Charged,
    Authorizing,
    CodInitiated,
    Voided,
    VoidInitiated,
    CaptureInitiated,
    CaptureFailed,
    VoidFailed,
    AutoRefunded,
    PartialCharged,
    PartialChargedAndChargeable,
    Unresolved,
    Pending,
    Failure,
    PaymentMethodAwaited,
    ConfirmationAwaited,
    DeviceDataCollectionPending,
}

/// Status of a refund, common to all connectors.
#[derive(Clone, Copy, Debug, PartialEq, Eq, Structural)]
pub enum RefundStatus {
    Failure,
    ManualReview,
    Pending,
    Success,
    TransactionFailure,
}

/// When the funds of a payment are captured.
#[derive(Clone, Copy, Debug, PartialEq, Eq, Structural)]
pub enum CaptureMethod {
    Automatic,
    Manual,
    ManualMultiple,
    Scheduled,
    SequentialAutomatic,
}

/// A country, by its ISO 3166-1 alpha-2 code.
#[derive(Clone, Debug, PartialEq, Eq)]
pub struct CountryAlpha2 {
    /// The two-letter code.
    pub code: String,
}

/// A bearer token and the number of seconds it stays valid.
#[derive(Clone, PartialEq, Eq)]
pub struct AccessToken {
    pub token: Secret,
    pub expires: i64,
}

/// The generic credential bundle of a merchant's connector account.
#[derive(Clone, PartialEq, Eq)]
pub enum ConnectorAuthType {
    TemporaryAuth,
    HeaderKey { api_key: Secret },
    BodyKey { api_key: Secret, key1: Secret },
    SignatureKey { api_key: Secret, key1: Secret, api_secret: Secret },
    MultiAuthKey { api_key: Secret, key1: Secret, api_secret: Secret, key2: Secret },
    CertificateAuth { certificate: Secret, private_key: Secret },
    NoKey,
}

/// The details of a payment card.
#[derive(Clone, PartialEq, Eq)]
pub struct Card {
    pub card_number: Secret,
    pub card_exp_month: Secret,
    pub card_exp_year: Secret,
    pub card_cvc: Secret,
}

/// The bank debit schemes.
#[derive(Clone, PartialEq, Eq)]
pub enum BankDebitData {
    AchBankDebit,
    SepaBankDebit { iban: Secret },
    BecsBankDebit,
    BacsBankDebit,
}

/// The payment methods of the domain. A transformer matches on every
/// variant; none falls through a default.
#[derive(Clone, PartialEq, Eq)]
pub enum PaymentMethodData {
    Card(Card),
    CardDetailsForNetworkTransactionId,
    CardRedirect,
    Wallet,
    PayLater,
    BankRedirect,
    BankDebit(BankDebitData),
    BankTransfer,
    Crypto,
    MandatePayment,
    Reward,
    RealTimePayment,
    Upi,
    Voucher,
    GiftCard,
    CardToken,
    OpenBanking,
    NetworkToken,
    MobilePayment,
}

impl BankDebitData {
    /// The name of the scheme.
    pub open spec fn spec_name(self) -> Seq<char> {
        match self {
            BankDebitData::AchBankDebit => "AchBankDebit"@,
            BankDebitData::SepaBankDebit { .. } => "SepaBankDebit"@,
            BankDebitData::BecsBankDebit => "BecsBankDebit"@,
            BankDebitData::BacsBankDebit => "BacsBankDebit"@,
        }
    }

    /// Returns the name of the scheme.
    pub fn name(&self) -> (result: &'static str)
        ensures
            result@ == self.spec_name(),
    {
        match self {
            BankDebitData::AchBankDebit => "AchBankDebit",
            BankDebitData::SepaBankDebit { .. } => "SepaBankDebit",
            BankDebitData::BecsBankDebit => "BecsBankDebit",
            BankDebitData::BacsBankDebit => "BacsBankDebit",
        }
    }
}

impl PaymentMethodData {
    /// The name of the payment method; for a bank debit, that of its scheme.
    pub open spec fn spec_name(self) -> Seq<char> {
        match self {
            PaymentMethodData::BankDebit(scheme) => scheme.spec_name(),
            PaymentMethodData::Card(_) => "Card"@,
            PaymentMethodData::CardDetailsForNetworkTransactionId => "CardDetailsForNetworkTransactionId"@,
            PaymentMethodData::CardRedirect => "CardRedirect"@,
            PaymentMethodData::Wallet => "Wallet"@,
            PaymentMethodData::PayLater => "PayLater"@,
            PaymentMethodData::BankRedirect => "BankRedirect"@,
            PaymentMethodData::BankTransfer => "BankTransfer"@,
            PaymentMethodData::Crypto => "Crypto"@,
            PaymentMethodData::MandatePayment => "MandatePayment"@,
            PaymentMethodData::Reward => "Reward"@,
            PaymentMethodData::RealTimePayment => "RealTimePayment"@,
            PaymentMethodData::Upi => "Upi"@,
            PaymentMethodData::Voucher => "Voucher"@,
            PaymentMethodData::GiftCard => "GiftCard"@,
            PaymentMethodData::CardToken => "CardToken"@,
            PaymentMethodData::OpenBanking => "OpenBanking"@,
            PaymentMethodData::NetworkToken => "NetworkToken"@,
            PaymentMethodData::MobilePayment => "MobilePayment"@,
        }
    }

    /// Returns the name of the payment method.
    pub fn name(&self) -> (result: &'static str)
        ensures
            result@ == self.spec_name(),
    {
        match self {
            PaymentMethodData::BankDebit(scheme) => scheme.name(),
            PaymentMethodData::Card(_) => "Card",
            PaymentMethodData::CardDetailsForNetworkTransactionId => "CardDetailsForNetworkTransactionId",
            PaymentMethodData::CardRedirect => "CardRedirect",
            PaymentMethodData::Wallet => "Wallet",
            PaymentMethodData::PayLater => "PayLater",
            PaymentMethodData::BankRedirect => "BankRedirect",
            PaymentMethodData::BankTransfer => "BankTransfer",
            PaymentMethodData::Crypto => "Crypto",
            PaymentMethodData::MandatePayment => "MandatePayment",
            PaymentMethodData::Reward => "Reward",
            PaymentMethodData::RealTimePayment => "RealTimePayment",
            PaymentMethodData::Upi => "Upi",
            PaymentMethodData::Voucher => "Voucher",
            PaymentMethodData::GiftCard => "GiftCard",
            PaymentMethodData::CardToken => "CardToken",
            PaymentMethodData::OpenBanking => "OpenBanking",
            PaymentMethodData::NetworkToken => "NetworkToken",
            PaymentMethodData::MobilePayment => "MobilePayment",
        }
    }
}

impl CountryAlpha2 {
    /// Copies the country.
    pub fn duplicate(&self) -> (result: CountryAlpha2)
        ensures
            result.code@ == self.code@,
    {
        CountryAlpha2 { code: self.code.clone() }
    }
}

/// The code of an optional country.
pub open spec fn opt_country(country: Option<CountryAlpha2>) -> Option<Seq<char>> {
    match country {
        Some(country) => Some(country.code@),
        None => None,
    }
}

/// Copies an optional country.
pub fn clone_opt_country(country: &Option<CountryAlpha2>) -> (result: Option<CountryAlpha2>)
    ensures
        opt_country(result) == opt_country(*country),
{
    match country {
        Some(country) => Some(country.duplicate()),
        None => None,
    }
}

/// One entry of the metadata that a merchant stores with a connector account.
#[derive(Clone, PartialEq, Eq)]
pub struct MetadataEntry {
    pub key: String,
    pub value: Secret,
}

/// The metadata of a connector account: a list of named text values.
#[derive(Clone, PartialEq, Eq)]
pub struct ConnectorMetadata {
    pub entries: Vec<MetadataEntry>,
}

/// The value of the first entry named `key`, where there is one.
pub open spec fn metadata_value(entries: Seq<MetadataEntry>, key: Seq<char>) -> Option<Seq<char>>
    decreases entries.len(),
{
    if entries.len() == 0 {
        None
    } else if entries[0].key@ == key {
        Some(entries[0].value@)
    } else {
        metadata_value(entries.drop_first(), key)
    }
}

impl ConnectorMetadata {
    /// Returns the value of the first entry named `key`, where there is one.
    pub fn get(&self, key: &str) -> (result: Option<&Secret>)
        ensures
            metadata_value(self.entries@, key@) == match result {
                Some(value) => Some(value@),
                None => None,
            },
    {
        let wanted = String::from_str(key);
        let mut index: usize = 0;
        proof {
            assert(self.entries@.skip(0) =~= self.entries@);
        }
        while index < self.entries.len()
            invariant
                index <= self.entries.len(),
                wanted@ == key@,
                metadata_value(self.entries@, key@) == metadata_value(
                    self.entries@.skip(index as int),
                    key@,
                ),
            decreases self.entries.len() - index,
        {
            let ghost rest = self.entries@.skip(index as int);
            proof {
                assert(rest[0] == self.entries@[index as int]);
                assert(rest.drop_first() =~= self.entries@.skip(index + 1));
            }
            if self.entries[index].key == wanted {
                return Some(&self.entries[index].value);
            }
            index += 1;
        }
        None
    }
}

/// The request of the authorize flow.
#[derive(Clone, PartialEq, Eq)]
pub struct PaymentsAuthorizeData {
    pub payment_method_data: PaymentMethodData,
    pub minor_amount: i64,
    pub currency: Currency,
    pub email: Option<String>,
    pub customer_name: Option<Secret>,
    pub capture_method: Option<CaptureMethod>,
    pub router_return_url: Option<String>,
    pub merchant_account_id: Option<Secret>,
    pub ip_address: Option<Secret>,
}

/// The request of the pre-processing flow, in which amount and currency may
/// still be missing.
#[derive(Clone, PartialEq, Eq)]
pub struct PaymentsPreProcessingData {
    pub payment_method_data: Option<PaymentMethodData>,
    pub minor_amount: Option<i64>,
    pub currency: Option<Currency>,
    pub merchant_account_id: Option<Secret>,
}

/// The request of the payment sync flow.
#[derive(Clone, PartialEq, Eq)]
pub struct PaymentsSyncData {
    /// The connector's identifier of the payment, where one is known.
    pub connector_transaction_id: Option<String>,
}

/// The request of the two refund flows.
#[derive(Clone, PartialEq, Eq)]
pub struct RefundsData {
    pub minor_refund_amount: i64,
    pub currency: Currency,
    pub reason: Option<String>,
}

/// How a connector's answer identifies the payment.
#[derive(Clone, Debug, PartialEq, Eq)]
pub enum ResponseId {
    ConnectorTransactionId(String),
    EncodedData(String),
    NoResponseId,
}

/// Where the customer is sent to complete a payment.
#[derive(Clone, Debug, PartialEq, Eq)]
pub struct RedirectForm {
    pub endpoint: String,
    pub method: Method,
    pub form_fields: Vec<(String, String)>,
}

/// The result of a payment flow.
#[derive(Clone, Debug, PartialEq, Eq)]
pub struct PaymentsResponseData {
    pub resource_id: ResponseId,
    pub redirection_data: Option<RedirectForm>,
    pub connector_response_reference_id: Option<String>,
}

/// The result of a refund flow.
#[derive(Clone, Debug, PartialEq, Eq)]
pub struct RefundsResponseData {
    pub connector_refund_id: String,
    pub refund_status: RefundStatus,
}

/// One call through the layer: who is calling, what is asked, and what came
/// back.
pub struct RouterData<Request, Response> {
    pub status: AttemptStatus,
    pub connector_auth_type: ConnectorAuthType,
    pub access_token: Option<AccessToken>,
    pub description: Option<String>,
    pub connector_request_reference_id: String,
    pub connector_meta_data: Option<ConnectorMetadata>,
    pub billing_country: Option<CountryAlpha2>,
    pub request: Request,
    pub response: Result<Response, ErrorResponse>,
}

pub type PaymentsAuthorizeRouterData = RouterData<PaymentsAuthorizeData, PaymentsResponseData>;

pub type PaymentsPreProcessingRouterData = RouterData<
    PaymentsPreProcessingData,
    PaymentsResponseData,
>;

pub type PaymentsSyncRouterData = RouterData<PaymentsSyncData, PaymentsResponseData>;

pub type RefundsRouterData = RouterData<RefundsData, RefundsResponseData>;

/// A connector's answer together with the call that it answers.
pub struct ResponseRouterData<ConnectorResponse, Request, Response> {
    pub response: ConnectorResponse,
    pub data: RouterData<Request, Response>,
    pub http_code: u16,
}

/// Whether `after` is `before` with a new status and a new result, and
/// everything else as it was.
pub open spec fn same_call<Request, Response>(
    after: RouterData<Request, Response>,
    before: RouterData<Request, Response>,
) -> bool {
    &&& after.connector_auth_type == before.connector_auth_type
    &&& after.access_token == before.access_token
    &&& after.description == before.description
    &&& after.connector_request_reference_id == before.connector_request_reference_id
    &&& after.connector_meta_data == before.connector_meta_data
    &&& after.billing_country == before.billing_country
    &&& after.request == before.request
}

/// The view of an optional text.
pub open spec fn opt_text(text: Option<String>) -> Option<Seq<char>> {
    match text {
        Some(text) => Some(text@),
        None => None,
    }
}

/// The view of an optional secret.
pub open spec fn opt_secret(secret: Option<Secret>) -> Option<Seq<char>> {
    match secret {
        Some(secret) => Some(secret@),
        None => None,
    }
}

/// Copies an optional text.
pub fn clone_opt_text(text: &Option<String>) -> (result: Option<String>)
    ensures
        opt_text(result) == opt_text(*text),
{
    match text {
        Some(text) => Some(text.clone()),
        None => None,
    }
}

/// Copies an optional secret.
pub fn clone_opt_secret(secret: &Option<Secret>) -> (result: Option<Secret>)
    ensures
        opt_secret(result) == opt_secret(*secret),
{
    match secret {
        Some(secret) => Some(secret.clone()),
        None => None,
    }
}

} // verus!
