//! Nordea's transformers: from the domain's request to Nordea's body, and
//! from Nordea's answer to the domain's result.

use vstd::prelude::*;
use vstd::string::*;
use crate::amount::StringMajorUnit;
use crate::currency::Currency;
use crate::domain::{
    clone_opt_country, clone_opt_secret, clone_opt_text, metadata_value, opt_country, opt_secret,
    opt_text, AttemptStatus, BankDebitData, ConnectorAuthType, ConnectorMetadata, CountryAlpha2,
    PaymentMethodData, PaymentsAuthorizeRouterData, PaymentsResponseData, RedirectForm,
    RefundStatus, RefundsData, RefundsResponseData, RefundsRouterData, ResponseId,
    ResponseRouterData, RouterData, same_call,
};
use crate::errors::ConnectorError;
use crate::nordea::requests::{
    AccountNumber, AccountType, CreditorAccount, CreditorAccountReference, DebitorAccount,
    InstructedAmount, NordeaPaymentsRequest, NordeaRefundRequest, NordeaRouterData,
};
use crate::nordea::responses::{
    NordeaErrorBody, NordeaFailures, NordeaLink, NordeaPaymentDetails, NordeaPaymentStatus,
    NordeaPaymentsResponse,
    NordeaSwaggerPaymentStatus, RefundResponse,
};
use crate::primitives::{to_uppercase, uppercase};
use crate::secret::Secret;
use crate::signature::Method;

verus! {

impl<T> NordeaRouterData<T> {
    /// Pairs a converted amount with the call it belongs to.
    pub fn from(pair: (StringMajorUnit, T)) -> (result: Self)
        ensures
            result.amount == pair.0,
            result.router_data == pair.1,
    {
        NordeaRouterData { amount: pair.0, router_data: pair.1 }
    }
}

/// The credentials of a Nordea account.
#[derive(Clone, PartialEq, Eq)]
pub struct NordeaAuthType {
    pub client_id: Secret,
    pub client_secret: Secret,
    /// Private key for request signing, in PEM.
    pub eidas_private_key: Secret,
}

impl NordeaAuthType {
    /// Whether `auth` holds exactly what `bundle` gives for Nordea: the
    /// client identifier from `key1`, the client secret from `api_key`, the
    /// private key from `api_secret`.
    pub open spec fn parsed_from(auth: NordeaAuthType, bundle: ConnectorAuthType) -> bool {
        match bundle {
            ConnectorAuthType::SignatureKey { api_key, key1, api_secret } => auth.client_id@
                == key1@ && auth.client_secret@ == api_key@ && auth.eidas_private_key@
                == api_secret@,
            _ => false,
        }
    }

    /// Reads Nordea's credentials from the generic bundle. Only a signature
    /// key bundle has them; any other gives `FailedToObtainAuthType`.
    pub fn try_from(auth_type: &ConnectorAuthType) -> (result: Result<Self, ConnectorError>)
        ensures
            match result {
                Ok(auth) => Self::parsed_from(auth, *auth_type),
                Err(error) => !(auth_type is SignatureKey) && error
                    == ConnectorError::FailedToObtainAuthType,
            },
    {
        match auth_type {
            ConnectorAuthType::SignatureKey { api_key, key1, api_secret } => Ok(
                NordeaAuthType {
                    client_id: key1.clone(),
                    client_secret: api_key.clone(),
                    eidas_private_key: api_secret.clone(),
                },
            ),
            _ => Err(ConnectorError::FailedToObtainAuthType),
        }
    }
}

/// Name of the configuration entry that holds the connector metadata.
pub const METADATA_CONFIG: &'static str = "merchant_connector_account.metadata";

/// Name of the configuration entry that holds an account type.
pub const ACCOUNT_TYPE_CONFIG: &'static str = "account_type";

/// What a merchant configures for Nordea: the account that is credited.
#[derive(Clone, PartialEq, Eq)]
pub struct NordeaConnectorMetadataObject {
    /// The account number, from the entry `value`.
    pub creditor_account_value: Secret,
    /// The kind of account number, from the entry `_type`.
    pub creditor_account_type: String,
}

/// The two entries that Nordea's metadata must hold, `value` and `_type`,
/// where both are there.
pub open spec fn decoded_metadata(meta_data: Option<ConnectorMetadata>) -> Option<
    (Seq<char>, Seq<char>),
> {
    match meta_data {
        Some(meta_data) => match (
            metadata_value(meta_data.entries@, "value"@),
            metadata_value(meta_data.entries@, "_type"@),
        ) {
            (Some(value), Some(kind)) => Some((value, kind)),
            _ => None,
        },
        None => None,
    }
}

impl NordeaConnectorMetadataObject {
    /// Decodes the metadata of a connector account. Metadata that is absent,
    /// or lacks one of the two entries, gives `InvalidConnectorConfig`.
    pub fn try_from(meta_data: &Option<ConnectorMetadata>) -> (result: Result<
        Self,
        ConnectorError,
    >)
        ensures
            match decoded_metadata(*meta_data) {
                Some((value, kind)) => result matches Ok(object) && object.creditor_account_value@
                    == value && object.creditor_account_type@ == kind,
                None => result matches Err(error) && error
                    == (ConnectorError::InvalidConnectorConfig { config: METADATA_CONFIG }),
            },
    {
        let failure = ConnectorError::InvalidConnectorConfig { config: METADATA_CONFIG };
        let entries = match meta_data {
            Some(entries) => entries,
            None => {
                return Err(failure);
            },
        };
        let value = match entries.get("value") {
            Some(value) => value,
            None => {
                return Err(failure);
            },
        };
        let kind = match entries.get("_type") {
            Some(kind) => kind,
            None => {
                return Err(failure);
            },
        };
        Ok(
            NordeaConnectorMetadataObject {
                creditor_account_value: value.clone(),
                creditor_account_type: String::from_str(kind.peek()),
            },
        )
    }
}

/// The kind of account number that an upper-case name stands for.
pub open spec fn account_type_of(name: Seq<char>) -> Option<AccountType> {
    if name == "IBAN"@ {
        Some(AccountType::Iban)
    } else if name == "BBAN_SE"@ {
        Some(AccountType::BbanSe)
    } else if name == "BBAN_DK"@ {
        Some(AccountType::BbanDk)
    } else if name == "BBAN_NO"@ {
        Some(AccountType::BbanNo)
    } else if name == "BGNR"@ {
        Some(AccountType::Bgnr)
    } else if name == "PGNR"@ {
        Some(AccountType::Pgnr)
    } else if name == "GIRO_DK"@ {
        Some(AccountType::GiroDk)
    } else if name == "BBAN_OTHER"@ {
        Some(AccountType::BbanOther)
    } else {
        None
    }
}

fn text_is(text: &String, wanted: &str) -> (result: bool)
    ensures
        result == (text@ == wanted@),
{
    let wanted = String::from_str(wanted);
    *text == wanted
}

impl AccountType {
    /// Reads a kind of account number from its name in upper case.
    pub fn from_uppercase(name: &str) -> (result: Option<AccountType>)
        ensures
            result == account_type_of(name@),
    {
        let name = String::from_str(name);
        if text_is(&name, "IBAN") {
            Some(AccountType::Iban)
        } else if text_is(&name, "BBAN_SE") {
            Some(AccountType::BbanSe)
        } else if text_is(&name, "BBAN_DK") {
            Some(AccountType::BbanDk)
        } else if text_is(&name, "BBAN_NO") {
            Some(AccountType::BbanNo)
        } else if text_is(&name, "BGNR") {
            Some(AccountType::Bgnr)
        } else if text_is(&name, "PGNR") {
            Some(AccountType::Pgnr)
        } else if text_is(&name, "GIRO_DK") {
            Some(AccountType::GiroDk)
        } else if text_is(&name, "BBAN_OTHER") {
            Some(AccountType::BbanOther)
        } else {
            None
        }
    }

    /// Reads a kind of account number from its name, in any case. A name
    /// that stands for none gives `InvalidConnectorConfig`.
    pub fn try_from(value: &str) -> (result: Result<AccountType, ConnectorError>)
        ensures
            match account_type_of(uppercase(value@)) {
                Some(kind) => result == Ok::<AccountType, ConnectorError>(kind),
                None => result == Err::<AccountType, ConnectorError>(
                    ConnectorError::InvalidConnectorConfig { config: ACCOUNT_TYPE_CONFIG },
                ),
            },
    {
        let upper = to_uppercase(value);
        match AccountType::from_uppercase(upper.as_str()) {
            Some(kind) => Ok(kind),
            None => Err(ConnectorError::InvalidConnectorConfig { config: ACCOUNT_TYPE_CONFIG }),
        }
    }
}

/// The kind of account number that the metadata declares; IBAN where the
/// declared name stands for none.
pub open spec fn creditor_account_type(declared: Seq<char>) -> AccountType {
    match account_type_of(uppercase(declared)) {
        Some(kind) => kind,
        None => AccountType::Iban,
    }
}

/// Whether `account` is the creditor of a payment in `currency` for the
/// merchant `name` in `country`, with the account number `value` of the
/// declared kind `kind`: no message, and an `RF` reference without a number.
pub open spec fn is_creditor_account(
    account: CreditorAccount,
    value: Seq<char>,
    kind: Seq<char>,
    currency: Currency,
    country: Option<Seq<char>>,
    name: Option<Seq<char>>,
) -> bool {
    &&& account.account.account_type == creditor_account_type(kind)
    &&& account.account.currency == Some(currency)
    &&& account.account.value@ == value
    &&& opt_country(account.country) == country
    &&& account.message is None
    &&& opt_secret(account.name) == name
    &&& account.reference.creditor_reference_type@ == "RF"@
    &&& account.reference.value is None
}

/// Builds the creditor of a payment in `currency` from the metadata of the
/// merchant's connector account. The merchant is the beneficiary.
pub fn creditor_account_from_metadata(
    meta_data: &Option<ConnectorMetadata>,
    currency: Currency,
    billing_country: &Option<CountryAlpha2>,
    merchant_account_id: &Option<Secret>,
) -> (result: Result<CreditorAccount, ConnectorError>)
    ensures
        match decoded_metadata(*meta_data) {
            Some((value, kind)) => result matches Ok(account) && is_creditor_account(
                account,
                value,
                kind,
                currency,
                opt_country(*billing_country),
                opt_secret(*merchant_account_id),
            ),
            None => result matches Err(error) && error
                == (ConnectorError::InvalidConnectorConfig { config: METADATA_CONFIG }),
        },
{
    let metadata = match NordeaConnectorMetadataObject::try_from(meta_data) {
        Ok(metadata) => metadata,
        Err(error) => {
            return Err(error);
        },
    };
    let account_type = match AccountType::try_from(metadata.creditor_account_type.as_str()) {
        Ok(kind) => kind,
        Err(_) => AccountType::Iban,
    };
    Ok(
        CreditorAccount {
            account: AccountNumber {
                account_type,
                currency: Some(currency),
                value: metadata.creditor_account_value,
            },
            country: clone_opt_country(billing_country),
            name: clone_opt_secret(merchant_account_id),
            message: None,
            reference: CreditorAccountReference {
                creditor_reference_type: String::from_str("RF"),
                value: None,
            },
        },
    )
}

/// Builds the creditor of the payment that `router_data` asks for.
pub fn get_creditor_account_from_metadata(router_data: &PaymentsAuthorizeRouterData) -> (result:
    Result<CreditorAccount, ConnectorError>)
    ensures
        match decoded_metadata(router_data.connector_meta_data) {
            Some((value, kind)) => result matches Ok(account) && is_creditor_account(
                account,
                value,
                kind,
                router_data.request.currency,
                opt_country(router_data.billing_country),
                opt_secret(router_data.request.merchant_account_id),
            ),
            None => result matches Err(error) && error
                == (ConnectorError::InvalidConnectorConfig { config: METADATA_CONFIG }),
        },
{
    creditor_account_from_metadata(
        &router_data.connector_meta_data,
        router_data.request.currency,
        &router_data.billing_country,
        &router_data.request.merchant_account_id,
    )
}

/// What a payment request is built from, whichever flow asks for it.
pub struct PaymentParts<'a> {
    pub payment_method_data: &'a PaymentMethodData,
    pub currency: Currency,
    pub description: &'a Option<String>,
    pub connector_request_reference_id: &'a String,
    pub connector_meta_data: &'a Option<ConnectorMetadata>,
    pub billing_country: &'a Option<CountryAlpha2>,
    pub merchant_account_id: &'a Option<Secret>,
}

/// Whether `request` is the payment of `amount` from the account `iban` to
/// the creditor that the metadata entries `value` and `kind` describe: every
/// optional part that the flow does not use is absent.
pub open spec fn is_sepa_payment_request(
    request: NordeaPaymentsRequest,
    amount: Seq<char>,
    iban: Seq<char>,
    value: Seq<char>,
    kind: Seq<char>,
    parts: PaymentParts<'_>,
) -> bool {
    &&& is_creditor_account(
        request.creditor_account,
        value,
        kind,
        parts.currency,
        opt_country(*parts.billing_country),
        opt_secret(*parts.merchant_account_id),
    )
    &&& request.debitor_account.account.account_type == AccountType::Iban
    &&& request.debitor_account.account.currency == Some(parts.currency)
    &&& request.debitor_account.account.value@ == iban
    &&& opt_text(request.debitor_account.message) == opt_text(*parts.description)
    &&& request.end_to_end_identification is None
    &&& opt_text(request.external_id) == Some(parts.connector_request_reference_id@)
    &&& request.instructed_amount.amount@ == amount
    &&& request.instructed_amount.currency == parts.currency
    &&& request.recurring is None
    &&& request.request_availability_of_funds is None
    &&& request.requested_execution_date is None
    &&& request.tpp_messages is None
    &&& request.urgency is None
}

/// Whether `result` is what building a payment of `amount` from `parts`
/// gives. Only a SEPA bank debit is supported: every other payment method,
/// and every other debit scheme, gives `UnsupportedPaymentMethod` with the
/// method's name. For a SEPA debit the metadata must decode, else
/// `InvalidConnectorConfig`.
pub open spec fn is_payment_request_outcome(
    result: Result<NordeaPaymentsRequest, ConnectorError>,
    amount: Seq<char>,
    parts: PaymentParts<'_>,
) -> bool {
    match *parts.payment_method_data {
        PaymentMethodData::BankDebit(BankDebitData::SepaBankDebit { iban }) => {
            match decoded_metadata(*parts.connector_meta_data) {
                Some((value, kind)) => match result {
                    Ok(request) => is_sepa_payment_request(
                        request,
                        amount,
                        iban@,
                        value,
                        kind,
                        parts,
                    ),
                    Err(_) => false,
                },
                None => match result {
                    Ok(_) => false,
                    Err(error) => error
                        == (ConnectorError::InvalidConnectorConfig { config: METADATA_CONFIG }),
                },
            }
        },
        other => match result {
            Err(ConnectorError::UnsupportedPaymentMethod(name)) => name@ == other.spec_name(),
            _ => false,
        },
    }
}

/// The parts of the payment that an authorize call asks for.
pub open spec fn authorize_parts(router_data: &PaymentsAuthorizeRouterData) -> PaymentParts<'_> {
    PaymentParts {
        payment_method_data: &router_data.request.payment_method_data,
        currency: router_data.request.currency,
        description: &router_data.description,
        connector_request_reference_id: &router_data.connector_request_reference_id,
        connector_meta_data: &router_data.connector_meta_data,
        billing_country: &router_data.billing_country,
        merchant_account_id: &router_data.request.merchant_account_id,
    }
}

impl NordeaPaymentsRequest {
    /// Builds the body of a payment initiation of `amount` from `parts`.
    pub fn from_parts(amount: &StringMajorUnit, parts: &PaymentParts<'_>) -> (result: Result<
        Self,
        ConnectorError,
    >)
        ensures
            is_payment_request_outcome(result, amount@, *parts),
    {
        match parts.payment_method_data {
            PaymentMethodData::BankDebit(BankDebitData::SepaBankDebit { iban }) => {
                let creditor_account = match creditor_account_from_metadata(
                    parts.connector_meta_data,
                    parts.currency,
                    parts.billing_country,
                    parts.merchant_account_id,
                ) {
                    Ok(account) => account,
                    Err(error) => {
                        return Err(error);
                    },
                };
                let debitor_account = DebitorAccount {
                    account: AccountNumber {
                        account_type: AccountType::Iban,
                        currency: Some(parts.currency),
                        value: iban.clone(),
                    },
                    message: clone_opt_text(parts.description),
                };
                let instructed_amount = InstructedAmount {
                    amount: amount.duplicate(),
                    currency: parts.currency,
                };
                Ok(
                    NordeaPaymentsRequest {
                        creditor_account,
                        debitor_account,
                        end_to_end_identification: None,
                        external_id: Some(parts.connector_request_reference_id.clone()),
                        instructed_amount,
                        recurring: None,
                        request_availability_of_funds: None,
                        requested_execution_date: None,
                        tpp_messages: None,
                        urgency: None,
                    },
                )
            },
            PaymentMethodData::BankDebit(BankDebitData::AchBankDebit)
            | PaymentMethodData::BankDebit(BankDebitData::BacsBankDebit)
            | PaymentMethodData::BankDebit(BankDebitData::BecsBankDebit)
            | PaymentMethodData::CardRedirect
            | PaymentMethodData::CardDetailsForNetworkTransactionId
            | PaymentMethodData::Wallet
            | PaymentMethodData::PayLater
            | PaymentMethodData::BankRedirect
            | PaymentMethodData::BankTransfer
            | PaymentMethodData::Crypto
            | PaymentMethodData::MandatePayment
            | PaymentMethodData::Reward
            | PaymentMethodData::RealTimePayment
            | PaymentMethodData::MobilePayment
            | PaymentMethodData::Upi
            | PaymentMethodData::Voucher
            | PaymentMethodData::GiftCard
            | PaymentMethodData::OpenBanking
            | PaymentMethodData::CardToken
            | PaymentMethodData::NetworkToken
            | PaymentMethodData::Card(_) => Err(
                ConnectorError::UnsupportedPaymentMethod(
                    String::from_str(parts.payment_method_data.name()),
                ),
            ),
        }
    }

    /// Builds the body of the payment initiation that an authorize call asks
    /// for, with its converted amount.
    pub fn try_from(item: &NordeaRouterData<&PaymentsAuthorizeRouterData>) -> (result: Result<
        Self,
        ConnectorError,
    >)
        ensures
            is_payment_request_outcome(result, item.amount@, authorize_parts(item.router_data)),
    {
        let router_data = item.router_data;
        let parts = PaymentParts {
            payment_method_data: &router_data.request.payment_method_data,
            currency: router_data.request.currency,
            description: &router_data.description,
            connector_request_reference_id: &router_data.connector_request_reference_id,
            connector_meta_data: &router_data.connector_meta_data,
            billing_country: &router_data.billing_country,
            merchant_account_id: &router_data.request.merchant_account_id,
        };
        NordeaPaymentsRequest::from_parts(&item.amount, &parts)
    }
}

impl From<NordeaSwaggerPaymentStatus> for AttemptStatus {
    fn from(item: NordeaSwaggerPaymentStatus) -> (result: Self) {
        match item {
            NordeaSwaggerPaymentStatus::Confirmed | NordeaSwaggerPaymentStatus::Paid => {
                AttemptStatus::Charged
            },
            NordeaSwaggerPaymentStatus::PendingConfirmation
            | NordeaSwaggerPaymentStatus::PendingSecondConfirmation
            | NordeaSwaggerPaymentStatus::PendingUserApproval => {
                AttemptStatus::AuthenticationPending
            },
            NordeaSwaggerPaymentStatus::OnHold | NordeaSwaggerPaymentStatus::Unknown => {
                AttemptStatus::Pending
            },
            NordeaSwaggerPaymentStatus::Rejected
            | NordeaSwaggerPaymentStatus::InsufficientFunds
            | NordeaSwaggerPaymentStatus::LimitExceeded
            | NordeaSwaggerPaymentStatus::UserApprovalFailed
            | NordeaSwaggerPaymentStatus::UserApprovalTimeout
            | NordeaSwaggerPaymentStatus::UserApprovalCancelled => AttemptStatus::Failure,
        }
    }
}

/// The attempt status of each of Nordea's payment statuses: a payment that
/// waits for the customer's approval is pending authentication, not merely
/// pending.
pub open spec fn attempt_status_of(item: NordeaSwaggerPaymentStatus) -> AttemptStatus {
    match item {
        NordeaSwaggerPaymentStatus::Confirmed => AttemptStatus::Charged,
        NordeaSwaggerPaymentStatus::Paid => AttemptStatus::Charged,
        NordeaSwaggerPaymentStatus::PendingConfirmation => AttemptStatus::AuthenticationPending,
        NordeaSwaggerPaymentStatus::PendingSecondConfirmation => {
            AttemptStatus::AuthenticationPending
        },
        NordeaSwaggerPaymentStatus::PendingUserApproval => AttemptStatus::AuthenticationPending,
        NordeaSwaggerPaymentStatus::OnHold => AttemptStatus::Pending,
        NordeaSwaggerPaymentStatus::Unknown => AttemptStatus::Pending,
        NordeaSwaggerPaymentStatus::Rejected => AttemptStatus::Failure,
        NordeaSwaggerPaymentStatus::InsufficientFunds => AttemptStatus::Failure,
        NordeaSwaggerPaymentStatus::LimitExceeded => AttemptStatus::Failure,
        NordeaSwaggerPaymentStatus::UserApprovalFailed => AttemptStatus::Failure,
        NordeaSwaggerPaymentStatus::UserApprovalTimeout => AttemptStatus::Failure,
        NordeaSwaggerPaymentStatus::UserApprovalCancelled => AttemptStatus::Failure,
    }
}

impl vstd::std_specs::convert::FromSpecImpl<NordeaSwaggerPaymentStatus> for AttemptStatus {
    open spec fn obeys_from_spec() -> bool {
        true
    }

    open spec fn from_spec(item: NordeaSwaggerPaymentStatus) -> Self {
        attempt_status_of(item)
    }
}

impl From<NordeaPaymentStatus> for AttemptStatus {
    fn from(item: NordeaPaymentStatus) -> (result: Self) {
        match item {
            NordeaPaymentStatus::Succeeded => AttemptStatus::Charged,
            NordeaPaymentStatus::Failed => AttemptStatus::Failure,
            NordeaPaymentStatus::Processing => AttemptStatus::Authorizing,
        }
    }
}

/// The attempt status of each coarse payment status.
pub open spec fn coarse_attempt_status_of(item: NordeaPaymentStatus) -> AttemptStatus {
    match item {
        NordeaPaymentStatus::Succeeded => AttemptStatus::Charged,
        NordeaPaymentStatus::Failed => AttemptStatus::Failure,
        NordeaPaymentStatus::Processing => AttemptStatus::Authorizing,
    }
}

impl vstd::std_specs::convert::FromSpecImpl<NordeaPaymentStatus> for AttemptStatus {
    open spec fn obeys_from_spec() -> bool {
        true
    }

    open spec fn from_spec(item: NordeaPaymentStatus) -> Self {
        coarse_attempt_status_of(item)
    }
}

impl From<crate::nordea::responses::RefundStatus> for RefundStatus {
    fn from(item: crate::nordea::responses::RefundStatus) -> (result: Self) {
        match item {
            crate::nordea::responses::RefundStatus::Succeeded => RefundStatus::Success,
            crate::nordea::responses::RefundStatus::Failed => RefundStatus::Failure,
            crate::nordea::responses::RefundStatus::Processing => RefundStatus::Pending,
        }
    }
}

/// The refund status of each of Nordea's refund statuses.
pub open spec fn refund_status_of(item: crate::nordea::responses::RefundStatus) -> RefundStatus {
    match item {
        crate::nordea::responses::RefundStatus::Succeeded => RefundStatus::Success,
        crate::nordea::responses::RefundStatus::Failed => RefundStatus::Failure,
        crate::nordea::responses::RefundStatus::Processing => RefundStatus::Pending,
    }
}

impl vstd::std_specs::convert::FromSpecImpl<crate::nordea::responses::RefundStatus> for RefundStatus {
    open spec fn obeys_from_spec() -> bool {
        true
    }

    open spec fn from_spec(item: crate::nordea::responses::RefundStatus) -> Self {
        refund_status_of(item)
    }
}

/// The first failure that an error body lists, where it lists one.
pub open spec fn first_failure(error_response: Option<&NordeaErrorBody>) -> Option<
    NordeaFailures,
> {
    match error_response {
        Some(body) => match body.nordea_failures {
            Some(failures) => if failures@.len() > 0 {
                Some(failures@[0])
            } else {
                None
            },
            None => None,
        },
        None => None,
    }
}

/// Returns the first failure that an error body lists, where it lists one.
pub fn get_error_data(error_response: Option<&NordeaErrorBody>) -> (result: Option<
    &NordeaFailures,
>)
    ensures
        match result {
            Some(failure) => first_failure(error_response) == Some(*failure),
            None => first_failure(error_response) is None,
        },
{
    match error_response {
        Some(body) => match &body.nordea_failures {
            Some(failures) => if failures.len() > 0 {
                Some(&failures[0])
            } else {
                None
            },
            None => None,
        },
        None => None,
    }
}

/// Where the customer approves the payment: the target of the first link
/// meant for signing, where the answer has such a link and it has a target.
pub open spec fn signing_target(links: Seq<NordeaLink>) -> Option<Seq<char>>
    decreases links.len(),
{
    if links.len() == 0 {
        None
    } else if opt_text(links[0].rel) == Some("signing"@) {
        opt_text(links[0].href)
    } else {
        signing_target(links.drop_first())
    }
}

/// The redirection that a payment answer asks for.
pub open spec fn redirection_target(links: Option<Vec<NordeaLink>>) -> Option<Seq<char>> {
    match links {
        Some(links) => signing_target(links@),
        None => None,
    }
}

/// Whether `form` sends the customer to `target` with a `GET` and no form
/// fields; no form where there is no target.
pub open spec fn is_redirection_to(form: Option<RedirectForm>, target: Option<Seq<char>>) -> bool {
    match (form, target) {
        (Some(form), Some(target)) => form.endpoint@ == target && form.method == Method::Get
            && form.form_fields@.len() == 0,
        (None, None) => true,
        _ => false,
    }
}

/// Whether `response` is the success that the payment `payment` gives: the
/// payment's identifier as resource and as reference, and the redirection to
/// the signing link where the payment has one.
pub open spec fn is_payment_outcome(
    response: Result<PaymentsResponseData, crate::errors::ErrorResponse>,
    payment: NordeaPaymentDetails,
) -> bool {
    match response {
        Ok(outcome) => {
            &&& match outcome.resource_id {
                ResponseId::ConnectorTransactionId(id) => id@ == payment.payment_id@,
                _ => false,
            }
            &&& is_redirection_to(outcome.redirection_data, redirection_target(payment.links))
            &&& opt_text(outcome.connector_response_reference_id) == Some(payment.payment_id@)
        },
        Err(_) => false,
    }
}

/// Whether `response` is the success that the refund answer `refund` gives:
/// the refund's identifier and the refund status of its status.
pub open spec fn is_refund_outcome(
    response: Result<RefundsResponseData, crate::errors::ErrorResponse>,
    refund: RefundResponse,
) -> bool {
    match response {
        Ok(outcome) => outcome.connector_refund_id@ == refund.id@ && outcome.refund_status
            == refund_status_of(refund.status),
        Err(_) => false,
    }
}

/// Returns the target of the first link meant for signing.
pub fn find_signing_target(offered: &Option<Vec<NordeaLink>>) -> (result: Option<String>)
    ensures
        opt_text(result) == redirection_target(*offered),
{
    let links = match offered {
        Some(links) => links,
        None => {
            return None;
        },
    };
    let mut index: usize = 0;
    proof {
        assert(links@.skip(0) =~= links@);
    }
    while index < links.len()
        invariant
            index <= links.len(),
            *offered == Some(*links),
            signing_target(links@) == signing_target(links@.skip(index as int)),
        decreases links.len() - index,
    {
        proof {
            let rest = links@.skip(index as int);
            assert(rest[0] == links@[index as int]);
            assert(rest.drop_first() =~= links@.skip(index + 1));
        }
        let meant_for_signing = match &links[index].rel {
            Some(rel) => text_is(rel, "signing"),
            None => false,
        };
        if meant_for_signing {
            return clone_opt_text(&links[index].href);
        }
        index += 1;
    }
    None
}

/// Whether `result` is what taking the payment answer `response` into the
/// record `before` gives. An answer without its payment part gives
/// `ResponseHandlingFailed`. Else the record gets the attempt status of the
/// payment's status and the payment as its result; the rest of the record
/// stays.
pub open spec fn is_payments_record<Request>(
    result: Result<RouterData<Request, PaymentsResponseData>, ConnectorError>,
    response: NordeaPaymentsResponse,
    before: RouterData<Request, PaymentsResponseData>,
) -> bool {
    match response.payments_response {
        Some(payment) => match result {
            Ok(data) => same_call(data, before) && data.status == attempt_status_of(
                payment.payment_status,
            ) && is_payment_outcome(data.response, payment),
            Err(_) => false,
        },
        None => match result {
            Ok(_) => false,
            Err(error) => error == ConnectorError::ResponseHandlingFailed,
        },
    }
}

/// Whether `result` is what taking the refund answer `response` into the
/// record `before` gives: the refund as the record's result, and the rest of
/// the record, its status too, as it was.
pub open spec fn is_refund_record(
    result: Result<RefundsRouterData, ConnectorError>,
    response: RefundResponse,
    before: RefundsRouterData,
) -> bool {
    match result {
        Ok(data) => same_call(data, before) && data.status == before.status && is_refund_outcome(
            data.response,
            response,
        ),
        Err(_) => false,
    }
}

impl<Request> ResponseRouterData<NordeaPaymentsResponse, Request, PaymentsResponseData> {
    /// Takes Nordea's answer to a payment call into the call's record. An
    /// answer without its payment part gives `ResponseHandlingFailed`. Else
    /// the record gets the attempt status of the payment's status, the
    /// payment's identifier as resource and as reference, and the
    /// redirection to the signing link where the answer has one; the rest of
    /// the record stays.
    pub fn try_into_router_data(self) -> (result: Result<
        RouterData<Request, PaymentsResponseData>,
        ConnectorError,
    >)
        ensures
            is_payments_record(result, self.response, self.data),
    {
        let payment = match &self.response.payments_response {
            Some(payment) => payment,
            None => {
                return Err(ConnectorError::ResponseHandlingFailed);
            },
        };
        let resource_id = ResponseId::ConnectorTransactionId(payment.payment_id.clone());
        let redirection_data = match find_signing_target(&payment.links) {
            Some(target) => Some(
                RedirectForm { endpoint: target, method: Method::Get, form_fields: Vec::new() },
            ),
            None => None,
        };
        let outcome = PaymentsResponseData {
            resource_id,
            redirection_data,
            connector_response_reference_id: Some(payment.payment_id.clone()),
        };
        let status = match payment.payment_status {
            NordeaSwaggerPaymentStatus::PendingConfirmation
            | NordeaSwaggerPaymentStatus::PendingUserApproval => {
                AttemptStatus::AuthenticationPending
            },
            other => AttemptStatus::from(other),
        };
        let data = self.data;
        Ok(
            RouterData {
                status,
                connector_auth_type: data.connector_auth_type,
                access_token: data.access_token,
                description: data.description,
                connector_request_reference_id: data.connector_request_reference_id,
                connector_meta_data: data.connector_meta_data,
                billing_country: data.billing_country,
                request: data.request,
                response: Ok(outcome),
            },
        )
    }
}

impl NordeaRefundRequest {
    /// Builds the body of a refund: the converted amount.
    pub fn try_from(item: &NordeaRouterData<&RefundsRouterData>) -> (result: Result<
        Self,
        ConnectorError,
    >)
        ensures
            result matches Ok(request) && request.amount@ == item.amount@,
    {
        Ok(NordeaRefundRequest { amount: item.amount.duplicate() })
    }
}

impl ResponseRouterData<RefundResponse, RefundsData, RefundsResponseData> {
    /// Takes Nordea's answer to a refund call into the call's record: the
    /// refund's identifier and the refund status of its status. The rest of
    /// the record stays.
    pub fn try_into_router_data(self) -> (result: Result<RefundsRouterData, ConnectorError>)
        ensures
            is_refund_record(result, self.response, self.data),
    {
        let outcome = RefundsResponseData {
            connector_refund_id: self.response.id.clone(),
            refund_status: RefundStatus::from(self.response.status),
        };
        let data = self.data;
        Ok(
            RouterData {
                status: data.status,
                connector_auth_type: data.connector_auth_type,
                access_token: data.access_token,
                description: data.description,
                connector_request_reference_id: data.connector_request_reference_id,
                connector_meta_data: data.connector_meta_data,
                billing_country: data.billing_country,
                request: data.request,
                response: Ok(outcome),
            },
        )
    }
}

/// Whether `status` is the attempt status of `item`.
pub open spec fn is_attempt_status_of(item: NordeaSwaggerPaymentStatus, status: AttemptStatus) -> bool {
    attempt_status_of(item) == status
}

/// Whether `status` is the attempt status of the coarse status `item`.
pub open spec fn is_coarse_attempt_status_of(item: NordeaPaymentStatus, status: AttemptStatus) -> bool {
    coarse_attempt_status_of(item) == status
}

/// Whether `status` is the refund status of `item`.
pub open spec fn is_refund_status_of(
    item: crate::nordea::responses::RefundStatus,
    status: RefundStatus,
) -> bool {
    refund_status_of(item) == status
}

/// The mapping of Nordea's payment statuses is total: every one of them has
/// exactly one attempt status, and it is charged, pending authentication,
/// pending or failed.
pub proof fn lemma_attempt_status_is_total(item: NordeaSwaggerPaymentStatus)
    ensures
        exists|status: AttemptStatus| #[trigger]
            is_attempt_status_of(item, status) && forall|other: AttemptStatus| #[trigger]
                is_attempt_status_of(item, other) ==> other == status,
        attempt_status_of(item) == AttemptStatus::Charged || attempt_status_of(item)
            == AttemptStatus::AuthenticationPending || attempt_status_of(item)
            == AttemptStatus::Pending || attempt_status_of(item) == AttemptStatus::Failure,
{
    assert(is_attempt_status_of(item, attempt_status_of(item)));
}

/// The mapping of Nordea's coarse payment statuses is total: every one of
/// them has exactly one attempt status.
pub proof fn lemma_coarse_attempt_status_is_total(item: NordeaPaymentStatus)
    ensures
        exists|status: AttemptStatus| #[trigger]
            is_coarse_attempt_status_of(item, status) && forall|other: AttemptStatus| #[trigger]
                is_coarse_attempt_status_of(item, other) ==> other == status,
{
    assert(is_coarse_attempt_status_of(item, coarse_attempt_status_of(item)));
}

/// The mapping of Nordea's refund statuses is total: every one of them has
/// exactly one refund status.
pub proof fn lemma_refund_status_is_total(item: crate::nordea::responses::RefundStatus)
    ensures
        exists|status: RefundStatus| #[trigger]
            is_refund_status_of(item, status) && forall|other: RefundStatus| #[trigger]
                is_refund_status_of(item, other) ==> other == status,
{
    assert(is_refund_status_of(item, refund_status_of(item)));
}

} // verus!
