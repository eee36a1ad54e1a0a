//! The bodies of the requests sent to Nordea.

use vstd::prelude::*;
use crate::amount::StringMajorUnit;
use crate::currency::Currency;
use crate::domain::CountryAlpha2;
use crate::secret::Secret;

verus! {

/// A converted amount together with the call it belongs to: the one input of
/// every request builder.
pub struct NordeaRouterData<T> {
    pub amount: StringMajorUnit,
    pub router_data: T,
}

/// The grants by which a token is obtained.
#[derive(Clone, Copy, Debug, PartialEq, Eq, Structural)]
pub enum GrantType {
    AuthorizationCode,
    RefreshToken,
}

/// The scopes that an access authorisation can ask for.
#[derive(Clone, Copy, Debug, PartialEq, Eq, Structural)]
pub enum AccessScope {
    AccountsBasic,
    AccountsBalances,
    AccountsDetails,
    AccountsTransactions,
    PaymentsMultiple,
    PaymentsSingleSca,
    CardsInformation,
    CardsTransactions,
}

/// The body of a token exchange.
#[derive(Clone, PartialEq, Eq)]
pub struct NordeaOAuthTokenExchangeRequest {
    pub grant_type: GrantType,
    /// For the authorisation code grant.
    pub code: Option<Secret>,
    pub redirect_uri: Option<String>,
    /// For the refresh token grant.
    pub refresh_token: Option<Secret>,
}

/// The kinds of account number.
#[derive(Clone, Copy, Debug, PartialEq, Eq, Structural)]
pub enum AccountType {
    /// International bank account number.
    Iban,
    /// National bank account number of Sweden.
    BbanSe,
    /// National bank account number of Denmark.
    BbanDk,
    /// National bank account number of Norway.
    BbanNo,
    /// Bankgiro number.
    Bgnr,
    /// Plusgiro number.
    Pgnr,
    /// Creditor number (Giro) of Denmark.
    GiroDk,
    /// Any bank account number, without check-digit validation.
    BbanOther,
}

/// An account number with its kind.
#[derive(Clone, PartialEq, Eq)]
pub struct AccountNumber {
    pub account_type: AccountType,
    /// Currency of the account: mandatory for a debtor, optional for a
    /// creditor.
    pub currency: Option<Currency>,
    pub value: Secret,
}

/// The reference that a creditor is paid under.
#[derive(Clone, PartialEq, Eq)]
pub struct CreditorAccountReference {
    /// `RF` or `Invoice` for Finnish SEPA payments, `OCR` for Norwegian KID
    /// payments, a form code for Danish transfer forms.
    pub creditor_reference_type: String,
    pub value: Option<Secret>,
}

/// The party that receives a payment.
#[derive(Clone, PartialEq, Eq)]
pub struct CreditorAccount {
    pub account: AccountNumber,
    pub country: Option<CountryAlpha2>,
    /// Message that appears on the creditor's transaction.
    pub message: Option<String>,
    pub name: Option<Secret>,
    pub reference: CreditorAccountReference,
}

/// The party that pays.
#[derive(Clone, PartialEq, Eq)]
pub struct DebitorAccount {
    pub account: AccountNumber,
    /// Message that appears on the debtor's transaction.
    pub message: Option<String>,
}

/// The amount of a payment in major units, with its currency.
#[derive(Clone, Debug, PartialEq, Eq)]
pub struct InstructedAmount {
    pub amount: StringMajorUnit,
    pub currency: Currency,
}

/// How often a recurring payment repeats.
#[derive(Clone, Copy, Debug, PartialEq, Eq, Structural)]
pub enum RecurrenceType {
    Daily,
    Weekly,
    Biweekly,
    MonthlySameDay,
    MonthlyEom,
    QuartelySameDay,
    QuartelyEom,
    SemiAnnualySameDay,
    SemiAnnualyEom,
    TriAnnuallySameDay,
    YearlySameDay,
    YearlyEom,
    EveryMinuteSandboxOnly,
}

/// Whether the availability of funds is to be checked.
#[derive(Clone, Copy, Debug, PartialEq, Eq, Structural)]
pub enum FundsAvailabilityRequest {
    True,
    False,
}

/// How fast a payment is to be executed.
#[derive(Clone, Copy, Debug, PartialEq, Eq, Structural)]
pub enum PaymentsUrgency {
    Standard,
    Express,
    Sameday,
}

/// The recurrence of a payment.
#[derive(Clone, Debug, PartialEq, Eq)]
pub struct RecurringInformation {
    /// Number of occurrences.
    pub count: Option<i32>,
    /// Day on which the recurrence ends, as `YYYY-MM-DD`.
    pub end_date: Option<String>,
    pub recurrence_type: Option<RecurrenceType>,
}

/// The weight of a message to a third party.
#[derive(Clone, Copy, Debug, PartialEq, Eq, Structural)]
pub enum TppCategory {
    Error,
    Warning,
    Info,
}

/// The codes of messages to a third party.
#[derive(Clone, Copy, Debug, PartialEq, Eq, Structural)]
pub enum TppCode {
    Ds0a,
    Narr,
    Am21,
    Am04,
    Tm01,
    Am12,
    Rc06,
    Rc07,
    Rc04,
    Ag06,
    Bg06,
    Be22,
    Be20,
    Ff06,
    Be19,
    Am03,
    Am11,
    Ch04,
    Dt01,
    Ch03,
    Ff08,
    Ac10,
    Ac02,
    Ag08,
    Rr09,
    Rc11,
    Ff10,
    Rr10,
    Ff05,
    Ch15,
    Ff04,
    Ac11,
    Ac03,
    Ac13,
    Ac14,
    Ac05,
    Ac06,
    Rr07,
    Dt03,
    Am13,
    Ds24,
    Fr01,
    Am02,
}

/// A message to a third party.
#[derive(Clone, Debug, PartialEq, Eq)]
pub struct ThirdPartyMessages {
    pub category: Option<TppCategory>,
    pub code: Option<TppCode>,
    pub text: Option<String>,
}

/// The body of a payment initiation.
#[derive(Clone, PartialEq, Eq)]
pub struct NordeaPaymentsRequest {
    pub creditor_account: CreditorAccount,
    pub debitor_account: DebitorAccount,
    /// Free text reference that is passed on through the whole chain.
    pub end_to_end_identification: Option<String>,
    /// Identification that the caller assigns to the payment.
    pub external_id: Option<String>,
    pub instructed_amount: InstructedAmount,
    pub recurring: Option<RecurringInformation>,
    pub request_availability_of_funds: Option<FundsAvailabilityRequest>,
    /// Preferred day of execution, as `YYYY-MM-DD`.
    pub requested_execution_date: Option<String>,
    pub tpp_messages: Option<Vec<ThirdPartyMessages>>,
    pub urgency: Option<PaymentsUrgency>,
}

/// The body of a refund.
#[derive(Clone, Debug, PartialEq, Eq)]
pub struct NordeaRefundRequest {
    pub amount: StringMajorUnit,
}

} // verus!
