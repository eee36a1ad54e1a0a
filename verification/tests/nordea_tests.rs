use signed_connectors::amount::StringMajorUnit;
use signed_connectors::configs::{ConnectorParams, Connectors, CurrencyUnit};
use signed_connectors::currency::Currency;
use signed_connectors::domain::{
    AccessToken, AttemptStatus, BankDebitData, Card, CaptureMethod, ConnectorAuthType,
    ConnectorMetadata, CountryAlpha2, MetadataEntry, PaymentMethodData, PaymentsAuthorizeData,
    PaymentsAuthorizeRouterData, PaymentsPreProcessingData, PaymentsPreProcessingRouterData,
    PaymentsResponseData, PaymentsSyncData, PaymentsSyncRouterData, RedirectForm, RefundStatus,
    RefundsData, RefundsResponseData, RefundsRouterData, ResponseId, ResponseRouterData,
    RouterData,
};
use signed_connectors::errors::{
    ConnectorError, ErrorResponse, NO_ERROR_CODE, NO_ERROR_MESSAGE,
};
use signed_connectors::nordea::requests::{
    AccountType, NordeaPaymentsRequest, NordeaRefundRequest, NordeaRouterData,
};
use signed_connectors::nordea::responses::{
    NordeaErrorBody, NordeaErrorResponse, NordeaFailures, NordeaLink, NordeaPaymentDetails,
    NordeaPaymentsResponse, NordeaSwaggerPaymentStatus, RefundResponse,
    RefundStatus as NordeaRefundStatus,
};
use signed_connectors::nordea::transformers::{
    find_signing_target, get_creditor_account_from_metadata, get_error_data, NordeaAuthType,
    NordeaConnectorMetadataObject,
};
use signed_connectors::nordea::{
    EventClass, FeatureStatus, Nordea, PaymentConnectorCategory, PaymentMethod, PaymentMethodType,
};
use signed_connectors::request::RequestContent;
use signed_connectors::secret::Secret;
use signed_connectors::signature::Method;

fn secret(text: &str) -> Secret {
    Secret::new(text.to_string())
}

fn no_response<T>() -> Result<T, ErrorResponse> {
    Err(ErrorResponse { status_code: 0, code: String::new(), message: String::new(), reason: None })
}

fn metadata(entries: &[(&str, &str)]) -> Option<ConnectorMetadata> {
    Some(ConnectorMetadata {
        entries: entries
            .iter()
            .map(|(key, value)| MetadataEntry { key: key.to_string(), value: secret(value) })
            .collect(),
    })
}

fn connectors() -> Connectors {
    Connectors {
        monei: ConnectorParams { base_url: "https://api.monei.example".to_string() },
        nordea: ConnectorParams { base_url: "https://api.nordea.example".to_string() },
    }
}

fn authorize_call(
    payment_method_data: PaymentMethodData,
    meta: Option<ConnectorMetadata>,
) -> PaymentsAuthorizeRouterData {
    RouterData {
        status: AttemptStatus::Started,
        connector_auth_type: ConnectorAuthType::NoKey,
        access_token: Some(AccessToken { token: secret("token"), expires: 3600 }),
        description: Some("two tickets".to_string()),
        connector_request_reference_id: "order-7".to_string(),
        connector_meta_data: meta,
        billing_country: Some(CountryAlpha2 { code: "FI".to_string() }),
        request: PaymentsAuthorizeData {
            payment_method_data,
            minor_amount: 1000,
            currency: Currency::EUR,
            email: Some("ada@example.com".to_string()),
            customer_name: Some(secret("Ada Lovelace")),
            capture_method: None,
            router_return_url: None,
            merchant_account_id: Some(secret("merchant-1")),
            ip_address: Some(secret("203.0.113.7")),
        },
        response: no_response(),
    }
}

fn sepa() -> PaymentMethodData {
    PaymentMethodData::BankDebit(BankDebitData::SepaBankDebit {
        iban: secret("FI2112345600000785"),
    })
}

fn build(call: &PaymentsAuthorizeRouterData) -> Result<NordeaPaymentsRequest, ConnectorError> {
    let item = NordeaRouterData::from((StringMajorUnit::new("10.00".to_string()), call));
    NordeaPaymentsRequest::try_from(&item)
}

fn failure_of<T>(result: Result<T, ConnectorError>) -> ConnectorError {
    match result {
        Ok(_) => panic!("the call fails"),
        Err(error) => error,
    }
}

fn value_of<T>(result: Result<T, ConnectorError>) -> T {
    match result {
        Ok(value) => value,
        Err(error) => panic!("the call succeeds: {:?}", error),
    }
}

#[test]
fn auth_is_read_from_a_signature_key() {
    let bundle = ConnectorAuthType::SignatureKey {
        api_key: secret("the-secret"),
        key1: secret("the-id"),
        api_secret: secret("the-key"),
    };
    let auth = value_of(NordeaAuthType::try_from(&bundle));
    assert_eq!(auth.client_id.peek(), "the-id");
    assert_eq!(auth.client_secret.peek(), "the-secret");
    assert_eq!(auth.eidas_private_key.peek(), "the-key");
}

#[test]
fn auth_of_any_other_shape_fails() {
    let bundles = vec![
        ConnectorAuthType::TemporaryAuth,
        ConnectorAuthType::HeaderKey { api_key: secret("a") },
        ConnectorAuthType::BodyKey { api_key: secret("a"), key1: secret("b") },
        ConnectorAuthType::MultiAuthKey {
            api_key: secret("a"),
            key1: secret("b"),
            api_secret: secret("c"),
            key2: secret("d"),
        },
        ConnectorAuthType::CertificateAuth { certificate: secret("a"), private_key: secret("b") },
        ConnectorAuthType::NoKey,
    ];
    for bundle in bundles {
        assert_eq!(
            failure_of(NordeaAuthType::try_from(&bundle)),
            ConnectorError::FailedToObtainAuthType
        );
    }
}

#[test]
fn account_type_is_read_in_any_case() {
    assert_eq!(AccountType::try_from("IBAN"), Ok(AccountType::Iban));
    assert_eq!(AccountType::try_from("iban"), Ok(AccountType::Iban));
    assert_eq!(AccountType::try_from("Bban_Se"), Ok(AccountType::BbanSe));
    assert_eq!(AccountType::try_from("bban_dk"), Ok(AccountType::BbanDk));
    assert_eq!(AccountType::try_from("BBAN_NO"), Ok(AccountType::BbanNo));
    assert_eq!(AccountType::try_from("bgnr"), Ok(AccountType::Bgnr));
    assert_eq!(AccountType::try_from("pgnr"), Ok(AccountType::Pgnr));
    assert_eq!(AccountType::try_from("giro_dk"), Ok(AccountType::GiroDk));
    assert_eq!(AccountType::try_from("bban_other"), Ok(AccountType::BbanOther));
    assert_eq!(
        AccountType::try_from("swift"),
        Err(ConnectorError::InvalidConnectorConfig { config: "account_type" })
    );
    assert_eq!(
        AccountType::try_from(""),
        Err(ConnectorError::InvalidConnectorConfig { config: "account_type" })
    );
    assert_eq!(AccountType::from_uppercase("IBAN"), Some(AccountType::Iban));
    assert_eq!(AccountType::from_uppercase("iban"), None);
}

#[test]
fn metadata_decodes_when_both_entries_are_there() {
    let object = value_of(NordeaConnectorMetadataObject::try_from(&metadata(&[
        ("other", "x"),
        ("value", "FI7473834510057469"),
        ("_type", "IBAN"),
        ("value", "second"),
    ])));
    assert_eq!(object.creditor_account_value.peek(), "FI7473834510057469");
    assert_eq!(object.creditor_account_type, "IBAN");
}

#[test]
fn metadata_that_is_absent_or_partial_is_invalid_config() {
    let expected =
        ConnectorError::InvalidConnectorConfig { config: "merchant_connector_account.metadata" };
    assert_eq!(failure_of(NordeaConnectorMetadataObject::try_from(&None)), expected);
    assert_eq!(failure_of(NordeaConnectorMetadataObject::try_from(&metadata(&[]))), expected);
    assert_eq!(
        failure_of(NordeaConnectorMetadataObject::try_from(&metadata(&[("value", "x")]))),
        expected
    );
    assert_eq!(
        failure_of(NordeaConnectorMetadataObject::try_from(&metadata(&[("_type", "IBAN")]))),
        expected
    );
}

#[test]
fn creditor_account_comes_from_metadata() {
    let call = authorize_call(sepa(), metadata(&[("value", "1234567"), ("_type", "bban_se")]));
    let account = value_of(get_creditor_account_from_metadata(&call));
    assert_eq!(account.account.account_type, AccountType::BbanSe);
    assert_eq!(account.account.currency, Some(Currency::EUR));
    assert_eq!(account.account.value.peek(), "1234567");
    assert_eq!(account.country, Some(CountryAlpha2 { code: "FI".to_string() }));
    assert_eq!(account.message, None);
    assert_eq!(account.name.as_ref().map(|name| name.peek()), Some("merchant-1"));
    assert_eq!(account.reference.creditor_reference_type, "RF");
    assert!(account.reference.value.is_none());
}

#[test]
fn unknown_account_type_falls_back_to_iban() {
    let call = authorize_call(sepa(), metadata(&[("value", "1"), ("_type", "something")]));
    let account = value_of(get_creditor_account_from_metadata(&call));
    assert_eq!(account.account.account_type, AccountType::Iban);
}

#[test]
fn sepa_debit_builds_a_payment_request() {
    let call = authorize_call(sepa(), metadata(&[("value", "FI74"), ("_type", "IBAN")]));
    let request = value_of(build(&call));
    assert_eq!(request.creditor_account.account.value.peek(), "FI74");
    assert_eq!(request.creditor_account.account.account_type, AccountType::Iban);
    assert_eq!(request.debitor_account.account.account_type, AccountType::Iban);
    assert_eq!(request.debitor_account.account.currency, Some(Currency::EUR));
    assert_eq!(request.debitor_account.account.value.peek(), "FI2112345600000785");
    assert_eq!(request.debitor_account.message, Some("two tickets".to_string()));
    assert_eq!(request.end_to_end_identification, None);
    assert_eq!(request.external_id, Some("order-7".to_string()));
    assert_eq!(request.instructed_amount.amount.get_amount_as_string(), "10.00");
    assert_eq!(request.instructed_amount.currency, Currency::EUR);
    assert_eq!(request.recurring, None);
    assert_eq!(request.request_availability_of_funds, None);
    assert_eq!(request.requested_execution_date, None);
    assert_eq!(request.tpp_messages, None);
    assert_eq!(request.urgency, None);
}

#[test]
fn sepa_debit_without_metadata_is_invalid_config() {
    let call = authorize_call(sepa(), None);
    assert_eq!(
        failure_of(build(&call)),
        ConnectorError::InvalidConnectorConfig { config: "merchant_connector_account.metadata" }
    );
}

#[test]
fn every_other_payment_method_is_unsupported_by_name() {
    let card = Card {
        card_number: secret("4111111111111111"),
        card_exp_month: secret("12"),
        card_exp_year: secret("30"),
        card_cvc: secret("123"),
    };
    let table = vec![
        (PaymentMethodData::Card(card), "Card"),
        (
            PaymentMethodData::CardDetailsForNetworkTransactionId,
            "CardDetailsForNetworkTransactionId",
        ),
        (PaymentMethodData::CardRedirect, "CardRedirect"),
        (PaymentMethodData::Wallet, "Wallet"),
        (PaymentMethodData::PayLater, "PayLater"),
        (PaymentMethodData::BankRedirect, "BankRedirect"),
        (PaymentMethodData::BankDebit(BankDebitData::AchBankDebit), "AchBankDebit"),
        (PaymentMethodData::BankDebit(BankDebitData::BecsBankDebit), "BecsBankDebit"),
        (PaymentMethodData::BankDebit(BankDebitData::BacsBankDebit), "BacsBankDebit"),
        (PaymentMethodData::BankTransfer, "BankTransfer"),
        (PaymentMethodData::Crypto, "Crypto"),
        (PaymentMethodData::MandatePayment, "MandatePayment"),
        (PaymentMethodData::Reward, "Reward"),
        (PaymentMethodData::RealTimePayment, "RealTimePayment"),
        (PaymentMethodData::Upi, "Upi"),
        (PaymentMethodData::Voucher, "Voucher"),
        (PaymentMethodData::GiftCard, "GiftCard"),
        (PaymentMethodData::CardToken, "CardToken"),
        (PaymentMethodData::OpenBanking, "OpenBanking"),
        (PaymentMethodData::NetworkToken, "NetworkToken"),
        (PaymentMethodData::MobilePayment, "MobilePayment"),
    ];
    for (method, name) in table {
        let call = authorize_call(method, None);
        assert_eq!(
            failure_of(build(&call)),
            ConnectorError::UnsupportedPaymentMethod(name.to_string())
        );
    }
    assert_eq!(sepa().name(), "SepaBankDebit");
}

#[test]
fn authorize_body_converts_the_amount() {
    let nordea = Nordea::new();
    let mut call = authorize_call(sepa(), metadata(&[("value", "FI74"), ("_type", "IBAN")]));
    call.request.minor_amount = 123456;
    let request = value_of(nordea.authorize_get_request_body(&call));
    assert_eq!(request.instructed_amount.amount.get_amount_as_string(), "1234.56");
    call.request.currency = Currency::CLF;
    assert_eq!(
        failure_of(nordea.authorize_get_request_body(&call)),
        ConnectorError::UnsupportedCurrency
    );
}

fn pre_processing_call(
    minor_amount: Option<i64>,
    currency: Option<Currency>,
    payment_method_data: Option<PaymentMethodData>,
) -> PaymentsPreProcessingRouterData {
    RouterData {
        status: AttemptStatus::Started,
        connector_auth_type: ConnectorAuthType::NoKey,
        access_token: None,
        description: None,
        connector_request_reference_id: "order-8".to_string(),
        connector_meta_data: metadata(&[("value", "FI74"), ("_type", "IBAN")]),
        billing_country: None,
        request: PaymentsPreProcessingData {
            payment_method_data,
            minor_amount,
            currency,
            merchant_account_id: None,
        },
        response: no_response(),
    }
}

#[test]
fn pre_processing_body_needs_amount_currency_and_method() {
    let nordea = Nordea::new();
    assert_eq!(
        failure_of(nordea.pre_processing_get_request_body(&pre_processing_call(None, None, None))),
        ConnectorError::MissingRequiredField { field_name: "minor_amount" }
    );
    assert_eq!(
        failure_of(
            nordea.pre_processing_get_request_body(&pre_processing_call(Some(1), None, None))
        ),
        ConnectorError::MissingRequiredField { field_name: "currency" }
    );
    assert_eq!(
        failure_of(nordea.pre_processing_get_request_body(&pre_processing_call(
            Some(1),
            Some(Currency::CLF),
            None
        ))),
        ConnectorError::UnsupportedCurrency
    );
    assert_eq!(
        failure_of(nordea.pre_processing_get_request_body(&pre_processing_call(
            Some(1),
            Some(Currency::EUR),
            None
        ))),
        ConnectorError::MissingRequiredField { field_name: "payment_method_data" }
    );
    let request = value_of(nordea.pre_processing_get_request_body(&pre_processing_call(
        Some(2050),
        Some(Currency::EUR),
        Some(sepa()),
    )));
    assert_eq!(request.instructed_amount.amount.get_amount_as_string(), "20.50");
    assert_eq!(request.external_id, Some("order-8".to_string()));
    assert_eq!(request.debitor_account.message, None);
    assert!(request.creditor_account.name.is_none());
    assert_eq!(request.creditor_account.country, None);
}

fn refund_call() -> RefundsRouterData {
    RouterData {
        status: AttemptStatus::Charged,
        connector_auth_type: ConnectorAuthType::NoKey,
        access_token: None,
        description: None,
        connector_request_reference_id: "refund-1".to_string(),
        connector_meta_data: None,
        billing_country: None,
        request: RefundsData {
            minor_refund_amount: 250,
            currency: Currency::EUR,
            reason: Some("returned".to_string()),
        },
        response: no_response(),
    }
}

#[test]
fn refund_body_is_the_converted_amount() {
    let nordea = Nordea::new();
    let call = refund_call();
    let request = value_of(nordea.refund_execute_get_request_body(&call));
    assert_eq!(request.amount.get_amount_as_string(), "2.50");
    let item = NordeaRouterData::from((StringMajorUnit::new("7.00".to_string()), &call));
    assert_eq!(
        NordeaRefundRequest::try_from(&item),
        Ok(NordeaRefundRequest { amount: StringMajorUnit::new("7.00".to_string()) })
    );
}

#[test]
fn flow_addresses() {
    let nordea = Nordea::new();
    let call = authorize_call(sepa(), None);
    assert_eq!(
        nordea.authorize_get_url(&call, &connectors()),
        Ok("https://api.nordea.example/personal/v5/payments".to_string())
    );
    assert_eq!(
        nordea.pre_processing_get_url(&pre_processing_call(None, None, None), &connectors()),
        Ok("https://api.nordea.example/personal/v5/payments/sepa-credit-transfer".to_string())
    );
    let mut sync = sync_call(Some("pay-9"));
    assert_eq!(
        nordea.psync_get_url(&sync, &connectors()),
        Ok("https://api.nordea.example/personal/v5/payments/pay-9".to_string())
    );
    sync.request.connector_transaction_id = None;
    assert_eq!(
        nordea.psync_get_url(&sync, &connectors()),
        Err(ConnectorError::MissingConnectorTransactionID)
    );
    assert_eq!(
        nordea.refund_execute_get_url(&refund_call(), &connectors()),
        Err(ConnectorError::NotImplemented("get_url method".to_string()))
    );
    assert_eq!(
        nordea.refund_sync_get_url(&refund_call(), &connectors()),
        Err(ConnectorError::NotImplemented("get_url method".to_string()))
    );
    assert_eq!(
        failure_of(nordea.refund_execute_build_request(&refund_call(), &connectors())),
        ConnectorError::NotImplemented("get_url method".to_string())
    );
    assert_eq!(
        failure_of(nordea.refund_sync_build_request(&refund_call(), &connectors())),
        ConnectorError::NotImplemented("get_url method".to_string())
    );
}

fn sync_call(payment: Option<&str>) -> PaymentsSyncRouterData {
    RouterData {
        status: AttemptStatus::Pending,
        connector_auth_type: ConnectorAuthType::NoKey,
        access_token: None,
        description: None,
        connector_request_reference_id: "order-9".to_string(),
        connector_meta_data: None,
        billing_country: None,
        request: PaymentsSyncData {
            connector_transaction_id: payment.map(|payment| payment.to_string()),
        },
        response: no_response(),
    }
}

#[test]
fn requests_fail_as_their_headers_do() {
    let nordea = Nordea::new();
    let date = "Tue, 28 Oct 2025 10:00:00 GMT";
    assert_eq!(
        failure_of(nordea.psync_build_request(&sync_call(None), &connectors(), date)),
        ConnectorError::MissingConnectorTransactionID
    );
    assert_eq!(
        failure_of(nordea.psync_build_request(&sync_call(Some("p")), &connectors(), date)),
        ConnectorError::MissingAccessToken
    );
    assert_eq!(
        failure_of(nordea.psync_get_headers(&sync_call(Some("p")), &connectors(), date)),
        ConnectorError::MissingAccessToken
    );
    let call = authorize_call(sepa(), None);
    let body = RequestContent::Json("{}".to_string());
    assert_eq!(
        failure_of(nordea.authorize_build_request(&call, &connectors(), date, body.clone())),
        ConnectorError::FailedToObtainAuthType
    );
    assert_eq!(
        failure_of(nordea.authorize_get_headers(&call, &connectors(), date, &body)),
        ConnectorError::FailedToObtainAuthType
    );
    assert_eq!(
        failure_of(nordea.pre_processing_build_request(
            &pre_processing_call(None, None, None),
            &connectors(),
            date,
            body.clone()
        )),
        ConnectorError::MissingAccessToken
    );
    assert_eq!(
        failure_of(nordea.pre_processing_get_headers(
            &pre_processing_call(None, None, None),
            &connectors(),
            date,
            &body
        )),
        ConnectorError::MissingAccessToken
    );
}

fn payment_answer(
    status: NordeaSwaggerPaymentStatus,
    links: Option<Vec<NordeaLink>>,
) -> NordeaPaymentsResponse {
    NordeaPaymentsResponse {
        payments_response: Some(NordeaPaymentDetails {
            payment_id: "pay-1".to_string(),
            payment_status: status,
            links,
        }),
    }
}

fn link(rel: Option<&str>, href: Option<&str>) -> NordeaLink {
    NordeaLink { rel: rel.map(|rel| rel.to_string()), href: href.map(|href| href.to_string()) }
}

#[test]
fn pending_user_approval_answer_is_authentication_pending() {
    let call = authorize_call(sepa(), None);
    let data = value_of(Nordea::new().handle_payments_response(
        call,
        payment_answer(NordeaSwaggerPaymentStatus::PendingUserApproval, None),
        200,
    ));
    assert_eq!(data.status, AttemptStatus::AuthenticationPending);
    assert_ne!(data.status, AttemptStatus::Pending);
    assert_eq!(
        data.response,
        Ok(PaymentsResponseData {
            resource_id: ResponseId::ConnectorTransactionId("pay-1".to_string()),
            redirection_data: None,
            connector_response_reference_id: Some("pay-1".to_string()),
        })
    );
    assert_eq!(data.connector_request_reference_id, "order-7");
    assert_eq!(data.description, Some("two tickets".to_string()));
    assert_eq!(data.request.minor_amount, 1000);
}

#[test]
fn every_answer_status_reaches_the_record() {
    let table = [
        (NordeaSwaggerPaymentStatus::PendingConfirmation, AttemptStatus::AuthenticationPending),
        (
            NordeaSwaggerPaymentStatus::PendingSecondConfirmation,
            AttemptStatus::AuthenticationPending,
        ),
        (NordeaSwaggerPaymentStatus::Paid, AttemptStatus::Charged),
        (NordeaSwaggerPaymentStatus::Rejected, AttemptStatus::Failure),
        (NordeaSwaggerPaymentStatus::OnHold, AttemptStatus::Pending),
        (NordeaSwaggerPaymentStatus::Unknown, AttemptStatus::Pending),
    ];
    for (status, expected) in table {
        let item = ResponseRouterData {
            response: payment_answer(status, None),
            data: sync_call(Some("pay-1")),
            http_code: 200,
        };
        assert_eq!(value_of(item.try_into_router_data()).status, expected);
    }
}

#[test]
fn answer_without_payment_is_a_handling_failure() {
    let result = Nordea::new().handle_payments_response(
        sync_call(Some("pay-1")),
        NordeaPaymentsResponse { payments_response: None },
        200,
    );
    assert_eq!(failure_of(result), ConnectorError::ResponseHandlingFailed);
}

#[test]
fn signing_link_becomes_the_redirection() {
    let links = vec![
        link(Some("self"), Some("https://api.nordea.example/self")),
        link(None, Some("https://api.nordea.example/none")),
        link(Some("signing"), Some("https://sign.nordea.example/1")),
        link(Some("signing"), Some("https://sign.nordea.example/2")),
    ];
    assert_eq!(
        find_signing_target(&Some(links.clone())),
        Some("https://sign.nordea.example/1".to_string())
    );
    let data = value_of(Nordea::new().handle_payments_response(
        sync_call(Some("pay-1")),
        payment_answer(NordeaSwaggerPaymentStatus::PendingConfirmation, Some(links)),
        201,
    ));
    let outcome = data.response.unwrap();
    assert_eq!(
        outcome.redirection_data,
        Some(RedirectForm {
            endpoint: "https://sign.nordea.example/1".to_string(),
            method: Method::Get,
            form_fields: vec![],
        })
    );
}

#[test]
fn signing_link_without_target_gives_no_redirection() {
    assert_eq!(find_signing_target(&None), None);
    assert_eq!(find_signing_target(&Some(vec![])), None);
    assert_eq!(find_signing_target(&Some(vec![link(Some("self"), Some("x"))])), None);
    assert_eq!(
        find_signing_target(&Some(vec![
            link(Some("signing"), None),
            link(Some("signing"), Some("https://sign.nordea.example/2")),
        ])),
        None
    );
    assert_eq!(find_signing_target(&Some(vec![link(Some("Signing"), Some("x"))])), None);
}

#[test]
fn refund_answer_reaches_the_record() {
    let table = [
        (NordeaRefundStatus::Succeeded, RefundStatus::Success),
        (NordeaRefundStatus::Failed, RefundStatus::Failure),
        (NordeaRefundStatus::Processing, RefundStatus::Pending),
    ];
    for (status, expected) in table {
        let data = value_of(Nordea::new().handle_refund_response(
            refund_call(),
            RefundResponse { id: "refund-77".to_string(), status },
            200,
        ));
        assert_eq!(
            data.response,
            Ok(RefundsResponseData {
                connector_refund_id: "refund-77".to_string(),
                refund_status: expected,
            })
        );
        assert_eq!(data.status, AttemptStatus::Charged);
        assert_eq!(data.request.minor_refund_amount, 250);
    }
}

fn failure(code: Option<&str>, description: Option<&str>, kind: Option<&str>) -> NordeaFailures {
    NordeaFailures {
        code: code.map(|text| text.to_string()),
        description: description.map(|text| text.to_string()),
        failure_type: kind.map(|text| text.to_string()),
    }
}

fn error_body(
    code: &str,
    message: &str,
    reason: Option<&str>,
    failures: Option<Vec<NordeaFailures>>,
) -> NordeaErrorResponse {
    NordeaErrorResponse {
        status_code: 0,
        code: code.to_string(),
        message: message.to_string(),
        reason: reason.map(|text| text.to_string()),
        error: failures.map(|list| NordeaErrorBody { nordea_failures: Some(list) }),
    }
}

#[test]
fn empty_error_body_uses_the_sentinels() {
    let nordea = Nordea::new();
    let envelope = nordea.build_error_response(400, &error_body("", "", None, None));
    assert_eq!(
        envelope,
        ErrorResponse {
            status_code: 400,
            code: "No error code".to_string(),
            message: "No error message".to_string(),
            reason: None,
        }
    );
    assert_eq!(envelope.code, NO_ERROR_CODE);
    assert_eq!(envelope.message, NO_ERROR_MESSAGE);
    assert_ne!(envelope.code, "");
    assert_ne!(envelope.message, "");
    let listed = nordea.build_error_response(
        500,
        &error_body("", "", None, Some(vec![failure(None, None, None)])),
    );
    assert_eq!(listed.code, NO_ERROR_CODE);
    assert_eq!(listed.message, NO_ERROR_MESSAGE);
    assert_eq!(listed.reason, None);
    assert_eq!(listed.status_code, 500);
    let no_list = NordeaErrorResponse {
        status_code: 0,
        code: String::new(),
        message: String::new(),
        reason: None,
        error: Some(NordeaErrorBody { nordea_failures: None }),
    };
    assert_eq!(nordea.get_error_response(404, &no_list).code, NO_ERROR_CODE);
}

#[test]
fn first_failure_is_preferred_over_the_top_level() {
    let nordea = Nordea::new();
    let body = error_body(
        "top-code",
        "top message",
        Some("top reason"),
        Some(vec![
            failure(Some("F1"), Some("first failure"), Some("validation")),
            failure(Some("F2"), Some("second failure"), Some("other")),
        ]),
    );
    assert_eq!(
        nordea.build_error_response(422, &body),
        ErrorResponse {
            status_code: 422,
            code: "F1".to_string(),
            message: "first failure".to_string(),
            reason: Some("validation".to_string()),
        }
    );
}

#[test]
fn top_level_fills_what_the_first_failure_lacks() {
    let nordea = Nordea::new();
    let partial = error_body(
        "top-code",
        "",
        Some("top reason"),
        Some(vec![failure(None, Some(""), None), failure(Some("F2"), Some("second"), Some("t"))]),
    );
    assert_eq!(
        nordea.build_error_response(400, &partial),
        ErrorResponse {
            status_code: 400,
            code: "top-code".to_string(),
            message: String::new(),
            reason: Some("top reason".to_string()),
        }
    );
    let top_only = error_body("E1", "something failed", None, Some(vec![]));
    assert_eq!(
        nordea.build_error_response(503, &top_only),
        ErrorResponse {
            status_code: 503,
            code: "E1".to_string(),
            message: "something failed".to_string(),
            reason: None,
        }
    );
}

#[test]
fn error_data_is_the_first_failure() {
    assert_eq!(get_error_data(None), None);
    let empty = NordeaErrorBody { nordea_failures: Some(vec![]) };
    assert_eq!(get_error_data(Some(&empty)), None);
    let absent = NordeaErrorBody { nordea_failures: None };
    assert_eq!(get_error_data(Some(&absent)), None);
    let two = NordeaErrorBody {
        nordea_failures: Some(vec![failure(Some("a"), None, None), failure(Some("b"), None, None)]),
    };
    assert_eq!(get_error_data(Some(&two)), Some(&failure(Some("a"), None, None)));
}

#[test]
fn connector_describes_itself() {
    let nordea = Nordea::new();
    assert_eq!(nordea.id(), "nordea");
    assert_eq!(nordea.get_currency_unit(), CurrencyUnit::Base);
    assert_eq!(nordea.common_get_content_type(), "application/json");
    assert_eq!(nordea.get_content_type(), "application/json");
    assert_eq!(nordea.base_url(&connectors()), "https://api.nordea.example");
    let about = nordea.get_connector_about().unwrap();
    assert_eq!(about.display_name, "Nordea");
    assert_eq!(about.connector_type, PaymentConnectorCategory::PaymentGateway);
    let methods = nordea.get_supported_payment_methods().unwrap();
    assert_eq!(methods.len(), 1);
    assert_eq!(methods[0].payment_method, PaymentMethod::BankDebit);
    assert_eq!(methods[0].payment_method_type, PaymentMethodType::Sepa);
    assert_eq!(methods[0].details.mandates, FeatureStatus::NotSupported);
    assert_eq!(methods[0].details.refunds, FeatureStatus::NotSupported);
    assert_eq!(
        methods[0].details.supported_capture_methods,
        vec![CaptureMethod::Automatic, CaptureMethod::SequentialAutomatic]
    );
    assert_eq!(nordea.get_supported_webhook_flows(), Some(Vec::<EventClass>::new()));
    assert_eq!(
        nordea.get_webhook_object_reference_id(b"{}"),
        Err(ConnectorError::WebhooksNotImplemented)
    );
    assert_eq!(nordea.get_webhook_event_type(b"{}"), Err(ConnectorError::WebhooksNotImplemented));
    assert_eq!(
        nordea.get_webhook_resource_object(b"{}"),
        Err(ConnectorError::WebhooksNotImplemented)
    );
}

#[test]
fn metadata_lookup_takes_the_first_entry() {
    let meta = metadata(&[("a", "1"), ("b", "2"), ("a", "3")]).unwrap();
    assert_eq!(meta.get("a").map(|value| value.peek()), Some("1"));
    assert_eq!(meta.get("b").map(|value| value.peek()), Some("2"));
    assert!(meta.get("c").is_none());
    assert!(meta.get("").is_none());
}
