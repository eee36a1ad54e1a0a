use signed_connectors::amount::StringMinorUnit;
use signed_connectors::configs::CurrencyUnit;
use signed_connectors::connector::{Connector, ConnectorRequestBody};
use signed_connectors::currency::Currency;
use signed_connectors::domain::{
    AttemptStatus, BankDebitData, Card, CaptureMethod, ConnectorAuthType, ConnectorMetadata,
    MetadataEntry, PaymentMethodData,
    PaymentsAuthorizeData, PaymentsAuthorizeRouterData, PaymentsResponseData, RefundStatus,
    RefundsData, RefundsResponseData, RefundsRouterData, ResponseId, ResponseRouterData,
    RouterData,
};
use signed_connectors::errors::{ConnectorError, ErrorResponse};
use signed_connectors::monei::transformers::{
    is_auto_capture, MoneiAuthType, MoneiCustomer, MoneiPaymentStatus, MoneiPaymentsRequest,
    MoneiPaymentsResponse, MoneiRefundRequest, MoneiRefundResponse, MoneiRefundStatus,
    MoneiRouterData,
};
use signed_connectors::secret::Secret;

fn secret(text: &str) -> Secret {
    Secret::new(text.to_string())
}

fn no_response<T>() -> Result<T, ErrorResponse> {
    Err(ErrorResponse { status_code: 0, code: String::new(), message: String::new(), reason: None })
}

fn card() -> PaymentMethodData {
    PaymentMethodData::Card(Card {
        card_number: secret("4111111111111111"),
        card_exp_month: secret("12"),
        card_exp_year: secret("30"),
        card_cvc: secret("123"),
    })
}

fn call(
    payment_method_data: PaymentMethodData,
    capture_method: Option<CaptureMethod>,
    email: Option<&str>,
) -> PaymentsAuthorizeRouterData {
    RouterData {
        status: AttemptStatus::Started,
        connector_auth_type: ConnectorAuthType::HeaderKey { api_key: secret("key") },
        access_token: None,
        description: Some("not sent".to_string()),
        connector_request_reference_id: "order-3".to_string(),
        connector_meta_data: None,
        billing_country: None,
        request: PaymentsAuthorizeData {
            payment_method_data,
            minor_amount: 1999,
            currency: Currency::EUR,
            email: email.map(|email| email.to_string()),
            customer_name: Some(secret("Ada Lovelace")),
            capture_method,
            router_return_url: Some("https://shop.example/done".to_string()),
            merchant_account_id: None,
            ip_address: None,
        },
        response: no_response(),
    }
}

fn build(data: &PaymentsAuthorizeRouterData) -> Result<MoneiPaymentsRequest, ConnectorError> {
    let item = MoneiRouterData::from((StringMinorUnit::new("1999".to_string()), data));
    MoneiPaymentsRequest::try_from(&item)
}

fn failure_of<T>(result: Result<T, ConnectorError>) -> ConnectorError {
    match result {
        Ok(_) => panic!("the call fails"),
        Err(error) => error,
    }
}

fn value_of<T>(result: Result<T, ConnectorError>) -> T {
    match result {
        Ok(value) => value,
        Err(error) => panic!("the call succeeds: {:?}", error),
    }
}

#[test]
fn card_payment_builds_a_sale() {
    let request = value_of(build(&call(card(), None, Some("ada@example.com"))));
    assert_eq!(request.amount.get_amount_as_string(), "1999");
    assert_eq!(request.currency, "EUR");
    assert_eq!(request.order_id, Some("order-3".to_string()));
    assert_eq!(request.description, None);
    assert_eq!(request.transaction_type, "SALE");
    assert_eq!(request.complete_url, Some("https://shop.example/done".to_string()));
    assert_eq!(request.payment_method.method, Some("card".to_string()));
    assert_eq!(request.payment_method.bizum, None);
    let sent = request.payment_method.card.unwrap();
    assert_eq!(sent.number.as_ref().map(|text| text.peek()), Some("4111111111111111"));
    assert_eq!(sent.expiry_month.as_ref().map(|text| text.peek()), Some("12"));
    assert_eq!(sent.expiry_year.as_ref().map(|text| text.peek()), Some("30"));
    assert_eq!(sent.cvc.as_ref().map(|text| text.peek()), Some("123"));
    assert_eq!(sent.cardholder_name, Some("Ada Lovelace".to_string()));
    assert_eq!(sent.cardholder_email, Some("ada@example.com".to_string()));
    assert_eq!(sent.country, None);
    assert_eq!(sent.last4, None);
    assert_eq!(sent.bank, None);
    assert_eq!(sent.expiration, None);
    assert_eq!(sent.card_type, None);
    assert_eq!(sent.brand, None);
    assert_eq!(
        request.customer,
        Some(MoneiCustomer {
            email: Some("ada@example.com".to_string()),
            name: Some("Ada Lovelace".to_string()),
            phone: None,
            billing: None,
        })
    );
}

#[test]
fn manual_capture_builds_an_authorisation() {
    let request = value_of(build(&call(card(), Some(CaptureMethod::Manual), None)));
    assert_eq!(request.transaction_type, "AUTH");
    assert_eq!(request.customer, None);
    let automatic = value_of(build(&call(card(), Some(CaptureMethod::Automatic), None)));
    assert_eq!(automatic.transaction_type, "SALE");
    let sequential = value_of(build(&call(card(), Some(CaptureMethod::SequentialAutomatic), None)));
    assert_eq!(sequential.transaction_type, "SALE");
}

#[test]
fn unsupported_capture_comes_before_the_payment_method() {
    assert_eq!(
        failure_of(build(&call(PaymentMethodData::Wallet, Some(CaptureMethod::Scheduled), None))),
        ConnectorError::CaptureMethodNotSupported
    );
    assert_eq!(
        failure_of(build(&call(card(), Some(CaptureMethod::ManualMultiple), None))),
        ConnectorError::CaptureMethodNotSupported
    );
    assert_eq!(is_auto_capture(None), Ok(true));
    assert_eq!(is_auto_capture(Some(CaptureMethod::Manual)), Ok(false));
    assert_eq!(
        is_auto_capture(Some(CaptureMethod::Scheduled)),
        Err(ConnectorError::CaptureMethodNotSupported)
    );
}

#[test]
fn every_method_but_card_is_unsupported_by_name() {
    let sepa = PaymentMethodData::BankDebit(BankDebitData::SepaBankDebit { iban: secret("FI21") });
    let table = vec![
        (PaymentMethodData::Wallet, "Wallet"),
        (sepa, "SepaBankDebit"),
        (PaymentMethodData::BankTransfer, "BankTransfer"),
        (PaymentMethodData::Upi, "Upi"),
        (PaymentMethodData::MandatePayment, "MandatePayment"),
    ];
    for (method, name) in table {
        assert_eq!(
            failure_of(build(&call(method, None, None))),
            ConnectorError::UnsupportedPaymentMethod(name.to_string())
        );
    }
}

#[test]
fn auth_is_read_from_a_header_key() {
    let auth =
        value_of(MoneiAuthType::try_from(&ConnectorAuthType::HeaderKey { api_key: secret("k1") }));
    assert_eq!(auth.api_key.peek(), "k1");
    assert_eq!(
        failure_of(MoneiAuthType::try_from(&ConnectorAuthType::NoKey)),
        ConnectorError::FailedToObtainAuthType
    );
    assert_eq!(
        failure_of(MoneiAuthType::try_from(&ConnectorAuthType::BodyKey {
            api_key: secret("a"),
            key1: secret("b"),
        })),
        ConnectorError::FailedToObtainAuthType
    );
}

fn answer(status: MoneiPaymentStatus) -> MoneiPaymentsResponse {
    MoneiPaymentsResponse {
        id: "monei-1".to_string(),
        amount: 1999,
        currency: "EUR".to_string(),
        order_id: Some("order-3".to_string()),
        description: None,
        account_id: "acct".to_string(),
        authorization_code: None,
        livemode: false,
        status,
        status_code: "E000".to_string(),
        status_message: "ok".to_string(),
        customer: None,
        billing_details: None,
        refunded_amount: None,
        last_refund_amount: None,
        last_refund_reason: None,
        cancellation_reason: None,
        payment_token: None,
        payment_method: None,
        metadata: None,
        created_at: 1,
        updated_at: 2,
    }
}

#[test]
fn monei_payment_answer_reaches_the_record() {
    let table = [
        (MoneiPaymentStatus::SUCCEEDED, AttemptStatus::Charged),
        (MoneiPaymentStatus::AUTHORIZED, AttemptStatus::Authorized),
        (MoneiPaymentStatus::EXPIRED, AttemptStatus::AuthorizationFailed),
        (MoneiPaymentStatus::PartiallyRefunded, AttemptStatus::Charged),
    ];
    for (status, expected) in table {
        let item = ResponseRouterData {
            response: answer(status),
            data: call(card(), None, None),
            http_code: 200,
        };
        let data = value_of(item.try_into_router_data());
        assert_eq!(data.status, expected);
        assert_eq!(
            data.response,
            Ok(PaymentsResponseData {
                resource_id: ResponseId::ConnectorTransactionId("monei-1".to_string()),
                redirection_data: None,
                connector_response_reference_id: None,
            })
        );
        assert_eq!(data.connector_request_reference_id, "order-3");
    }
}

fn refund_call() -> RefundsRouterData {
    RouterData {
        status: AttemptStatus::Charged,
        connector_auth_type: ConnectorAuthType::NoKey,
        access_token: None,
        description: None,
        connector_request_reference_id: "refund-1".to_string(),
        connector_meta_data: None,
        billing_country: None,
        request: RefundsData {
            minor_refund_amount: 250,
            currency: Currency::EUR,
            reason: Some("returned".to_string()),
        },
        response: no_response(),
    }
}

#[test]
fn monei_refund_body_carries_amount_and_reason() {
    let data = refund_call();
    let item = MoneiRouterData::from((StringMinorUnit::new("250".to_string()), &data));
    assert_eq!(
        MoneiRefundRequest::try_from(&item),
        Ok(MoneiRefundRequest {
            amount: StringMinorUnit::new("250".to_string()),
            refund_reason: Some("returned".to_string()),
        })
    );
}

#[test]
fn monei_refund_answer_reaches_the_record() {
    let table = [
        (MoneiRefundStatus::SUCCEEDED, RefundStatus::Success),
        (MoneiRefundStatus::CANCELED, RefundStatus::Failure),
        (MoneiRefundStatus::PENDING, RefundStatus::Pending),
    ];
    for (status, expected) in table {
        let item = ResponseRouterData {
            response: MoneiRefundResponse {
                id: "r-1".to_string(),
                payment_id: "monei-1".to_string(),
                amount: 250,
                currency: "EUR".to_string(),
                status,
                status_code: None,
                status_message: None,
                reason: None,
                reference: None,
                livemode: false,
                created_at: 1,
                updated_at: 2,
            },
            data: refund_call(),
            http_code: 200,
        };
        let data = value_of(item.try_into_router_data());
        assert_eq!(
            data.response,
            Ok(RefundsResponseData { connector_refund_id: "r-1".to_string(), refund_status: expected })
        );
        assert_eq!(data.status, AttemptStatus::Charged);
    }
}

#[test]
fn connectors_build_in_their_own_schema_and_unit() {
    assert_eq!(Connector::Monei.id(), "monei");
    assert_eq!(Connector::Nordea.id(), "nordea");
    assert_eq!(Connector::Monei.get_currency_unit(), CurrencyUnit::Minor);
    assert_eq!(Connector::Nordea.get_currency_unit(), CurrencyUnit::Base);
    let sepa = PaymentMethodData::BankDebit(BankDebitData::SepaBankDebit { iban: secret("FI21") });
    let ach = PaymentMethodData::BankDebit(BankDebitData::AchBankDebit);
    assert!(Connector::Monei.supports(&card()));
    assert!(!Connector::Monei.supports(&sepa));
    assert!(Connector::Nordea.supports(&sepa));
    assert!(!Connector::Nordea.supports(&ach));
    assert!(!Connector::Nordea.supports(&card()));
    match value_of(Connector::Monei.build_authorize_body(&call(card(), None, None))) {
        ConnectorRequestBody::Monei(body) => {
            assert_eq!(body.amount.get_amount_as_string(), "1999")
        }
        ConnectorRequestBody::Nordea(_) => panic!("a body in MONEI's schema is built"),
    }
    assert_eq!(
        failure_of(Connector::Nordea.build_authorize_body(&call(card(), None, None))),
        ConnectorError::UnsupportedPaymentMethod("Card".to_string())
    );
    assert_eq!(
        failure_of(Connector::Monei.build_authorize_body(&call(sepa.clone(), None, None))),
        ConnectorError::UnsupportedPaymentMethod("SepaBankDebit".to_string())
    );
    let mut with_metadata = call(sepa, None, None);
    with_metadata.connector_meta_data = Some(ConnectorMetadata {
        entries: vec![
            MetadataEntry { key: "value".to_string(), value: secret("FI74") },
            MetadataEntry { key: "_type".to_string(), value: secret("IBAN") },
        ],
    });
    match value_of(Connector::Nordea.build_authorize_body(&with_metadata)) {
        ConnectorRequestBody::Nordea(body) => {
            assert_eq!(body.instructed_amount.amount.get_amount_as_string(), "19.99")
        }
        ConnectorRequestBody::Monei(_) => panic!("a body in Nordea's schema is built"),
    }
}
