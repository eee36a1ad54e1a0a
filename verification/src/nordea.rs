//! The Nordea connector: signed requests for payments by bank debit.

pub mod requests;
pub mod responses;
pub mod transformers;

use vstd::prelude::*;
use vstd::string::*;
use crate::amount::{
    conversion_failure, convert_amount, major_unit_conversion, StringMajorUnitForConnector,
};
use crate::configs::{Connectors, CurrencyUnit};
use crate::domain::{
    opt_text, ConnectorAuthType, PaymentsAuthorizeRouterData, PaymentsPreProcessingRouterData,
    PaymentsResponseData, PaymentsSyncRouterData, RefundsRouterData, ResponseRouterData,
    RouterData,
};
use crate::errors::{ConnectorError, ErrorResponse, NO_ERROR_CODE, NO_ERROR_MESSAGE};
use crate::nordea::requests::{NordeaPaymentsRequest, NordeaRefundRequest, NordeaRouterData};
use crate::nordea::responses::{
    NordeaErrorResponse, NordeaFailures, NordeaPaymentsResponse, RefundResponse,
};
use crate::nordea::transformers::{first_failure, get_error_data, NordeaAuthType};
use crate::primitives::{sha256_input_limit, url_parse, url_parts};
use crate::request::{headers_view, Header, Request, RequestContent};
use crate::secret::{Maskable, Secret};
use crate::signature::{
    canonical_text, digest_of, generate_digest, generate_signature, signature_outcome,
    text_result_is, Method, SignatureParams,
};

verus! {

/// The Nordea connector.
#[derive(Clone, Copy, Debug, PartialEq, Eq, Structural)]
pub struct Nordea {
    amount_converter: StringMajorUnitForConnector,
}

/// A header as plain values: name, value, and whether the value is secret.
pub type HeaderView = (Seq<char>, Seq<char>, bool);

/// The path that is signed for a request without a body: the path, and the
/// query behind a `?` where the URL has one.
pub open spec fn path_with_query(path: Seq<char>, query: Option<Seq<char>>) -> Seq<char> {
    match query {
        Some(query) => path + "?"@ + query,
        None => path,
    }
}

/// The headers that every request carries, in order: content type, bearer
/// token, client identifier, client secret, originating date, originating
/// host. All but the content type are secret.
pub open spec fn common_headers(
    content_type: Seq<char>,
    token: Seq<char>,
    client_id: Seq<char>,
    client_secret: Seq<char>,
    date: Seq<char>,
    host: Seq<char>,
) -> Seq<HeaderView> {
    seq![
        ("Content-Type"@, content_type, false),
        ("Authorization"@, "Bearer "@ + token, true),
        ("X-Client-Id"@, client_id, true),
        ("X-Client-Secret"@, client_secret, true),
        ("X-Originating-Date"@, date, true),
        ("X-Originating-Host"@, host, true),
    ]
}

/// The headers that close a request: the digest, where the request has a
/// body, and the signature.
pub open spec fn signing_headers(digest: Option<Seq<char>>, signature: Seq<char>) -> Seq<
    HeaderView,
> {
    match digest {
        Some(digest) => seq![("Digest"@, digest, true), ("Signature"@, signature, true)],
        None => seq![("Signature"@, signature, true)],
    }
}

/// The value of the content type header of every request.
pub open spec fn content_type_text() -> Seq<char> {
    "application/json"@
}

/// What the header builder gives for a call with the access token `token`
/// and the credentials `auth`, to `full_url` under `base_url` with `method`
/// at `date`, with the body `body`:
/// 1. `MissingAccessToken` without a token;
/// 2. `FailedToObtainAuthType` for credentials that are no signature key;
/// 3. `MalformedBaseUrl` for a base URL that does not parse or has no host;
/// 4. `RequestEncodingFailed` for a target URL that does not parse;
/// 5. for a method with a body, `RequestEncodingFailed` without a body or
///    with one too long to hash, else the digest of the body and the
///    signature over the path and the digest;
/// 6. for a method without a body, the signature over path and query;
/// 7. the failure of signing, or the common headers followed by the digest,
///    if any, and the signature.
pub open spec fn headers_outcome(
    token: Option<Seq<char>>,
    auth: ConnectorAuthType,
    base_url: Seq<char>,
    method: Method,
    full_url: Seq<char>,
    date: Seq<char>,
    body: Option<Seq<u8>>,
) -> Result<Seq<HeaderView>, ConnectorError> {
    match (token, auth) {
        (None, _) => Err(ConnectorError::MissingAccessToken),
        (Some(token), ConnectorAuthType::SignatureKey { api_key, key1, api_secret }) => {
            match url_parts(base_url) {
                Some((Some(host), _, _)) => match url_parts(full_url) {
                    Some((_, path, query)) => {
                        let common = common_headers(
                            content_type_text(),
                            token,
                            key1@,
                            api_key@,
                            date,
                            host,
                        );
                        if method.spec_carries_body() {
                            match body {
                                Some(body) => if body.len() >= sha256_input_limit() {
                                    Err(ConnectorError::RequestEncodingFailed)
                                } else {
                                    let digest = digest_of(body);
                                    match signature_outcome(
                                        key1@,
                                        api_secret@,
                                        method,
                                        canonical_text(
                                            method,
                                            path,
                                            host,
                                            date,
                                            content_type_text(),
                                            Some(digest),
                                        ),
                                    ) {
                                        Ok(signature) => Ok(
                                            common + signing_headers(Some(digest), signature),
                                        ),
                                        Err(error) => Err(error),
                                    }
                                },
                                None => Err(ConnectorError::RequestEncodingFailed),
                            }
                        } else {
                            match signature_outcome(
                                key1@,
                                api_secret@,
                                method,
                                canonical_text(
                                    method,
                                    path_with_query(path, query),
                                    host,
                                    date,
                                    content_type_text(),
                                    None,
                                ),
                            ) {
                                Ok(signature) => Ok(common + signing_headers(None, signature)),
                                Err(error) => Err(error),
                            }
                        }
                    },
                    None => Err(ConnectorError::RequestEncodingFailed),
                },
                _ => Err(ConnectorError::MalformedBaseUrl),
            }
        },
        (Some(_), _) => Err(ConnectorError::FailedToObtainAuthType),
    }
}

/// Whether `result` is the outcome `expected`, headers compared as plain
/// values.
pub open spec fn headers_result_is(
    result: Result<Vec<Header>, ConnectorError>,
    expected: Result<Seq<HeaderView>, ConnectorError>,
) -> bool {
    match (result, expected) {
        (Ok(headers), Ok(wanted)) => headers_view(headers@) == wanted,
        (Err(error), Err(wanted)) => error == wanted,
        _ => false,
    }
}

/// The bytes of an optional body.
pub open spec fn body_bytes(body: Option<&RequestContent>) -> Option<Seq<u8>> {
    match body {
        Some(body) => Some(body.wire_bytes()),
        None => None,
    }
}

/// The token of an optional access token.
pub open spec fn token_text(token: Option<crate::domain::AccessToken>) -> Option<Seq<char>> {
    match token {
        Some(token) => Some(token.token@),
        None => None,
    }
}

fn masked(name: &str, value: &str) -> (result: Header)
    ensures
        crate::request::header_view(result) == (name@, value@, true),
{
    (String::from_str(name), Maskable::Masked(Secret::new(String::from_str(value))))
}

/// Puts the header set of one request together, from the values that go
/// into it: the common headers, then the digest where there is one, then the
/// signature.
pub fn assemble_headers(
    content_type: &str,
    token: &str,
    client_id: &str,
    client_secret: &str,
    date: &str,
    host: &str,
    digest: Option<&str>,
    signature: &str,
) -> (result: Vec<Header>)
    ensures
        headers_view(result@) == common_headers(
            content_type@,
            token@,
            client_id@,
            client_secret@,
            date@,
            host@,
        ) + signing_headers(
            match digest {
                Some(digest) => Some(digest@),
                None => None,
            },
            signature@,
        ),
{
    let mut bearer = String::from_str("Bearer ");
    bearer.append(token);
    let mut headers: Vec<Header> = Vec::new();
    headers.push(
        (String::from_str("Content-Type"), Maskable::Normal(String::from_str(content_type))),
    );
    headers.push(masked("Authorization", bearer.as_str()));
    headers.push(masked("X-Client-Id", client_id));
    headers.push(masked("X-Client-Secret", client_secret));
    headers.push(masked("X-Originating-Date", date));
    headers.push(masked("X-Originating-Host", host));
    match digest {
        Some(digest) => {
            headers.push(masked("Digest", digest));
        },
        None => {},
    }
    headers.push(masked("Signature", signature));
    proof {
        let wanted = common_headers(
            content_type@,
            token@,
            client_id@,
            client_secret@,
            date@,
            host@,
        ) + signing_headers(
            match digest {
                Some(digest) => Some(digest@),
                None => None,
            },
            signature@,
        );
        assert(headers_view(headers@) =~= wanted);
    }
    headers
}

impl Nordea {
    /// The connector, with its converter to major-unit text.
    pub fn new() -> (result: Self) {
        Nordea { amount_converter: StringMajorUnitForConnector }
    }

    /// Computes the value of the `Digest` header for `payload`.
    pub fn generate_digest(&self, payload: &[u8]) -> (result: String)
        requires
            payload@.len() < sha256_input_limit(),
        ensures
            result@ == digest_of(payload@),
    {
        generate_digest(payload)
    }

    /// Computes the value of the `Digest` header for a body, over the bytes
    /// that are transmitted for it.
    pub fn generate_digest_from_request(&self, payload: &RequestContent) -> (result: String)
        requires
            payload.wire_bytes().len() < sha256_input_limit(),
        ensures
            result@ == digest_of(payload.wire_bytes()),
    {
        let payload_bytes = payload.to_wire_bytes();
        self.generate_digest(payload_bytes.as_slice())
    }

    /// Signs `signature_params` with the private key of `auth` and returns
    /// the value of the `Signature` header under its client identifier.
    pub fn generate_signature(
        &self,
        auth: &NordeaAuthType,
        signature_params: SignatureParams<'_>,
    ) -> (result: Result<String, ConnectorError>)
        ensures
            text_result_is(
                result,
                signature_outcome(
                    auth.client_id@,
                    auth.eidas_private_key@,
                    signature_params.http_method,
                    signature_params.canonical_string(),
                ),
            ),
    {
        generate_signature(auth.client_id.peek(), auth.eidas_private_key.peek(), signature_params)
    }

    /// Builds the header set of a request for the call `req`: to `full_url`
    /// with `http_method`, at the HTTP date `date`, with the body `body`.
    pub fn build_headers<Request, Response>(
        &self,
        req: &RouterData<Request, Response>,
        connectors: &Connectors,
        http_method: Method,
        full_url: &str,
        date: &str,
        body: Option<&RequestContent>,
    ) -> (result: Result<Vec<Header>, ConnectorError>)
        ensures
            headers_result_is(
                result,
                headers_outcome(
                    token_text(req.access_token),
                    req.connector_auth_type,
                    connectors.nordea.base_url@,
                    http_method,
                    full_url@,
                    date@,
                    body_bytes(body),
                ),
            ),
    {
        let access_token = match &req.access_token {
            Some(access_token) => access_token,
            None => {
                return Err(ConnectorError::MissingAccessToken);
            },
        };
        let auth = match NordeaAuthType::try_from(&req.connector_auth_type) {
            Ok(auth) => auth,
            Err(error) => {
                return Err(error);
            },
        };
        let content_type = self.common_get_content_type();
        let host = match url_parse(self.base_url(connectors)) {
            Ok(parsed) => match parsed.host {
                Some(host) => host,
                None => {
                    return Err(ConnectorError::MalformedBaseUrl);
                },
            },
            Err(_) => {
                return Err(ConnectorError::MalformedBaseUrl);
            },
        };
        let target = match url_parse(full_url) {
            Ok(parsed) => parsed,
            Err(_) => {
                return Err(ConnectorError::RequestEncodingFailed);
            },
        };
        if http_method.carries_body() {
            let body = match body {
                Some(body) => body,
                None => {
                    return Err(ConnectorError::RequestEncodingFailed);
                },
            };
            let payload = body.to_wire_bytes();
            if payload.len() as u64 >= 0x2000_0000_0000_0000u64 {
                return Err(ConnectorError::RequestEncodingFailed);
            }
            let digest = self.generate_digest(payload.as_slice());
            let signature = match self.generate_signature(
                &auth,
                SignatureParams {
                    content_type,
                    host: host.as_str(),
                    path: target.path.as_str(),
                    payload_digest: Some(digest.as_str()),
                    date,
                    http_method,
                },
            ) {
                Ok(signature) => signature,
                Err(error) => {
                    return Err(error);
                },
            };
            Ok(
                assemble_headers(
                    content_type,
                    access_token.token.peek(),
                    auth.client_id.peek(),
                    auth.client_secret.peek(),
                    date,
                    host.as_str(),
                    Some(digest.as_str()),
                    signature.as_str(),
                ),
            )
        } else {
            let mut signed_path = target.path.clone();
            match &target.query {
                Some(query) => {
                    signed_path.append("?");
                    signed_path.append(query.as_str());
                },
                None => {},
            }
            let signature = match self.generate_signature(
                &auth,
                SignatureParams {
                    content_type,
                    host: host.as_str(),
                    path: signed_path.as_str(),
                    payload_digest: None,
                    date,
                    http_method,
                },
            ) {
                Ok(signature) => signature,
                Err(error) => {
                    return Err(error);
                },
            };
            Ok(
                assemble_headers(
                    content_type,
                    access_token.token.peek(),
                    auth.client_id.peek(),
                    auth.client_secret.peek(),
                    date,
                    host.as_str(),
                    None,
                    signature.as_str(),
                ),
            )
        }
    }

    /// The connector's name.
    pub fn id(&self) -> (result: &'static str)
        ensures
            result@ == "nordea"@,
    {
        "nordea"
    }

    /// The unit in which Nordea takes amounts: major units.
    pub fn get_currency_unit(&self) -> (result: CurrencyUnit)
        ensures
            result == CurrencyUnit::Base,
    {
        CurrencyUnit::Base
    }

    /// The content type of every request to Nordea.
    pub fn common_get_content_type(&self) -> (result: &'static str)
        ensures
            result@ == content_type_text(),
    {
        "application/json"
    }

    /// The base URL that is configured for Nordea.
    pub fn base_url<'a>(&self, connectors: &'a Connectors) -> (result: &'a str)
        ensures
            result@ == connectors.nordea.base_url@,
    {
        connectors.nordea.base_url.as_str()
    }
}

/// The text that the envelope shows for a code or a message: that of the
/// first listed failure where it has one, else that of the body's top level
/// where it is not empty, else the sentinel.
pub open spec fn envelope_text(
    listed: Option<Seq<char>>,
    top_level: Seq<char>,
    sentinel: Seq<char>,
) -> Seq<char> {
    match listed {
        Some(text) => text,
        None => if top_level.len() > 0 {
            top_level
        } else {
            sentinel
        },
    }
}

/// The reason that the envelope shows: the type of the first listed failure
/// where it has one, else the reason of the body's top level.
pub open spec fn envelope_reason(listed: Option<Seq<char>>, top_level: Option<Seq<char>>) -> Option<
    Seq<char>,
> {
    match listed {
        Some(text) => Some(text),
        None => top_level,
    }
}

/// The code of a failure, where there is a failure and it has a code.
pub open spec fn failure_code(failure: Option<NordeaFailures>) -> Option<Seq<char>> {
    match failure {
        Some(failure) => opt_text(failure.code),
        None => None,
    }
}

/// The description of a failure, where there is a failure and it has one.
pub open spec fn failure_description(failure: Option<NordeaFailures>) -> Option<Seq<char>> {
    match failure {
        Some(failure) => opt_text(failure.description),
        None => None,
    }
}

/// The type of a failure, where there is a failure and it has a type.
pub open spec fn failure_type(failure: Option<NordeaFailures>) -> Option<Seq<char>> {
    match failure {
        Some(failure) => opt_text(failure.failure_type),
        None => None,
    }
}

/// The failures that an error body lists, as an optional reference.
pub open spec fn listed_errors(response: &NordeaErrorResponse) -> Option<
    &crate::nordea::responses::NordeaErrorBody,
> {
    match &response.error {
        Some(body) => Some(body),
        None => None,
    }
}

/// Whether `envelope` is the error envelope of the body `response` that came
/// with the HTTP status `status_code`.
pub open spec fn is_error_envelope(
    envelope: ErrorResponse,
    status_code: u16,
    response: &NordeaErrorResponse,
) -> bool {
    let failure = first_failure(listed_errors(response));
    &&& envelope.status_code == status_code
    &&& envelope.code@ == envelope_text(failure_code(failure), response.code@, NO_ERROR_CODE@)
    &&& envelope.message@ == envelope_text(
        failure_description(failure),
        response.message@,
        NO_ERROR_MESSAGE@,
    )
    &&& opt_text(envelope.reason) == envelope_reason(
        failure_type(failure),
        opt_text(response.reason),
    )
}

fn text_or(listed: &Option<String>, top_level: &String, sentinel: &str) -> (result: String)
    ensures
        result@ == envelope_text(opt_text(*listed), top_level@, sentinel@),
{
    match listed {
        Some(text) => text.clone(),
        None => if top_level.as_str().is_empty() {
            String::from_str(sentinel)
        } else {
            top_level.clone()
        },
    }
}

/// The address of the initiation of a SEPA credit transfer.
pub open spec fn pre_processing_url(base_url: Seq<char>) -> Seq<char> {
    base_url + "/personal/v5/payments/sepa-credit-transfer"@
}

/// The address of the confirmation of payments.
pub open spec fn authorize_url(base_url: Seq<char>) -> Seq<char> {
    base_url + "/personal/v5/payments"@
}

/// The address of one payment.
pub open spec fn payment_url(base_url: Seq<char>, payment_id: Seq<char>) -> Seq<char> {
    base_url + "/personal/v5/payments/"@ + payment_id
}

/// What the address of the payment that a sync call asks about is:
/// `MissingConnectorTransactionID` where the call names no payment.
pub open spec fn psync_url_outcome(base_url: Seq<char>, payment_id: Option<Seq<char>>) -> Result<
    Seq<char>,
    ConnectorError,
> {
    match payment_id {
        Some(payment_id) => Ok(payment_url(base_url, payment_id)),
        None => Err(ConnectorError::MissingConnectorTransactionID),
    }
}

/// The header that names the customer's IP address.
pub open spec fn user_ip_header(ip_address: Seq<char>) -> Seq<HeaderView> {
    seq![("X-Originating-User-Ip"@, ip_address, true)]
}

/// Name of the field that holds the customer's IP address.
pub const IP_ADDRESS_FIELD: &'static str = "browser_info.ip_address";

/// What the headers of an authorize call are: those of the header builder,
/// or its failure; then `MissingRequiredField` for a call without the
/// customer's IP address, else the header that names it behind the others.
pub open spec fn authorize_headers_outcome(
    built: Result<Seq<HeaderView>, ConnectorError>,
    ip_address: Option<Seq<char>>,
) -> Result<Seq<HeaderView>, ConnectorError> {
    match built {
        Ok(headers) => match ip_address {
            Some(ip_address) => Ok(headers + user_ip_header(ip_address)),
            None => Err(ConnectorError::MissingRequiredField { field_name: IP_ADDRESS_FIELD }),
        },
        Err(error) => Err(error),
    }
}

/// What the headers of a call are whose address is `url`: the failure of the
/// address, or what the header builder gives for it.
pub open spec fn flow_headers_outcome<Request, Response>(
    req: &RouterData<Request, Response>,
    connectors: &Connectors,
    method: Method,
    url: Result<Seq<char>, ConnectorError>,
    date: Seq<char>,
    body: Option<Seq<u8>>,
) -> Result<Seq<HeaderView>, ConnectorError> {
    match url {
        Ok(url) => headers_outcome(
            token_text(req.access_token),
            req.connector_auth_type,
            connectors.nordea.base_url@,
            method,
            url,
            date,
            body,
        ),
        Err(error) => Err(error),
    }
}

/// Whether `result` is the request with `method` to `url` that carries
/// `headers` and `body`, or the failure of address or headers.
pub open spec fn is_request_outcome(
    result: Result<Option<Request>, ConnectorError>,
    method: Method,
    url: Result<Seq<char>, ConnectorError>,
    headers: Result<Seq<HeaderView>, ConnectorError>,
    body: Option<RequestContent>,
) -> bool {
    match (url, headers) {
        (Ok(url), Ok(headers)) => match result {
            Ok(Some(request)) => request.method == method && request.url@ == url && headers_view(
                request.headers@,
            ) == headers && request.body == body,
            _ => false,
        },
        (Err(error), _) => match result {
            Err(failure) => failure == error,
            _ => false,
        },
        (Ok(_), Err(error)) => match result {
            Err(failure) => failure == error,
            _ => false,
        },
    }
}

/// What the operation that is not implemented is called.
pub const GET_URL_METHOD: &'static str = "get_url method";

/// Whether `error` says that the address of a flow is not implemented.
pub open spec fn is_url_not_implemented(error: ConnectorError) -> bool {
    match error {
        ConnectorError::NotImplemented(what) => what@ == GET_URL_METHOD@,
        _ => false,
    }
}

/// What the body of the payment that a pre-processing call asks for is:
/// `MissingRequiredField` for a call without amount, currency or payment
/// method, in this order with the conversion of the amount before the
/// payment method; else what the request builder gives.
pub open spec fn is_pre_processing_body(
    result: Result<NordeaPaymentsRequest, ConnectorError>,
    req: &PaymentsPreProcessingRouterData,
) -> bool {
    match (req.request.minor_amount, req.request.currency) {
        (None, _) => result matches Err(error) && error
            == (ConnectorError::MissingRequiredField { field_name: "minor_amount" }),
        (Some(_), None) => result matches Err(error) && error
            == (ConnectorError::MissingRequiredField { field_name: "currency" }),
        (Some(amount), Some(currency)) => match major_unit_conversion(amount, currency) {
            Err(failure) => result matches Err(error) && error == conversion_failure(failure),
            Ok(text) => match &req.request.payment_method_data {
                None => result matches Err(error) && error
                    == (ConnectorError::MissingRequiredField { field_name: "payment_method_data" }),
                Some(payment_method_data) => crate::nordea::transformers::is_payment_request_outcome(
                    result,
                    text,
                    crate::nordea::transformers::PaymentParts {
                        payment_method_data,
                        currency,
                        description: &req.description,
                        connector_request_reference_id: &req.connector_request_reference_id,
                        connector_meta_data: &req.connector_meta_data,
                        billing_country: &req.billing_country,
                        merchant_account_id: &req.request.merchant_account_id,
                    },
                ),
            },
        },
    }
}

/// What the body of the payment that an authorize call asks for is: the
/// failure of converting the amount, else what the request builder gives.
pub open spec fn is_authorize_body(
    result: Result<NordeaPaymentsRequest, ConnectorError>,
    req: &PaymentsAuthorizeRouterData,
) -> bool {
    match major_unit_conversion(req.request.minor_amount, req.request.currency) {
        Err(failure) => result matches Err(error) && error == conversion_failure(failure),
        Ok(text) => crate::nordea::transformers::is_payment_request_outcome(
            result,
            text,
            crate::nordea::transformers::authorize_parts(req),
        ),
    }
}

/// What the body of the refund that a call asks for is: the failure of
/// converting the amount, else the converted amount.
pub open spec fn is_refund_body(
    result: Result<NordeaRefundRequest, ConnectorError>,
    req: &RefundsRouterData,
) -> bool {
    match major_unit_conversion(req.request.minor_refund_amount, req.request.currency) {
        Err(failure) => result matches Err(error) && error == conversion_failure(failure),
        Ok(text) => result matches Ok(request) && request.amount@ == text,
    }
}

impl Nordea {
    /// Turns the body of a failed call, which came with the HTTP status
    /// `status_code`, into the shared error envelope. Code, message and
    /// reason come from the first failure that the body lists; what it does
    /// not give comes from the body's top level, and a code or message that
    /// is missing there too is the sentinel.
    pub fn build_error_response(
        &self,
        status_code: u16,
        response: &NordeaErrorResponse,
    ) -> (result: ErrorResponse)
        ensures
            is_error_envelope(result, status_code, response),
    {
        let listed = match &response.error {
            Some(body) => Some(body),
            None => None,
        };
        let absent: Option<String> = None;
        let failure = get_error_data(listed);
        let code = match failure {
            Some(failure) => text_or(&failure.code, &response.code, NO_ERROR_CODE),
            None => text_or(&absent, &response.code, NO_ERROR_CODE),
        };
        let message = match failure {
            Some(failure) => text_or(&failure.description, &response.message, NO_ERROR_MESSAGE),
            None => text_or(&absent, &response.message, NO_ERROR_MESSAGE),
        };
        let listed_reason = match failure {
            Some(failure) => crate::domain::clone_opt_text(&failure.failure_type),
            None => None,
        };
        let reason = match listed_reason {
            Some(reason) => Some(reason),
            None => crate::domain::clone_opt_text(&response.reason),
        };
        ErrorResponse { status_code, code, message, reason }
    }

    /// The error envelope of a failed call, whatever the flow.
    pub fn get_error_response(
        &self,
        status_code: u16,
        response: &NordeaErrorResponse,
    ) -> (result: ErrorResponse)
        ensures
            is_error_envelope(result, status_code, response),
    {
        self.build_error_response(status_code, response)
    }

    /// The content type of the requests of every flow.
    pub fn get_content_type(&self) -> (result: &'static str)
        ensures
            result@ == content_type_text(),
    {
        self.common_get_content_type()
    }

    /// The address of a pre-processing call.
    pub fn pre_processing_get_url(
        &self,
        _req: &PaymentsPreProcessingRouterData,
        connectors: &Connectors,
    ) -> (result: Result<String, ConnectorError>)
        ensures
            text_result_is(result, Ok(pre_processing_url(connectors.nordea.base_url@))),
    {
        let mut url = String::from_str(self.base_url(connectors));
        url.append("/personal/v5/payments/sepa-credit-transfer");
        Ok(url)
    }

    /// The address of an authorize call.
    pub fn authorize_get_url(
        &self,
        _req: &PaymentsAuthorizeRouterData,
        connectors: &Connectors,
    ) -> (result: Result<String, ConnectorError>)
        ensures
            text_result_is(result, Ok(authorize_url(connectors.nordea.base_url@))),
    {
        let mut url = String::from_str(self.base_url(connectors));
        url.append("/personal/v5/payments");
        Ok(url)
    }

    /// The address of a payment sync call: that of the payment it asks about.
    pub fn psync_get_url(&self, req: &PaymentsSyncRouterData, connectors: &Connectors) -> (result:
        Result<String, ConnectorError>)
        ensures
            text_result_is(
                result,
                psync_url_outcome(
                    connectors.nordea.base_url@,
                    opt_text(req.request.connector_transaction_id),
                ),
            ),
    {
        let payment_id = match &req.request.connector_transaction_id {
            Some(payment_id) => payment_id,
            None => {
                return Err(ConnectorError::MissingConnectorTransactionID);
            },
        };
        let mut url = String::from_str(self.base_url(connectors));
        url.append("/personal/v5/payments/");
        url.append(payment_id.as_str());
        Ok(url)
    }

    /// The address of a refund call: refunds have none yet.
    pub fn refund_execute_get_url(
        &self,
        _req: &RefundsRouterData,
        _connectors: &Connectors,
    ) -> (result: Result<String, ConnectorError>)
        ensures
            result matches Err(error) && is_url_not_implemented(error),
    {
        Err(ConnectorError::NotImplemented(String::from_str(GET_URL_METHOD)))
    }

    /// The address of a refund sync call: refunds have none yet.
    pub fn refund_sync_get_url(
        &self,
        _req: &RefundsRouterData,
        _connectors: &Connectors,
    ) -> (result: Result<String, ConnectorError>)
        ensures
            result matches Err(error) && is_url_not_implemented(error),
    {
        Err(ConnectorError::NotImplemented(String::from_str(GET_URL_METHOD)))
    }

    /// The headers of a pre-processing call at `date` with the body `body`.
    pub fn pre_processing_get_headers(
        &self,
        req: &PaymentsPreProcessingRouterData,
        connectors: &Connectors,
        date: &str,
        body: &RequestContent,
    ) -> (result: Result<Vec<Header>, ConnectorError>)
        ensures
            headers_result_is(
                result,
                flow_headers_outcome(
                    req,
                    connectors,
                    Method::Post,
                    Ok(pre_processing_url(connectors.nordea.base_url@)),
                    date@,
                    Some(body.wire_bytes()),
                ),
            ),
    {
        let url = match self.pre_processing_get_url(req, connectors) {
            Ok(url) => url,
            Err(error) => {
                return Err(error);
            },
        };
        self.build_headers(req, connectors, Method::Post, url.as_str(), date, Some(body))
    }

    /// The headers of an authorize call at `date` with the body `body`: those
    /// of the header builder and the customer's IP address.
    pub fn authorize_get_headers(
        &self,
        req: &PaymentsAuthorizeRouterData,
        connectors: &Connectors,
        date: &str,
        body: &RequestContent,
    ) -> (result: Result<Vec<Header>, ConnectorError>)
        ensures
            headers_result_is(
                result,
                authorize_headers_outcome(
                    flow_headers_outcome(
                        req,
                        connectors,
                        Method::Post,
                        Ok(authorize_url(connectors.nordea.base_url@)),
                        date@,
                        Some(body.wire_bytes()),
                    ),
                    crate::domain::opt_secret(req.request.ip_address),
                ),
            ),
    {
        let url = match self.authorize_get_url(req, connectors) {
            Ok(url) => url,
            Err(error) => {
                return Err(error);
            },
        };
        let mut headers = match self.build_headers(
            req,
            connectors,
            Method::Post,
            url.as_str(),
            date,
            Some(body),
        ) {
            Ok(headers) => headers,
            Err(error) => {
                return Err(error);
            },
        };
        let user_ip = match &req.request.ip_address {
            Some(user_ip) => user_ip,
            None => {
                return Err(ConnectorError::MissingRequiredField { field_name: IP_ADDRESS_FIELD });
            },
        };
        let ghost built = headers_view(headers@);
        headers.push(masked("X-Originating-User-Ip", user_ip.peek()));
        assert(headers_view(headers@) =~= built + user_ip_header(user_ip@));
        Ok(headers)
    }

    /// The headers of a payment sync call at `date`.
    pub fn psync_get_headers(
        &self,
        req: &PaymentsSyncRouterData,
        connectors: &Connectors,
        date: &str,
    ) -> (result: Result<Vec<Header>, ConnectorError>)
        ensures
            headers_result_is(
                result,
                flow_headers_outcome(
                    req,
                    connectors,
                    Method::Get,
                    psync_url_outcome(
                        connectors.nordea.base_url@,
                        opt_text(req.request.connector_transaction_id),
                    ),
                    date@,
                    None,
                ),
            ),
    {
        let url = match self.psync_get_url(req, connectors) {
            Ok(url) => url,
            Err(error) => {
                return Err(error);
            },
        };
        self.build_headers(req, connectors, Method::Get, url.as_str(), date, None)
    }

    /// The headers of a refund call: none can be built, since the flow has
    /// no address yet.
    pub fn refund_execute_get_headers(
        &self,
        req: &RefundsRouterData,
        connectors: &Connectors,
    ) -> (result: Result<Vec<Header>, ConnectorError>)
        ensures
            result matches Err(error) && is_url_not_implemented(error),
    {
        match self.refund_execute_get_url(req, connectors) {
            Ok(_) => Ok(Vec::new()),
            Err(error) => Err(error),
        }
    }

    /// The headers of a refund sync call: none can be built, since the flow
    /// has no address yet.
    pub fn refund_sync_get_headers(
        &self,
        req: &RefundsRouterData,
        connectors: &Connectors,
    ) -> (result: Result<Vec<Header>, ConnectorError>)
        ensures
            result matches Err(error) && is_url_not_implemented(error),
    {
        match self.refund_sync_get_url(req, connectors) {
            Ok(_) => Ok(Vec::new()),
            Err(error) => Err(error),
        }
    }

    /// The body of the payment that a pre-processing call asks for.
    pub fn pre_processing_get_request_body(
        &self,
        req: &PaymentsPreProcessingRouterData,
    ) -> (result: Result<NordeaPaymentsRequest, ConnectorError>)
        ensures
            is_pre_processing_body(result, req),
    {
        let minor_amount = match req.request.minor_amount {
            Some(minor_amount) => minor_amount,
            None => {
                return Err(ConnectorError::MissingRequiredField { field_name: "minor_amount" });
            },
        };
        let currency = match req.request.currency {
            Some(currency) => currency,
            None => {
                return Err(ConnectorError::MissingRequiredField { field_name: "currency" });
            },
        };
        let amount = match convert_amount(&self.amount_converter, minor_amount, currency) {
            Ok(amount) => amount,
            Err(error) => {
                return Err(error);
            },
        };
        let payment_method_data = match &req.request.payment_method_data {
            Some(payment_method_data) => payment_method_data,
            None => {
                return Err(
                    ConnectorError::MissingRequiredField { field_name: "payment_method_data" },
                );
            },
        };
        let parts = crate::nordea::transformers::PaymentParts {
            payment_method_data,
            currency,
            description: &req.description,
            connector_request_reference_id: &req.connector_request_reference_id,
            connector_meta_data: &req.connector_meta_data,
            billing_country: &req.billing_country,
            merchant_account_id: &req.request.merchant_account_id,
        };
        NordeaPaymentsRequest::from_parts(&amount, &parts)
    }

    /// The body of the payment that an authorize call asks for.
    pub fn authorize_get_request_body(&self, req: &PaymentsAuthorizeRouterData) -> (result: Result<
        NordeaPaymentsRequest,
        ConnectorError,
    >)
        ensures
            is_authorize_body(result, req),
    {
        let amount = match convert_amount(
            &self.amount_converter,
            req.request.minor_amount,
            req.request.currency,
        ) {
            Ok(amount) => amount,
            Err(error) => {
                return Err(error);
            },
        };
        let connector_router_data = NordeaRouterData::from((amount, req));
        NordeaPaymentsRequest::try_from(&connector_router_data)
    }

    /// The body of the refund that a call asks for.
    pub fn refund_execute_get_request_body(&self, req: &RefundsRouterData) -> (result: Result<
        NordeaRefundRequest,
        ConnectorError,
    >)
        ensures
            is_refund_body(result, req),
    {
        let refund_amount = match convert_amount(
            &self.amount_converter,
            req.request.minor_refund_amount,
            req.request.currency,
        ) {
            Ok(amount) => amount,
            Err(error) => {
                return Err(error);
            },
        };
        let connector_router_data = NordeaRouterData::from((refund_amount, req));
        NordeaRefundRequest::try_from(&connector_router_data)
    }

    /// The request of a pre-processing call at `date`, with the serialised
    /// body `body`: a `POST` to the flow's address with the flow's headers.
    pub fn pre_processing_build_request(
        &self,
        req: &PaymentsPreProcessingRouterData,
        connectors: &Connectors,
        date: &str,
        body: RequestContent,
    ) -> (result: Result<Option<Request>, ConnectorError>)
        ensures
            is_request_outcome(
                result,
                Method::Post,
                Ok(pre_processing_url(connectors.nordea.base_url@)),
                flow_headers_outcome(
                    req,
                    connectors,
                    Method::Post,
                    Ok(pre_processing_url(connectors.nordea.base_url@)),
                    date@,
                    Some(body.wire_bytes()),
                ),
                Some(body),
            ),
    {
        let url = match self.pre_processing_get_url(req, connectors) {
            Ok(url) => url,
            Err(error) => {
                return Err(error);
            },
        };
        let headers = match self.pre_processing_get_headers(req, connectors, date, &body) {
            Ok(headers) => headers,
            Err(error) => {
                return Err(error);
            },
        };
        Ok(Some(Request { method: Method::Post, url, headers, body: Some(body) }))
    }

    /// The request of an authorize call at `date`, with the serialised body
    /// `body`: a `POST` to the flow's address with the flow's headers.
    pub fn authorize_build_request(
        &self,
        req: &PaymentsAuthorizeRouterData,
        connectors: &Connectors,
        date: &str,
        body: RequestContent,
    ) -> (result: Result<Option<Request>, ConnectorError>)
        ensures
            is_request_outcome(
                result,
                Method::Post,
                Ok(authorize_url(connectors.nordea.base_url@)),
                authorize_headers_outcome(
                    flow_headers_outcome(
                        req,
                        connectors,
                        Method::Post,
                        Ok(authorize_url(connectors.nordea.base_url@)),
                        date@,
                        Some(body.wire_bytes()),
                    ),
                    crate::domain::opt_secret(req.request.ip_address),
                ),
                Some(body),
            ),
    {
        let url = match self.authorize_get_url(req, connectors) {
            Ok(url) => url,
            Err(error) => {
                return Err(error);
            },
        };
        let headers = match self.authorize_get_headers(req, connectors, date, &body) {
            Ok(headers) => headers,
            Err(error) => {
                return Err(error);
            },
        };
        Ok(Some(Request { method: Method::Post, url, headers, body: Some(body) }))
    }

    /// The request of a payment sync call at `date`: a `GET` to the address
    /// of the payment, with the flow's headers and no body.
    pub fn psync_build_request(
        &self,
        req: &PaymentsSyncRouterData,
        connectors: &Connectors,
        date: &str,
    ) -> (result: Result<Option<Request>, ConnectorError>)
        ensures
            is_request_outcome(
                result,
                Method::Get,
                psync_url_outcome(
                    connectors.nordea.base_url@,
                    opt_text(req.request.connector_transaction_id),
                ),
                flow_headers_outcome(
                    req,
                    connectors,
                    Method::Get,
                    psync_url_outcome(
                        connectors.nordea.base_url@,
                        opt_text(req.request.connector_transaction_id),
                    ),
                    date@,
                    None,
                ),
                None,
            ),
    {
        let url = match self.psync_get_url(req, connectors) {
            Ok(url) => url,
            Err(error) => {
                return Err(error);
            },
        };
        let headers = match self.psync_get_headers(req, connectors, date) {
            Ok(headers) => headers,
            Err(error) => {
                return Err(error);
            },
        };
        Ok(Some(Request { method: Method::Get, url, headers, body: None }))
    }

    /// The request of a refund call: none can be built, since the flow has
    /// no address yet.
    pub fn refund_execute_build_request(
        &self,
        req: &RefundsRouterData,
        connectors: &Connectors,
    ) -> (result: Result<Option<Request>, ConnectorError>)
        ensures
            result matches Err(error) && is_url_not_implemented(error),
    {
        match self.refund_execute_get_url(req, connectors) {
            Ok(_) => Ok(None),
            Err(error) => Err(error),
        }
    }

    /// The request of a refund sync call: none can be built, since the flow
    /// has no address yet.
    pub fn refund_sync_build_request(
        &self,
        req: &RefundsRouterData,
        connectors: &Connectors,
    ) -> (result: Result<Option<Request>, ConnectorError>)
        ensures
            result matches Err(error) && is_url_not_implemented(error),
    {
        match self.refund_sync_get_url(req, connectors) {
            Ok(_) => Ok(None),
            Err(error) => Err(error),
        }
    }

    /// Takes Nordea's decoded answer to a payment call, of any payment flow,
    /// into the call's record.
    pub fn handle_payments_response<Request>(
        &self,
        data: RouterData<Request, PaymentsResponseData>,
        response: NordeaPaymentsResponse,
        http_code: u16,
    ) -> (result: Result<RouterData<Request, PaymentsResponseData>, ConnectorError>)
        ensures
            crate::nordea::transformers::is_payments_record(result, response, data),
    {
        let item = ResponseRouterData { response, data, http_code };
        item.try_into_router_data()
    }

    /// Takes Nordea's decoded answer to a refund call, of either refund
    /// flow, into the call's record.
    pub fn handle_refund_response(
        &self,
        data: RefundsRouterData,
        response: RefundResponse,
        http_code: u16,
    ) -> (result: Result<RefundsRouterData, ConnectorError>)
        ensures
            crate::nordea::transformers::is_refund_record(result, response, data),
    {
        let item = ResponseRouterData { response, data, http_code };
        item.try_into_router_data()
    }
}

/// The kinds of connector.
#[derive(Clone, Copy, Debug, PartialEq, Eq, Structural)]
pub enum PaymentConnectorCategory {
    PaymentGateway,
    AlternativePaymentMethod,
    BankAcquirer,
}

/// What a connector says of itself.
#[derive(Clone, Copy, Debug, PartialEq, Eq)]
pub struct ConnectorInfo {
    pub display_name: &'static str,
    pub description: &'static str,
    pub connector_type: PaymentConnectorCategory,
}

/// Whether a connector supports a feature.
#[derive(Clone, Copy, Debug, PartialEq, Eq, Structural)]
pub enum FeatureStatus {
    NotSupported,
    Supported,
}

/// The families of payment methods.
#[derive(Clone, Copy, Debug, PartialEq, Eq, Structural)]
pub enum PaymentMethod {
    Card,
    BankDebit,
    BankRedirect,
    BankTransfer,
    Wallet,
}

/// The payment methods within a family.
#[derive(Clone, Copy, Debug, PartialEq, Eq, Structural)]
pub enum PaymentMethodType {
    Ach,
    Bacs,
    Becs,
    Credit,
    Debit,
    Sepa,
}

/// How far a connector supports one payment method.
#[derive(Clone, Debug, PartialEq, Eq)]
pub struct PaymentMethodDetails {
    pub mandates: FeatureStatus,
    pub refunds: FeatureStatus,
    pub supported_capture_methods: Vec<crate::domain::CaptureMethod>,
}

/// One payment method that a connector supports.
#[derive(Clone, Debug, PartialEq, Eq)]
pub struct SupportedPaymentMethod {
    pub payment_method: PaymentMethod,
    pub payment_method_type: PaymentMethodType,
    pub details: PaymentMethodDetails,
}

/// The classes of events that a webhook can report.
#[derive(Clone, Copy, Debug, PartialEq, Eq, Structural)]
pub enum EventClass {
    Payments,
    Refunds,
    Disputes,
}

/// What Nordea is called.
pub const NORDEA_DISPLAY_NAME: &'static str = "Nordea";

/// What Nordea is.
pub const NORDEA_DESCRIPTION: &'static str =
    "Nordea is one of the leading financial services group in the Nordics and the preferred choice for millions across the region.";

/// Whether `methods` is what Nordea supports: SEPA bank debit alone, without
/// mandates and without refunds, captured automatically, at once or in
/// sequence.
pub open spec fn is_nordea_support(methods: Seq<SupportedPaymentMethod>) -> bool {
    &&& methods.len() == 1
    &&& methods[0].payment_method == PaymentMethod::BankDebit
    &&& methods[0].payment_method_type == PaymentMethodType::Sepa
    &&& methods[0].details.mandates == FeatureStatus::NotSupported
    &&& methods[0].details.refunds == FeatureStatus::NotSupported
    &&& methods[0].details.supported_capture_methods@ == seq![
        crate::domain::CaptureMethod::Automatic,
        crate::domain::CaptureMethod::SequentialAutomatic,
    ]
}

impl Nordea {
    /// What Nordea says of itself.
    pub fn get_connector_about(&self) -> (result: Option<ConnectorInfo>)
        ensures
            result matches Some(info) && info.display_name@ == NORDEA_DISPLAY_NAME@
                && info.description@ == NORDEA_DESCRIPTION@ && info.connector_type
                == PaymentConnectorCategory::PaymentGateway,
    {
        Some(
            ConnectorInfo {
                display_name: NORDEA_DISPLAY_NAME,
                description: NORDEA_DESCRIPTION,
                connector_type: PaymentConnectorCategory::PaymentGateway,
            },
        )
    }

    /// The payment methods that Nordea supports.
    pub fn get_supported_payment_methods(&self) -> (result: Option<Vec<SupportedPaymentMethod>>)
        ensures
            result matches Some(methods) && is_nordea_support(methods@),
    {
        let mut capture_methods: Vec<crate::domain::CaptureMethod> = Vec::new();
        capture_methods.push(crate::domain::CaptureMethod::Automatic);
        capture_methods.push(crate::domain::CaptureMethod::SequentialAutomatic);
        assert(capture_methods@ =~= seq![
            crate::domain::CaptureMethod::Automatic,
            crate::domain::CaptureMethod::SequentialAutomatic,
        ]);
        let mut methods: Vec<SupportedPaymentMethod> = Vec::new();
        methods.push(
            SupportedPaymentMethod {
                payment_method: PaymentMethod::BankDebit,
                payment_method_type: PaymentMethodType::Sepa,
                details: PaymentMethodDetails {
                    mandates: FeatureStatus::NotSupported,
                    refunds: FeatureStatus::NotSupported,
                    supported_capture_methods: capture_methods,
                },
            },
        );
        Some(methods)
    }

    /// The classes of events that Nordea reports by webhook: none.
    pub fn get_supported_webhook_flows(&self) -> (result: Option<Vec<EventClass>>)
        ensures
            result matches Some(flows) && flows@.len() == 0,
    {
        Some(Vec::new())
    }

    /// The object that an incoming webhook refers to: webhooks are not
    /// implemented.
    pub fn get_webhook_object_reference_id(&self, _body: &[u8]) -> (result: Result<
        String,
        ConnectorError,
    >)
        ensures
            result matches Err(error) && error == ConnectorError::WebhooksNotImplemented,
    {
        Err(ConnectorError::WebhooksNotImplemented)
    }

    /// The event that an incoming webhook reports: webhooks are not
    /// implemented.
    pub fn get_webhook_event_type(&self, _body: &[u8]) -> (result: Result<
        EventClass,
        ConnectorError,
    >)
        ensures
            result matches Err(error) && error == ConnectorError::WebhooksNotImplemented,
    {
        Err(ConnectorError::WebhooksNotImplemented)
    }

    /// The resource that an incoming webhook carries: webhooks are not
    /// implemented.
    pub fn get_webhook_resource_object(&self, _body: &[u8]) -> (result: Result<
        Vec<u8>,
        ConnectorError,
    >)
        ensures
            result matches Err(error) && error == ConnectorError::WebhooksNotImplemented,
    {
        Err(ConnectorError::WebhooksNotImplemented)
    }
}

} // verus!
