//! The connectors as one closed set: which there are, what each supports,
//! and the body that each builds for a payment.

use vstd::prelude::*;
use crate::amount::{
    conversion_failure, convert_amount, convert_minor_amount, major_unit_conversion,
    minor_unit_text, StringMajorUnitForConnector, StringMinorUnitForConnector,
};
use crate::configs::CurrencyUnit;
use crate::domain::{BankDebitData, PaymentMethodData, PaymentsAuthorizeRouterData};
use crate::errors::ConnectorError;
use crate::monei::transformers::{
    auto_capture, is_monei_request_outcome, MoneiPaymentsRequest, MoneiRouterData,
};
use crate::nordea::requests::{NordeaPaymentsRequest, NordeaRouterData};
use crate::nordea::transformers::{
    authorize_parts, decoded_metadata, is_payment_request_outcome, PaymentParts,
};

verus! {

/// The connectors of this layer. A connector is chosen when the layer is
/// configured; every function below decides by the variant.
#[derive(Clone, Copy, Debug, PartialEq, Eq, Structural)]
pub enum Connector {
    Monei,
    Nordea,
}

/// The body of a payment request, in the schema of the connector that built
/// it.
#[derive(Clone, PartialEq, Eq)]
pub enum ConnectorRequestBody {
    Monei(MoneiPaymentsRequest),
    Nordea(NordeaPaymentsRequest),
}

impl Connector {
    /// The connector's name.
    pub open spec fn spec_id(self) -> Seq<char> {
        match self {
            Connector::Monei => "monei"@,
            Connector::Nordea => "nordea"@,
        }
    }

    /// The unit in which the connector takes amounts: MONEI minor units,
    /// Nordea major units.
    pub open spec fn spec_currency_unit(self) -> CurrencyUnit {
        match self {
            Connector::Monei => CurrencyUnit::Minor,
            Connector::Nordea => CurrencyUnit::Base,
        }
    }

    /// Whether the connector supports a payment method: MONEI cards, Nordea
    /// SEPA bank debits.
    pub open spec fn spec_supports(self, payment_method_data: PaymentMethodData) -> bool {
        match self {
            Connector::Monei => payment_method_data is Card,
            Connector::Nordea => match payment_method_data {
                PaymentMethodData::BankDebit(BankDebitData::SepaBankDebit { .. }) => true,
                _ => false,
            },
        }
    }

    /// Returns the connector's name.
    pub fn id(self) -> (result: &'static str)
        ensures
            result@ == self.spec_id(),
    {
        match self {
            Connector::Monei => "monei",
            Connector::Nordea => "nordea",
        }
    }

    /// Returns the unit in which the connector takes amounts.
    pub fn get_currency_unit(self) -> (result: CurrencyUnit)
        ensures
            result == self.spec_currency_unit(),
    {
        match self {
            Connector::Monei => CurrencyUnit::Minor,
            Connector::Nordea => CurrencyUnit::Base,
        }
    }

    /// Tells whether the connector supports a payment method.
    pub fn supports(self, payment_method_data: &PaymentMethodData) -> (result: bool)
        ensures
            result == self.spec_supports(*payment_method_data),
    {
        match self {
            Connector::Monei => match payment_method_data {
                PaymentMethodData::Card(_) => true,
                _ => false,
            },
            Connector::Nordea => match payment_method_data {
                PaymentMethodData::BankDebit(BankDebitData::SepaBankDebit { .. }) => true,
                _ => false,
            },
        }
    }
}

/// Whether `result` is the body that `connector` builds for the payment
/// that `req` asks for: the amount converted to the connector's unit, which
/// for Nordea fails on a currency that major units cannot express, and then
/// what the connector's request builder gives for the converted amount.
pub open spec fn is_authorize_body_of(
    connector: Connector,
    result: Result<ConnectorRequestBody, ConnectorError>,
    req: &PaymentsAuthorizeRouterData,
) -> bool {
    match connector {
        Connector::Monei => match result {
            Ok(ConnectorRequestBody::Monei(body)) => is_monei_request_outcome(
                Ok(body),
                minor_unit_text(req.request.minor_amount as int),
                req,
            ),
            Ok(ConnectorRequestBody::Nordea(_)) => false,
            Err(error) => is_monei_request_outcome(
                Err(error),
                minor_unit_text(req.request.minor_amount as int),
                req,
            ),
        },
        Connector::Nordea => match major_unit_conversion(
            req.request.minor_amount,
            req.request.currency,
        ) {
            Err(failure) => match result {
                Ok(_) => false,
                Err(error) => error == conversion_failure(failure),
            },
            Ok(text) => match result {
                Ok(ConnectorRequestBody::Nordea(body)) => is_payment_request_outcome(
                    Ok(body),
                    text,
                    authorize_parts(req),
                ),
                Ok(ConnectorRequestBody::Monei(_)) => false,
                Err(error) => is_payment_request_outcome(Err(error), text, authorize_parts(req)),
            },
        },
    }
}

impl Connector {
    /// Builds the body of the payment that `req` asks for, in the
    /// connector's schema and with the amount in the connector's unit.
    pub fn build_authorize_body(self, req: &PaymentsAuthorizeRouterData) -> (result: Result<
        ConnectorRequestBody,
        ConnectorError,
    >)
        ensures
            is_authorize_body_of(self, result, req),
    {
        match self {
            Connector::Monei => {
                let amount = match convert_minor_amount(
                    &StringMinorUnitForConnector,
                    req.request.minor_amount,
                    req.request.currency,
                ) {
                    Ok(amount) => amount,
                    Err(error) => {
                        return Err(error);
                    },
                };
                let item = MoneiRouterData::from((amount, req));
                match MoneiPaymentsRequest::try_from(&item) {
                    Ok(body) => Ok(ConnectorRequestBody::Monei(body)),
                    Err(error) => Err(error),
                }
            },
            Connector::Nordea => {
                let amount = match convert_amount(
                    &StringMajorUnitForConnector,
                    req.request.minor_amount,
                    req.request.currency,
                ) {
                    Ok(amount) => amount,
                    Err(error) => {
                        return Err(error);
                    },
                };
                let item = NordeaRouterData::from((amount, req));
                match NordeaPaymentsRequest::try_from(&item) {
                    Ok(body) => Ok(ConnectorRequestBody::Nordea(body)),
                    Err(error) => Err(error),
                }
            },
        }
    }
}

/// Whether `error` says that the payment method `name` is not supported.
pub open spec fn is_unsupported_method(error: ConnectorError, name: Seq<char>) -> bool {
    match error {
        ConnectorError::UnsupportedPaymentMethod(named) => named@ == name,
        _ => false,
    }
}

/// Nordea refuses exactly what it does not support: for a payment method
/// that it does not support, building a payment fails and names the method;
/// for one that it supports, building fails only on the metadata.
pub proof fn lemma_nordea_refuses_what_it_does_not_support(
    result: Result<NordeaPaymentsRequest, ConnectorError>,
    amount: Seq<char>,
    parts: PaymentParts<'_>,
)
    requires
        is_payment_request_outcome(result, amount, parts),
    ensures
        !Connector::Nordea.spec_supports(*parts.payment_method_data) ==> result is Err
            && is_unsupported_method(result->Err_0, parts.payment_method_data.spec_name()),
        Connector::Nordea.spec_supports(*parts.payment_method_data) ==> (result is Ok
            <==> decoded_metadata(*parts.connector_meta_data) is Some),
        result is Err && Connector::Nordea.spec_supports(*parts.payment_method_data)
            ==> !(result->Err_0 is UnsupportedPaymentMethod),
{
}

/// MONEI refuses exactly what it does not support: with a way of capturing
/// that it supports, building a payment succeeds for a card and for no other
/// payment method, and a failure names the method.
pub proof fn lemma_monei_refuses_what_it_does_not_support(
    result: Result<MoneiPaymentsRequest, ConnectorError>,
    amount: Seq<char>,
    req: &PaymentsAuthorizeRouterData,
)
    requires
        is_monei_request_outcome(result, amount, req),
        auto_capture(req.request.capture_method) is Some,
    ensures
        result is Ok <==> Connector::Monei.spec_supports(req.request.payment_method_data),
        result is Err ==> is_unsupported_method(
            result->Err_0,
            req.request.payment_method_data.spec_name(),
        ),
{
}

} // verus!
