//! The error taxonomy shared by every component of the core.
//!
//! Builders and the router record constructor surface these immediately for
//! required fields; optional, metadata-derived features degrade to "absent"
//! instead of failing (that asymmetry is deliberate and is stated in the
//! contracts of the functions concerned).

use vstd::prelude::*;

verus! {

/// The fields whose absence or malformedness the core reports by name.
#[derive(Clone, Copy, Debug, PartialEq, Eq, Structural)]
pub enum FieldName {
    PaymentMethodData,
    PaymentMethodType,
    Currency,
    Amount,
    BrowserInfo,
    OrderDetails,
    ClientSecret,
    RedirectionData,
    Connector,
}

/// One kind per §7-style failure: a required field is absent, a present
/// field fails typed parsing, a connector transaction id cannot be
/// resolved, the connector account is disabled, or an internal
/// (de)serialization step fails.
#[derive(Clone, Copy, Debug, PartialEq, Eq, Structural)]
pub enum ApiError {
    MissingRequiredField { field: FieldName },
    InvalidDataValue { field: FieldName },
    ResourceIdNotFound,
    MerchantConnectorAccountDisabled,
    InternalServerError,
}

impl FieldName {
    /// The wire name of the field, as it appears in error payloads.
    pub fn as_text(&self) -> (r: &'static str)
        ensures
            r@ == self.text_chars(),
    {
        match self {
            FieldName::PaymentMethodData => "payment_method_data",
            FieldName::PaymentMethodType => "payment_method_type",
            FieldName::Currency => "currency",
            FieldName::Amount => "amount",
            FieldName::BrowserInfo => "browser_info",
            FieldName::OrderDetails => "OrderDetailsWithAmount",
            FieldName::ClientSecret => "client_secret",
            FieldName::RedirectionData => "redirection_data",
            FieldName::Connector => "connector",
        }
    }

    /// The characters of the wire name.
    pub open spec fn text_chars(self) -> Seq<char> {
        match self {
            FieldName::PaymentMethodData => "payment_method_data"@,
            FieldName::PaymentMethodType => "payment_method_type"@,
            FieldName::Currency => "currency"@,
            FieldName::Amount => "amount"@,
            FieldName::BrowserInfo => "browser_info"@,
            FieldName::OrderDetails => "OrderDetailsWithAmount"@,
            FieldName::ClientSecret => "client_secret"@,
            FieldName::RedirectionData => "redirection_data"@,
            FieldName::Connector => "connector"@,
        }
    }
}

} // verus!
