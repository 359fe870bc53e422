//! The request builders: one pure function per payment flow, projecting
//! the canonical aggregate into a flow-specific, connector-agnostic
//! request record. Shared derivation rules — the surcharge override of
//! the amount, browser-info decoding, order-details batching, URL
//! derivation, the mandate/off-session default and connector-specific
//! transaction-id resolution — are applied identically wherever they
//! appear.

use vstd::prelude::*;

use crate::capture::ResponseId;
use crate::enums::{
    CaptureMethod, Connector, Country, Currency, FutureUsage, PaymentExperience, PaymentMethodType,
    RequestIncrementalAuthorization,
};
use crate::errors::{ApiError, FieldName};
use crate::metadata::{
    decode_parsed, spec_decode_parsed, BrowserInformation, ConnectorMetadataShapes, OrderDetails,
    OrderDetailsWithAmount, Parsed, PaymentCharges,
};
use crate::text::str_eq;
use crate::types::{
    AuthenticationRecord, Customer, CustomerAcceptance, MandateData, MandateIds, PaymentAttempt,
    PaymentData, PaymentMethodData, SurchargeDetails,
};
use crate::urls::{
    complete_authorize_url_chars, create_complete_authorize_url, create_redirect_url,
    create_webhook_url, redirect_url_chars, webhook_url_chars,
};

verus! {

/// The context a request builder works from: the aggregate, the
/// connector's identity, the router's base URL and the customer record.
#[derive(Clone, Debug, PartialEq)]
pub struct PaymentAdditionalData {
    pub router_base_url: String,
    pub connector_name: String,
    pub payment_data: PaymentData,
    pub customer_data: Option<Customer>,
}

/// The authentication payload a connector receives when an external
/// authentication preceded authorization.
#[derive(Clone, Debug, PartialEq)]
pub struct AuthenticationData {
    pub cavv: String,
    pub threeds_server_transaction_id: Option<String>,
    pub message_version: Option<String>,
    pub ds_trans_id: Option<String>,
}

impl AuthenticationData {
    /// The payload an authentication record yields: it requires the
    /// cardholder verification value.
    pub open spec fn spec_foreign_try_from(rec: AuthenticationRecord) -> Result<
        AuthenticationData,
        ApiError,
    > {
        match rec.cavv {
            Some(cavv) => Ok(AuthenticationData {
                cavv,
                threeds_server_transaction_id: rec.threeds_server_transaction_id,
                message_version: rec.message_version,
                ds_trans_id: rec.ds_transaction_id,
            }),
            None => Err(ApiError::InternalServerError),
        }
    }

    /// Converts an authentication record into the connector-facing
    /// authentication payload.
    pub fn foreign_try_from(rec: AuthenticationRecord) -> (r: Result<AuthenticationData, ApiError>)
        ensures
            r == Self::spec_foreign_try_from(rec),
    {
        match rec.cavv {
            Some(cavv) => Ok(AuthenticationData {
                cavv,
                threeds_server_transaction_id: rec.threeds_server_transaction_id,
                message_version: rec.message_version,
                ds_trans_id: rec.ds_transaction_id,
            }),
            None => Err(ApiError::InternalServerError),
        }
    }
}

/// The outcome of decoding a whole order-details batch: any single
/// malformed element fails the batch; there are no partial lists.
pub open spec fn spec_decode_order_details(od: Option<Vec<Parsed<OrderDetailsWithAmount>>>) -> Result<
    Option<Seq<OrderDetailsWithAmount>>,
    ApiError,
> {
    match od {
        None => Ok(None),
        Some(v) => {
            if exists|i: int| 0 <= i < v@.len() && v@[i] is Malformed {
                Err(ApiError::InvalidDataValue { field: FieldName::OrderDetails })
            } else {
                Ok(Some(v@.map_values(|p: Parsed<OrderDetailsWithAmount>| p->0)))
            }
        },
    }
}

/// Decodes the order-details batch, failing it whole on the first
/// malformed element.
pub fn decode_order_details(od: Option<&Vec<Parsed<OrderDetailsWithAmount>>>) -> (r: Result<
    Option<Vec<OrderDetailsWithAmount>>,
    ApiError,
>)
    ensures
        ({
            let opt = match od {
                Some(v) => Some(*v),
                None => None,
            };
            let s = spec_decode_order_details(opt);
            match r {
                Ok(x) => {
                    &&& s is Ok
                    &&& (x matches Some(v) ==> s->Ok_0 == Some(v@))
                    &&& (x is None <==> s->Ok_0 is None)
                },
                Err(e) => s == Err::<Option<Seq<OrderDetailsWithAmount>>, ApiError>(e),
            }
        }),
{
    match od {
        None => Ok(None),
        Some(v) => {
            let ghost target = v@.map_values(|p: Parsed<OrderDetailsWithAmount>| p->0);
            let mut out: Vec<OrderDetailsWithAmount> = Vec::new();
            let mut i: usize = 0;
            while i < v.len()
                invariant
                    od == Some(v),
                    i <= v@.len(),
                    out@.len() == i,
                    forall|j: int| 0 <= j < i ==> v@[j] is Valid,
                    forall|j: int| 0 <= j < i ==> out@[j] == v@[j]->0,
                    target == v@.map_values(|p: Parsed<OrderDetailsWithAmount>| p->0),
                decreases v@.len() - i,
            {
                match &v[i] {
                    Parsed::Valid(x) => {
                        out.push(x.duplicate());
                    },
                    Parsed::Malformed => {
                        proof {
                            let witness: int = i as int;
                            assert(0 <= witness && witness < v@.len() && v@[witness] is Malformed);
                            assert(exists|j: int| 0 <= j < v@.len() && v@[j] is Malformed);
                        }
                        return Err(ApiError::InvalidDataValue { field: FieldName::OrderDetails });
                    },
                }
                i = i + 1;
            }
            proof {
                assert(forall|j: int| 0 <= j < v@.len() ==> !(v@[j] is Malformed));
                assert(out@ =~= target);
            }
            Ok(Some(out))
        },
    }
}

/// The connector a connector-id string names, when it names one the
/// core knows.
pub open spec fn spec_connector_of(s: Seq<char>) -> Option<Connector> {
    if s == "adyen"@ {
        Some(Connector::Adyen)
    } else if s == "helcim"@ {
        Some(Connector::Helcim)
    } else if s == "nexinets"@ {
        Some(Connector::Nexinets)
    } else if s == "payme"@ {
        Some(Connector::Payme)
    } else if s == "plaid"@ {
        Some(Connector::Plaid)
    } else if s == "stripe"@ {
        Some(Connector::Stripe)
    } else if s == "trustpay"@ {
        Some(Connector::Trustpay)
    } else {
        None
    }
}

impl Connector {
    /// Parses a connector-id string; an unknown name is an invalid
    /// connector value.
    pub fn from_str(s: &str) -> (r: Result<Connector, ApiError>)
        ensures
            r == match spec_connector_of(s@) {
                Some(c) => Ok::<Connector, ApiError>(c),
                None => Err::<Connector, ApiError>(
                    ApiError::InvalidDataValue { field: FieldName::Connector },
                ),
            },
    {
        if str_eq(s, "adyen") {
            Ok(Connector::Adyen)
        } else if str_eq(s, "helcim") {
            Ok(Connector::Helcim)
        } else if str_eq(s, "nexinets") {
            Ok(Connector::Nexinets)
        } else if str_eq(s, "payme") {
            Ok(Connector::Payme)
        } else if str_eq(s, "plaid") {
            Ok(Connector::Plaid)
        } else if str_eq(s, "stripe") {
            Ok(Connector::Stripe)
        } else if str_eq(s, "trustpay") {
            Ok(Connector::Trustpay)
        } else {
            Err(ApiError::InvalidDataValue { field: FieldName::Connector })
        }
    }
}

/// The transaction id buried in the attempt's connector metadata, when
/// it is there; otherwise resolution fails.
pub open spec fn spec_metadata_transaction_id(a: PaymentAttempt) -> Result<Option<String>, ApiError> {
    match a.connector_metadata {
        Some(m) => match m.transaction_id {
            Some(id) => Ok(Some(id)),
            None => Err(ApiError::ResourceIdNotFound),
        },
        None => Err(ApiError::ResourceIdNotFound),
    }
}

/// The connector transaction id after the connector-specific override:
/// helcim falls back to the metadata when the normal field is empty,
/// nexinets always reads the metadata, every other connector uses the
/// normal field as it stands.
pub open spec fn spec_connector_transaction_id(c: Connector, a: PaymentAttempt) -> Result<
    Option<String>,
    ApiError,
> {
    match c {
        Connector::Helcim => {
            if a.connector_transaction_id is Some {
                Ok(a.connector_transaction_id)
            } else {
                spec_metadata_transaction_id(a)
            }
        },
        Connector::Nexinets => spec_metadata_transaction_id(a),
        _ => Ok(a.connector_transaction_id),
    }
}

/// A required connector transaction id: what the override resolves, or
/// a missing-resource failure when even the override finds none.
pub open spec fn spec_required_transaction_id(c: Connector, a: PaymentAttempt) -> Result<
    String,
    ApiError,
> {
    match spec_connector_transaction_id(c, a) {
        Ok(Some(id)) => Ok(id),
        Ok(None) => Err(ApiError::ResourceIdNotFound),
        Err(e) => Err(e),
    }
}

fn metadata_transaction_id(a: &PaymentAttempt) -> (r: Result<Option<String>, ApiError>)
    ensures
        r == spec_metadata_transaction_id(*a),
{
    match &a.connector_metadata {
        Some(m) => match &m.transaction_id {
            Some(id) => Ok(Some(id.clone())),
            None => Err(ApiError::ResourceIdNotFound),
        },
        None => Err(ApiError::ResourceIdNotFound),
    }
}

impl Connector {
    /// Resolves the connector transaction id for this connector,
    /// applying its metadata override where one exists.
    pub fn connector_transaction_id(&self, payment_attempt: &PaymentAttempt) -> (r: Result<
        Option<String>,
        ApiError,
    >)
        ensures
            r == spec_connector_transaction_id(*self, *payment_attempt),
    {
        match self {
            Connector::Helcim => {
                if payment_attempt.connector_transaction_id.is_some() {
                    Ok(crate::text::dup_opt_string(&payment_attempt.connector_transaction_id))
                } else {
                    metadata_transaction_id(payment_attempt)
                }
            },
            Connector::Nexinets => metadata_transaction_id(payment_attempt),
            _ => Ok(crate::text::dup_opt_string(&payment_attempt.connector_transaction_id)),
        }
    }

    /// Resolves the transaction id a capture, cancel or incremental
    /// authorization must carry; absence after the override is a
    /// missing-resource failure.
    pub fn required_transaction_id(&self, payment_attempt: &PaymentAttempt) -> (r: Result<
        String,
        ApiError,
    >)
        ensures
            r == spec_required_transaction_id(*self, *payment_attempt),
    {
        match self.connector_transaction_id(payment_attempt) {
            Ok(Some(id)) => Ok(id),
            Ok(None) => Err(ApiError::ResourceIdNotFound),
            Err(e) => Err(e),
        }
    }
}

/// The payment-method data a flow works with: what was supplied, or the
/// mandate-payment default when only a mandate id is present.
pub open spec fn spec_effective_payment_method_data(pd: PaymentData) -> Option<PaymentMethodData> {
    match pd.payment_method_data {
        Some(p) => Some(p),
        None => {
            if pd.mandate_id is Some {
                Some(PaymentMethodData::MandatePayment)
            } else {
                None
            }
        },
    }
}

/// Off-session is set exactly when a mandate id is present.
pub open spec fn spec_off_session(pd: PaymentData) -> Option<bool> {
    if pd.mandate_id is Some {
        Some(true)
    } else {
        None
    }
}

/// Whether the intent asked for incremental authorization (explicitly
/// or by default).
pub open spec fn spec_request_incremental_authorization(pi: crate::types::PaymentIntent) -> bool {
    pi.request_incremental_authorization == Some(RequestIncrementalAuthorization::True)
        || pi.request_incremental_authorization == Some(RequestIncrementalAuthorization::Default)
}

/// The intent-level order category, read from the noon section of the
/// intent's connector metadata.
pub open spec fn spec_order_category(pi: crate::types::PaymentIntent) -> Option<String> {
    match pi.connector_metadata {
        Some(Parsed::Valid(m)) => m.noon_order_category,
        _ => None,
    }
}

/// The flow-specific request record for an authorization.
#[derive(Clone, Debug, PartialEq)]
pub struct PaymentsAuthorizeData {
    pub payment_method_data: PaymentMethodData,
    pub setup_future_usage: Option<FutureUsage>,
    pub mandate_id: Option<MandateIds>,
    pub off_session: Option<bool>,
    pub setup_mandate_details: Option<MandateData>,
    pub confirm: bool,
    pub statement_descriptor_suffix: Option<String>,
    pub statement_descriptor: Option<String>,
    pub capture_method: Option<CaptureMethod>,
    pub amount: i64,
    pub minor_amount: i64,
    pub currency: Currency,
    pub browser_info: Option<BrowserInformation>,
    pub email: Option<String>,
    pub customer_name: Option<String>,
    pub payment_experience: Option<PaymentExperience>,
    pub order_details: Option<Vec<OrderDetailsWithAmount>>,
    pub order_category: Option<String>,
    pub session_token: Option<String>,
    pub enrolled_for_3ds: bool,
    pub related_transaction_id: Option<String>,
    pub payment_method_type: Option<PaymentMethodType>,
    pub router_return_url: Option<String>,
    pub webhook_url: Option<String>,
    pub complete_authorize_url: Option<String>,
    pub customer_id: Option<String>,
    pub surcharge_details: Option<SurchargeDetails>,
    pub request_incremental_authorization: bool,
    pub metadata: Option<String>,
    pub authentication_data: Option<AuthenticationData>,
    pub customer_acceptance: Option<CustomerAcceptance>,
    pub charges: Option<PaymentCharges>,
    pub merchant_order_reference_id: Option<String>,
}

/// The first failure an authorization build runs into, in the order the
/// derivations are applied; `None` when the build succeeds.
pub open spec fn spec_authorize_err(pd: PaymentData) -> Option<ApiError> {
    let a = pd.payment_attempt;
    let pi = pd.payment_intent;
    if spec_decode_parsed(
        a.browser_info,
        ApiError::InvalidDataValue { field: FieldName::BrowserInfo },
    ) is Err {
        Some(ApiError::InvalidDataValue { field: FieldName::BrowserInfo })
    } else if spec_decode_parsed(pi.connector_metadata, ApiError::InternalServerError) is Err {
        Some(ApiError::InternalServerError)
    } else if spec_decode_order_details(pi.order_details) is Err {
        Some(ApiError::InvalidDataValue { field: FieldName::OrderDetails })
    } else if spec_decode_parsed(pi.charges, ApiError::InternalServerError) is Err {
        Some(ApiError::InternalServerError)
    } else if spec_effective_payment_method_data(pd) is None {
        Some(ApiError::MissingRequiredField { field: FieldName::PaymentMethodData })
    } else if pd.authentication matches Some(rec) && rec.cavv is None {
        Some(ApiError::InternalServerError)
    } else {
        None
    }
}

/// How an authorization request relates to the aggregate and context
/// it was built from (stated only of successful builds).
pub open spec fn authorize_rel(
    base: Seq<char>,
    connector: Seq<char>,
    pd: PaymentData,
    customer: Option<Customer>,
    s: PaymentsAuthorizeData,
) -> bool {
    let a = pd.payment_attempt;
    let pi = pd.payment_intent;
    &&& Some(s.payment_method_data) == spec_effective_payment_method_data(pd)
    &&& s.setup_future_usage == pi.setup_future_usage
    &&& s.mandate_id == pd.mandate_id
    &&& s.off_session == spec_off_session(pd)
    &&& s.setup_mandate_details == pd.setup_mandate
    &&& s.confirm == a.confirm
    &&& s.statement_descriptor_suffix == pi.statement_descriptor_suffix
    &&& s.statement_descriptor == pi.statement_descriptor_name
    &&& s.capture_method == a.capture_method
    &&& s.amount == pd.spec_effective_amount()
    &&& s.minor_amount == pd.spec_effective_amount()
    &&& s.currency == pd.currency
    &&& Ok::<_, ApiError>(s.browser_info) == spec_decode_parsed(
        a.browser_info,
        ApiError::InvalidDataValue { field: FieldName::BrowserInfo },
    )
    &&& s.email == pd.email
    &&& s.customer_name == (match customer {
        Some(c) => c.name,
        None => None,
    })
    &&& s.payment_experience == a.payment_experience
    &&& (s.order_details matches Some(v) ==> spec_decode_order_details(
        pi.order_details,
    ) == Ok::<_, ApiError>(Some(v@)))
    &&& (s.order_details is None <==> pi.order_details is None)
    &&& s.order_category == spec_order_category(pi)
    &&& s.session_token is None
    &&& s.enrolled_for_3ds
    &&& s.related_transaction_id is None
    &&& s.payment_method_type == a.payment_method_type
    &&& (s.router_return_url matches Some(u) && u@ == redirect_url_chars(
        base,
        a.payment_id@,
        a.merchant_id@,
        connector,
        match pd.creds_identifier {
            Some(c) => Some(c@),
            None => None,
        },
    ))
    &&& (s.webhook_url matches Some(u) && u@ == webhook_url_chars(
        base,
        a.merchant_id@,
        connector,
    ))
    &&& (s.complete_authorize_url matches Some(u) && u@
        == complete_authorize_url_chars(
        base,
        a.payment_id@,
        a.merchant_id@,
        connector,
    ))
    &&& s.customer_id == (match customer {
        Some(c) => Some(c.customer_id),
        None => None,
    })
    &&& s.surcharge_details == pd.surcharge_details
    &&& s.request_incremental_authorization
        == spec_request_incremental_authorization(pi)
    &&& s.metadata == pi.metadata
    &&& s.authentication_data == (match pd.authentication {
        Some(rec) => Some(AuthenticationData::spec_foreign_try_from(rec)->Ok_0),
        None => None::<AuthenticationData>,
    })
    &&& s.customer_acceptance == pd.customer_acceptance
    &&& Ok::<_, ApiError>(s.charges) == spec_decode_parsed(
        pi.charges,
        ApiError::InternalServerError,
    )
    &&& s.merchant_order_reference_id == pi.merchant_order_reference_id
}

impl PaymentsAuthorizeData {
    /// Builds the authorization request. The derived amount is the
    /// surcharge's final amount whenever a surcharge is present;
    /// payment-method data is required, with the mandate-payment
    /// default standing in only when a mandate id exists.
    pub fn try_from(additional_data: PaymentAdditionalData) -> (r: Result<Self, ApiError>)
        ensures
            ({
                let d = additional_data;
                let pd = d.payment_data;
                let a = pd.payment_attempt;
                let pi = pd.payment_intent;
                match r {
                    Err(e) => spec_authorize_err(pd) == Some(e),
                    Ok(s) => {
                        &&& spec_authorize_err(pd) is None
                        &&& authorize_rel(
                            d.router_base_url@,
                            d.connector_name@,
                            pd,
                            d.customer_data,
                            s,
                        )
                    },
                }
            }),
    {
        let PaymentAdditionalData { router_base_url, connector_name, payment_data, customer_data } =
            additional_data;

        let complete_authorize_url = Some(
            create_complete_authorize_url(
                router_base_url.as_str(),
                &payment_data.payment_attempt,
                connector_name.as_str(),
            ),
        );
        let webhook_url = Some(
            create_webhook_url(
                router_base_url.as_str(),
                payment_data.payment_attempt.merchant_id.as_str(),
                connector_name.as_str(),
            ),
        );
        let creds: Option<&str> = match &payment_data.creds_identifier {
            Some(c) => Some(c.as_str()),
            None => None,
        };
        let router_return_url = Some(
            create_redirect_url(
                router_base_url.as_str(),
                &payment_data.payment_attempt,
                connector_name.as_str(),
                creds,
            ),
        );

        let browser_info = match decode_parsed(
            payment_data.payment_attempt.browser_info,
            ApiError::InvalidDataValue { field: FieldName::BrowserInfo },
        ) {
            Ok(v) => v,
            Err(e) => { return Err(e) },
        };
        let intent_metadata = match decode_parsed(
            payment_data.payment_intent.connector_metadata,
            ApiError::InternalServerError,
        ) {
            Ok(v) => v,
            Err(e) => { return Err(e) },
        };
        let order_category = match intent_metadata {
            Some(m) => m.noon_order_category,
            None => None,
        };
        let order_details = match decode_order_details(
            payment_data.payment_intent.order_details.as_ref(),
        ) {
            Ok(v) => v,
            Err(e) => { return Err(e) },
        };
        let charges = match decode_parsed(
            payment_data.payment_intent.charges,
            ApiError::InternalServerError,
        ) {
            Ok(v) => v,
            Err(e) => { return Err(e) },
        };

        let has_mandate = payment_data.mandate_id.is_some();
        let payment_method_data = match payment_data.payment_method_data {
            Some(p) => p,
            None => {
                if has_mandate {
                    PaymentMethodData::MandatePayment
                } else {
                    return Err(ApiError::MissingRequiredField {
                        field: FieldName::PaymentMethodData,
                    });
                }
            },
        };
        let off_session = if has_mandate {
            Some(true)
        } else {
            None
        };
        let amount = match &payment_data.surcharge_details {
            Some(s) => s.final_amount,
            None => payment_data.amount,
        };
        let (customer_name, customer_id) = match customer_data {
            Some(c) => (c.name, Some(c.customer_id)),
            None => (None, None),
        };
        let authentication_data = match payment_data.authentication {
            Some(rec) => match AuthenticationData::foreign_try_from(rec) {
                Ok(auth) => Some(auth),
                Err(e) => { return Err(e) },
            },
            None => None,
        };
        let request_incremental_authorization = matches!(
            payment_data.payment_intent.request_incremental_authorization,
            Some(RequestIncrementalAuthorization::True)
                | Some(RequestIncrementalAuthorization::Default),
        );

        Ok(PaymentsAuthorizeData {
            payment_method_data,
            setup_future_usage: payment_data.payment_intent.setup_future_usage,
            mandate_id: payment_data.mandate_id,
            off_session,
            setup_mandate_details: payment_data.setup_mandate,
            confirm: payment_data.payment_attempt.confirm,
            statement_descriptor_suffix: payment_data.payment_intent.statement_descriptor_suffix,
            statement_descriptor: payment_data.payment_intent.statement_descriptor_name,
            capture_method: payment_data.payment_attempt.capture_method,
            amount,
            minor_amount: amount,
            currency: payment_data.currency,
            browser_info,
            email: payment_data.email,
            customer_name,
            payment_experience: payment_data.payment_attempt.payment_experience,
            order_details,
            order_category,
            session_token: None,
            enrolled_for_3ds: true,
            related_transaction_id: None,
            payment_method_type: payment_data.payment_attempt.payment_method_type,
            router_return_url,
            webhook_url,
            complete_authorize_url,
            customer_id,
            surcharge_details: payment_data.surcharge_details,
            request_incremental_authorization,
            metadata: payment_data.payment_intent.metadata,
            authentication_data,
            customer_acceptance: payment_data.customer_acceptance,
            charges,
            merchant_order_reference_id: payment_data.payment_intent.merchant_order_reference_id,
        })
    }
}

/// Whether a sync addresses one payment or a set of pending captures.
#[derive(Clone, Debug, PartialEq)]
pub enum SyncRequestType {
    MultipleCaptureSync(Vec<String>),
    SinglePaymentSync,
}

/// The flow-specific request record for a payment sync.
#[derive(Clone, Debug, PartialEq)]
pub struct PaymentsSyncData {
    pub amount: i64,
    pub mandate_id: Option<MandateIds>,
    pub connector_transaction_id: ResponseId,
    pub encoded_data: Option<String>,
    pub capture_method: Option<CaptureMethod>,
    pub connector_meta: Option<ConnectorMetadataShapes>,
    pub sync_type: SyncRequestType,
    pub payment_method_type: Option<PaymentMethodType>,
    pub currency: Currency,
    pub payment_experience: Option<PaymentExperience>,
}

/// How a sync request relates to the aggregate it was built from.
pub open spec fn sync_rel(pd: PaymentData, s: PaymentsSyncData) -> bool {
    let a = pd.payment_attempt;
    &&& s.amount == pd.spec_effective_amount()
    &&& s.mandate_id == pd.mandate_id
    &&& s.connector_transaction_id == (match a.connector_transaction_id {
        Some(id) => ResponseId::ConnectorTransactionId(id),
        None => ResponseId::NoResponseId,
    })
    &&& s.encoded_data == a.encoded_data
    &&& s.capture_method == a.capture_method
    &&& s.connector_meta == a.connector_metadata
    &&& (match pd.multiple_capture_data {
        Some(m) => s.sync_type matches SyncRequestType::MultipleCaptureSync(ids) && ids@
            == crate::types::pending_capture_ids(m.captures@),
        None => s.sync_type is SinglePaymentSync,
    })
    &&& s.payment_method_type == a.payment_method_type
    &&& s.currency == pd.currency
    &&& s.payment_experience == a.payment_experience
}

impl PaymentsSyncData {
    /// Builds the sync request; it never fails, and its amount is the
    /// effective (surcharge-overridden) amount.
    pub fn try_from(additional_data: PaymentAdditionalData) -> (r: Result<Self, ApiError>)
        ensures
            r matches Ok(s) && sync_rel(additional_data.payment_data, s),
    {
        let payment_data = additional_data.payment_data;
        let amount = match &payment_data.surcharge_details {
            Some(s) => s.final_amount,
            None => payment_data.amount,
        };
        let sync_type = match &payment_data.multiple_capture_data {
            Some(m) => SyncRequestType::MultipleCaptureSync(m.get_pending_connector_capture_ids()),
            None => SyncRequestType::SinglePaymentSync,
        };
        let connector_transaction_id = match payment_data.payment_attempt.connector_transaction_id {
            Some(id) => ResponseId::ConnectorTransactionId(id),
            None => ResponseId::NoResponseId,
        };
        Ok(PaymentsSyncData {
            amount,
            mandate_id: payment_data.mandate_id,
            connector_transaction_id,
            encoded_data: payment_data.payment_attempt.encoded_data,
            capture_method: payment_data.payment_attempt.capture_method,
            connector_meta: payment_data.payment_attempt.connector_metadata,
            sync_type,
            payment_method_type: payment_data.payment_attempt.payment_method_type,
            currency: payment_data.currency,
            payment_experience: payment_data.payment_attempt.payment_experience,
        })
    }
}

/// The request an already-initiated capture set sends along: how many
/// captures exist and which one this request continues.
#[derive(Clone, Debug, PartialEq)]
pub struct MultipleCaptureRequestData {
    pub capture_sequence: usize,
    pub capture_reference: String,
}

/// The flow-specific request record for a capture.
#[derive(Clone, Debug, PartialEq)]
pub struct PaymentsCaptureData {
    pub amount_to_capture: i64,
    pub minor_amount_to_capture: i64,
    pub currency: Currency,
    pub connector_transaction_id: String,
    pub payment_amount: i64,
    pub minor_payment_amount: i64,
    pub connector_meta: Option<ConnectorMetadataShapes>,
    pub multiple_capture_data: Option<MultipleCaptureRequestData>,
    pub browser_info: Option<BrowserInformation>,
    pub metadata: Option<String>,
}

/// The first failure a capture build runs into; `None` when it
/// succeeds.
pub open spec fn spec_capture_err(connector: Seq<char>, pd: PaymentData) -> Option<ApiError> {
    let a = pd.payment_attempt;
    if spec_connector_of(connector) is None {
        Some(ApiError::InvalidDataValue { field: FieldName::Connector })
    } else if spec_decode_parsed(
        a.browser_info,
        ApiError::InvalidDataValue { field: FieldName::BrowserInfo },
    ) is Err {
        Some(ApiError::InvalidDataValue { field: FieldName::BrowserInfo })
    } else if spec_required_transaction_id(spec_connector_of(connector)->0, a) is Err {
        Some(spec_required_transaction_id(spec_connector_of(connector)->0, a)->Err_0)
    } else {
        None
    }
}

/// How a capture request relates to the aggregate and connector it was
/// built from (stated only of successful builds).
pub open spec fn capture_rel(
    connector: Seq<char>,
    pd: PaymentData,
    s: PaymentsCaptureData,
) -> bool {
    let a = pd.payment_attempt;
    let pi = pd.payment_intent;
    &&& s.amount_to_capture == (match a.amount_to_capture {
        Some(c) => c,
        None => pd.spec_effective_amount(),
    })
    &&& s.minor_amount_to_capture == s.amount_to_capture
    &&& s.currency == pd.currency
    &&& Ok::<_, ApiError>(s.connector_transaction_id)
        == spec_required_transaction_id(
        spec_connector_of(connector)->0,
        a,
    )
    &&& s.payment_amount == pd.spec_effective_amount()
    &&& s.minor_payment_amount == pd.spec_effective_amount()
    &&& s.connector_meta == a.connector_metadata
    &&& (match pd.multiple_capture_data {
        Some(m) => s.multiple_capture_data matches Some(mc)
            && mc.capture_sequence == m.captures@.len()
            && mc.capture_reference == m.captures@.last().capture_id,
        None => s.multiple_capture_data is None,
    })
    &&& Ok::<_, ApiError>(s.browser_info) == spec_decode_parsed(
        a.browser_info,
        ApiError::InvalidDataValue { field: FieldName::BrowserInfo },
    )
    &&& s.metadata == pi.metadata
}

impl PaymentsCaptureData {
    /// Builds the capture request. The amount to capture defaults to
    /// the effective (surcharge-overridden) amount; the transaction id
    /// goes through the connector-specific override and must resolve.
    pub fn try_from(additional_data: PaymentAdditionalData) -> (r: Result<Self, ApiError>)
        requires
            additional_data.payment_data.wf(),
        ensures
            ({
                let d = additional_data;
                let pd = d.payment_data;
                let a = pd.payment_attempt;
                let pi = pd.payment_intent;
                match r {
                    Err(e) => spec_capture_err(d.connector_name@, pd) == Some(e),
                    Ok(s) => {
                        &&& spec_capture_err(d.connector_name@, pd) is None
                        &&& capture_rel(d.connector_name@, pd, s)
                    },
                }
            }),
    {
        let payment_data = additional_data.payment_data;
        let connector = match Connector::from_str(additional_data.connector_name.as_str()) {
            Ok(c) => c,
            Err(e) => { return Err(e) },
        };
        let payment_amount = match &payment_data.surcharge_details {
            Some(s) => s.final_amount,
            None => payment_data.amount,
        };
        let amount_to_capture = match payment_data.payment_attempt.amount_to_capture {
            Some(c) => c,
            None => payment_amount,
        };
        let resolved_transaction_id = connector.required_transaction_id(
            &payment_data.payment_attempt,
        );
        let browser_info = match decode_parsed(
            payment_data.payment_attempt.browser_info,
            ApiError::InvalidDataValue { field: FieldName::BrowserInfo },
        ) {
            Ok(v) => v,
            Err(e) => { return Err(e) },
        };
        let connector_transaction_id = match resolved_transaction_id {
            Ok(id) => id,
            Err(e) => { return Err(e) },
        };
        let multiple_capture_data = match &payment_data.multiple_capture_data {
            Some(m) => Some(
                MultipleCaptureRequestData {
                    capture_sequence: m.get_captures_count(),
                    capture_reference: m.get_latest_capture().capture_id.clone(),
                },
            ),
            None => None,
        };
        Ok(PaymentsCaptureData {
            amount_to_capture,
            minor_amount_to_capture: amount_to_capture,
            currency: payment_data.currency,
            connector_transaction_id,
            payment_amount,
            minor_payment_amount: payment_amount,
            connector_meta: payment_data.payment_attempt.connector_metadata,
            multiple_capture_data,
            browser_info,
            metadata: payment_data.payment_intent.metadata,
        })
    }
}

/// The flow-specific request record for a cancellation.
#[derive(Clone, Debug, PartialEq)]
pub struct PaymentsCancelData {
    pub amount: Option<i64>,
    pub minor_amount: Option<i64>,
    pub currency: Option<Currency>,
    pub connector_transaction_id: String,
    pub cancellation_reason: Option<String>,
    pub connector_meta: Option<ConnectorMetadataShapes>,
    pub browser_info: Option<BrowserInformation>,
    pub metadata: Option<String>,
}

/// How a cancel request relates to the aggregate and connector it was
/// built from (stated only of successful builds).
pub open spec fn cancel_rel(
    connector: Seq<char>,
    pd: PaymentData,
    s: PaymentsCancelData,
) -> bool {
    let a = pd.payment_attempt;
    &&& s.amount == Some(pd.spec_effective_amount())
    &&& s.minor_amount == Some(pd.spec_effective_amount())
    &&& s.currency == Some(pd.currency)
    &&& Ok::<_, ApiError>(s.connector_transaction_id)
        == spec_required_transaction_id(
        spec_connector_of(connector)->0,
        a,
    )
    &&& s.cancellation_reason == a.cancellation_reason
    &&& s.connector_meta == a.connector_metadata
    &&& Ok::<_, ApiError>(s.browser_info) == spec_decode_parsed(
        a.browser_info,
        ApiError::InvalidDataValue { field: FieldName::BrowserInfo },
    )
    &&& s.metadata == pd.payment_intent.metadata
}

impl PaymentsCancelData {
    /// Builds the cancel request; its failures are those of the capture
    /// build, and the cancellation reason is forwarded unaltered.
    pub fn try_from(additional_data: PaymentAdditionalData) -> (r: Result<Self, ApiError>)
        ensures
            ({
                let d = additional_data;
                let pd = d.payment_data;
                let a = pd.payment_attempt;
                match r {
                    Err(e) => spec_capture_err(d.connector_name@, pd) == Some(e),
                    Ok(s) => {
                        &&& spec_capture_err(d.connector_name@, pd) is None
                        &&& cancel_rel(d.connector_name@, pd, s)
                    },
                }
            }),
    {
        let payment_data = additional_data.payment_data;
        let connector = match Connector::from_str(additional_data.connector_name.as_str()) {
            Ok(c) => c,
            Err(e) => { return Err(e) },
        };
        let resolved_transaction_id = connector.required_transaction_id(
            &payment_data.payment_attempt,
        );
        let browser_info = match decode_parsed(
            payment_data.payment_attempt.browser_info,
            ApiError::InvalidDataValue { field: FieldName::BrowserInfo },
        ) {
            Ok(v) => v,
            Err(e) => { return Err(e) },
        };
        let connector_transaction_id = match resolved_transaction_id {
            Ok(id) => id,
            Err(e) => { return Err(e) },
        };
        let amount = match &payment_data.surcharge_details {
            Some(s) => s.final_amount,
            None => payment_data.amount,
        };
        Ok(PaymentsCancelData {
            amount: Some(amount),
            minor_amount: Some(amount),
            currency: Some(payment_data.currency),
            connector_transaction_id,
            cancellation_reason: payment_data.payment_attempt.cancellation_reason,
            connector_meta: payment_data.payment_attempt.connector_metadata,
            browser_info,
            metadata: payment_data.payment_intent.metadata,
        })
    }
}

/// The flow-specific request record for a merchant approval.
#[derive(Clone, Copy, Debug, PartialEq, Eq, Structural)]
pub struct PaymentsApproveData {
    pub amount: Option<i64>,
    pub currency: Option<Currency>,
}

impl PaymentsApproveData {
    /// Builds the approve request; it never fails and carries the
    /// effective (surcharge-overridden) amount.
    pub fn try_from(additional_data: PaymentAdditionalData) -> (r: Result<Self, ApiError>)
        ensures
            r == Ok::<_, ApiError>(
                PaymentsApproveData {
                    amount: Some(additional_data.payment_data.spec_effective_amount()),
                    currency: Some(additional_data.payment_data.currency),
                },
            ),
    {
        Ok(PaymentsApproveData {
            amount: Some(additional_data.payment_data.effective_amount()),
            currency: Some(additional_data.payment_data.currency),
        })
    }
}

/// The flow-specific request record for a merchant rejection.
#[derive(Clone, Copy, Debug, PartialEq, Eq, Structural)]
pub struct PaymentsRejectData {
    pub amount: Option<i64>,
    pub currency: Option<Currency>,
}

impl PaymentsRejectData {
    /// Builds the reject request; it never fails and carries the
    /// effective (surcharge-overridden) amount.
    pub fn try_from(additional_data: PaymentAdditionalData) -> (r: Result<Self, ApiError>)
        ensures
            r == Ok::<_, ApiError>(
                PaymentsRejectData {
                    amount: Some(additional_data.payment_data.spec_effective_amount()),
                    currency: Some(additional_data.payment_data.currency),
                },
            ),
    {
        Ok(PaymentsRejectData {
            amount: Some(additional_data.payment_data.effective_amount()),
            currency: Some(additional_data.payment_data.currency),
        })
    }
}

/// The flow-specific request record for a session creation.
#[derive(Clone, Debug, PartialEq)]
pub struct PaymentsSessionData {
    pub amount: i64,
    pub minor_amount: i64,
    pub currency: Currency,
    pub country: Option<Country>,
    pub order_details: Option<Vec<OrderDetailsWithAmount>>,
    pub surcharge_details: Option<SurchargeDetails>,
}

/// The billing country a session request carries: the country of the
/// payment-method billing address, when both are present.
pub open spec fn spec_billing_country(pd: PaymentData) -> Option<Country> {
    match pd.address.payment_method_billing {
        Some(b) => match b.address {
            Some(details) => details.country,
            None => None,
        },
        None => None,
    }
}

/// How a session request relates to the aggregate it was built from
/// (stated only of successful builds).
pub open spec fn session_rel(
    pd: PaymentData,
    s: PaymentsSessionData,
) -> bool {
    let pi = pd.payment_intent;
    &&& s.amount == pd.spec_effective_amount()
    &&& s.minor_amount == pd.spec_effective_amount()
    &&& s.currency == pd.currency
    &&& s.country == spec_billing_country(pd)
    &&& (s.order_details matches Some(v) ==> spec_decode_order_details(
        pi.order_details,
    ) == Ok::<_, ApiError>(Some(v@)))
    &&& (s.order_details is None <==> pi.order_details is None)
    &&& s.surcharge_details == pd.surcharge_details
}

impl PaymentsSessionData {
    /// Builds the session request; the only failure is a malformed
    /// order-details element, and the amount is the effective
    /// (surcharge-overridden) amount.
    pub fn try_from(additional_data: PaymentAdditionalData) -> (r: Result<Self, ApiError>)
        ensures
            ({
                let d = additional_data;
                let pd = d.payment_data;
                let pi = pd.payment_intent;
                match r {
                    Err(e) => spec_decode_order_details(pi.order_details) == Err::<
                        Option<Seq<OrderDetailsWithAmount>>,
                        ApiError,
                    >(e),
                    Ok(s) => {
                        &&& spec_decode_order_details(pi.order_details) is Ok
                        &&& session_rel(pd, s)
                    },
                }
            }),
    {
        let payment_data = additional_data.payment_data;
        let order_details = match decode_order_details(
            payment_data.payment_intent.order_details.as_ref(),
        ) {
            Ok(v) => v,
            Err(e) => { return Err(e) },
        };
        let amount = match &payment_data.surcharge_details {
            Some(s) => s.final_amount,
            None => payment_data.amount,
        };
        let country = match &payment_data.address.payment_method_billing {
            Some(b) => match &b.address {
                Some(details) => details.country,
                None => None,
            },
            None => None,
        };
        Ok(PaymentsSessionData {
            amount,
            minor_amount: amount,
            currency: payment_data.currency,
            country,
            order_details,
            surcharge_details: payment_data.surcharge_details,
        })
    }
}

/// The flow-specific request record for setting up a mandate.
#[derive(Clone, Debug, PartialEq)]
pub struct SetupMandateRequestData {
    pub currency: Currency,
    pub confirm: bool,
    pub amount: Option<i64>,
    pub minor_amount: Option<i64>,
    pub payment_method_data: PaymentMethodData,
    pub statement_descriptor_suffix: Option<String>,
    pub setup_future_usage: Option<FutureUsage>,
    pub off_session: Option<bool>,
    pub mandate_id: Option<MandateIds>,
    pub setup_mandate_details: Option<MandateData>,
    pub customer_acceptance: Option<CustomerAcceptance>,
    pub router_return_url: Option<String>,
    pub email: Option<String>,
    pub customer_name: Option<String>,
    pub return_url: Option<String>,
    pub browser_info: Option<BrowserInformation>,
    pub payment_method_type: Option<PaymentMethodType>,
    pub request_incremental_authorization: bool,
    pub metadata: Option<String>,
}

/// The first failure a setup-mandate build runs into; `None` when it
/// succeeds. Unlike authorization, absent payment-method data is never
/// defaulted here.
pub open spec fn spec_setup_mandate_err(pd: PaymentData) -> Option<ApiError> {
    let a = pd.payment_attempt;
    if spec_decode_parsed(
        a.browser_info,
        ApiError::InvalidDataValue { field: FieldName::BrowserInfo },
    ) is Err {
        Some(ApiError::InvalidDataValue { field: FieldName::BrowserInfo })
    } else if pd.payment_method_data is None {
        Some(ApiError::MissingRequiredField { field: FieldName::PaymentMethodData })
    } else {
        None
    }
}

/// How a setup-mandate request relates to the aggregate and context it
/// was built from (stated only of successful builds).
pub open spec fn setup_mandate_rel(
    base: Seq<char>,
    connector: Seq<char>,
    pd: PaymentData,
    customer: Option<Customer>,
    s: SetupMandateRequestData,
) -> bool {
    let a = pd.payment_attempt;
    let pi = pd.payment_intent;
    &&& s.currency == pd.currency
    &&& s.confirm
    &&& s.amount == Some(pd.spec_effective_amount())
    &&& s.minor_amount == Some(pd.spec_effective_amount())
    &&& Some(s.payment_method_data) == pd.payment_method_data
    &&& s.statement_descriptor_suffix == pi.statement_descriptor_suffix
    &&& s.setup_future_usage == pi.setup_future_usage
    &&& s.off_session == spec_off_session(pd)
    &&& s.mandate_id == pd.mandate_id
    &&& s.setup_mandate_details == pd.setup_mandate
    &&& s.customer_acceptance == pd.customer_acceptance
    &&& (s.router_return_url matches Some(u) && u@ == redirect_url_chars(
        base,
        a.payment_id@,
        a.merchant_id@,
        connector,
        match pd.creds_identifier {
            Some(c) => Some(c@),
            None => None,
        },
    ))
    &&& s.email == pd.email
    &&& s.customer_name == (match customer {
        Some(c) => c.name,
        None => None,
    })
    &&& s.return_url == pi.return_url
    &&& Ok::<_, ApiError>(s.browser_info) == spec_decode_parsed(
        a.browser_info,
        ApiError::InvalidDataValue { field: FieldName::BrowserInfo },
    )
    &&& s.payment_method_type == a.payment_method_type
    &&& s.request_incremental_authorization
        == spec_request_incremental_authorization(pi)
    &&& s.metadata == pi.metadata
}

impl SetupMandateRequestData {
    /// Builds the setup-mandate request; payment-method data is
    /// required outright, and the amount is the effective
    /// (surcharge-overridden) amount.
    pub fn try_from(additional_data: PaymentAdditionalData) -> (r: Result<Self, ApiError>)
        ensures
            ({
                let d = additional_data;
                let pd = d.payment_data;
                let a = pd.payment_attempt;
                let pi = pd.payment_intent;
                match r {
                    Err(e) => spec_setup_mandate_err(pd) == Some(e),
                    Ok(s) => {
                        &&& spec_setup_mandate_err(pd) is None
                        &&& setup_mandate_rel(d.router_base_url@, d.connector_name@, pd, d.customer_data, s)
                    },
                }
            }),
    {
        let PaymentAdditionalData { router_base_url, connector_name, payment_data, customer_data } =
            additional_data;
        let creds: Option<&str> = match &payment_data.creds_identifier {
            Some(c) => Some(c.as_str()),
            None => None,
        };
        let router_return_url = Some(
            create_redirect_url(
                router_base_url.as_str(),
                &payment_data.payment_attempt,
                connector_name.as_str(),
                creds,
            ),
        );
        let browser_info = match decode_parsed(
            payment_data.payment_attempt.browser_info,
            ApiError::InvalidDataValue { field: FieldName::BrowserInfo },
        ) {
            Ok(v) => v,
            Err(e) => { return Err(e) },
        };
        let payment_method_data = match payment_data.payment_method_data {
            Some(p) => p,
            None => {
                return Err(ApiError::MissingRequiredField { field: FieldName::PaymentMethodData });
            },
        };
        let customer_name = match customer_data {
            Some(c) => c.name,
            None => None,
        };
        let off_session = if payment_data.mandate_id.is_some() {
            Some(true)
        } else {
            None
        };
        let request_incremental_authorization = matches!(
            payment_data.payment_intent.request_incremental_authorization,
            Some(RequestIncrementalAuthorization::True)
                | Some(RequestIncrementalAuthorization::Default),
        );
        let amount = match &payment_data.surcharge_details {
            Some(s) => s.final_amount,
            None => payment_data.amount,
        };
        Ok(SetupMandateRequestData {
            currency: payment_data.currency,
            confirm: true,
            amount: Some(amount),
            minor_amount: Some(amount),
            payment_method_data,
            statement_descriptor_suffix: payment_data.payment_intent.statement_descriptor_suffix,
            setup_future_usage: payment_data.payment_intent.setup_future_usage,
            off_session,
            mandate_id: payment_data.mandate_id,
            setup_mandate_details: payment_data.setup_mandate,
            customer_acceptance: payment_data.customer_acceptance,
            router_return_url,
            email: payment_data.email,
            customer_name,
            return_url: payment_data.payment_intent.return_url,
            browser_info,
            payment_method_type: payment_data.payment_attempt.payment_method_type,
            request_incremental_authorization,
            metadata: payment_data.payment_intent.metadata,
        })
    }
}

/// The redirect outcome handed back when a customer returns from a
/// connector redirect.
#[derive(Clone, Debug, PartialEq)]
pub struct CompleteAuthorizeRedirectResponse {
    pub params: Option<String>,
    pub payload: Option<String>,
}

/// The flow-specific request record for completing a suspended
/// authorization.
#[derive(Clone, Debug, PartialEq)]
pub struct CompleteAuthorizeData {
    pub setup_future_usage: Option<FutureUsage>,
    pub mandate_id: Option<MandateIds>,
    pub off_session: Option<bool>,
    pub setup_mandate_details: Option<MandateData>,
    pub confirm: bool,
    pub statement_descriptor_suffix: Option<String>,
    pub capture_method: Option<CaptureMethod>,
    pub amount: i64,
    pub minor_amount: i64,
    pub currency: Currency,
    pub browser_info: Option<BrowserInformation>,
    pub email: Option<String>,
    pub payment_method_data: Option<PaymentMethodData>,
    pub connector_transaction_id: Option<String>,
    pub redirect_response: Option<CompleteAuthorizeRedirectResponse>,
    pub connector_meta: Option<ConnectorMetadataShapes>,
    pub complete_authorize_url: Option<String>,
    pub metadata: Option<String>,
    pub customer_acceptance: Option<CustomerAcceptance>,
}

/// How a complete-authorize request relates to the aggregate and
/// context it was built from (stated only of successful builds).
pub open spec fn complete_authorize_rel(
    base: Seq<char>,
    connector: Seq<char>,
    pd: PaymentData,
    s: CompleteAuthorizeData,
) -> bool {
    let a = pd.payment_attempt;
    let pi = pd.payment_intent;
    &&& s.setup_future_usage == pi.setup_future_usage
    &&& s.mandate_id == pd.mandate_id
    &&& s.off_session == spec_off_session(pd)
    &&& s.setup_mandate_details == pd.setup_mandate
    &&& s.confirm == a.confirm
    &&& s.statement_descriptor_suffix == pi.statement_descriptor_suffix
    &&& s.capture_method == a.capture_method
    &&& s.amount == pd.spec_effective_amount()
    &&& s.minor_amount == pd.spec_effective_amount()
    &&& s.currency == pd.currency
    &&& Ok::<_, ApiError>(s.browser_info) == spec_decode_parsed(
        a.browser_info,
        ApiError::InvalidDataValue { field: FieldName::BrowserInfo },
    )
    &&& s.email == pd.email
    &&& s.payment_method_data == pd.payment_method_data
    &&& s.connector_transaction_id == a.connector_transaction_id
    &&& (match pd.redirect_response {
        Some(rr) => s.redirect_response matches Some(cr) && cr.params == rr.param && cr.payload
            == rr.json_payload,
        None => s.redirect_response is None,
    })
    &&& s.connector_meta == a.connector_metadata
    &&& (s.complete_authorize_url matches Some(u) && u@ == complete_authorize_url_chars(
        base,
        a.payment_id@,
        a.merchant_id@,
        connector,
    ))
    &&& s.metadata == pi.metadata
    &&& s.customer_acceptance == pd.customer_acceptance
}

impl CompleteAuthorizeData {
    /// Builds the complete-authorize request; the only failure is
    /// malformed browser info, and the amount is the effective
    /// (surcharge-overridden) amount.
    pub fn try_from(additional_data: PaymentAdditionalData) -> (r: Result<Self, ApiError>)
        ensures
            ({
                let d = additional_data;
                let pd = d.payment_data;
                let a = pd.payment_attempt;
                let pi = pd.payment_intent;
                match r {
                    Err(e) => e == ApiError::InvalidDataValue { field: FieldName::BrowserInfo }
                        && spec_decode_parsed(
                        a.browser_info,
                        ApiError::InvalidDataValue { field: FieldName::BrowserInfo },
                    ) is Err,
                    Ok(s) => {
                        &&& spec_decode_parsed(
                            a.browser_info,
                            ApiError::InvalidDataValue { field: FieldName::BrowserInfo },
                        ) is Ok
                        &&& complete_authorize_rel(
                            d.router_base_url@,
                            d.connector_name@,
                            pd,
                            s,
                        )
                    },
                }
            }),
    {
        let PaymentAdditionalData { router_base_url, connector_name, payment_data, customer_data: _ } =
            additional_data;
        let complete_authorize_url = Some(
            create_complete_authorize_url(
                router_base_url.as_str(),
                &payment_data.payment_attempt,
                connector_name.as_str(),
            ),
        );
        let browser_info = match decode_parsed(
            payment_data.payment_attempt.browser_info,
            ApiError::InvalidDataValue { field: FieldName::BrowserInfo },
        ) {
            Ok(v) => v,
            Err(e) => { return Err(e) },
        };
        let redirect_response = match payment_data.redirect_response {
            Some(rr) => Some(
                CompleteAuthorizeRedirectResponse { params: rr.param, payload: rr.json_payload },
            ),
            None => None,
        };
        let amount = match &payment_data.surcharge_details {
            Some(s) => s.final_amount,
            None => payment_data.amount,
        };
        let off_session = if payment_data.mandate_id.is_some() {
            Some(true)
        } else {
            None
        };
        Ok(CompleteAuthorizeData {
            setup_future_usage: payment_data.payment_intent.setup_future_usage,
            mandate_id: payment_data.mandate_id,
            off_session,
            setup_mandate_details: payment_data.setup_mandate,
            confirm: payment_data.payment_attempt.confirm,
            statement_descriptor_suffix: payment_data.payment_intent.statement_descriptor_suffix,
            capture_method: payment_data.payment_attempt.capture_method,
            amount,
            minor_amount: amount,
            currency: payment_data.currency,
            browser_info,
            email: payment_data.email,
            payment_method_data: payment_data.payment_method_data,
            connector_transaction_id: payment_data.payment_attempt.connector_transaction_id,
            redirect_response,
            connector_meta: payment_data.payment_attempt.connector_metadata,
            complete_authorize_url,
            metadata: payment_data.payment_intent.metadata,
            customer_acceptance: payment_data.customer_acceptance,
        })
    }
}

/// The flow-specific request record for connector pre-processing.
#[derive(Clone, Debug, PartialEq)]
pub struct PaymentsPreProcessingData {
    pub payment_method_data: Option<PaymentMethodData>,
    pub email: Option<String>,
    pub currency: Option<Currency>,
    pub amount: Option<i64>,
    pub minor_amount: Option<i64>,
    pub payment_method_type: Option<PaymentMethodType>,
    pub setup_mandate_details: Option<MandateData>,
    pub capture_method: Option<CaptureMethod>,
    pub order_details: Option<Vec<OrderDetailsWithAmount>>,
    pub router_return_url: Option<String>,
    pub webhook_url: Option<String>,
    pub complete_authorize_url: Option<String>,
    pub browser_info: Option<BrowserInformation>,
    pub surcharge_details: Option<SurchargeDetails>,
    pub connector_transaction_id: Option<String>,
    pub redirect_response: Option<CompleteAuthorizeRedirectResponse>,
    pub mandate_id: Option<MandateIds>,
    pub related_transaction_id: Option<String>,
    pub enrolled_for_3ds: bool,
}

/// The first failure a pre-processing build runs into; `None` when it
/// succeeds.
pub open spec fn spec_pre_processing_err(pd: PaymentData) -> Option<ApiError> {
    let a = pd.payment_attempt;
    let pi = pd.payment_intent;
    if spec_decode_order_details(pi.order_details) is Err {
        Some(ApiError::InvalidDataValue { field: FieldName::OrderDetails })
    } else if spec_decode_parsed(
        a.browser_info,
        ApiError::InvalidDataValue { field: FieldName::BrowserInfo },
    ) is Err {
        Some(ApiError::InvalidDataValue { field: FieldName::BrowserInfo })
    } else {
        None
    }
}

/// How a pre-processing request relates to the aggregate and context it
/// was built from (stated only of successful builds).
pub open spec fn pre_processing_rel(
    base: Seq<char>,
    connector: Seq<char>,
    pd: PaymentData,
    s: PaymentsPreProcessingData,
) -> bool {
    let a = pd.payment_attempt;
    let pi = pd.payment_intent;
    &&& s.payment_method_data == pd.payment_method_data
    &&& s.email == pd.email
    &&& s.currency == Some(pd.currency)
    &&& s.amount == Some(pd.spec_effective_amount())
    &&& s.minor_amount == Some(pd.spec_effective_amount())
    &&& s.payment_method_type == a.payment_method_type
    &&& s.setup_mandate_details == pd.setup_mandate
    &&& s.capture_method == a.capture_method
    &&& (s.order_details matches Some(v) ==> spec_decode_order_details(
        pi.order_details,
    ) == Ok::<_, ApiError>(Some(v@)))
    &&& (s.order_details is None <==> pi.order_details is None)
    &&& (s.router_return_url matches Some(u) && u@ == redirect_url_chars(
        base,
        a.payment_id@,
        a.merchant_id@,
        connector,
        match pd.creds_identifier {
            Some(c) => Some(c@),
            None => None,
        },
    ))
    &&& (s.webhook_url matches Some(u) && u@ == webhook_url_chars(
        base,
        a.merchant_id@,
        connector,
    ))
    &&& (s.complete_authorize_url matches Some(u) && u@
        == complete_authorize_url_chars(
        base,
        a.payment_id@,
        a.merchant_id@,
        connector,
    ))
    &&& Ok::<_, ApiError>(s.browser_info) == spec_decode_parsed(
        a.browser_info,
        ApiError::InvalidDataValue { field: FieldName::BrowserInfo },
    )
    &&& s.surcharge_details == pd.surcharge_details
    &&& s.connector_transaction_id == a.connector_transaction_id
    &&& s.redirect_response is None
    &&& s.mandate_id == pd.mandate_id
    &&& s.related_transaction_id is None
    &&& s.enrolled_for_3ds
}

impl PaymentsPreProcessingData {
    /// Builds the pre-processing request; the amount is the effective
    /// (surcharge-overridden) amount and all three derived URLs are
    /// carried.
    pub fn try_from(additional_data: PaymentAdditionalData) -> (r: Result<Self, ApiError>)
        ensures
            ({
                let d = additional_data;
                let pd = d.payment_data;
                let a = pd.payment_attempt;
                let pi = pd.payment_intent;
                match r {
                    Err(e) => spec_pre_processing_err(pd) == Some(e),
                    Ok(s) => {
                        &&& spec_pre_processing_err(pd) is None
                        &&& pre_processing_rel(d.router_base_url@, d.connector_name@, pd, s)
                    },
                }
            }),
    {
        let PaymentAdditionalData { router_base_url, connector_name, payment_data, customer_data: _ } =
            additional_data;
        let order_details = match decode_order_details(
            payment_data.payment_intent.order_details.as_ref(),
        ) {
            Ok(v) => v,
            Err(e) => { return Err(e) },
        };
        let webhook_url = Some(
            create_webhook_url(
                router_base_url.as_str(),
                payment_data.payment_attempt.merchant_id.as_str(),
                connector_name.as_str(),
            ),
        );
        let creds: Option<&str> = match &payment_data.creds_identifier {
            Some(c) => Some(c.as_str()),
            None => None,
        };
        let router_return_url = Some(
            create_redirect_url(
                router_base_url.as_str(),
                &payment_data.payment_attempt,
                connector_name.as_str(),
                creds,
            ),
        );
        let complete_authorize_url = Some(
            create_complete_authorize_url(
                router_base_url.as_str(),
                &payment_data.payment_attempt,
                connector_name.as_str(),
            ),
        );
        let browser_info = match decode_parsed(
            payment_data.payment_attempt.browser_info,
            ApiError::InvalidDataValue { field: FieldName::BrowserInfo },
        ) {
            Ok(v) => v,
            Err(e) => { return Err(e) },
        };
        let amount = match &payment_data.surcharge_details {
            Some(s) => s.final_amount,
            None => payment_data.amount,
        };
        Ok(PaymentsPreProcessingData {
            payment_method_data: payment_data.payment_method_data,
            email: payment_data.email,
            currency: Some(payment_data.currency),
            amount: Some(amount),
            minor_amount: Some(amount),
            payment_method_type: payment_data.payment_attempt.payment_method_type,
            setup_mandate_details: payment_data.setup_mandate,
            capture_method: payment_data.payment_attempt.capture_method,
            order_details,
            router_return_url,
            webhook_url,
            complete_authorize_url,
            browser_info,
            surcharge_details: payment_data.surcharge_details,
            connector_transaction_id: payment_data.payment_attempt.connector_transaction_id,
            redirect_response: None,
            mandate_id: payment_data.mandate_id,
            related_transaction_id: None,
            enrolled_for_3ds: true,
        })
    }
}

/// The flow-specific request record for an incremental authorization.
#[derive(Clone, Debug, PartialEq)]
pub struct PaymentsIncrementalAuthorizationData {
    pub total_amount: i64,
    pub additional_amount: i64,
    pub reason: Option<String>,
    pub currency: Currency,
    pub connector_transaction_id: String,
}

/// The first failure an incremental-authorization build runs into;
/// `None` when it succeeds.
pub open spec fn spec_incremental_authorization_err(connector: Seq<char>, pd: PaymentData) -> Option<ApiError> {
    let a = pd.payment_attempt;
    if spec_connector_of(connector) is None {
        Some(ApiError::InvalidDataValue { field: FieldName::Connector })
    } else if pd.incremental_authorization_details is None {
        Some(ApiError::InternalServerError)
    } else if spec_required_transaction_id(spec_connector_of(connector)->0, a) is Err {
        Some(spec_required_transaction_id(spec_connector_of(connector)->0, a)->Err_0)
    } else {
        None
    }
}

/// How an incremental-authorization request relates to the aggregate
/// and connector it was built from (stated only of successful builds).
pub open spec fn incremental_authorization_rel(
    connector: Seq<char>,
    pd: PaymentData,
    s: PaymentsIncrementalAuthorizationData,
) -> bool {
    let a = pd.payment_attempt;
    &&& pd.incremental_authorization_details matches Some(details) && {
        &&& s.total_amount == details.total_amount
        &&& s.additional_amount == details.additional_amount
        &&& s.reason == details.reason
    }
    &&& s.currency == pd.currency
    &&& Ok::<_, ApiError>(s.connector_transaction_id)
        == spec_required_transaction_id(
        spec_connector_of(connector)->0,
        a,
    )
}

impl PaymentsIncrementalAuthorizationData {
    /// Builds the incremental-authorization request; it requires the
    /// incremental-authorization details and a resolvable transaction
    /// id.
    pub fn try_from(additional_data: PaymentAdditionalData) -> (r: Result<Self, ApiError>)
        ensures
            ({
                let d = additional_data;
                let pd = d.payment_data;
                let a = pd.payment_attempt;
                match r {
                    Err(e) => spec_incremental_authorization_err(d.connector_name@, pd) == Some(e),
                    Ok(s) => {
                        &&& spec_incremental_authorization_err(d.connector_name@, pd) is None
                        &&& incremental_authorization_rel(d.connector_name@, pd, s)
                    },
                }
            }),
    {
        let payment_data = additional_data.payment_data;
        let connector = match Connector::from_str(additional_data.connector_name.as_str()) {
            Ok(c) => c,
            Err(e) => { return Err(e) },
        };
        let details = match payment_data.incremental_authorization_details {
            Some(details) => details,
            None => { return Err(ApiError::InternalServerError) },
        };
        let connector_transaction_id = match connector.required_transaction_id(
            &payment_data.payment_attempt,
        ) {
            Ok(id) => id,
            Err(e) => { return Err(e) },
        };
        Ok(PaymentsIncrementalAuthorizationData {
            total_amount: details.total_amount,
            additional_amount: details.additional_amount,
            reason: details.reason,
            currency: payment_data.currency,
            connector_transaction_id,
        })
    }
}


/// Wraps one merchant-submitted order line, with the order amount, into
/// the single-element batch the connectors receive.
pub fn change_order_details_to_new_type(
    order_amount: i64,
    order_details: OrderDetails,
) -> (r: Option<Vec<OrderDetailsWithAmount>>)
    ensures
        r matches Some(v) && v@.len() == 1 && v@[0] == (OrderDetailsWithAmount {
            product_name: order_details.product_name,
            quantity: order_details.quantity,
            amount: order_amount,
            product_img_link: order_details.product_img_link,
            requires_shipping: order_details.requires_shipping,
            product_id: order_details.product_id,
            category: order_details.category,
            sub_category: order_details.sub_category,
            brand: order_details.brand,
            product_type: order_details.product_type,
        }),
{
    let mut v: Vec<OrderDetailsWithAmount> = Vec::new();
    v.push(OrderDetailsWithAmount {
        product_name: order_details.product_name,
        quantity: order_details.quantity,
        amount: order_amount,
        product_img_link: order_details.product_img_link,
        requires_shipping: order_details.requires_shipping,
        product_id: order_details.product_id,
        category: order_details.category,
        sub_category: order_details.sub_category,
        brand: order_details.brand,
        product_type: order_details.product_type,
    });
    Some(v)
}

/// The surcharge override law: whenever surcharge details are present,
/// the effective amount every builder derives is the surcharge's final
/// amount, never the base amount.
pub proof fn lemma_surcharge_overrides_base(pd: PaymentData, s: SurchargeDetails)
    requires
        pd.surcharge_details == Some(s),
    ensures
        pd.spec_effective_amount() == s.final_amount,
{
}

} // verus!
