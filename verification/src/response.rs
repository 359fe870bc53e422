//! The response synthesizers: one per public response shape. Each is a
//! pure function of the aggregate plus the resolved next action, so
//! synthesizing twice from the same aggregate observably yields the
//! same output.

use vstd::prelude::*;

use crate::enums::{
    AttemptStatus, AuthFlow, AuthenticationType, CaptureMethod, ConfirmSource, Country, Currency,
    FutureUsage, IntentStatus, Operation, PaymentExperience, PaymentMethod, PaymentMethodType,
};
use crate::errors::{ApiError, FieldName};
use crate::metadata::{
    AdditionalPaymentData, BrowserInformation, CustomerData, IntentConnectorMetadata,
    OrderDetailsWithAmount, Parsed, RedirectForm,
};
use crate::next_action::{
    next_action_opt_obs, resolve_next_action, spec_resolve_next_action, NextActionData,
    ObsNextAction,
};
use crate::text::{base_unit_chars, dec_chars, dup_opt_string, to_base_unit_string, u128_to_dec};
use crate::enums::AcceptanceType;
use crate::types::{
    Address, AuthenticationRecord, Capture, Customer, Dispute, EphemeralKey, FraudCheck,
    IncrementalAuthorization, MandateData, MandateDataType, PaymentAttempt, PaymentData,
    PaymentIntent, PaymentLinkResponse, PaymentMethodData, Refund, SessionToken,
};

verus! {

/// The surcharge figures echoed back in the response.
#[derive(Clone, Copy, Debug, PartialEq, Eq, Structural)]
pub struct RequestSurchargeDetails {
    pub surcharge_amount: i64,
    pub tax_amount: Option<i64>,
}

/// A mandate amount window echoed back in the response, carried through
/// unchanged.
#[derive(Clone, Debug, PartialEq)]
pub struct MandateAmountDataResponse {
    pub amount: i64,
    pub currency: Currency,
    pub start_date: Option<i64>,
    pub end_date: Option<i64>,
    pub metadata: Option<String>,
}

/// Single-use or multi-use, as the response renders it.
#[derive(Clone, Debug, PartialEq)]
pub enum MandateTypeResponse {
    SingleUse(MandateAmountDataResponse),
    MultiUse(Option<MandateAmountDataResponse>),
}

#[derive(Clone, Debug, PartialEq)]
pub struct OnlineMandateResponse {
    pub ip_address: Option<String>,
    pub user_agent: String,
}

#[derive(Clone, Debug, PartialEq)]
pub struct CustomerAcceptanceResponse {
    pub acceptance_type: AcceptanceType,
    pub accepted_at: Option<i64>,
    pub online: Option<OnlineMandateResponse>,
}

/// The mandate data echoed back to merchants.
#[derive(Clone, Debug, PartialEq)]
pub struct MandateDataResponse {
    pub customer_acceptance: Option<CustomerAcceptanceResponse>,
    pub mandate_type: Option<MandateTypeResponse>,
    pub update_mandate_id: Option<String>,
}

/// The mandate-data projection: online and offline acceptance are
/// distinguished, single-use and multi-use mandates are distinguished,
/// and the amount/currency/date window passes through unchanged.
pub open spec fn spec_mandate_data_response(d: MandateData) -> MandateDataResponse {
    MandateDataResponse {
        customer_acceptance: match d.customer_acceptance {
            Some(ca) => Some(CustomerAcceptanceResponse {
                acceptance_type: ca.acceptance_type,
                accepted_at: ca.accepted_at,
                online: match ca.online {
                    Some(o) => Some(OnlineMandateResponse {
                        ip_address: o.ip_address,
                        user_agent: o.user_agent,
                    }),
                    None => None,
                },
            }),
            None => None,
        },
        mandate_type: match d.mandate_type {
            Some(MandateDataType::SingleUse(m)) => Some(MandateTypeResponse::SingleUse(
                MandateAmountDataResponse {
                    amount: m.amount,
                    currency: m.currency,
                    start_date: m.start_date,
                    end_date: m.end_date,
                    metadata: m.metadata,
                },
            )),
            Some(MandateDataType::MultiUse(Some(m))) => Some(MandateTypeResponse::MultiUse(
                Some(
                    MandateAmountDataResponse {
                        amount: m.amount,
                        currency: m.currency,
                        start_date: m.start_date,
                        end_date: m.end_date,
                        metadata: m.metadata,
                    },
                ),
            )),
            Some(MandateDataType::MultiUse(None)) => Some(MandateTypeResponse::MultiUse(None)),
            None => None,
        },
        update_mandate_id: d.update_mandate_id,
    }
}

/// Projects stored mandate data into its response shape.
pub fn mandate_data_response(d: MandateData) -> (r: MandateDataResponse)
    ensures
        r == spec_mandate_data_response(d),
{
    MandateDataResponse {
        customer_acceptance: match d.customer_acceptance {
            Some(ca) => Some(CustomerAcceptanceResponse {
                acceptance_type: ca.acceptance_type,
                accepted_at: ca.accepted_at,
                online: match ca.online {
                    Some(o) => Some(OnlineMandateResponse {
                        ip_address: o.ip_address,
                        user_agent: o.user_agent,
                    }),
                    None => None,
                },
            }),
            None => None,
        },
        mandate_type: match d.mandate_type {
            Some(MandateDataType::SingleUse(m)) => Some(MandateTypeResponse::SingleUse(
                MandateAmountDataResponse {
                    amount: m.amount,
                    currency: m.currency,
                    start_date: m.start_date,
                    end_date: m.end_date,
                    metadata: m.metadata,
                },
            )),
            Some(MandateDataType::MultiUse(Some(m))) => Some(MandateTypeResponse::MultiUse(
                Some(
                    MandateAmountDataResponse {
                        amount: m.amount,
                        currency: m.currency,
                        start_date: m.start_date,
                        end_date: m.end_date,
                        metadata: m.metadata,
                    },
                ),
            )),
            Some(MandateDataType::MultiUse(None)) => Some(MandateTypeResponse::MultiUse(None)),
            None => None,
        },
        update_mandate_id: d.update_mandate_id,
    }
}

/// The fraud-check message echoed in the full response.
#[derive(Clone, Debug, PartialEq)]
pub struct FrmMessage {
    pub frm_name: String,
    pub frm_transaction_id: Option<String>,
    pub frm_transaction_type: Option<String>,
    pub frm_status: Option<String>,
    pub frm_score: Option<i32>,
    pub frm_reason: Option<String>,
    pub frm_error: Option<String>,
}

impl FrmMessage {
    /// The message a fraud-check outcome projects to.
    pub open spec fn spec_foreign_from(f: FraudCheck) -> FrmMessage {
        FrmMessage {
            frm_name: f.frm_name,
            frm_transaction_id: f.frm_transaction_id,
            frm_transaction_type: Some(f.frm_transaction_type),
            frm_status: Some(f.frm_status),
            frm_score: f.frm_score,
            frm_reason: f.frm_reason,
            frm_error: f.frm_error,
        }
    }

    /// Projects a fraud-check outcome into its response message.
    pub fn foreign_from(fraud_check: FraudCheck) -> (r: FrmMessage)
        ensures
            r == Self::spec_foreign_from(fraud_check),
    {
        FrmMessage {
            frm_name: fraud_check.frm_name,
            frm_transaction_id: fraud_check.frm_transaction_id,
            frm_transaction_type: Some(fraud_check.frm_transaction_type),
            frm_status: Some(fraud_check.frm_status),
            frm_score: fraud_check.frm_score,
            frm_reason: fraud_check.frm_reason,
            frm_error: fraud_check.frm_error,
        }
    }
}

/// An ephemeral key as handed out to clients.
#[derive(Clone, Debug, PartialEq)]
pub struct EphemeralKeyCreateResponse {
    pub customer_id: String,
    pub created_at: i64,
    pub expires: i64,
    pub secret: String,
}

impl EphemeralKeyCreateResponse {
    /// The response an ephemeral key projects to.
    pub open spec fn spec_foreign_from(k: EphemeralKey) -> EphemeralKeyCreateResponse {
        EphemeralKeyCreateResponse {
            customer_id: k.customer_id,
            created_at: k.created_at,
            expires: k.expires,
            secret: k.secret,
        }
    }

    /// Projects an ephemeral key into its response shape.
    pub fn foreign_from(from: EphemeralKey) -> (r: EphemeralKeyCreateResponse)
        ensures
            r == Self::spec_foreign_from(from),
    {
        EphemeralKeyCreateResponse {
            customer_id: from.customer_id,
            created_at: from.created_at,
            expires: from.expires,
            secret: from.secret,
        }
    }
}

/// Customer details as a merchant submitted them.
#[derive(Clone, Debug, PartialEq)]
pub struct CustomerDetails {
    pub id: String,
    pub name: Option<String>,
    pub email: Option<String>,
    pub phone: Option<String>,
    pub phone_country_code: Option<String>,
}

/// Customer details as a request record carries them.
#[derive(Clone, Debug, PartialEq)]
pub struct RequestCustomerDetails {
    pub customer_id: Option<String>,
    pub name: Option<String>,
    pub email: Option<String>,
    pub phone: Option<String>,
    pub phone_country_code: Option<String>,
}

impl RequestCustomerDetails {
    /// The request-side shape submitted customer details project to.
    pub open spec fn spec_foreign_from(c: CustomerDetails) -> RequestCustomerDetails {
        RequestCustomerDetails {
            customer_id: Some(c.id),
            name: c.name,
            email: c.email,
            phone: c.phone,
            phone_country_code: c.phone_country_code,
        }
    }

    /// Converts submitted customer details into the request-side shape.
    pub fn foreign_from(customer: CustomerDetails) -> (r: RequestCustomerDetails)
        ensures
            r == Self::spec_foreign_from(customer),
    {
        RequestCustomerDetails {
            customer_id: Some(customer.id),
            name: customer.name,
            email: customer.email,
            phone: customer.phone,
            phone_country_code: customer.phone_country_code,
        }
    }
}

/// The customer block of a payment response.
#[derive(Clone, Debug, PartialEq)]
pub struct CustomerDetailsResponse {
    pub id: Option<String>,
    pub name: Option<String>,
    pub email: Option<String>,
    pub phone: Option<String>,
    pub phone_country_code: Option<String>,
}

/// The customer-table record projected into the response, used whenever
/// the intent's own customer blob yields nothing.
pub open spec fn spec_customer_table_response(customer: Option<Customer>) -> Option<
    CustomerDetailsResponse,
> {
    match customer {
        Some(c) => Some(CustomerDetailsResponse {
            id: Some(c.customer_id),
            name: c.name,
            email: c.email,
            phone: c.phone,
            phone_country_code: c.phone_country_code,
        }),
        None => None,
    }
}

/// The customer-detail reconciliation rule: a decodable intent blob
/// takes precedence field by field, the id always comes from the
/// customer table, missing fields fall back to the table record, and an
/// undecodable blob falls back to the table record entirely.
pub open spec fn spec_customer_details_response(
    customer_details: Option<Parsed<CustomerData>>,
    customer: Option<Customer>,
) -> Option<CustomerDetailsResponse> {
    match customer_details {
        Some(Parsed::Valid(cd)) => Some(CustomerDetailsResponse {
            id: match customer {
                Some(c) => Some(c.customer_id),
                None => None,
            },
            name: match cd.name {
                Some(n) => Some(n),
                None => match customer {
                    Some(c) => c.name,
                    None => None,
                },
            },
            email: match cd.email {
                Some(e) => Some(e),
                None => match customer {
                    Some(c) => c.email,
                    None => None,
                },
            },
            phone: match cd.phone {
                Some(p) => Some(p),
                None => match customer {
                    Some(c) => c.phone,
                    None => None,
                },
            },
            phone_country_code: match cd.phone_country_code {
                Some(p) => Some(p),
                None => match customer {
                    Some(c) => c.phone_country_code,
                    None => None,
                },
            },
        }),
        Some(Parsed::Malformed) => spec_customer_table_response(customer),
        None => spec_customer_table_response(customer),
    }
}

/// Reconciles the intent's customer blob with the customer-table
/// record.
pub fn customer_details_response(
    customer_details: Option<Parsed<CustomerData>>,
    customer: &Option<Customer>,
) -> (r: Option<CustomerDetailsResponse>)
    ensures
        r == spec_customer_details_response(customer_details, *customer),
{
    let table: Option<CustomerDetailsResponse> = match customer {
        Some(c) => Some(CustomerDetailsResponse {
            id: Some(c.customer_id.clone()),
            name: dup_opt_string(&c.name),
            email: dup_opt_string(&c.email),
            phone: dup_opt_string(&c.phone),
            phone_country_code: dup_opt_string(&c.phone_country_code),
        }),
        None => None,
    };
    match customer_details {
        Some(Parsed::Valid(cd)) => {
            let (table_id, table_name, table_email, table_phone, table_pcc) = match table {
                Some(t) => (t.id, t.name, t.email, t.phone, t.phone_country_code),
                None => (None, None, None, None, None),
            };
            Some(CustomerDetailsResponse {
                id: table_id,
                name: match cd.name {
                    Some(n) => Some(n),
                    None => table_name,
                },
                email: match cd.email {
                    Some(e) => Some(e),
                    None => table_email,
                },
                phone: match cd.phone {
                    Some(p) => Some(p),
                    None => table_phone,
                },
                phone_country_code: match cd.phone_country_code {
                    Some(p) => Some(p),
                    None => table_pcc,
                },
            })
        },
        Some(Parsed::Malformed) => table,
        None => table,
    }
}

/// Whether a merchant may manually retry: only a failed intent with a
/// failed active attempt is retryable.
pub open spec fn spec_manual_retry_allowed(
    intent_status: IntentStatus,
    attempt_status: AttemptStatus,
) -> Option<bool> {
    Some(intent_status is Failed && attempt_status is Failure)
}

/// Decides the manual-retry-allowed flag surfaced in the full response.
pub fn is_manual_retry_allowed(
    intent_status: IntentStatus,
    attempt_status: AttemptStatus,
) -> (r: Option<bool>)
    ensures
        r == spec_manual_retry_allowed(intent_status, attempt_status),
{
    Some(
        matches!(intent_status, IntentStatus::Failed) && matches!(
            attempt_status,
            AttemptStatus::Failure,
        ),
    )
}

/// The characters of the connector label derived from the business
/// country, label and sub-label: the sub-label is appended when
/// present.
pub open spec fn connector_label_chars(
    connector: Seq<char>,
    country: Seq<char>,
    label: Seq<char>,
    sub_label: Option<String>,
) -> Seq<char> {
    let stem = connector + "_"@ + country + "_"@ + label;
    match sub_label {
        Some(s) => stem + "_"@ + s@,
        None => stem,
    }
}

/// The connector label, derived only when the business country and
/// label are both present.
pub open spec fn spec_connector_label(
    connector: Seq<char>,
    business_country: Option<Country>,
    business_label: Option<String>,
    business_sub_label: Option<String>,
) -> Option<Seq<char>> {
    match (business_country, business_label) {
        (Some(country), Some(label)) => Some(
            connector_label_chars(connector, country.code_chars(), label@, business_sub_label),
        ),
        _ => None,
    }
}

/// Derives the connector label for the full response.
pub fn get_connector_label(
    business_country: Option<Country>,
    business_label: Option<&String>,
    business_sub_label: Option<&String>,
    connector_name: &str,
) -> (r: Option<String>)
    ensures
        ({
            let expected = spec_connector_label(
                connector_name@,
                business_country,
                match business_label {
                    Some(l) => Some(*l),
                    None => None,
                },
                match business_sub_label {
                    Some(l) => Some(*l),
                    None => None,
                },
            );
            match r {
                Some(s) => expected matches Some(chars) && s@ == chars,
                None => expected is None,
            }
        }),
{
    match (business_country, business_label) {
        (Some(country), Some(label)) => {
            let mut s: String = connector_name.to_owned();
            s.append("_");
            s.append(country.code());
            s.append("_");
            s.append(label.as_str());
            if let Some(sub) = business_sub_label {
                s.append("_");
                s.append(sub.as_str());
            }
            proof {
                reveal_strlit("_");
            }
            Some(s)
        },
        _ => None,
    }
}

/// Payment-method data echoed back, together with the billing address
/// submitted with the payment method.
#[derive(Clone, Debug, PartialEq)]
pub struct PaymentMethodDataResponseWithBilling {
    pub payment_method_data: Option<AdditionalPaymentData>,
    pub billing: Option<Address>,
}

/// Charge details echoed back in the full response.
#[derive(Clone, Debug, PartialEq)]
pub struct PaymentChargeResponse {
    pub charge_id: Option<String>,
    pub charge_type: String,
    pub application_fees: i64,
    pub transfer_account_id: String,
}

/// The external-authentication block of the full response.
#[derive(Clone, Debug, PartialEq)]
pub struct ExternalAuthenticationDetails {
    pub status: Option<String>,
    pub ds_transaction_id: Option<String>,
    pub version: Option<String>,
    pub error_code: Option<String>,
    pub error_message: Option<String>,
}

/// The projection of an authentication record into its response block.
pub open spec fn spec_external_authentication_details(rec: AuthenticationRecord) -> ExternalAuthenticationDetails {
    ExternalAuthenticationDetails {
        status: rec.status,
        ds_transaction_id: rec.ds_transaction_id,
        version: rec.message_version,
        error_code: rec.error_code,
        error_message: rec.error_message,
    }
}

/// The full payment response: every independently-optional field the
/// API surface carries.
#[derive(Clone, Debug, PartialEq)]
pub struct PaymentsResponse {
    pub payment_id: Option<String>,
    pub merchant_id: Option<String>,
    pub status: IntentStatus,
    pub amount: i64,
    pub net_amount: i64,
    pub amount_capturable: Option<i64>,
    pub amount_received: Option<i64>,
    pub surcharge_details: Option<RequestSurchargeDetails>,
    pub connector: Option<String>,
    pub client_secret: Option<String>,
    pub created: Option<i64>,
    pub currency: String,
    pub customer_id: Option<String>,
    pub email: Option<String>,
    pub name: Option<String>,
    pub phone: Option<String>,
    pub mandate_id: Option<String>,
    pub mandate_data: Option<MandateDataResponse>,
    pub description: Option<String>,
    pub refunds: Option<Vec<Refund>>,
    pub disputes: Option<Vec<Dispute>>,
    pub attempts: Option<Vec<PaymentAttempt>>,
    pub captures: Option<Vec<Capture>>,
    pub payment_method: Option<PaymentMethod>,
    pub payment_method_data: Option<PaymentMethodDataResponseWithBilling>,
    pub payment_token: Option<String>,
    pub error_message: Option<String>,
    pub error_code: Option<String>,
    pub shipping: Option<Address>,
    pub billing: Option<Address>,
    pub next_action: Option<NextActionData>,
    pub return_url: Option<String>,
    pub cancellation_reason: Option<String>,
    pub authentication_type: Option<AuthenticationType>,
    pub statement_descriptor_name: Option<String>,
    pub statement_descriptor_suffix: Option<String>,
    pub setup_future_usage: Option<FutureUsage>,
    pub capture_method: Option<CaptureMethod>,
    pub payment_experience: Option<PaymentExperience>,
    pub payment_method_type: Option<PaymentMethodType>,
    pub metadata: Option<String>,
    pub order_details: Option<Vec<Parsed<OrderDetailsWithAmount>>>,
    pub connector_label: Option<String>,
    pub business_country: Option<Country>,
    pub business_label: Option<String>,
    pub business_sub_label: Option<String>,
    pub allowed_payment_method_types: Option<String>,
    pub ephemeral_key: Option<EphemeralKeyCreateResponse>,
    pub frm_message: Option<FrmMessage>,
    pub merchant_decision: Option<String>,
    pub manual_retry_allowed: Option<bool>,
    pub connector_transaction_id: Option<String>,
    pub feature_metadata: Option<String>,
    pub connector_metadata: Option<Parsed<IntentConnectorMetadata>>,
    pub reference_id: Option<String>,
    pub payment_link: Option<PaymentLinkResponse>,
    pub profile_id: Option<String>,
    pub attempt_count: u32,
    pub merchant_connector_id: Option<String>,
    pub unified_code: Option<String>,
    pub unified_message: Option<String>,
    pub incremental_authorization_allowed: Option<bool>,
    pub external_authentication_details: Option<ExternalAuthenticationDetails>,
    pub fingerprint: Option<String>,
    pub authorization_count: Option<u32>,
    pub incremental_authorizations: Option<Vec<IncrementalAuthorization>>,
    pub expires_on: Option<i64>,
    pub external_3ds_authentication_attempted: Option<bool>,
    pub payment_method_id: Option<String>,
    pub payment_method_status: Option<crate::types::PaymentMethodStatus>,
    pub customer: Option<CustomerDetailsResponse>,
    pub browser_info: Option<Parsed<BrowserInformation>>,
    pub updated: Option<i64>,
    pub charges: Option<PaymentChargeResponse>,
    pub frm_metadata: Option<String>,
    pub merchant_order_reference_id: Option<String>,
}

/// The observable value of a full payment response: derived strings by
/// their characters, lists by their sequences, everything forwarded by
/// value.
#[verifier::ext_equal]
pub ghost struct ObsPaymentsResponse {
    pub payment_id: Option<String>,
    pub merchant_id: Option<String>,
    pub status: IntentStatus,
    pub amount: i64,
    pub net_amount: i64,
    pub amount_capturable: Option<i64>,
    pub amount_received: Option<i64>,
    pub surcharge_details: Option<RequestSurchargeDetails>,
    pub connector: Option<String>,
    pub client_secret: Option<String>,
    pub created: Option<i64>,
    pub currency: Seq<char>,
    pub customer_id: Option<String>,
    pub email: Option<String>,
    pub name: Option<String>,
    pub phone: Option<String>,
    pub mandate_id: Option<String>,
    pub mandate_data: Option<MandateDataResponse>,
    pub description: Option<String>,
    pub refunds: Option<Seq<Refund>>,
    pub disputes: Option<Seq<Dispute>>,
    pub attempts: Option<Seq<PaymentAttempt>>,
    pub captures: Option<Seq<Capture>>,
    pub payment_method: Option<PaymentMethod>,
    pub payment_method_data: Option<PaymentMethodDataResponseWithBilling>,
    pub payment_token: Option<String>,
    pub error_message: Option<String>,
    pub error_code: Option<String>,
    pub shipping: Option<Address>,
    pub billing: Option<Address>,
    pub next_action: Option<ObsNextAction>,
    pub return_url: Option<String>,
    pub cancellation_reason: Option<String>,
    pub authentication_type: Option<AuthenticationType>,
    pub statement_descriptor_name: Option<String>,
    pub statement_descriptor_suffix: Option<String>,
    pub setup_future_usage: Option<FutureUsage>,
    pub capture_method: Option<CaptureMethod>,
    pub payment_experience: Option<PaymentExperience>,
    pub payment_method_type: Option<PaymentMethodType>,
    pub metadata: Option<String>,
    pub order_details: Option<Seq<Parsed<OrderDetailsWithAmount>>>,
    pub connector_label: Option<Seq<char>>,
    pub business_country: Option<Country>,
    pub business_label: Option<String>,
    pub business_sub_label: Option<String>,
    pub allowed_payment_method_types: Option<String>,
    pub ephemeral_key: Option<EphemeralKeyCreateResponse>,
    pub frm_message: Option<FrmMessage>,
    pub merchant_decision: Option<String>,
    pub manual_retry_allowed: Option<bool>,
    pub connector_transaction_id: Option<String>,
    pub feature_metadata: Option<String>,
    pub connector_metadata: Option<Parsed<IntentConnectorMetadata>>,
    pub reference_id: Option<String>,
    pub payment_link: Option<PaymentLinkResponse>,
    pub profile_id: Option<String>,
    pub attempt_count: u32,
    pub merchant_connector_id: Option<String>,
    pub unified_code: Option<String>,
    pub unified_message: Option<String>,
    pub incremental_authorization_allowed: Option<bool>,
    pub external_authentication_details: Option<ExternalAuthenticationDetails>,
    pub fingerprint: Option<String>,
    pub authorization_count: Option<u32>,
    pub incremental_authorizations: Option<Seq<IncrementalAuthorization>>,
    pub expires_on: Option<i64>,
    pub external_3ds_authentication_attempted: Option<bool>,
    pub payment_method_id: Option<String>,
    pub payment_method_status: Option<crate::types::PaymentMethodStatus>,
    pub customer: Option<CustomerDetailsResponse>,
    pub browser_info: Option<Parsed<BrowserInformation>>,
    pub updated: Option<i64>,
    pub charges: Option<PaymentChargeResponse>,
    pub frm_metadata: Option<String>,
    pub merchant_order_reference_id: Option<String>,
}

/// A sequence's view of an optional list.
pub open spec fn opt_vec_obs<T>(v: Option<Vec<T>>) -> Option<Seq<T>> {
    match v {
        Some(x) => Some(x@),
        None => None,
    }
}

/// Maps a full payment response to its observable value.
pub open spec fn payments_response_obs(r: PaymentsResponse) -> ObsPaymentsResponse {
    ObsPaymentsResponse {
        payment_id: r.payment_id,
        merchant_id: r.merchant_id,
        status: r.status,
        amount: r.amount,
        net_amount: r.net_amount,
        amount_capturable: r.amount_capturable,
        amount_received: r.amount_received,
        surcharge_details: r.surcharge_details,
        connector: r.connector,
        client_secret: r.client_secret,
        created: r.created,
        currency: r.currency@,
        customer_id: r.customer_id,
        email: r.email,
        name: r.name,
        phone: r.phone,
        mandate_id: r.mandate_id,
        mandate_data: r.mandate_data,
        description: r.description,
        refunds: opt_vec_obs(r.refunds),
        disputes: opt_vec_obs(r.disputes),
        attempts: opt_vec_obs(r.attempts),
        captures: opt_vec_obs(r.captures),
        payment_method: r.payment_method,
        payment_method_data: r.payment_method_data,
        payment_token: r.payment_token,
        error_message: r.error_message,
        error_code: r.error_code,
        shipping: r.shipping,
        billing: r.billing,
        next_action: next_action_opt_obs(r.next_action),
        return_url: r.return_url,
        cancellation_reason: r.cancellation_reason,
        authentication_type: r.authentication_type,
        statement_descriptor_name: r.statement_descriptor_name,
        statement_descriptor_suffix: r.statement_descriptor_suffix,
        setup_future_usage: r.setup_future_usage,
        capture_method: r.capture_method,
        payment_experience: r.payment_experience,
        payment_method_type: r.payment_method_type,
        metadata: r.metadata,
        order_details: opt_vec_obs(r.order_details),
        connector_label: match r.connector_label {
            Some(l) => Some(l@),
            None => None,
        },
        business_country: r.business_country,
        business_label: r.business_label,
        business_sub_label: r.business_sub_label,
        allowed_payment_method_types: r.allowed_payment_method_types,
        ephemeral_key: r.ephemeral_key,
        frm_message: r.frm_message,
        merchant_decision: r.merchant_decision,
        manual_retry_allowed: r.manual_retry_allowed,
        connector_transaction_id: r.connector_transaction_id,
        feature_metadata: r.feature_metadata,
        connector_metadata: r.connector_metadata,
        reference_id: r.reference_id,
        payment_link: r.payment_link,
        profile_id: r.profile_id,
        attempt_count: r.attempt_count,
        merchant_connector_id: r.merchant_connector_id,
        unified_code: r.unified_code,
        unified_message: r.unified_message,
        incremental_authorization_allowed: r.incremental_authorization_allowed,
        external_authentication_details: r.external_authentication_details,
        fingerprint: r.fingerprint,
        authorization_count: r.authorization_count,
        incremental_authorizations: opt_vec_obs(r.incremental_authorizations),
        expires_on: r.expires_on,
        external_3ds_authentication_attempted: r.external_3ds_authentication_attempted,
        payment_method_id: r.payment_method_id,
        payment_method_status: r.payment_method_status,
        customer: r.customer,
        browser_info: r.browser_info,
        updated: r.updated,
        charges: r.charges,
        frm_metadata: r.frm_metadata,
        merchant_order_reference_id: r.merchant_order_reference_id,
    }
}

/// The redirection form rendered instead of JSON on the start-pay path.
#[derive(Clone, Debug, PartialEq)]
pub struct RedirectionFormData {
    pub redirect_form: RedirectForm,
    pub payment_method_data: Option<PaymentMethodData>,
    pub amount: String,
    pub currency: String,
}

/// The observable value of a redirection form.
#[verifier::ext_equal]
pub ghost struct ObsRedirectionFormData {
    pub redirect_form: RedirectForm,
    pub payment_method_data: Option<PaymentMethodData>,
    pub amount: Seq<char>,
    pub currency: Seq<char>,
}

/// What the API layer receives: a JSON body with transport headers, or
/// a redirection form.
#[derive(Clone, Debug, PartialEq)]
pub enum ApplicationResponse<T> {
    JsonWithHeaders(T, Vec<(String, String)>),
    Form(RedirectionFormData),
}

/// The observable value of an API-layer response, generic in the
/// observable value of the JSON body.
#[verifier::ext_equal]
#[verifier::reject_recursive_types(O)]
pub ghost enum ObsApplicationResponse<O> {
    Json(O, Seq<(Seq<char>, Seq<char>)>),
    Form(ObsRedirectionFormData),
}

/// Header pairs by their characters.
pub open spec fn headers_obs(h: Seq<(String, String)>) -> Seq<(Seq<char>, Seq<char>)> {
    h.map_values(|p: (String, String)| (p.0@, p.1@))
}

/// Maps a full-payment output to its observable value.
pub open spec fn payments_output_obs(r: ApplicationResponse<PaymentsResponse>) -> ObsApplicationResponse<ObsPaymentsResponse> {
    match r {
        ApplicationResponse::JsonWithHeaders(body, h) => ObsApplicationResponse::Json(
            payments_response_obs(body),
            headers_obs(h@),
        ),
        ApplicationResponse::Form(f) => ObsApplicationResponse::Form(
            ObsRedirectionFormData {
                redirect_form: f.redirect_form,
                payment_method_data: f.payment_method_data,
                amount: f.amount@,
                currency: f.currency@,
            },
        ),
    }
}

/// The derived transport headers: the connector's HTTP status code, the
/// payment-confirm-source marker and the latency header, each appended
/// only when present.
pub open spec fn spec_response_headers(
    code: Option<u16>,
    confirm_source: Option<ConfirmSource>,
    latency: Option<u128>,
) -> Seq<(Seq<char>, Seq<char>)> {
    let with_code: Seq<(Seq<char>, Seq<char>)> = match code {
        Some(c) => seq![("connector_http_status_code"@, dec_chars(c as nat))],
        None => Seq::empty(),
    };
    let with_source = match confirm_source {
        Some(cs) => with_code.push(("payment_confirm_source"@, cs.text_chars())),
        None => with_code,
    };
    match latency {
        Some(l) => with_source.push(("x-hs-latency"@, dec_chars(l as nat))),
        None => with_source,
    }
}

/// Builds the derived transport headers, numeric values rendered as
/// decimal strings.
pub fn build_response_headers(
    code: Option<u16>,
    confirm_source: Option<ConfirmSource>,
    latency: Option<u128>,
) -> (r: Vec<(String, String)>)
    ensures
        headers_obs(r@) == spec_response_headers(code, confirm_source, latency),
{
    let mut headers: Vec<(String, String)> = Vec::new();
    if let Some(c) = code {
        headers.push(("connector_http_status_code".to_owned(), u128_to_dec(c as u128)));
    }
    if let Some(cs) = confirm_source {
        headers.push(("payment_confirm_source".to_owned(), cs.as_text().to_owned()));
    }
    if let Some(l) = latency {
        headers.push(("x-hs-latency".to_owned(), u128_to_dec(l)));
    }
    proof {
        assert(headers_obs(headers@) =~~= spec_response_headers(code, confirm_source, latency));
    }
    headers
}

/// How the JSON body of the full response relates to the aggregate it
/// was synthesized from: amounts and statuses from the attempt and
/// intent, customer fields reconciled, merchant-only blocks gated by
/// the auth flow, empty side-collections rendered as absent, derived
/// strings pinned by their characters, and the resolved next action
/// carried as given.
pub open spec fn payments_body_rel(
    pd: PaymentData,
    captures: Option<Seq<Capture>>,
    customer: Option<Customer>,
    auth_flow: AuthFlow,
    next_obs: Option<ObsNextAction>,
    r: PaymentsResponse,
) -> bool {
    let a = pd.payment_attempt;
    let pi = pd.payment_intent;
    let merchant = auth_flow is Merchant;
    let apmd = match a.payment_method_data {
        Some(Parsed::Valid(x)) => Some(x),
        _ => None,
    };
    &&& r.payment_id == Some(a.payment_id)
    &&& r.merchant_id == Some(a.merchant_id)
    &&& r.status == pi.status
    &&& r.amount == a.amount
    &&& r.net_amount == a.net_amount
    &&& r.amount_capturable == Some(a.amount_capturable)
    &&& r.amount_received == pi.amount_captured
    &&& r.surcharge_details == (match a.surcharge_amount {
        Some(s) => Some(RequestSurchargeDetails { surcharge_amount: s, tax_amount: a.tax_amount }),
        None => None,
    })
    &&& r.connector == a.connector
    &&& r.client_secret == pi.client_secret
    &&& r.created == Some(pi.created_at)
    &&& r.currency@ == a.currency->0.code_chars()
    &&& r.customer_id == (match customer {
        Some(c) => Some(c.customer_id),
        None => None,
    })
    &&& r.email == (match customer {
        Some(c) => c.email,
        None => None,
    })
    &&& r.name == (match customer {
        Some(c) => c.name,
        None => None,
    })
    &&& r.phone == (match customer {
        Some(c) => c.phone,
        None => None,
    })
    &&& r.mandate_id == a.mandate_id
    &&& r.mandate_data == (if merchant {
        match pd.setup_mandate {
            Some(m) => Some(spec_mandate_data_response(m)),
            None => None,
        }
    } else {
        None
    })
    &&& r.description == pi.description
    &&& opt_vec_obs(r.refunds) == (if pd.refunds@.len() == 0 {
        None
    } else {
        Some(pd.refunds@)
    })
    &&& opt_vec_obs(r.disputes) == (if pd.disputes@.len() == 0 {
        None
    } else {
        Some(pd.disputes@)
    })
    &&& opt_vec_obs(r.attempts) == (match pd.attempts {
        Some(v) => Some(v@),
        None => None,
    })
    &&& opt_vec_obs(r.captures) == captures
    &&& r.payment_method == (if merchant {
        a.payment_method
    } else {
        None
    })
    &&& r.payment_method_data == (if merchant && (apmd is Some
        || pd.address.request_payment_method_billing is Some) {
        Some(PaymentMethodDataResponseWithBilling {
            payment_method_data: apmd,
            billing: pd.address.request_payment_method_billing,
        })
    } else {
        None
    })
    &&& r.payment_token == a.payment_token
    &&& r.error_message == (match a.error_reason {
        Some(reason) => Some(reason),
        None => a.error_message,
    })
    &&& r.error_code == a.error_code
    &&& r.shipping == pd.address.shipping
    &&& r.billing == pd.address.billing
    &&& next_action_opt_obs(r.next_action) == next_obs
    &&& r.return_url == pi.return_url
    &&& r.cancellation_reason == a.cancellation_reason
    &&& r.authentication_type == a.authentication_type
    &&& r.statement_descriptor_name == pi.statement_descriptor_name
    &&& r.statement_descriptor_suffix == pi.statement_descriptor_suffix
    &&& r.setup_future_usage == pi.setup_future_usage
    &&& r.capture_method == a.capture_method
    &&& r.payment_experience == a.payment_experience
    &&& r.payment_method_type == a.payment_method_type
    &&& r.metadata == pi.metadata
    &&& opt_vec_obs(r.order_details) == (match pi.order_details {
        Some(v) => Some(v@),
        None => None,
    })
    &&& (match r.connector_label {
        Some(l) => Some(l@),
        None => None,
    }) == (match a.connector {
        Some(c) => spec_connector_label(c@, pi.business_country, pi.business_label, a.business_sub_label),
        None => None,
    })
    &&& r.business_country == pi.business_country
    &&& r.business_label == pi.business_label
    &&& r.business_sub_label == a.business_sub_label
    &&& r.allowed_payment_method_types == pi.allowed_payment_method_types
    &&& r.ephemeral_key == (match pd.ephemeral_key {
        Some(k) => Some(EphemeralKeyCreateResponse::spec_foreign_from(k)),
        None => None,
    })
    &&& r.frm_message == (match pd.frm_message {
        Some(f) => Some(FrmMessage::spec_foreign_from(f)),
        None => None,
    })
    &&& r.merchant_decision == pi.merchant_decision
    &&& r.manual_retry_allowed == spec_manual_retry_allowed(pi.status, a.status)
    &&& r.connector_transaction_id == a.connector_transaction_id
    &&& r.feature_metadata == pi.feature_metadata
    &&& r.connector_metadata == pi.connector_metadata
    &&& r.reference_id == a.connector_response_reference_id
    &&& r.payment_link == pd.payment_link_data
    &&& r.profile_id == pi.profile_id
    &&& r.attempt_count == pi.attempt_count
    &&& r.merchant_connector_id == a.merchant_connector_id
    &&& r.unified_code == a.unified_code
    &&& r.unified_message == a.unified_message
    &&& r.incremental_authorization_allowed == pi.incremental_authorization_allowed
    &&& r.external_authentication_details == (match pd.authentication {
        Some(rec) => Some(spec_external_authentication_details(rec)),
        None => None,
    })
    &&& r.fingerprint == pi.fingerprint_id
    &&& r.authorization_count == pi.authorization_count
    &&& opt_vec_obs(r.incremental_authorizations) == (if pd.authorizations@.len() == 0 {
        None
    } else {
        Some(pd.authorizations@)
    })
    &&& r.expires_on == pi.session_expiry
    &&& r.external_3ds_authentication_attempted == a.external_three_ds_authentication_attempted
    &&& r.payment_method_id == a.payment_method_id
    &&& r.payment_method_status == (match pd.payment_method_info {
        Some(i) => Some(i.status),
        None => None,
    })
    &&& r.customer == spec_customer_details_response(pi.customer_details, customer)
    &&& r.browser_info == a.browser_info
    &&& r.updated == Some(pi.modified_at)
    &&& r.charges == (match pi.charges {
        Some(Parsed::Valid(c)) => Some(PaymentChargeResponse {
            charge_id: a.charge_id,
            charge_type: c.charge_type,
            application_fees: c.fees,
            transfer_account_id: c.transfer_account_id,
        }),
        _ => None,
    })
    &&& r.frm_metadata == pi.frm_metadata
    &&& r.merchant_order_reference_id == pi.merchant_order_reference_id
}

/// How the whole synthesis outcome relates to its inputs: the currency
/// is required; a malformed payment-method-data blob is an invalid
/// value; the start-pay operation renders a redirection form whenever
/// the attempt carries authentication data (malformed redirection data
/// is an internal error); otherwise a JSON body with derived headers is
/// assembled around the resolved next action, and a malformed charges
/// blob is an internal error.
pub open spec fn payments_response_outcome_rel(
    pd: PaymentData,
    captures: Option<Seq<Capture>>,
    customer: Option<Customer>,
    auth_flow: AuthFlow,
    base: Seq<char>,
    operation: Operation,
    connector_http_status_code: Option<u16>,
    external_latency: Option<u128>,
    r: Result<ApplicationResponse<PaymentsResponse>, ApiError>,
) -> bool {
    let a = pd.payment_attempt;
    let pi = pd.payment_intent;
    if a.currency is None {
        r == Err::<ApplicationResponse<PaymentsResponse>, ApiError>(
            ApiError::MissingRequiredField { field: FieldName::Currency },
        )
    } else if a.payment_method_data matches Some(p) && p is Malformed {
        r == Err::<ApplicationResponse<PaymentsResponse>, ApiError>(
            ApiError::InvalidDataValue { field: FieldName::PaymentMethodData },
        )
    } else if operation.spec_is_start_pay() && a.authentication_data is Some {
        match a.authentication_data->0 {
            Parsed::Valid(form) => {
                &&& r matches Ok(ApplicationResponse::Form(f))
                &&& f.redirect_form == form
                &&& f.payment_method_data == pd.payment_method_data
                &&& f.amount@ == base_unit_chars(a.amount as int, a.currency->0.spec_exponent())
                &&& f.currency@ == a.currency->0.code_chars()
            },
            Parsed::Malformed => r == Err::<ApplicationResponse<PaymentsResponse>, ApiError>(
                ApiError::InternalServerError,
            ),
        }
    } else {
        match spec_resolve_next_action(
            a,
            pi.status,
            pd.authentication,
            pd.poll_config,
            pd.sessions_token@,
            operation,
            base,
        ) {
            Err(e) => r == Err::<ApplicationResponse<PaymentsResponse>, ApiError>(e),
            Ok(next_obs) => {
                if pi.charges matches Some(ch) && ch is Malformed {
                    r == Err::<ApplicationResponse<PaymentsResponse>, ApiError>(
                        ApiError::InternalServerError,
                    )
                } else {
                    &&& r matches Ok(ApplicationResponse::JsonWithHeaders(body, h))
                    &&& payments_body_rel(pd, captures, customer, auth_flow, next_obs, body)
                    &&& headers_obs(h@) == spec_response_headers(
                        connector_http_status_code,
                        pi.payment_confirm_source,
                        external_latency,
                    )
                }
            },
        }
    }
}

/// Assembles the JSON body of the full payment response around an
/// already-resolved next action.
#[verifier::rlimit(100)]
#[verifier::spinoff_prover]
fn assemble_payments_response(
    payment_data: PaymentData,
    captures: Option<Vec<Capture>>,
    customer: Option<Customer>,
    auth_flow: AuthFlow,
    next_action: Option<NextActionData>,
    currency: Currency,
) -> (r: PaymentsResponse)
    requires
        payment_data.payment_attempt.currency == Some(currency),
    ensures
        payments_body_rel(
            payment_data,
            opt_vec_obs(captures),
            customer,
            auth_flow,
            next_action_opt_obs(next_action),
            r,
        ),
{
    let connector_label = match &payment_data.payment_attempt.connector {
        Some(name) => get_connector_label(
            payment_data.payment_intent.business_country,
            payment_data.payment_intent.business_label.as_ref(),
            payment_data.payment_attempt.business_sub_label.as_ref(),
            name.as_str(),
        ),
        None => None,
    };
    let customer_id = match &customer {
        Some(c) => Some(c.customer_id.clone()),
        None => None,
    };
    let customer_email = match &customer {
        Some(c) => dup_opt_string(&c.email),
        None => None,
    };
    let customer_name = match &customer {
        Some(c) => dup_opt_string(&c.name),
        None => None,
    };
    let customer_phone = match &customer {
        Some(c) => dup_opt_string(&c.phone),
        None => None,
    };
    let customer_block = customer_details_response(
        payment_data.payment_intent.customer_details,
        &customer,
    );
    let merchant = matches!(auth_flow, AuthFlow::Merchant);
    let apmd = match payment_data.payment_attempt.payment_method_data {
        Some(Parsed::Valid(x)) => Some(x),
        _ => None,
    };
    let request_billing = payment_data.address.request_payment_method_billing;
    let payment_method_data_response = if merchant && (apmd.is_some() || request_billing.is_some()) {
        Some(PaymentMethodDataResponseWithBilling {
            payment_method_data: apmd,
            billing: request_billing,
        })
    } else {
        None
    };
    let mandate_data = if merchant {
        match payment_data.setup_mandate {
            Some(m) => Some(mandate_data_response(m)),
            None => None,
        }
    } else {
        None
    };
    let refunds = if payment_data.refunds.len() == 0 {
        None
    } else {
        Some(payment_data.refunds)
    };
    let disputes = if payment_data.disputes.len() == 0 {
        None
    } else {
        Some(payment_data.disputes)
    };
    let incremental_authorizations = if payment_data.authorizations.len() == 0 {
        None
    } else {
        Some(payment_data.authorizations)
    };
    let ephemeral_key = match payment_data.ephemeral_key {
        Some(k) => Some(EphemeralKeyCreateResponse::foreign_from(k)),
        None => None,
    };
    let frm_message = match payment_data.frm_message {
        Some(f) => Some(FrmMessage::foreign_from(f)),
        None => None,
    };
    let external_authentication_details = match payment_data.authentication {
        Some(rec) => Some(ExternalAuthenticationDetails {
            status: rec.status,
            ds_transaction_id: rec.ds_transaction_id,
            version: rec.message_version,
            error_code: rec.error_code,
            error_message: rec.error_message,
        }),
        None => None,
    };
    let manual_retry_allowed = is_manual_retry_allowed(
        payment_data.payment_intent.status,
        payment_data.payment_attempt.status,
    );
    let surcharge_details = match payment_data.payment_attempt.surcharge_amount {
        Some(s) => Some(RequestSurchargeDetails {
            surcharge_amount: s,
            tax_amount: payment_data.payment_attempt.tax_amount,
        }),
        None => None,
    };
    let charges = match payment_data.payment_intent.charges {
        Some(Parsed::Valid(c)) => Some(PaymentChargeResponse {
            charge_id: payment_data.payment_attempt.charge_id,
            charge_type: c.charge_type,
            application_fees: c.fees,
            transfer_account_id: c.transfer_account_id,
        }),
        _ => None,
    };
    let payment_method_status = match payment_data.payment_method_info {
        Some(i) => Some(i.status),
        None => None,
    };
    let response = PaymentsResponse {
        payment_id: Some(payment_data.payment_attempt.payment_id),
        merchant_id: Some(payment_data.payment_attempt.merchant_id),
        status: payment_data.payment_intent.status,
        amount: payment_data.payment_attempt.amount,
        net_amount: payment_data.payment_attempt.net_amount,
        amount_capturable: Some(payment_data.payment_attempt.amount_capturable),
        amount_received: payment_data.payment_intent.amount_captured,
        surcharge_details,
        connector: payment_data.payment_attempt.connector,
        client_secret: payment_data.payment_intent.client_secret,
        created: Some(payment_data.payment_intent.created_at),
        currency: currency.code().to_owned(),
        customer_id,
        email: customer_email,
        name: customer_name,
        phone: customer_phone,
        mandate_id: payment_data.payment_attempt.mandate_id,
        mandate_data,
        description: payment_data.payment_intent.description,
        refunds,
        disputes,
        attempts: payment_data.attempts,
        captures,
        payment_method: if merchant {
            payment_data.payment_attempt.payment_method
        } else {
            None
        },
        payment_method_data: payment_method_data_response,
        payment_token: payment_data.payment_attempt.payment_token,
        error_message: match payment_data.payment_attempt.error_reason {
            Some(reason) => Some(reason),
            None => payment_data.payment_attempt.error_message,
        },
        error_code: payment_data.payment_attempt.error_code,
        shipping: payment_data.address.shipping,
        billing: payment_data.address.billing,
        next_action,
        return_url: payment_data.payment_intent.return_url,
        cancellation_reason: payment_data.payment_attempt.cancellation_reason,
        authentication_type: payment_data.payment_attempt.authentication_type,
        statement_descriptor_name: payment_data.payment_intent.statement_descriptor_name,
        statement_descriptor_suffix: payment_data.payment_intent.statement_descriptor_suffix,
        setup_future_usage: payment_data.payment_intent.setup_future_usage,
        capture_method: payment_data.payment_attempt.capture_method,
        payment_experience: payment_data.payment_attempt.payment_experience,
        payment_method_type: payment_data.payment_attempt.payment_method_type,
        metadata: payment_data.payment_intent.metadata,
        order_details: payment_data.payment_intent.order_details,
        connector_label,
        business_country: payment_data.payment_intent.business_country,
        business_label: payment_data.payment_intent.business_label,
        business_sub_label: payment_data.payment_attempt.business_sub_label,
        allowed_payment_method_types: payment_data.payment_intent.allowed_payment_method_types,
        ephemeral_key,
        frm_message,
        merchant_decision: payment_data.payment_intent.merchant_decision,
        manual_retry_allowed,
        connector_transaction_id: payment_data.payment_attempt.connector_transaction_id,
        feature_metadata: payment_data.payment_intent.feature_metadata,
        connector_metadata: payment_data.payment_intent.connector_metadata,
        reference_id: payment_data.payment_attempt.connector_response_reference_id,
        payment_link: payment_data.payment_link_data,
        profile_id: payment_data.payment_intent.profile_id,
        attempt_count: payment_data.payment_intent.attempt_count,
        merchant_connector_id: payment_data.payment_attempt.merchant_connector_id,
        unified_code: payment_data.payment_attempt.unified_code,
        unified_message: payment_data.payment_attempt.unified_message,
        incremental_authorization_allowed: payment_data
            .payment_intent
            .incremental_authorization_allowed,
        external_authentication_details,
        fingerprint: payment_data.payment_intent.fingerprint_id,
        authorization_count: payment_data.payment_intent.authorization_count,
        incremental_authorizations,
        expires_on: payment_data.payment_intent.session_expiry,
        external_3ds_authentication_attempted: payment_data
            .payment_attempt
            .external_three_ds_authentication_attempted,
        payment_method_id: payment_data.payment_attempt.payment_method_id,
        payment_method_status,
        customer: customer_block,
        browser_info: payment_data.payment_attempt.browser_info,
        updated: Some(payment_data.payment_intent.modified_at),
        charges,
        frm_metadata: payment_data.payment_intent.frm_metadata,
        merchant_order_reference_id: payment_data.payment_intent.merchant_order_reference_id,
    };
    response
}

/// Synthesizes the full payment response from the aggregate. The
/// result is observably a pure function of the inputs, so repeating the
/// call on an unmodified aggregate yields the same output (see the
/// idempotence law below).
#[verifier::rlimit(100)]
#[verifier::spinoff_prover]
pub fn payments_to_payments_response(
    payment_data: PaymentData,
    captures: Option<Vec<Capture>>,
    customer: Option<Customer>,
    auth_flow: AuthFlow,
    base_url: &str,
    operation: Operation,
    connector_http_status_code: Option<u16>,
    external_latency: Option<u128>,
    _is_latency_header_enabled: Option<bool>,
) -> (r: Result<ApplicationResponse<PaymentsResponse>, ApiError>)
    ensures
        payments_response_outcome_rel(
            payment_data,
            opt_vec_obs(captures),
            customer,
            auth_flow,
            base_url@,
            operation,
            connector_http_status_code,
            external_latency,
            r,
        ),
{
    let currency: Currency = match payment_data.payment_attempt.currency {
        Some(c) => c,
        None => { return Err(ApiError::MissingRequiredField { field: FieldName::Currency }) },
    };
    if matches!(&payment_data.payment_attempt.payment_method_data, Some(Parsed::Malformed)) {
        return Err(ApiError::InvalidDataValue { field: FieldName::PaymentMethodData });
    }
    let headers = build_response_headers(
        connector_http_status_code,
        payment_data.payment_intent.payment_confirm_source,
        external_latency,
    );

    if operation.is_start_pay() && payment_data.payment_attempt.authentication_data.is_some() {
        let form = match payment_data.payment_attempt.authentication_data {
            Some(Parsed::Valid(f)) => f,
            Some(Parsed::Malformed) => { return Err(ApiError::InternalServerError) },
            None => { return Err(ApiError::InternalServerError) },
        };
        let amount_text = to_base_unit_string(
            payment_data.payment_attempt.amount,
            currency.exponent(),
        );
        Ok(ApplicationResponse::Form(RedirectionFormData {
            redirect_form: form,
            payment_method_data: payment_data.payment_method_data,
            amount: amount_text,
            currency: currency.code().to_owned(),
        }))
    } else {
        let next_action = match resolve_next_action(
            &payment_data.payment_attempt,
            payment_data.payment_intent.status,
            &payment_data.authentication,
            &payment_data.poll_config,
            &payment_data.sessions_token,
            operation,
            base_url,
        ) {
            Ok(n) => n,
            Err(e) => { return Err(e) },
        };
        if matches!(&payment_data.payment_intent.charges, Some(Parsed::Malformed)) {
            return Err(ApiError::InternalServerError);
        }
        let response = assemble_payments_response(
            payment_data,
            captures,
            customer,
            auth_flow,
            next_action,
            currency,
        );
        Ok(ApplicationResponse::JsonWithHeaders(response, headers))
    }
}

/// Two bodies synthesized from the same aggregate and context are
/// observably identical.
pub proof fn lemma_payments_body_deterministic(
    pd: PaymentData,
    captures: Option<Seq<Capture>>,
    customer: Option<Customer>,
    auth_flow: AuthFlow,
    next_obs: Option<ObsNextAction>,
    r1: PaymentsResponse,
    r2: PaymentsResponse,
)
    requires
        payments_body_rel(pd, captures, customer, auth_flow, next_obs, r1),
        payments_body_rel(pd, captures, customer, auth_flow, next_obs, r2),
    ensures
        payments_response_obs(r1) == payments_response_obs(r2),
{
    assert(payments_response_obs(r1) =~~= payments_response_obs(r2));
}

/// The idempotence law of full-response synthesis: two successful
/// outputs from the same unmodified aggregate and context are
/// observably identical — there are no hidden counters or timestamps
/// beyond the fields of the aggregate itself.
pub proof fn lemma_synthesis_idempotent(
    pd: PaymentData,
    captures: Option<Seq<Capture>>,
    customer: Option<Customer>,
    auth_flow: AuthFlow,
    base: Seq<char>,
    operation: Operation,
    connector_http_status_code: Option<u16>,
    external_latency: Option<u128>,
    r1: ApplicationResponse<PaymentsResponse>,
    r2: ApplicationResponse<PaymentsResponse>,
)
    requires
        payments_response_outcome_rel(
            pd,
            captures,
            customer,
            auth_flow,
            base,
            operation,
            connector_http_status_code,
            external_latency,
            Ok(r1),
        ),
        payments_response_outcome_rel(
            pd,
            captures,
            customer,
            auth_flow,
            base,
            operation,
            connector_http_status_code,
            external_latency,
            Ok(r2),
        ),
    ensures
        payments_output_obs(r1) == payments_output_obs(r2),
{
    let a = pd.payment_attempt;
    let pi = pd.payment_intent;
    if a.currency is None {
        assert(false);
    } else if a.payment_method_data matches Some(p) && p is Malformed {
        assert(false);
    } else if operation.spec_is_start_pay() && a.authentication_data is Some {
        match a.authentication_data->0 {
            Parsed::Valid(form) => {
                assert(payments_output_obs(r1) =~~= payments_output_obs(r2));
            },
            Parsed::Malformed => {
                assert(false);
            },
        }
    } else {
        match spec_resolve_next_action(
            a,
            pi.status,
            pd.authentication,
            pd.poll_config,
            pd.sessions_token@,
            operation,
            base,
        ) {
            Err(_) => {
                assert(false);
            },
            Ok(next_obs) => {
                if pi.charges matches Some(ch) && ch is Malformed {
                    assert(false);
                } else {
                    match (r1, r2) {
                        (
                            ApplicationResponse::JsonWithHeaders(b1, h1),
                            ApplicationResponse::JsonWithHeaders(b2, h2),
                        ) => {
                            lemma_payments_body_deterministic(
                                pd,
                                captures,
                                customer,
                                auth_flow,
                                next_obs,
                                b1,
                                b2,
                            );
                            assert(payments_output_obs(r1) =~~= payments_output_obs(r2));
                        },
                        _ => {
                            assert(false);
                        },
                    }
                }
            },
        }
    }
}

/// The capture list expanded into the full response: present only when
/// a multi-capture set exists and asked to be expanded.
pub open spec fn spec_captures_for_response(pd: PaymentData) -> Option<Seq<Capture>> {
    match pd.multiple_capture_data {
        Some(m) => {
            if m.expand_captures == Some(true) {
                Some(m.captures@)
            } else {
                None
            }
        },
        None => None,
    }
}

/// One synthesizer per public response shape: each implementation
/// states, through `response_rel`, how its output relates to the
/// aggregate it was synthesized from.
pub trait ToResponse where Self: Sized {
    /// How a synthesized response of this shape relates to its inputs.
    spec fn response_rel(
        data: PaymentData,
        customer: Option<Customer>,
        auth_flow: AuthFlow,
        base: Seq<char>,
        operation: Operation,
        connector_http_status_code: Option<u16>,
        external_latency: Option<u128>,
        is_latency_header_enabled: Option<bool>,
        r: Result<ApplicationResponse<Self>, ApiError>,
    ) -> bool;

    /// Synthesizes this response shape from the aggregate.
    fn generate_response(
        data: PaymentData,
        customer: Option<Customer>,
        auth_flow: AuthFlow,
        base_url: &str,
        operation: Operation,
        connector_http_status_code: Option<u16>,
        external_latency: Option<u128>,
        is_latency_header_enabled: Option<bool>,
    ) -> (r: Result<ApplicationResponse<Self>, ApiError>)
        ensures
            Self::response_rel(
                data,
                customer,
                auth_flow,
                base_url@,
                operation,
                connector_http_status_code,
                external_latency,
                is_latency_header_enabled,
                r,
            ),
    ;
}

impl ToResponse for PaymentsResponse {
    /// The full response satisfies the synthesis outcome relation, with
    /// the capture list expanded exactly when the aggregate asked for
    /// it.
    open spec fn response_rel(
        data: PaymentData,
        customer: Option<Customer>,
        auth_flow: AuthFlow,
        base: Seq<char>,
        operation: Operation,
        connector_http_status_code: Option<u16>,
        external_latency: Option<u128>,
        is_latency_header_enabled: Option<bool>,
        r: Result<ApplicationResponse<PaymentsResponse>, ApiError>,
    ) -> bool {
        payments_response_outcome_rel(
            data,
            spec_captures_for_response(data),
            customer,
            auth_flow,
            base,
            operation,
            connector_http_status_code,
            external_latency,
            r,
        )
    }

    fn generate_response(
        data: PaymentData,
        customer: Option<Customer>,
        auth_flow: AuthFlow,
        base_url: &str,
        operation: Operation,
        connector_http_status_code: Option<u16>,
        external_latency: Option<u128>,
        is_latency_header_enabled: Option<bool>,
    ) -> (r: Result<ApplicationResponse<PaymentsResponse>, ApiError>)
    {
        let captures: Option<Vec<Capture>> = match &data.multiple_capture_data {
            Some(m) => match m.expand_captures {
                Some(true) => Some(crate::types::dup_captures(m.get_all_captures())),
                _ => None,
            },
            None => None,
        };
        payments_to_payments_response(
            data,
            captures,
            customer,
            auth_flow,
            base_url,
            operation,
            connector_http_status_code,
            external_latency,
            is_latency_header_enabled,
        )
    }
}

/// The minimal session response: tokens, id and client secret.
#[derive(Clone, Debug, PartialEq)]
pub struct PaymentsSessionResponse {
    pub session_token: Vec<SessionToken>,
    pub payment_id: String,
    pub client_secret: String,
}

impl ToResponse for PaymentsSessionResponse {
    /// The session response carries the aggregate's session tokens and
    /// payment id; the client secret is required, and no headers are
    /// attached.
    open spec fn response_rel(
        data: PaymentData,
        customer: Option<Customer>,
        auth_flow: AuthFlow,
        base: Seq<char>,
        operation: Operation,
        connector_http_status_code: Option<u16>,
        external_latency: Option<u128>,
        is_latency_header_enabled: Option<bool>,
        r: Result<ApplicationResponse<PaymentsSessionResponse>, ApiError>,
    ) -> bool {
        match data.payment_intent.client_secret {
            None => r == Err::<ApplicationResponse<PaymentsSessionResponse>, ApiError>(
                ApiError::MissingRequiredField { field: FieldName::ClientSecret },
            ),
            Some(cs) => {
                &&& r matches Ok(ApplicationResponse::JsonWithHeaders(body, h))
                &&& body.session_token == data.sessions_token
                &&& body.payment_id == data.payment_attempt.payment_id
                &&& body.client_secret == cs
                &&& h@.len() == 0
            },
        }
    }

    fn generate_response(
        data: PaymentData,
        _customer: Option<Customer>,
        _auth_flow: AuthFlow,
        _base_url: &str,
        _operation: Operation,
        _connector_http_status_code: Option<u16>,
        _external_latency: Option<u128>,
        _is_latency_header_enabled: Option<bool>,
    ) -> (r: Result<ApplicationResponse<PaymentsSessionResponse>, ApiError>)
    {
        let client_secret = match data.payment_intent.client_secret {
            Some(cs) => cs,
            None => {
                return Err(ApiError::MissingRequiredField { field: FieldName::ClientSecret });
            },
        };
        Ok(ApplicationResponse::JsonWithHeaders(
            PaymentsSessionResponse {
                session_token: data.sessions_token,
                payment_id: data.payment_attempt.payment_id,
                client_secret,
            },
            Vec::new(),
        ))
    }
}

/// The legacy verify response: mandate id, customer fields,
/// payment-method data and error fields.
#[derive(Clone, Debug, PartialEq)]
pub struct VerifyResponse {
    pub verify_id: Option<String>,
    pub merchant_id: Option<String>,
    pub client_secret: Option<String>,
    pub customer_id: Option<String>,
    pub email: Option<String>,
    pub name: Option<String>,
    pub phone: Option<String>,
    pub mandate_id: Option<String>,
    pub payment_method: Option<PaymentMethod>,
    pub payment_method_data: Option<AdditionalPaymentData>,
    pub payment_token: Option<String>,
    pub error_code: Option<String>,
    pub error_message: Option<String>,
}

impl ToResponse for VerifyResponse {
    /// The verify response projects the intent's ids, the customer
    /// record and the attempt's error fields; a malformed
    /// payment-method-data blob is an invalid value, and no headers are
    /// attached.
    open spec fn response_rel(
        data: PaymentData,
        customer: Option<Customer>,
        auth_flow: AuthFlow,
        base: Seq<char>,
        operation: Operation,
        connector_http_status_code: Option<u16>,
        external_latency: Option<u128>,
        is_latency_header_enabled: Option<bool>,
        r: Result<ApplicationResponse<VerifyResponse>, ApiError>,
    ) -> bool {
        let a = data.payment_attempt;
        let pi = data.payment_intent;
        if a.payment_method_data matches Some(p) && p is Malformed {
            r == Err::<ApplicationResponse<VerifyResponse>, ApiError>(
                ApiError::InvalidDataValue { field: FieldName::PaymentMethodData },
            )
        } else {
            &&& r matches Ok(ApplicationResponse::JsonWithHeaders(body, h))
            &&& h@.len() == 0
            &&& body.verify_id == Some(pi.payment_id)
            &&& body.merchant_id == Some(pi.merchant_id)
            &&& body.client_secret == pi.client_secret
            &&& body.customer_id == (match customer {
                Some(c) => Some(c.customer_id),
                None => None,
            })
            &&& body.email == (match customer {
                Some(c) => c.email,
                None => None,
            })
            &&& body.name == (match customer {
                Some(c) => c.name,
                None => None,
            })
            &&& body.phone == (match customer {
                Some(c) => c.phone,
                None => None,
            })
            &&& body.mandate_id == (match data.mandate_id {
                Some(m) => m.mandate_id,
                None => None,
            })
            &&& body.payment_method == a.payment_method
            &&& body.payment_method_data == (match a.payment_method_data {
                Some(Parsed::Valid(x)) => Some(x),
                _ => None,
            })
            &&& body.payment_token == data.token
            &&& body.error_code == a.error_code
            &&& body.error_message == a.error_message
        }
    }

    fn generate_response(
        data: PaymentData,
        customer: Option<Customer>,
        _auth_flow: AuthFlow,
        _base_url: &str,
        _operation: Operation,
        _connector_http_status_code: Option<u16>,
        _external_latency: Option<u128>,
        _is_latency_header_enabled: Option<bool>,
    ) -> (r: Result<ApplicationResponse<VerifyResponse>, ApiError>)
    {
        let payment_method_data = match data.payment_attempt.payment_method_data {
            Some(Parsed::Valid(x)) => Some(x),
            Some(Parsed::Malformed) => {
                return Err(ApiError::InvalidDataValue { field: FieldName::PaymentMethodData });
            },
            None => None,
        };
        let (customer_id, email, name, phone) = match &customer {
            Some(c) => (
                Some(c.customer_id.clone()),
                dup_opt_string(&c.email),
                dup_opt_string(&c.name),
                dup_opt_string(&c.phone),
            ),
            None => (None, None, None, None),
        };
        let mandate_id = match data.mandate_id {
            Some(m) => m.mandate_id,
            None => None,
        };
        Ok(ApplicationResponse::JsonWithHeaders(
            VerifyResponse {
                verify_id: Some(data.payment_intent.payment_id),
                merchant_id: Some(data.payment_intent.merchant_id),
                client_secret: data.payment_intent.client_secret,
                customer_id,
                email,
                name,
                phone,
                mandate_id,
                payment_method: data.payment_attempt.payment_method,
                payment_method_data,
                payment_token: data.token,
                error_code: data.payment_attempt.error_code,
                error_message: data.payment_attempt.error_message,
            },
            Vec::new(),
        ))
    }
}


/// How the status-only projection of a bare intent/attempt pair relates
/// to its inputs: identifiers, amounts and configuration are copied
/// through, each opaque blob that decodes contributes its block and a
/// blob that does not decode degrades to absent, and every synthesized
/// field of the full response stays vacant.
pub open spec fn legacy_payments_response_rel(
    pi: PaymentIntent,
    pa: PaymentAttempt,
    r: PaymentsResponse,
) -> bool {
    &&& r.payment_id == Some(pi.payment_id)
    &&& r.merchant_id == Some(pi.merchant_id)
    &&& r.status == pi.status
    &&& r.amount == pi.amount
    &&& r.net_amount == 0
    &&& r.amount_capturable == pi.amount_captured
    &&& r.amount_received is None
    &&& r.surcharge_details is None
    &&& r.connector == pa.connector
    &&& r.client_secret == pi.client_secret
    &&& r.created == Some(pi.created_at)
    &&& r.currency@ == (match pi.currency {
        Some(c) => c.code_chars(),
        None => Seq::<char>::empty(),
    })
    &&& r.customer_id == pi.customer_id
    &&& r.email is None
    &&& r.name is None
    &&& r.phone is None
    &&& r.mandate_id is None
    &&& r.mandate_data is None
    &&& r.description == pi.description
    &&& r.refunds is None
    &&& r.disputes is None
    &&& r.attempts is None
    &&& r.captures is None
    &&& r.payment_method == pa.payment_method
    &&& r.payment_method_data == (match pa.payment_method_data {
        Some(Parsed::Valid(x)) => Some(PaymentMethodDataResponseWithBilling {
            payment_method_data: Some(x),
            billing: None,
        }),
        _ => None,
    })
    &&& r.payment_token is None
    &&& r.error_message is None
    &&& r.error_code is None
    &&& r.shipping == (match pi.shipping_details {
        Some(Parsed::Valid(addr)) => Some(addr),
        _ => None,
    })
    &&& r.billing == (match pi.billing_details {
        Some(Parsed::Valid(addr)) => Some(addr),
        _ => None,
    })
    &&& r.next_action is None
    &&& r.return_url is None
    &&& r.cancellation_reason is None
    &&& r.authentication_type == pa.authentication_type
    &&& r.statement_descriptor_name is None
    &&& r.statement_descriptor_suffix is None
    &&& r.setup_future_usage == pi.setup_future_usage
    &&& r.capture_method == pa.capture_method
    &&& r.payment_experience is None
    &&& r.payment_method_type == pa.payment_method_type
    &&& r.metadata == pi.metadata
    &&& opt_vec_obs(r.order_details) == (match pi.order_details {
        Some(v) => Some(v@),
        None => None,
    })
    &&& r.connector_label is None
    &&& r.business_country == pi.business_country
    &&& r.business_label == pi.business_label
    &&& r.business_sub_label == pa.business_sub_label
    &&& r.allowed_payment_method_types is None
    &&& r.ephemeral_key is None
    &&& r.frm_message is None
    &&& r.merchant_decision is None
    &&& r.manual_retry_allowed is None
    &&& r.connector_transaction_id == pa.connector_transaction_id
    &&& r.feature_metadata is None
    &&& r.connector_metadata is None
    &&& r.reference_id is None
    &&& r.payment_link is None
    &&& r.profile_id == pi.profile_id
    &&& r.attempt_count == pi.attempt_count
    &&& r.merchant_connector_id == pa.merchant_connector_id
    &&& r.unified_code is None
    &&& r.unified_message is None
    &&& r.incremental_authorization_allowed is None
    &&& r.external_authentication_details is None
    &&& r.fingerprint is None
    &&& r.authorization_count is None
    &&& r.incremental_authorizations is None
    &&& r.expires_on is None
    &&& r.external_3ds_authentication_attempted is None
    &&& r.payment_method_id is None
    &&& r.payment_method_status is None
    &&& r.customer == (match pi.customer_details {
        Some(Parsed::Valid(cd)) => Some(CustomerDetailsResponse {
            id: pi.customer_id,
            name: cd.name,
            phone: cd.phone,
            email: cd.email,
            phone_country_code: cd.phone_country_code,
        }),
        _ => None,
    })
    &&& r.browser_info is None
    &&& r.updated is None
    &&& r.charges is None
    &&& r.frm_metadata is None
    &&& r.merchant_order_reference_id == pi.merchant_order_reference_id
}

impl PaymentsResponse {
    /// Projects a bare intent/attempt pair into a status-only payment
    /// response, without synthesis: opaque blobs that fail to decode
    /// degrade to absent and no next action is resolved.
    #[verifier::rlimit(60)]
    pub fn foreign_from(item: (PaymentIntent, PaymentAttempt)) -> (r: PaymentsResponse)
        ensures
            legacy_payments_response_rel(item.0, item.1, r),
    {
        let (pi, pa) = item;
        let currency_text: String = match pi.currency {
            Some(c) => c.code().to_owned(),
            None => String::new(),
        };
        let payment_method_data = match pa.payment_method_data {
            Some(Parsed::Valid(x)) => Some(PaymentMethodDataResponseWithBilling {
                payment_method_data: Some(x),
                billing: None,
            }),
            _ => None,
        };
        let customer_id = dup_opt_string(&pi.customer_id);
        let customer = match pi.customer_details {
            Some(Parsed::Valid(cd)) => Some(CustomerDetailsResponse {
                id: pi.customer_id,
                name: cd.name,
                phone: cd.phone,
                email: cd.email,
                phone_country_code: cd.phone_country_code,
            }),
            _ => None,
        };
        let shipping = match pi.shipping_details {
            Some(Parsed::Valid(addr)) => Some(addr),
            _ => None,
        };
        let billing = match pi.billing_details {
            Some(Parsed::Valid(addr)) => Some(addr),
            _ => None,
        };
        PaymentsResponse {
            payment_id: Some(pi.payment_id),
            merchant_id: Some(pi.merchant_id),
            status: pi.status,
            amount: pi.amount,
            net_amount: 0,
            amount_capturable: pi.amount_captured,
            amount_received: None,
            surcharge_details: None,
            connector: pa.connector,
            client_secret: pi.client_secret,
            created: Some(pi.created_at),
            currency: currency_text,
            customer_id,
            email: None,
            name: None,
            phone: None,
            mandate_id: None,
            mandate_data: None,
            description: pi.description,
            refunds: None,
            disputes: None,
            attempts: None,
            captures: None,
            payment_method: pa.payment_method,
            payment_method_data,
            payment_token: None,
            error_message: None,
            error_code: None,
            shipping,
            billing,
            next_action: None,
            return_url: None,
            cancellation_reason: None,
            authentication_type: pa.authentication_type,
            statement_descriptor_name: None,
            statement_descriptor_suffix: None,
            setup_future_usage: pi.setup_future_usage,
            capture_method: pa.capture_method,
            payment_experience: None,
            payment_method_type: pa.payment_method_type,
            metadata: pi.metadata,
            order_details: pi.order_details,
            connector_label: None,
            business_country: pi.business_country,
            business_label: pi.business_label,
            business_sub_label: pa.business_sub_label,
            allowed_payment_method_types: None,
            ephemeral_key: None,
            frm_message: None,
            merchant_decision: None,
            manual_retry_allowed: None,
            connector_transaction_id: pa.connector_transaction_id,
            feature_metadata: None,
            connector_metadata: None,
            reference_id: None,
            payment_link: None,
            profile_id: pi.profile_id,
            attempt_count: pi.attempt_count,
            merchant_connector_id: pa.merchant_connector_id,
            unified_code: None,
            unified_message: None,
            incremental_authorization_allowed: None,
            external_authentication_details: None,
            fingerprint: None,
            authorization_count: None,
            incremental_authorizations: None,
            expires_on: None,
            external_3ds_authentication_attempted: None,
            payment_method_id: None,
            payment_method_status: None,
            customer,
            browser_info: None,
            updated: None,
            charges: None,
            frm_metadata: None,
            merchant_order_reference_id: pi.merchant_order_reference_id,
        }
    }
}


} // verus!
