//! The router record constructor: composes connector identity,
//! authentication credentials, address normalization and one request
//! builder's output into a single transport-ready record for the
//! connector dispatch layer. The dispatch over flows is a closed tagged
//! union, so every flow is matched exhaustively.

use vstd::prelude::*;

use crate::capture::ResponseId;
use crate::enums::{AttemptStatus, AuthenticationType, Connector, PaymentMethod};
use crate::errors::{ApiError, FieldName};
use crate::metadata::{spec_decode_parsed, Parsed};
use crate::requests::{
    authorize_rel, cancel_rel, capture_rel, complete_authorize_rel, incremental_authorization_rel,
    pre_processing_rel, session_rel, setup_mandate_rel, spec_authorize_err, spec_capture_err,
    spec_connector_of, spec_decode_order_details, spec_incremental_authorization_err,
    spec_pre_processing_err, spec_setup_mandate_err, sync_rel,
    CompleteAuthorizeData, PaymentAdditionalData, PaymentsApproveData, PaymentsAuthorizeData,
    PaymentsCancelData, PaymentsCaptureData, PaymentsIncrementalAuthorizationData,
    PaymentsPreProcessingData, PaymentsRejectData, PaymentsSessionData, PaymentsSyncData,
    SetupMandateRequestData,
};
use crate::text::dup_opt_string;
use crate::types::{
    Address, Customer, PaymentAddress, PaymentData, PaymentMethodStatus,
    RecurringMandatePaymentData,
};

verus! {

/// Connector authentication credentials, parsed from the merchant
/// connector account's opaque configuration.
#[derive(Clone, Debug, PartialEq)]
pub enum ConnectorAuthType {
    HeaderKey { api_key: String },
    BodyKey { api_key: String, key1: String },
    SignatureKey { api_key: String, key1: String, api_secret: String },
    NoKey,
}

impl ConnectorAuthType {
    /// Copies the credentials, preserving their value.
    pub fn duplicate(&self) -> (r: Self)
        ensures
            r == *self,
    {
        match self {
            ConnectorAuthType::HeaderKey { api_key } => ConnectorAuthType::HeaderKey {
                api_key: api_key.clone(),
            },
            ConnectorAuthType::BodyKey { api_key, key1 } => ConnectorAuthType::BodyKey {
                api_key: api_key.clone(),
                key1: key1.clone(),
            },
            ConnectorAuthType::SignatureKey { api_key, key1, api_secret } => {
                ConnectorAuthType::SignatureKey {
                    api_key: api_key.clone(),
                    key1: key1.clone(),
                    api_secret: api_secret.clone(),
                }
            },
            ConnectorAuthType::NoKey => ConnectorAuthType::NoKey,
        }
    }
}

/// The merchant account on whose behalf the record is built.
#[derive(Clone, Debug, PartialEq)]
pub struct MerchantAccount {
    pub merchant_id: String,
}

/// The merchant's connector account: whether it is enabled, its
/// credentials and its stored metadata.
#[derive(Clone, Debug, PartialEq)]
pub struct MerchantConnectorAccount {
    pub disabled: Option<bool>,
    pub test_mode: Option<bool>,
    pub connector_account_details: Parsed<ConnectorAuthType>,
    pub metadata: Option<String>,
    pub connector_wallets_details: Option<String>,
}

impl MerchantConnectorAccount {
    /// Whether this connector account has been disabled.
    pub fn is_disabled(&self) -> (r: bool)
        ensures
            r == (self.disabled == Some(true)),
    {
        matches!(self.disabled, Some(true))
    }
}

/// Recipient-routing data that, when present, overrides the connector
/// account's metadata.
#[derive(Clone, Debug, PartialEq)]
pub struct MerchantRecipientData {
    pub account_data: String,
}

/// What stands in the record's connector-metadata slot: recipient
/// routing data when present, else the account's stored metadata.
#[derive(Clone, Debug, PartialEq)]
pub enum RouterMetadata {
    RecipientData(MerchantRecipientData),
    AccountMetadata(String),
}

/// The placeholder transaction response the record carries before the
/// dispatch layer overwrites it with the connector's real response.
#[derive(Clone, Debug, PartialEq)]
pub enum PaymentsResponseData {
    TransactionResponse {
        resource_id: ResponseId,
        connector_metadata: Option<String>,
        network_txn_id: Option<String>,
        connector_response_reference_id: Option<String>,
        incremental_authorization_allowed: Option<bool>,
        charge_id: Option<String>,
    },
}

/// The payment flows the core can build a request for.
#[derive(Clone, Copy, Debug, PartialEq, Eq, Structural)]
pub enum FlowKind {
    Authorize,
    Sync,
    Capture,
    Cancel,
    Approve,
    Reject,
    Session,
    SetupMandate,
    CompleteAuthorize,
    PreProcessing,
    IncrementalAuthorization,
}

/// The flow-specific request payload, one variant per flow.
#[derive(Clone, Debug, PartialEq)]
pub enum FlowRequestData {
    Authorize(PaymentsAuthorizeData),
    Sync(PaymentsSyncData),
    Capture(PaymentsCaptureData),
    Cancel(PaymentsCancelData),
    Approve(PaymentsApproveData),
    Reject(PaymentsRejectData),
    Session(PaymentsSessionData),
    SetupMandate(SetupMandateRequestData),
    CompleteAuthorize(CompleteAuthorizeData),
    PreProcessing(PaymentsPreProcessingData),
    IncrementalAuthorization(PaymentsIncrementalAuthorizationData),
}

/// The transport-ready record handed to the connector dispatch layer:
/// connector identity, credentials, normalized addresses, the flow
/// payload, and the mutable slots the dispatch layer fills in.
#[derive(Clone, Debug, PartialEq)]
pub struct RouterData {
    pub merchant_id: String,
    pub customer_id: Option<String>,
    pub connector: String,
    pub payment_id: String,
    pub attempt_id: String,
    pub status: AttemptStatus,
    pub payment_method: PaymentMethod,
    pub connector_auth_type: ConnectorAuthType,
    pub description: Option<String>,
    pub return_url: Option<String>,
    pub address: PaymentAddress,
    pub auth_type: AuthenticationType,
    pub connector_meta_data: Option<RouterMetadata>,
    pub connector_wallets_details: Option<String>,
    pub request: FlowRequestData,
    pub response: PaymentsResponseData,
    pub amount_captured: Option<i64>,
    pub minor_amount_captured: Option<i64>,
    pub access_token: Option<String>,
    pub session_token: Option<String>,
    pub reference_id: Option<String>,
    pub payment_method_status: Option<PaymentMethodStatus>,
    pub payment_method_token: Option<String>,
    pub connector_customer: Option<String>,
    pub recurring_mandate_payment_data: Option<RecurringMandatePaymentData>,
    pub connector_request_reference_id: String,
    pub preprocessing_id: Option<String>,
    pub test_mode: Option<bool>,
    pub connector_api_version: Option<String>,
    pub connector_http_status_code: Option<u16>,
    pub external_latency: Option<u128>,
}

/// The unified address set: when a stored payment method exists, its
/// decrypted billing address is merged in with precedence; otherwise
/// the aggregate's address set stands as it is.
pub open spec fn spec_unified_address(
    pd: PaymentData,
    payment_method_billing: Option<Address>,
) -> PaymentAddress {
    if pd.payment_method_info is Some {
        if payment_method_billing is Some {
            PaymentAddress { payment_method_billing: payment_method_billing, ..pd.address }
        } else {
            pd.address
        }
    } else {
        pd.address
    }
}

/// The first failure the router record constructor runs into, in the
/// order its steps are applied: the disabled check, credential parsing,
/// the required payment method, the connector name, then the matching
/// flow builder; `None` when construction succeeds.
pub open spec fn spec_router_record_err(
    flow: FlowKind,
    pd: PaymentData,
    connector: Seq<char>,
    merchant_connector_account: MerchantConnectorAccount,
) -> Option<ApiError> {
    if merchant_connector_account.disabled == Some(true) {
        Some(ApiError::MerchantConnectorAccountDisabled)
    } else if merchant_connector_account.connector_account_details is Malformed {
        Some(ApiError::InternalServerError)
    } else if pd.payment_attempt.payment_method is None {
        Some(ApiError::MissingRequiredField { field: FieldName::PaymentMethodType })
    } else if spec_connector_of(connector) is None {
        Some(ApiError::InvalidDataValue { field: FieldName::Connector })
    } else {
        match flow {
            FlowKind::Authorize => spec_authorize_err(pd),
            FlowKind::Sync => None,
            FlowKind::Capture => spec_capture_err(connector, pd),
            FlowKind::Cancel => spec_capture_err(connector, pd),
            FlowKind::Approve => None,
            FlowKind::Reject => None,
            FlowKind::Session => {
                if spec_decode_order_details(pd.payment_intent.order_details) is Err {
                    Some(ApiError::InvalidDataValue { field: FieldName::OrderDetails })
                } else {
                    None
                }
            },
            FlowKind::SetupMandate => spec_setup_mandate_err(pd),
            FlowKind::CompleteAuthorize => {
                if spec_decode_parsed(
                    pd.payment_attempt.browser_info,
                    ApiError::InvalidDataValue { field: FieldName::BrowserInfo },
                ) is Err {
                    Some(ApiError::InvalidDataValue { field: FieldName::BrowserInfo })
                } else {
                    None
                }
            },
            FlowKind::PreProcessing => spec_pre_processing_err(pd),
            FlowKind::IncrementalAuthorization => spec_incremental_authorization_err(
                connector,
                pd,
            ),
        }
    }
}

/// How the flow payload of a built record relates to the aggregate it
/// was projected from: the variant matches the requested flow and the
/// payload satisfies that flow's builder relation.
pub open spec fn spec_flow_request_rel(
    flow: FlowKind,
    base: Seq<char>,
    connector: Seq<char>,
    pd: PaymentData,
    customer: Option<Customer>,
    request: FlowRequestData,
) -> bool {
    match flow {
        FlowKind::Authorize => request matches FlowRequestData::Authorize(s) && authorize_rel(
            base,
            connector,
            pd,
            customer,
            s,
        ),
        FlowKind::Sync => request matches FlowRequestData::Sync(s) && sync_rel(pd, s),
        FlowKind::Capture => request matches FlowRequestData::Capture(s) && capture_rel(
            connector,
            pd,
            s,
        ),
        FlowKind::Cancel => request matches FlowRequestData::Cancel(s) && cancel_rel(
            connector,
            pd,
            s,
        ),
        FlowKind::Approve => request == FlowRequestData::Approve(
            PaymentsApproveData {
                amount: Some(pd.spec_effective_amount()),
                currency: Some(pd.currency),
            },
        ),
        FlowKind::Reject => request == FlowRequestData::Reject(
            PaymentsRejectData {
                amount: Some(pd.spec_effective_amount()),
                currency: Some(pd.currency),
            },
        ),
        FlowKind::Session => request matches FlowRequestData::Session(s) && session_rel(pd, s),
        FlowKind::SetupMandate => request matches FlowRequestData::SetupMandate(s)
            && setup_mandate_rel(base, connector, pd, customer, s),
        FlowKind::CompleteAuthorize => request matches FlowRequestData::CompleteAuthorize(s)
            && complete_authorize_rel(base, connector, pd, s),
        FlowKind::PreProcessing => request matches FlowRequestData::PreProcessing(s)
            && pre_processing_rel(base, connector, pd, s),
        FlowKind::IncrementalAuthorization => request
            matches FlowRequestData::IncrementalAuthorization(s)
            && incremental_authorization_rel(connector, pd, s),
    }
}

/// How a successfully built router record relates to its inputs.
pub open spec fn router_record_rel(
    flow: FlowKind,
    pd: PaymentData,
    base: Seq<char>,
    connector: Seq<char>,
    merchant_account: MerchantAccount,
    customer: Option<Customer>,
    merchant_connector_account: MerchantConnectorAccount,
    merchant_recipient_data: Option<MerchantRecipientData>,
    connector_api_version: Option<String>,
    payment_method_billing: Option<Address>,
    r: RouterData,
) -> bool {
    let a = pd.payment_attempt;
    let pi = pd.payment_intent;
    &&& r.merchant_id == merchant_account.merchant_id
    &&& r.customer_id == (match customer {
        Some(c) => Some(c.customer_id),
        None => None,
    })
    &&& r.connector@ == connector
    &&& r.payment_id == a.payment_id
    &&& r.attempt_id == a.attempt_id
    &&& r.status == a.status
    &&& Some(r.payment_method) == a.payment_method
    &&& Parsed::Valid(r.connector_auth_type)
        == merchant_connector_account.connector_account_details
    &&& r.description == pi.description
    &&& r.return_url == pi.return_url
    &&& r.address == spec_unified_address(pd, payment_method_billing)
    &&& r.auth_type == (match a.authentication_type {
        Some(t) => t,
        None => AuthenticationType::ThreeDs,
    })
    &&& r.connector_meta_data == (match merchant_recipient_data {
        Some(d) => Some(RouterMetadata::RecipientData(d)),
        None => match merchant_connector_account.metadata {
            Some(m) => Some(RouterMetadata::AccountMetadata(m)),
            None => None,
        },
    })
    &&& r.connector_wallets_details == merchant_connector_account.connector_wallets_details
    &&& spec_flow_request_rel(flow, base, connector, pd, customer, r.request)
    &&& r.response == (PaymentsResponseData::TransactionResponse {
        resource_id: match a.connector_transaction_id {
            Some(id) => ResponseId::ConnectorTransactionId(id),
            None => ResponseId::NoResponseId,
        },
        connector_metadata: None,
        network_txn_id: None,
        connector_response_reference_id: None,
        incremental_authorization_allowed: None,
        charge_id: None,
    })
    &&& r.amount_captured == pi.amount_captured
    &&& r.minor_amount_captured == pi.amount_captured
    &&& r.access_token is None
    &&& r.session_token is None
    &&& r.reference_id is None
    &&& r.payment_method_status == (match pd.payment_method_info {
        Some(i) => Some(i.status),
        None => None,
    })
    &&& r.payment_method_token == pd.pm_token
    &&& r.connector_customer == pd.connector_customer_id
    &&& r.recurring_mandate_payment_data == pd.recurring_mandate_payment_data
    &&& r.connector_request_reference_id == a.attempt_id
    &&& r.preprocessing_id == a.preprocessing_step_id
    &&& r.test_mode == merchant_connector_account.test_mode
    &&& r.connector_api_version == connector_api_version
    &&& r.connector_http_status_code is None
    &&& r.external_latency is None
}

/// Constructs the transport-ready router record for one flow. The
/// per-connector API version and the decrypted payment-method billing
/// address are fetched by the caller beforehand; everything here is a
/// pure projection. A disabled connector account is rejected before
/// anything is built, and no partial record is ever produced.
#[verifier::rlimit(60)]
pub fn construct_payment_router_data(
    flow: FlowKind,
    payment_data: PaymentData,
    connector_id: &str,
    merchant_account: &MerchantAccount,
    customer: Option<Customer>,
    merchant_connector_account: &MerchantConnectorAccount,
    merchant_recipient_data: Option<MerchantRecipientData>,
    router_base_url: &str,
    connector_api_version: Option<String>,
    payment_method_billing: Option<Address>,
) -> (r: Result<RouterData, ApiError>)
    requires
        payment_data.wf(),
    ensures
        ({
            match r {
                Err(e) => spec_router_record_err(
                    flow,
                    payment_data,
                    connector_id@,
                    *merchant_connector_account,
                ) == Some(e),
                Ok(record) => {
                    &&& spec_router_record_err(
                        flow,
                        payment_data,
                        connector_id@,
                        *merchant_connector_account,
                    ) is None
                    &&& router_record_rel(
                        flow,
                        payment_data,
                        router_base_url@,
                        connector_id@,
                        *merchant_account,
                        customer,
                        *merchant_connector_account,
                        merchant_recipient_data,
                        connector_api_version,
                        payment_method_billing,
                        record,
                    )
                },
            }
        }),
{
    if merchant_connector_account.is_disabled() {
        return Err(ApiError::MerchantConnectorAccountDisabled);
    }
    let auth_type = match &merchant_connector_account.connector_account_details {
        Parsed::Valid(t) => t.duplicate(),
        Parsed::Malformed => { return Err(ApiError::InternalServerError) },
    };
    let payment_method = match payment_data.payment_attempt.payment_method {
        Some(m) => m,
        None => {
            return Err(ApiError::MissingRequiredField { field: FieldName::PaymentMethodType });
        },
    };
    let _connector = match Connector::from_str(connector_id) {
        Ok(c) => c,
        Err(e) => { return Err(e) },
    };

    let resource_id = match &payment_data.payment_attempt.connector_transaction_id {
        Some(id) => ResponseId::ConnectorTransactionId(id.clone()),
        None => ResponseId::NoResponseId,
    };
    let response = PaymentsResponseData::TransactionResponse {
        resource_id,
        connector_metadata: None,
        network_txn_id: None,
        connector_response_reference_id: None,
        incremental_authorization_allowed: None,
        charge_id: None,
    };

    let unified_address = if payment_data.payment_method_info.is_some() {
        payment_data.address.duplicate().unify_with_payment_data_billing(payment_method_billing)
    } else {
        payment_data.address.duplicate()
    };

    let connector_meta_data = match merchant_recipient_data {
        Some(d) => Some(RouterMetadata::RecipientData(d)),
        None => match &merchant_connector_account.metadata {
            Some(m) => Some(RouterMetadata::AccountMetadata(m.clone())),
            None => None,
        },
    };

    let customer_id = match &customer {
        Some(c) => Some(c.customer_id.clone()),
        None => None,
    };
    let payment_id = payment_data.payment_attempt.payment_id.clone();
    let attempt_id = payment_data.payment_attempt.attempt_id.clone();
    let connector_request_reference_id = payment_data.payment_attempt.attempt_id.clone();
    let status = payment_data.payment_attempt.status;
    let auth_kind = match payment_data.payment_attempt.authentication_type {
        Some(t) => t,
        None => AuthenticationType::ThreeDs,
    };
    let description = dup_opt_string(&payment_data.payment_intent.description);
    let return_url = dup_opt_string(&payment_data.payment_intent.return_url);
    let amount_captured = payment_data.payment_intent.amount_captured;
    let payment_method_status = match &payment_data.payment_method_info {
        Some(i) => Some(i.status),
        None => None,
    };
    let payment_method_token = dup_opt_string(&payment_data.pm_token);
    let connector_customer = dup_opt_string(&payment_data.connector_customer_id);
    let recurring_mandate_payment_data = payment_data.recurring_mandate_payment_data;
    let preprocessing_id = dup_opt_string(&payment_data.payment_attempt.preprocessing_step_id);

    let additional_data = PaymentAdditionalData {
        router_base_url: router_base_url.to_owned(),
        connector_name: connector_id.to_owned(),
        payment_data,
        customer_data: customer,
    };
    let request = match flow {
        FlowKind::Authorize => match PaymentsAuthorizeData::try_from(additional_data) {
            Ok(s) => FlowRequestData::Authorize(s),
            Err(e) => { return Err(e) },
        },
        FlowKind::Sync => match PaymentsSyncData::try_from(additional_data) {
            Ok(s) => FlowRequestData::Sync(s),
            Err(e) => { return Err(e) },
        },
        FlowKind::Capture => match PaymentsCaptureData::try_from(additional_data) {
            Ok(s) => FlowRequestData::Capture(s),
            Err(e) => { return Err(e) },
        },
        FlowKind::Cancel => match PaymentsCancelData::try_from(additional_data) {
            Ok(s) => FlowRequestData::Cancel(s),
            Err(e) => { return Err(e) },
        },
        FlowKind::Approve => match PaymentsApproveData::try_from(additional_data) {
            Ok(s) => FlowRequestData::Approve(s),
            Err(e) => { return Err(e) },
        },
        FlowKind::Reject => match PaymentsRejectData::try_from(additional_data) {
            Ok(s) => FlowRequestData::Reject(s),
            Err(e) => { return Err(e) },
        },
        FlowKind::Session => match PaymentsSessionData::try_from(additional_data) {
            Ok(s) => FlowRequestData::Session(s),
            Err(e) => { return Err(e) },
        },
        FlowKind::SetupMandate => match SetupMandateRequestData::try_from(additional_data) {
            Ok(s) => FlowRequestData::SetupMandate(s),
            Err(e) => { return Err(e) },
        },
        FlowKind::CompleteAuthorize => match CompleteAuthorizeData::try_from(additional_data) {
            Ok(s) => FlowRequestData::CompleteAuthorize(s),
            Err(e) => { return Err(e) },
        },
        FlowKind::PreProcessing => match PaymentsPreProcessingData::try_from(additional_data) {
            Ok(s) => FlowRequestData::PreProcessing(s),
            Err(e) => { return Err(e) },
        },
        FlowKind::IncrementalAuthorization => match PaymentsIncrementalAuthorizationData::try_from(
            additional_data,
        ) {
            Ok(s) => FlowRequestData::IncrementalAuthorization(s),
            Err(e) => { return Err(e) },
        },
    };

    Ok(RouterData {
        merchant_id: merchant_account.merchant_id.clone(),
        customer_id,
        connector: connector_id.to_owned(),
        payment_id,
        attempt_id,
        status,
        payment_method,
        connector_auth_type: auth_type,
        description,
        return_url,
        address: unified_address,
        auth_type: auth_kind,
        connector_meta_data,
        connector_wallets_details: dup_opt_string(
            &merchant_connector_account.connector_wallets_details,
        ),
        request,
        response,
        amount_captured,
        minor_amount_captured: amount_captured,
        access_token: None,
        session_token: None,
        reference_id: None,
        payment_method_status,
        payment_method_token,
        connector_customer,
        recurring_mandate_payment_data,
        connector_request_reference_id,
        preprocessing_id,
        test_mode: merchant_connector_account.test_mode,
        connector_api_version,
        connector_http_status_code: None,
        external_latency: None,
    })
}

} // verus!
