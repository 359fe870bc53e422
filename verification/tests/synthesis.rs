//! Tests of response synthesis: customer-detail reconciliation,
//! idempotence, derived headers and amount strings, the start-pay
//! redirection form, the session and verify shapes, the legacy
//! projection and the router record constructor.

use payment_core::enums::{
    AcceptanceType, AttemptStatus, AuthFlow, ConfirmSource, Currency, IntentStatus, Operation,
    PaymentMethod, PaymentMethodType,
};
use payment_core::errors::{ApiError, FieldName};
use payment_core::events::{ApiEventMetric, ApiEventsType};
use payment_core::metadata::{CustomerData, Parsed, RedirectForm};
use payment_core::response::{
    customer_details_response, mandate_data_response, payments_to_payments_response,
    ApplicationResponse, CustomerDetailsResponse, EphemeralKeyCreateResponse, FrmMessage,
    MandateTypeResponse, PaymentsSessionResponse, ToResponse, VerifyResponse,
};
use payment_core::router_record::{
    construct_payment_router_data, ConnectorAuthType, FlowKind, FlowRequestData, MerchantAccount,
    MerchantConnectorAccount, RouterMetadata,
};
use payment_core::text::{i64_to_dec, to_base_unit_string, u128_to_dec};
use payment_core::types::{
    Customer, CustomerAcceptance, EphemeralKey, FraudCheck, MandateAmountData, MandateData,
    MandateDataType, OnlineMandate, PaymentAddress, PaymentAttempt, PaymentData, PaymentIntent,
    PaymentMethodData, SessionToken,
};

fn intent_for_synthesis() -> PaymentIntent {
    PaymentIntent {
        payment_id: "pay_1".to_string(),
        merchant_id: "m_1".to_string(),
        status: IntentStatus::Succeeded,
        amount: 1050,
        amount_captured: Some(1050),
        currency: Some(Currency::Usd),
        description: Some("two widgets".to_string()),
        return_url: Some("https://merchant.example/return".to_string()),
        metadata: None,
        connector_metadata: None,
        feature_metadata: None,
        frm_metadata: None,
        customer_details: None,
        billing_details: None,
        shipping_details: None,
        client_secret: Some("secret_1".to_string()),
        created_at: 1_700_000_000,
        modified_at: 1_700_000_100,
        session_expiry: None,
        setup_future_usage: None,
        statement_descriptor_name: None,
        statement_descriptor_suffix: None,
        business_country: None,
        business_label: None,
        allowed_payment_method_types: None,
        attempt_count: 1,
        profile_id: None,
        merchant_decision: None,
        payment_confirm_source: None,
        incremental_authorization_allowed: None,
        authorization_count: None,
        request_incremental_authorization: None,
        charges: None,
        merchant_order_reference_id: None,
        fingerprint_id: None,
        customer_id: Some("cus_1".to_string()),
        order_details: None,
    }
}

fn attempt_for_synthesis() -> PaymentAttempt {
    PaymentAttempt {
        payment_id: "pay_1".to_string(),
        merchant_id: "m_1".to_string(),
        attempt_id: "pay_1_1".to_string(),
        status: AttemptStatus::Charged,
        amount: 1050,
        net_amount: 1050,
        amount_capturable: 0,
        amount_to_capture: None,
        currency: Some(Currency::Usd),
        connector: Some("stripe".to_string()),
        connector_transaction_id: Some("txn_1".to_string()),
        payment_method: Some(PaymentMethod::Card),
        payment_method_type: Some(PaymentMethodType::Credit),
        payment_method_id: None,
        authentication_type: None,
        capture_method: None,
        confirm: true,
        browser_info: None,
        payment_method_data: None,
        connector_metadata: None,
        authentication_data: None,
        error_code: None,
        error_message: None,
        error_reason: None,
        unified_code: None,
        unified_message: None,
        cancellation_reason: None,
        mandate_id: None,
        payment_token: None,
        payment_experience: None,
        business_sub_label: None,
        merchant_connector_id: None,
        connector_response_reference_id: None,
        preprocessing_step_id: None,
        encoded_data: None,
        external_three_ds_authentication_attempted: None,
        charge_id: None,
        surcharge_amount: None,
        tax_amount: None,
    }
}

fn payment_data_for_synthesis() -> PaymentData {
    PaymentData {
        payment_intent: intent_for_synthesis(),
        payment_attempt: attempt_for_synthesis(),
        currency: Currency::Usd,
        amount: 1050,
        email: None,
        creds_identifier: None,
        pm_token: None,
        connector_customer_id: None,
        payment_method_data: Some(PaymentMethodData::Card),
        payment_method_info: None,
        refunds: Vec::new(),
        disputes: Vec::new(),
        authorizations: Vec::new(),
        attempts: None,
        multiple_capture_data: None,
        mandate_id: None,
        setup_mandate: None,
        customer_acceptance: None,
        surcharge_details: None,
        authentication: None,
        poll_config: None,
        frm_message: None,
        address: PaymentAddress {
            shipping: None,
            billing: None,
            payment_method_billing: None,
            request_payment_method_billing: None,
        },
        sessions_token: Vec::new(),
        ephemeral_key: None,
        redirect_response: None,
        incremental_authorization_details: None,
        payment_link_data: None,
        recurring_mandate_payment_data: None,
        token: None,
        frm_metadata: None,
    }
}

fn table_customer() -> Customer {
    Customer {
        customer_id: "cus_1".to_string(),
        name: Some("Grace".to_string()),
        email: Some("a@b.com".to_string()),
        phone: None,
        phone_country_code: None,
    }
}

#[test]
fn customer_blob_name_wins_and_email_falls_back_to_table() {
    let blob = Some(Parsed::Valid(CustomerData {
        name: Some("Ada".to_string()),
        email: None,
        phone: None,
        phone_country_code: None,
    }));
    let reconciled = customer_details_response(blob, &Some(table_customer()));
    assert_eq!(
        reconciled,
        Some(CustomerDetailsResponse {
            id: Some("cus_1".to_string()),
            name: Some("Ada".to_string()),
            email: Some("a@b.com".to_string()),
            phone: None,
            phone_country_code: None,
        })
    );
}

#[test]
fn undecodable_customer_blob_falls_back_to_table_record() {
    let reconciled = customer_details_response(Some(Parsed::Malformed), &Some(table_customer()));
    assert_eq!(
        reconciled,
        Some(CustomerDetailsResponse {
            id: Some("cus_1".to_string()),
            name: Some("Grace".to_string()),
            email: Some("a@b.com".to_string()),
            phone: None,
            phone_country_code: None,
        })
    );
}

fn synthesize_once() -> Result<ApplicationResponse<payment_core::response::PaymentsResponse>, ApiError>
{
    payments_to_payments_response(
        payment_data_for_synthesis(),
        None,
        Some(table_customer()),
        AuthFlow::Merchant,
        "https://router.example",
        Operation::PaymentStatus,
        Some(200),
        Some(12),
        None,
    )
}

#[test]
fn synthesizing_twice_yields_identical_output() {
    let first = synthesize_once().expect("synthesis should succeed");
    let second = synthesize_once().expect("synthesis should succeed");
    assert_eq!(first, second);
}

#[test]
fn synthesis_headers_render_status_code_and_latency_as_decimal() {
    let response = synthesize_once().expect("synthesis should succeed");
    match response {
        ApplicationResponse::JsonWithHeaders(body, headers) => {
            assert_eq!(
                headers,
                vec![
                    ("connector_http_status_code".to_string(), "200".to_string()),
                    ("x-hs-latency".to_string(), "12".to_string()),
                ]
            );
            assert_eq!(body.currency, "USD".to_string());
            assert_eq!(body.payment_id, Some("pay_1".to_string()));
            assert_eq!(body.customer.unwrap().name, Some("Grace".to_string()));
        }
        other => panic!("expected a JSON response, got {other:?}"),
    }
}

#[test]
fn synthesis_adds_confirm_source_header_when_present() {
    let mut pd = payment_data_for_synthesis();
    pd.payment_intent.payment_confirm_source = Some(ConfirmSource::Sdk);
    let response = payments_to_payments_response(
        pd,
        None,
        None,
        AuthFlow::Merchant,
        "https://router.example",
        Operation::PaymentStatus,
        None,
        None,
        None,
    )
    .expect("synthesis should succeed");
    match response {
        ApplicationResponse::JsonWithHeaders(_, headers) => {
            assert_eq!(
                headers,
                vec![("payment_confirm_source".to_string(), "sdk".to_string())]
            );
        }
        other => panic!("expected a JSON response, got {other:?}"),
    }
}

#[test]
fn synthesis_without_currency_is_a_missing_required_field() {
    let mut pd = payment_data_for_synthesis();
    pd.payment_attempt.currency = None;
    let outcome = payments_to_payments_response(
        pd,
        None,
        None,
        AuthFlow::Merchant,
        "https://router.example",
        Operation::PaymentStatus,
        None,
        None,
        None,
    );
    assert_eq!(outcome, Err(ApiError::MissingRequiredField { field: FieldName::Currency }));
}

#[test]
fn start_pay_with_authentication_data_renders_a_form() {
    let mut pd = payment_data_for_synthesis();
    pd.payment_attempt.authentication_data = Some(Parsed::Valid(RedirectForm {
        endpoint: "https://acs.example/3ds".to_string(),
        method: "POST".to_string(),
        form_fields: vec![("PaReq".to_string(), "abc".to_string())],
    }));
    let response = payments_to_payments_response(
        pd,
        None,
        None,
        AuthFlow::Merchant,
        "https://router.example",
        Operation::PaymentStart,
        None,
        None,
        None,
    )
    .expect("synthesis should succeed");
    match response {
        ApplicationResponse::Form(form) => {
            assert_eq!(form.redirect_form.endpoint, "https://acs.example/3ds".to_string());
            assert_eq!(form.amount, "10.50".to_string());
            assert_eq!(form.currency, "USD".to_string());
        }
        other => panic!("expected a redirection form, got {other:?}"),
    }
}

#[test]
fn start_pay_with_malformed_authentication_data_is_internal_error() {
    let mut pd = payment_data_for_synthesis();
    pd.payment_attempt.authentication_data = Some(Parsed::Malformed);
    let outcome = payments_to_payments_response(
        pd,
        None,
        None,
        AuthFlow::Merchant,
        "https://router.example",
        Operation::PaymentStart,
        None,
        None,
        None,
    );
    assert_eq!(outcome, Err(ApiError::InternalServerError));
}

#[test]
fn malformed_charges_blob_is_internal_error() {
    let mut pd = payment_data_for_synthesis();
    pd.payment_intent.charges = Some(Parsed::Malformed);
    let outcome = payments_to_payments_response(
        pd,
        None,
        None,
        AuthFlow::Merchant,
        "https://router.example",
        Operation::PaymentStatus,
        None,
        None,
        None,
    );
    assert_eq!(outcome, Err(ApiError::InternalServerError));
}

#[test]
fn client_auth_flow_withholds_merchant_only_fields() {
    let mut pd = payment_data_for_synthesis();
    pd.payment_attempt.payment_method = Some(PaymentMethod::Card);
    let response = payments_to_payments_response(
        pd,
        None,
        None,
        AuthFlow::Client,
        "https://router.example",
        Operation::PaymentStatus,
        None,
        None,
        None,
    )
    .expect("synthesis should succeed");
    match response {
        ApplicationResponse::JsonWithHeaders(body, _) => {
            assert_eq!(body.payment_method, None);
            assert_eq!(body.mandate_data, None);
        }
        other => panic!("expected a JSON response, got {other:?}"),
    }
}

#[test]
fn session_response_carries_tokens_and_client_secret() {
    let mut pd = payment_data_for_synthesis();
    pd.sessions_token = vec![SessionToken {
        connector: "stripe".to_string(),
        session_token: "tok_1".to_string(),
    }];
    let response = PaymentsSessionResponse::generate_response(
        pd,
        None,
        AuthFlow::Merchant,
        "https://router.example",
        Operation::PaymentSession,
        None,
        None,
        None,
    )
    .expect("session synthesis should succeed");
    match response {
        ApplicationResponse::JsonWithHeaders(body, headers) => {
            assert!(headers.is_empty());
            assert_eq!(body.payment_id, "pay_1".to_string());
            assert_eq!(body.client_secret, "secret_1".to_string());
            assert_eq!(body.session_token.len(), 1);
        }
        other => panic!("expected a JSON response, got {other:?}"),
    }
}

#[test]
fn session_response_without_client_secret_fails() {
    let mut pd = payment_data_for_synthesis();
    pd.payment_intent.client_secret = None;
    let outcome = PaymentsSessionResponse::generate_response(
        pd,
        None,
        AuthFlow::Merchant,
        "https://router.example",
        Operation::PaymentSession,
        None,
        None,
        None,
    );
    assert_eq!(
        outcome,
        Err(ApiError::MissingRequiredField { field: FieldName::ClientSecret })
    );
}

#[test]
fn verify_response_projects_customer_and_error_fields() {
    let mut pd = payment_data_for_synthesis();
    pd.payment_attempt.error_code = Some("card_declined".to_string());
    pd.payment_attempt.error_message = Some("the card was declined".to_string());
    let response = VerifyResponse::generate_response(
        pd,
        Some(table_customer()),
        AuthFlow::Merchant,
        "https://router.example",
        Operation::PaymentStatus,
        None,
        None,
        None,
    )
    .expect("verify synthesis should succeed");
    match response {
        ApplicationResponse::JsonWithHeaders(body, _) => {
            assert_eq!(body.verify_id, Some("pay_1".to_string()));
            assert_eq!(body.customer_id, Some("cus_1".to_string()));
            assert_eq!(body.email, Some("a@b.com".to_string()));
            assert_eq!(body.error_code, Some("card_declined".to_string()));
            assert_eq!(body.error_message, Some("the card was declined".to_string()));
        }
        other => panic!("expected a JSON response, got {other:?}"),
    }
}

#[test]
fn legacy_projection_keeps_identifiers_and_currency() {
    let response = payment_core::response::PaymentsResponse::foreign_from((
        intent_for_synthesis(),
        attempt_for_synthesis(),
    ));
    assert_eq!(response.payment_id, Some("pay_1".to_string()));
    assert_eq!(response.currency, "USD".to_string());
    assert_eq!(response.amount, 1050);
    assert_eq!(response.next_action, None);
    assert_eq!(response.connector, Some("stripe".to_string()));
}

fn connector_account() -> MerchantConnectorAccount {
    MerchantConnectorAccount {
        disabled: Some(false),
        test_mode: Some(true),
        connector_account_details: Parsed::Valid(ConnectorAuthType::HeaderKey {
            api_key: "key_123".to_string(),
        }),
        metadata: Some("{\"acct\":\"alpha\"}".to_string()),
        connector_wallets_details: None,
    }
}

#[test]
fn router_record_rejects_disabled_connector_account() {
    let mut account = connector_account();
    account.disabled = Some(true);
    let outcome = construct_payment_router_data(
        FlowKind::Authorize,
        payment_data_for_synthesis(),
        "stripe",
        &MerchantAccount { merchant_id: "m_1".to_string() },
        None,
        &account,
        None,
        "https://router.example",
        None,
        None,
    );
    assert_eq!(outcome, Err(ApiError::MerchantConnectorAccountDisabled));
}

#[test]
fn router_record_rejects_malformed_credentials() {
    let mut account = connector_account();
    account.connector_account_details = Parsed::Malformed;
    let outcome = construct_payment_router_data(
        FlowKind::Authorize,
        payment_data_for_synthesis(),
        "stripe",
        &MerchantAccount { merchant_id: "m_1".to_string() },
        None,
        &account,
        None,
        "https://router.example",
        None,
        None,
    );
    assert_eq!(outcome, Err(ApiError::InternalServerError));
}

#[test]
fn router_record_requires_a_payment_method() {
    let mut pd = payment_data_for_synthesis();
    pd.payment_attempt.payment_method = None;
    let outcome = construct_payment_router_data(
        FlowKind::Authorize,
        pd,
        "stripe",
        &MerchantAccount { merchant_id: "m_1".to_string() },
        None,
        &connector_account(),
        None,
        "https://router.example",
        None,
        None,
    );
    assert_eq!(
        outcome,
        Err(ApiError::MissingRequiredField { field: FieldName::PaymentMethodType })
    );
}

#[test]
fn router_record_builds_the_requested_flow_payload() {
    let record = construct_payment_router_data(
        FlowKind::Authorize,
        payment_data_for_synthesis(),
        "stripe",
        &MerchantAccount { merchant_id: "m_1".to_string() },
        Some(table_customer()),
        &connector_account(),
        None,
        "https://router.example",
        Some("v2".to_string()),
        None,
    )
    .expect("record construction should succeed");
    assert_eq!(record.merchant_id, "m_1".to_string());
    assert_eq!(record.connector, "stripe".to_string());
    assert_eq!(record.customer_id, Some("cus_1".to_string()));
    assert_eq!(record.connector_api_version, Some("v2".to_string()));
    assert_eq!(
        record.connector_meta_data,
        Some(RouterMetadata::AccountMetadata("{\"acct\":\"alpha\"}".to_string()))
    );
    match record.request {
        FlowRequestData::Authorize(request) => {
            assert_eq!(request.amount, 1050);
            assert_eq!(request.customer_id, Some("cus_1".to_string()));
        }
        other => panic!("expected an authorize payload, got {other:?}"),
    }
}

#[test]
fn decimal_renderings_are_exact() {
    assert_eq!(u128_to_dec(0), "0".to_string());
    assert_eq!(u128_to_dec(90210), "90210".to_string());
    assert_eq!(i64_to_dec(-105), "-105".to_string());
    assert_eq!(to_base_unit_string(1050, 2), "10.50".to_string());
    assert_eq!(to_base_unit_string(5, 2), "0.05".to_string());
    assert_eq!(to_base_unit_string(1050, 0), "1050".to_string());
    assert_eq!(to_base_unit_string(-1050, 2), "-10.50".to_string());
    assert_eq!(to_base_unit_string(1050, 3), "1.050".to_string());
}

#[test]
fn mandate_data_projection_distinguishes_types_and_keeps_amounts() {
    let projected = mandate_data_response(MandateData {
        update_mandate_id: None,
        customer_acceptance: Some(CustomerAcceptance {
            acceptance_type: AcceptanceType::Online,
            accepted_at: Some(1_700_000_000),
            online: Some(OnlineMandate {
                ip_address: Some("203.0.113.9".to_string()),
                user_agent: "test-agent".to_string(),
            }),
        }),
        mandate_type: Some(MandateDataType::SingleUse(MandateAmountData {
            amount: 990,
            currency: Currency::Eur,
            start_date: Some(1),
            end_date: Some(2),
            metadata: None,
        })),
    });
    let acceptance = projected.customer_acceptance.expect("acceptance should project");
    assert_eq!(acceptance.acceptance_type, AcceptanceType::Online);
    match projected.mandate_type.expect("mandate type should project") {
        MandateTypeResponse::SingleUse(window) => {
            assert_eq!(window.amount, 990);
            assert_eq!(window.currency, Currency::Eur);
            assert_eq!(window.start_date, Some(1));
            assert_eq!(window.end_date, Some(2));
        }
        other => panic!("expected a single-use mandate, got {other:?}"),
    }
}

#[test]
fn ephemeral_key_and_frm_message_project_by_value() {
    let key = EphemeralKeyCreateResponse::foreign_from(EphemeralKey {
        customer_id: "cus_1".to_string(),
        created_at: 5,
        expires: 7,
        secret: "ek_1".to_string(),
    });
    assert_eq!(key.secret, "ek_1".to_string());
    assert_eq!(key.expires, 7);
    let message = FrmMessage::foreign_from(FraudCheck {
        frm_name: "guard".to_string(),
        frm_transaction_id: None,
        frm_transaction_type: "pre_frm".to_string(),
        frm_status: "fraud".to_string(),
        frm_score: Some(87),
        frm_reason: None,
        frm_error: None,
    });
    assert_eq!(message.frm_transaction_type, Some("pre_frm".to_string()));
    assert_eq!(message.frm_status, Some("fraud".to_string()));
    assert_eq!(message.frm_score, Some(87));
}

#[test]
fn api_event_type_of_a_result_follows_the_ok_payload() {
    let ok: Result<String, i32> = Ok("anything".to_string());
    assert_eq!(ok.get_api_event_type(), Some(ApiEventsType::Miscellaneous));
    let err: Result<String, i32> = Err(7);
    assert_eq!(err.get_api_event_type(), None);
}
