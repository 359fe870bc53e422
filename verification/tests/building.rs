//! Tests of the request builders: the surcharge override of the
//! effective amount, the mandate default for payment-method data, the
//! decode failures, URL derivation and transaction-id resolution.

use payment_core::enums::{
    AttemptStatus, Currency, IntentStatus, PaymentMethod, PaymentMethodType,
};
use payment_core::errors::{ApiError, FieldName};
use payment_core::metadata::{BrowserInformation, ConnectorMetadataShapes, Parsed};
use payment_core::requests::{
    PaymentAdditionalData, PaymentsAuthorizeData, PaymentsCancelData, PaymentsCaptureData,
    PaymentsIncrementalAuthorizationData, PaymentsSessionData, PaymentsSyncData,
    SetupMandateRequestData, SyncRequestType,
};
use payment_core::types::{
    Capture, Customer, MandateIds, MultipleCaptureData, PaymentAddress, PaymentAttempt,
    PaymentData, PaymentIntent, PaymentMethodData, SurchargeDetails,
};

fn intent_for_builders() -> PaymentIntent {
    PaymentIntent {
        payment_id: "pay_1".to_string(),
        merchant_id: "m_1".to_string(),
        status: IntentStatus::RequiresConfirmation,
        amount: 1050,
        amount_captured: None,
        currency: Some(Currency::Usd),
        description: Some("two widgets".to_string()),
        return_url: Some("https://merchant.example/return".to_string()),
        metadata: None,
        connector_metadata: None,
        feature_metadata: None,
        frm_metadata: None,
        customer_details: None,
        billing_details: None,
        shipping_details: None,
        client_secret: Some("secret_1".to_string()),
        created_at: 1_700_000_000,
        modified_at: 1_700_000_100,
        session_expiry: None,
        setup_future_usage: None,
        statement_descriptor_name: None,
        statement_descriptor_suffix: None,
        business_country: None,
        business_label: None,
        allowed_payment_method_types: None,
        attempt_count: 1,
        profile_id: None,
        merchant_decision: None,
        payment_confirm_source: None,
        incremental_authorization_allowed: None,
        authorization_count: None,
        request_incremental_authorization: None,
        charges: None,
        merchant_order_reference_id: None,
        fingerprint_id: None,
        customer_id: Some("cus_1".to_string()),
        order_details: None,
    }
}

fn attempt_for_builders() -> PaymentAttempt {
    PaymentAttempt {
        payment_id: "pay_1".to_string(),
        merchant_id: "m_1".to_string(),
        attempt_id: "pay_1_1".to_string(),
        status: AttemptStatus::AuthenticationPending,
        amount: 1050,
        net_amount: 1050,
        amount_capturable: 1050,
        amount_to_capture: None,
        currency: Some(Currency::Usd),
        connector: Some("stripe".to_string()),
        connector_transaction_id: Some("txn_1".to_string()),
        payment_method: Some(PaymentMethod::Card),
        payment_method_type: Some(PaymentMethodType::Credit),
        payment_method_id: None,
        authentication_type: None,
        capture_method: None,
        confirm: true,
        browser_info: None,
        payment_method_data: None,
        connector_metadata: None,
        authentication_data: None,
        error_code: None,
        error_message: None,
        error_reason: None,
        unified_code: None,
        unified_message: None,
        cancellation_reason: Some("requested_by_customer".to_string()),
        mandate_id: None,
        payment_token: None,
        payment_experience: None,
        business_sub_label: None,
        merchant_connector_id: None,
        connector_response_reference_id: None,
        preprocessing_step_id: None,
        encoded_data: None,
        external_three_ds_authentication_attempted: None,
        charge_id: None,
        surcharge_amount: None,
        tax_amount: None,
    }
}

fn payment_data_for_builders() -> PaymentData {
    PaymentData {
        payment_intent: intent_for_builders(),
        payment_attempt: attempt_for_builders(),
        currency: Currency::Usd,
        amount: 1050,
        email: Some("a@b.com".to_string()),
        creds_identifier: None,
        pm_token: None,
        connector_customer_id: None,
        payment_method_data: Some(PaymentMethodData::Card),
        payment_method_info: None,
        refunds: Vec::new(),
        disputes: Vec::new(),
        authorizations: Vec::new(),
        attempts: None,
        multiple_capture_data: None,
        mandate_id: None,
        setup_mandate: None,
        customer_acceptance: None,
        surcharge_details: None,
        authentication: None,
        poll_config: None,
        frm_message: None,
        address: PaymentAddress {
            shipping: None,
            billing: None,
            payment_method_billing: None,
            request_payment_method_billing: None,
        },
        sessions_token: Vec::new(),
        ephemeral_key: None,
        redirect_response: None,
        incremental_authorization_details: None,
        payment_link_data: None,
        recurring_mandate_payment_data: None,
        token: None,
        frm_metadata: None,
    }
}

fn context_for(payment_data: PaymentData, connector: &str) -> PaymentAdditionalData {
    PaymentAdditionalData {
        router_base_url: "https://router.example".to_string(),
        connector_name: connector.to_string(),
        payment_data,
        customer_data: Some(Customer {
            customer_id: "cus_1".to_string(),
            name: Some("Ada".to_string()),
            email: Some("a@b.com".to_string()),
            phone: None,
            phone_country_code: None,
        }),
    }
}

fn surcharge() -> SurchargeDetails {
    SurchargeDetails { surcharge_amount: 50, tax_on_surcharge_amount: 5, final_amount: 1105 }
}

#[test]
fn authorize_amount_is_surcharge_final_amount() {
    let mut pd = payment_data_for_builders();
    pd.surcharge_details = Some(surcharge());
    let built = PaymentsAuthorizeData::try_from(context_for(pd, "stripe")).expect("should build");
    assert_eq!(built.amount, 1105);
    assert_eq!(built.minor_amount, 1105);
}

#[test]
fn sync_amount_is_surcharge_final_amount() {
    let mut pd = payment_data_for_builders();
    pd.surcharge_details = Some(surcharge());
    let built = PaymentsSyncData::try_from(context_for(pd, "stripe")).expect("should build");
    assert_eq!(built.amount, 1105);
}

#[test]
fn session_amount_is_surcharge_final_amount() {
    let mut pd = payment_data_for_builders();
    pd.surcharge_details = Some(surcharge());
    let built = PaymentsSessionData::try_from(context_for(pd, "stripe")).expect("should build");
    assert_eq!(built.amount, 1105);
    assert_eq!(built.surcharge_details, Some(surcharge()));
}

#[test]
fn authorize_amount_without_surcharge_is_base_amount() {
    let built = PaymentsAuthorizeData::try_from(context_for(payment_data_for_builders(), "stripe"))
        .expect("should build");
    assert_eq!(built.amount, 1050);
}

#[test]
fn authorize_derives_all_three_urls() {
    let built = PaymentsAuthorizeData::try_from(context_for(payment_data_for_builders(), "stripe"))
        .expect("should build");
    assert_eq!(
        built.router_return_url.as_deref(),
        Some("https://router.example/payments/pay_1/m_1/redirect/response/stripe")
    );
    assert_eq!(
        built.webhook_url.as_deref(),
        Some("https://router.example/webhooks/m_1/stripe")
    );
    assert_eq!(
        built.complete_authorize_url.as_deref(),
        Some("https://router.example/payments/pay_1/m_1/redirect/complete/stripe")
    );
}

#[test]
fn authorize_redirect_url_appends_credential_identifier() {
    let mut pd = payment_data_for_builders();
    pd.creds_identifier = Some("cred7".to_string());
    let built = PaymentsAuthorizeData::try_from(context_for(pd, "stripe")).expect("should build");
    assert_eq!(
        built.router_return_url.as_deref(),
        Some("https://router.example/payments/pay_1/m_1/redirect/response/stripe/cred7")
    );
}

#[test]
fn authorize_defaults_to_mandate_payment_when_only_mandate_present() {
    let mut pd = payment_data_for_builders();
    pd.payment_method_data = None;
    pd.mandate_id = Some(MandateIds { mandate_id: Some("man_1".to_string()) });
    let built = PaymentsAuthorizeData::try_from(context_for(pd, "stripe")).expect("should build");
    assert_eq!(built.payment_method_data, PaymentMethodData::MandatePayment);
    assert_eq!(built.off_session, Some(true));
}

#[test]
fn authorize_without_payment_method_data_or_mandate_fails() {
    let mut pd = payment_data_for_builders();
    pd.payment_method_data = None;
    let outcome = PaymentsAuthorizeData::try_from(context_for(pd, "stripe"));
    assert_eq!(
        outcome,
        Err(ApiError::MissingRequiredField { field: FieldName::PaymentMethodData })
    );
}

#[test]
fn authorize_with_malformed_browser_info_fails() {
    let mut pd = payment_data_for_builders();
    pd.payment_attempt.browser_info = Some(Parsed::<BrowserInformation>::Malformed);
    let outcome = PaymentsAuthorizeData::try_from(context_for(pd, "stripe"));
    assert_eq!(outcome, Err(ApiError::InvalidDataValue { field: FieldName::BrowserInfo }));
}

#[test]
fn authorize_with_one_malformed_order_detail_fails_whole_batch() {
    let mut pd = payment_data_for_builders();
    pd.payment_intent.order_details = Some(vec![Parsed::Malformed]);
    let outcome = PaymentsAuthorizeData::try_from(context_for(pd, "stripe"));
    assert_eq!(outcome, Err(ApiError::InvalidDataValue { field: FieldName::OrderDetails }));
}

#[test]
fn setup_mandate_requires_payment_method_data_outright() {
    let mut pd = payment_data_for_builders();
    pd.payment_method_data = None;
    pd.mandate_id = Some(MandateIds { mandate_id: Some("man_1".to_string()) });
    let outcome = SetupMandateRequestData::try_from(context_for(pd, "stripe"));
    assert_eq!(
        outcome,
        Err(ApiError::MissingRequiredField { field: FieldName::PaymentMethodData })
    );
}

#[test]
fn setup_mandate_amount_is_surcharge_final_amount() {
    let mut pd = payment_data_for_builders();
    pd.surcharge_details = Some(surcharge());
    let built = SetupMandateRequestData::try_from(context_for(pd, "stripe")).expect("should build");
    assert_eq!(built.amount, Some(1105));
    assert!(built.confirm);
}

#[test]
fn capture_defaults_amount_to_capture_to_effective_amount() {
    let built = PaymentsCaptureData::try_from(context_for(payment_data_for_builders(), "stripe"))
        .expect("should build");
    assert_eq!(built.amount_to_capture, 1050);
    assert_eq!(built.payment_amount, 1050);
    assert_eq!(built.connector_transaction_id, "txn_1".to_string());
}

#[test]
fn capture_amount_is_surcharge_final_amount() {
    let mut pd = payment_data_for_builders();
    pd.surcharge_details = Some(surcharge());
    let built = PaymentsCaptureData::try_from(context_for(pd, "stripe")).expect("should build");
    assert_eq!(built.amount_to_capture, 1105);
    assert_eq!(built.minor_amount_to_capture, 1105);
    assert_eq!(built.payment_amount, 1105);
    assert_eq!(built.minor_payment_amount, 1105);
}

#[test]
fn cancel_amount_is_surcharge_final_amount() {
    let mut pd = payment_data_for_builders();
    pd.surcharge_details = Some(surcharge());
    let built = PaymentsCancelData::try_from(context_for(pd, "stripe")).expect("should build");
    assert_eq!(built.amount, Some(1105));
    assert_eq!(built.minor_amount, Some(1105));
}

#[test]
fn approve_and_reject_amounts_are_surcharge_final_amount() {
    let mut pd = payment_data_for_builders();
    pd.surcharge_details = Some(surcharge());
    let approve = payment_core::requests::PaymentsApproveData::try_from(context_for(
        pd.clone(),
        "stripe",
    ))
    .expect("should build");
    assert_eq!(approve.amount, Some(1105));
    let reject = payment_core::requests::PaymentsRejectData::try_from(context_for(pd, "stripe"))
        .expect("should build");
    assert_eq!(reject.amount, Some(1105));
}

#[test]
fn capture_honours_requested_amount_to_capture() {
    let mut pd = payment_data_for_builders();
    pd.payment_attempt.amount_to_capture = Some(400);
    let built = PaymentsCaptureData::try_from(context_for(pd, "stripe")).expect("should build");
    assert_eq!(built.amount_to_capture, 400);
}

#[test]
fn capture_with_unknown_connector_name_fails() {
    let outcome =
        PaymentsCaptureData::try_from(context_for(payment_data_for_builders(), "nobody"));
    assert_eq!(outcome, Err(ApiError::InvalidDataValue { field: FieldName::Connector }));
}

#[test]
fn cancel_without_transaction_id_reports_resource_not_found() {
    let mut pd = payment_data_for_builders();
    pd.payment_attempt.connector_transaction_id = None;
    let outcome = PaymentsCancelData::try_from(context_for(pd, "stripe"));
    assert_eq!(outcome, Err(ApiError::ResourceIdNotFound));
}

#[test]
fn cancel_forwards_cancellation_reason() {
    let built = PaymentsCancelData::try_from(context_for(payment_data_for_builders(), "stripe"))
        .expect("should build");
    assert_eq!(built.cancellation_reason, Some("requested_by_customer".to_string()));
    assert_eq!(built.amount, Some(1050));
}

#[test]
fn helcim_falls_back_to_metadata_transaction_id() {
    let mut pd = payment_data_for_builders();
    pd.payment_attempt.connector_transaction_id = None;
    pd.payment_attempt.connector_metadata = Some(ConnectorMetadataShapes {
        qr_code: None,
        sdk_next_action: None,
        fetch_qr_code: None,
        wait_screen: None,
        bank_transfer_steps: None,
        voucher_steps: None,
        transaction_id: Some("meta_txn".to_string()),
    });
    let built = PaymentsCaptureData::try_from(context_for(pd, "helcim")).expect("should build");
    assert_eq!(built.connector_transaction_id, "meta_txn".to_string());
}

#[test]
fn nexinets_always_reads_metadata_transaction_id() {
    let mut pd = payment_data_for_builders();
    pd.payment_attempt.connector_metadata = Some(ConnectorMetadataShapes {
        qr_code: None,
        sdk_next_action: None,
        fetch_qr_code: None,
        wait_screen: None,
        bank_transfer_steps: None,
        voucher_steps: None,
        transaction_id: Some("meta_txn".to_string()),
    });
    let built = PaymentsCaptureData::try_from(context_for(pd, "nexinets")).expect("should build");
    assert_eq!(built.connector_transaction_id, "meta_txn".to_string());
}

#[test]
fn nexinets_without_metadata_transaction_id_fails() {
    let outcome =
        PaymentsCaptureData::try_from(context_for(payment_data_for_builders(), "nexinets"));
    assert_eq!(outcome, Err(ApiError::ResourceIdNotFound));
}

#[test]
fn sync_lists_pending_capture_ids() {
    let mut pd = payment_data_for_builders();
    pd.multiple_capture_data = Some(MultipleCaptureData {
        captures: vec![
            Capture {
                capture_id: "c1".to_string(),
                status: payment_core::enums::CaptureStatus::Pending,
                amount: 300,
                connector_capture_id: Some("con_c1".to_string()),
            },
            Capture {
                capture_id: "c2".to_string(),
                status: payment_core::enums::CaptureStatus::Charged,
                amount: 300,
                connector_capture_id: Some("con_c2".to_string()),
            },
            Capture {
                capture_id: "c3".to_string(),
                status: payment_core::enums::CaptureStatus::Pending,
                amount: 300,
                connector_capture_id: None,
            },
        ],
        expand_captures: None,
    });
    let built = PaymentsSyncData::try_from(context_for(pd, "stripe")).expect("should build");
    assert_eq!(
        built.sync_type,
        SyncRequestType::MultipleCaptureSync(vec!["con_c1".to_string()])
    );
}

#[test]
fn incremental_authorization_without_details_is_internal_error() {
    let outcome = PaymentsIncrementalAuthorizationData::try_from(context_for(
        payment_data_for_builders(),
        "stripe",
    ));
    assert_eq!(outcome, Err(ApiError::InternalServerError));
}

#[test]
fn incremental_authorization_carries_both_amounts() {
    let mut pd = payment_data_for_builders();
    pd.incremental_authorization_details = Some(
        payment_core::types::IncrementalAuthorizationDetails {
            total_amount: 1500,
            additional_amount: 450,
            reason: Some("upsell".to_string()),
        },
    );
    let built = PaymentsIncrementalAuthorizationData::try_from(context_for(pd, "stripe"))
        .expect("should build");
    assert_eq!(built.total_amount, 1500);
    assert_eq!(built.additional_amount, 450);
    assert_eq!(built.reason, Some("upsell".to_string()));
    assert_eq!(built.connector_transaction_id, "txn_1".to_string());
}
