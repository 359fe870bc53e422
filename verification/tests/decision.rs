//! Tests of the next-action resolver's precedence chain, the
//! third-party-SDK override, and the capture reconciler's status-code
//! bucketing.

use payment_core::capture::{CaptureSyncResponse, CaptureUpdate, ResponseId};
use payment_core::enums::{
    AttemptStatus, CaptureStatus, IntentStatus, Operation, PaymentMethod, PaymentMethodType,
};
use payment_core::metadata::{
    BankTransferNextStepsData, ConnectorMetadataShapes, FetchQrCodeInformation, QrCodeInformation,
    VoucherNextStepData, WaitScreenInstructions,
};
use payment_core::errors::{ApiError, FieldName};
use payment_core::next_action::{
    bank_transfer_next_steps_check, resolve_next_action, third_party_sdk_session_next_action,
    voucher_next_steps_check, NextActionData, PollConfigResponse, ThreeDsData, ThreeDsMethodData,
};
use payment_core::types::{AuthenticationRecord, PaymentAttempt, SessionToken};

fn empty_shapes() -> ConnectorMetadataShapes {
    ConnectorMetadataShapes {
        qr_code: None,
        sdk_next_action: None,
        fetch_qr_code: None,
        wait_screen: None,
        bank_transfer_steps: None,
        voucher_steps: None,
        transaction_id: None,
    }
}

fn attempt_fixture() -> PaymentAttempt {
    PaymentAttempt {
        payment_id: "pay_1".to_string(),
        merchant_id: "m_1".to_string(),
        attempt_id: "pay_1_1".to_string(),
        status: AttemptStatus::AuthenticationPending,
        amount: 1050,
        net_amount: 1050,
        amount_capturable: 1050,
        amount_to_capture: None,
        currency: Some(payment_core::enums::Currency::Usd),
        connector: Some("stripe".to_string()),
        connector_transaction_id: Some("txn_1".to_string()),
        payment_method: Some(PaymentMethod::Card),
        payment_method_type: Some(PaymentMethodType::Credit),
        payment_method_id: None,
        authentication_type: None,
        capture_method: None,
        confirm: true,
        browser_info: None,
        payment_method_data: None,
        connector_metadata: None,
        authentication_data: None,
        error_code: None,
        error_message: None,
        error_reason: None,
        unified_code: None,
        unified_message: None,
        cancellation_reason: None,
        mandate_id: None,
        payment_token: None,
        payment_experience: None,
        business_sub_label: None,
        merchant_connector_id: None,
        connector_response_reference_id: None,
        preprocessing_step_id: None,
        encoded_data: None,
        external_three_ds_authentication_attempted: None,
        charge_id: None,
        surcharge_amount: None,
        tax_amount: None,
    }
}

fn bank_steps() -> BankTransferNextStepsData {
    BankTransferNextStepsData {
        bank_transfer_instructions: "pay at the counter".to_string(),
        receiver: Some("ACME Bank".to_string()),
    }
}

fn voucher_steps() -> VoucherNextStepData {
    VoucherNextStepData {
        expires_at: Some(1_700_000_000),
        reference: "VCH-42".to_string(),
        download_url: Some("https://vouchers.example/42".to_string()),
        instructions_url: None,
    }
}

fn resolve(attempt: &PaymentAttempt, operation: Operation) -> Option<NextActionData> {
    resolve_next_action(
        attempt,
        IntentStatus::RequiresCustomerAction,
        &None,
        &None,
        &Vec::new(),
        operation,
        "https://router.example",
    )
    .expect("resolution should succeed")
}

#[test]
fn pix_bank_transfer_has_no_bank_transfer_action() {
    let mut attempt = attempt_fixture();
    attempt.payment_method = Some(PaymentMethod::BankTransfer);
    attempt.payment_method_type = Some(PaymentMethodType::Pix);
    let mut shapes = empty_shapes();
    shapes.bank_transfer_steps = Some(bank_steps());
    attempt.connector_metadata = Some(shapes);
    assert_eq!(bank_transfer_next_steps_check(&attempt), Ok(None));
}

#[test]
fn non_pix_bank_transfer_surfaces_bank_transfer_action() {
    let mut attempt = attempt_fixture();
    attempt.payment_method = Some(PaymentMethod::BankTransfer);
    attempt.payment_method_type = Some(PaymentMethodType::Sepa);
    let mut shapes = empty_shapes();
    shapes.bank_transfer_steps = Some(bank_steps());
    attempt.connector_metadata = Some(shapes);
    assert_eq!(bank_transfer_next_steps_check(&attempt), Ok(Some(bank_steps())));
}

#[test]
fn voucher_wins_over_qr_code() {
    let mut attempt = attempt_fixture();
    attempt.payment_method = Some(PaymentMethod::Voucher);
    let mut shapes = empty_shapes();
    shapes.voucher_steps = Some(voucher_steps());
    shapes.qr_code = Some(QrCodeInformation::QrCodeUrl {
        image_data_url: "data:image/png;base64,AAA".to_string(),
        qr_code_url: "https://qr.example/1".to_string(),
        display_to_timestamp: Some(99),
    });
    attempt.connector_metadata = Some(shapes);
    assert_eq!(voucher_next_steps_check(&attempt), Ok(Some(voucher_steps())));
    let action = resolve(&attempt, Operation::PaymentStatus);
    assert_eq!(
        action,
        Some(NextActionData::DisplayVoucherInformation { voucher_details: voucher_steps() })
    );
}

#[test]
fn trustpay_wallet_confirm_yields_third_party_sdk_token() {
    let mut attempt = attempt_fixture();
    attempt.connector = Some("trustpay".to_string());
    attempt.payment_method = Some(PaymentMethod::Wallet);
    let mut shapes = empty_shapes();
    shapes.voucher_steps = Some(voucher_steps());
    attempt.connector_metadata = Some(shapes);
    assert!(third_party_sdk_session_next_action(&attempt, Operation::PaymentConfirm));
    let tokens = vec![SessionToken {
        connector: "trustpay".to_string(),
        session_token: "tok_1".to_string(),
    }];
    let action = resolve_next_action(
        &attempt,
        IntentStatus::RequiresCustomerAction,
        &None,
        &None,
        &tokens,
        Operation::PaymentConfirm,
        "https://router.example",
    )
    .expect("resolution should succeed");
    assert_eq!(
        action,
        Some(NextActionData::ThirdPartySdkSessionToken {
            session_token: Some(SessionToken {
                connector: "trustpay".to_string(),
                session_token: "tok_1".to_string(),
            }),
        })
    );
}

#[test]
fn trustpay_wallet_without_confirm_is_not_overridden() {
    let mut attempt = attempt_fixture();
    attempt.connector = Some("trustpay".to_string());
    attempt.payment_method = Some(PaymentMethod::Wallet);
    assert!(!third_party_sdk_session_next_action(&attempt, Operation::PaymentStatus));
}

#[test]
fn plaid_open_banking_pis_confirm_is_overridden() {
    let mut attempt = attempt_fixture();
    attempt.connector = Some("plaid".to_string());
    attempt.payment_method = Some(PaymentMethod::OpenBanking);
    attempt.payment_method_type = Some(PaymentMethodType::OpenBankingPIS);
    assert!(third_party_sdk_session_next_action(&attempt, Operation::PaymentConfirm));
}

#[test]
fn qr_code_url_round_trips_through_resolution() {
    let mut attempt = attempt_fixture();
    let mut shapes = empty_shapes();
    shapes.qr_code = Some(QrCodeInformation::QrCodeUrl {
        image_data_url: "data:image/png;base64,AAA".to_string(),
        qr_code_url: "https://qr.example/1".to_string(),
        display_to_timestamp: Some(1_234_567),
    });
    attempt.connector_metadata = Some(shapes);
    let action = resolve(&attempt, Operation::PaymentStatus);
    assert_eq!(
        action,
        Some(NextActionData::QrCodeInformation {
            image_data_url: Some("data:image/png;base64,AAA".to_string()),
            display_to_timestamp: Some(1_234_567),
            qr_code_url: Some("https://qr.example/1".to_string()),
        })
    );
}

#[test]
fn wait_screen_resolves_with_both_timestamps() {
    let mut attempt = attempt_fixture();
    let mut shapes = empty_shapes();
    shapes.wait_screen = Some(WaitScreenInstructions {
        display_from_timestamp: 10,
        display_to_timestamp: Some(20),
    });
    attempt.connector_metadata = Some(shapes);
    let action = resolve(&attempt, Operation::PaymentStatus);
    assert_eq!(
        action,
        Some(NextActionData::WaitScreenInformation {
            display_from_timestamp: 10,
            display_to_timestamp: Some(20),
        })
    );
}

#[test]
fn fetch_qr_code_precedes_wait_screen() {
    let mut attempt = attempt_fixture();
    let mut shapes = empty_shapes();
    shapes.fetch_qr_code = Some(FetchQrCodeInformation {
        qr_code_fetch_url: "https://qr.example/fetch".to_string(),
    });
    shapes.wait_screen = Some(WaitScreenInstructions {
        display_from_timestamp: 10,
        display_to_timestamp: None,
    });
    attempt.connector_metadata = Some(shapes);
    let action = resolve(&attempt, Operation::PaymentStatus);
    assert_eq!(
        action,
        Some(NextActionData::FetchQrCodeInformation {
            qr_code_fetch_url: "https://qr.example/fetch".to_string(),
        })
    );
}

#[test]
fn no_sources_and_settled_intent_yields_no_action() {
    let attempt = attempt_fixture();
    let action = resolve_next_action(
        &attempt,
        IntentStatus::Succeeded,
        &None,
        &None,
        &Vec::new(),
        Operation::PaymentStatus,
        "https://router.example",
    )
    .expect("resolution should succeed");
    assert_eq!(action, None);
}

#[test]
fn capture_error_status_500_maps_to_pending() {
    let update = CaptureUpdate::foreign_try_from(CaptureSyncResponse::Error {
        code: "E1".to_string(),
        message: "server error".to_string(),
        reason: None,
        status_code: 500,
        amount: None,
    })
    .expect("error reconciliation should succeed");
    assert_eq!(
        update,
        CaptureUpdate::ErrorUpdate {
            status: CaptureStatus::Pending,
            error_code: Some("E1".to_string()),
            error_message: Some("server error".to_string()),
            error_reason: None,
        }
    );
}

#[test]
fn capture_error_status_511_maps_to_pending() {
    let update = CaptureUpdate::foreign_try_from(CaptureSyncResponse::Error {
        code: "E2".to_string(),
        message: "auth required".to_string(),
        reason: Some("network auth".to_string()),
        status_code: 511,
        amount: None,
    })
    .expect("error reconciliation should succeed");
    match update {
        CaptureUpdate::ErrorUpdate { status, error_reason, .. } => {
            assert_eq!(status, CaptureStatus::Pending);
            assert_eq!(error_reason, Some("network auth".to_string()));
        }
        other => panic!("unexpected update: {other:?}"),
    }
}

#[test]
fn capture_error_status_512_maps_to_failed() {
    let update = CaptureUpdate::foreign_try_from(CaptureSyncResponse::Error {
        code: "E3".to_string(),
        message: "oops".to_string(),
        reason: None,
        status_code: 512,
        amount: None,
    })
    .expect("error reconciliation should succeed");
    match update {
        CaptureUpdate::ErrorUpdate { status, .. } => assert_eq!(status, CaptureStatus::Failed),
        other => panic!("unexpected update: {other:?}"),
    }
}

#[test]
fn capture_error_status_499_maps_to_failed() {
    let update = CaptureUpdate::foreign_try_from(CaptureSyncResponse::Error {
        code: "E4".to_string(),
        message: "client error".to_string(),
        reason: None,
        status_code: 499,
        amount: None,
    })
    .expect("error reconciliation should succeed");
    match update {
        CaptureUpdate::ErrorUpdate { status, .. } => assert_eq!(status, CaptureStatus::Failed),
        other => panic!("unexpected update: {other:?}"),
    }
}

#[test]
fn capture_success_takes_id_only_from_connector_transaction_id() {
    let update = CaptureUpdate::foreign_try_from(CaptureSyncResponse::Success {
        resource_id: ResponseId::ConnectorTransactionId("cap_9".to_string()),
        status: AttemptStatus::Charged,
        connector_response_reference_id: Some("ref_9".to_string()),
        amount: Some(500),
    })
    .expect("success reconciliation should succeed");
    assert_eq!(
        update,
        CaptureUpdate::ResponseUpdate {
            status: CaptureStatus::Charged,
            connector_capture_id: Some("cap_9".to_string()),
            connector_response_reference_id: Some("ref_9".to_string()),
        }
    );

    let update = CaptureUpdate::foreign_try_from(CaptureSyncResponse::Success {
        resource_id: ResponseId::EncodedData("blob".to_string()),
        status: AttemptStatus::Pending,
        connector_response_reference_id: None,
        amount: None,
    })
    .expect("success reconciliation should succeed");
    assert_eq!(
        update,
        CaptureUpdate::ResponseUpdate {
            status: CaptureStatus::Pending,
            connector_capture_id: None,
            connector_response_reference_id: None,
        }
    );
}

#[test]
fn capture_success_with_unmappable_status_is_an_error() {
    let outcome = CaptureUpdate::foreign_try_from(CaptureSyncResponse::Success {
        resource_id: ResponseId::NoResponseId,
        status: AttemptStatus::Started,
        connector_response_reference_id: None,
        amount: None,
    });
    assert_eq!(outcome, Err(payment_core::errors::ApiError::InternalServerError));
}

#[test]
fn redirect_action_derives_the_start_pay_url() {
    let mut attempt = attempt_fixture();
    attempt.authentication_data = Some(payment_core::metadata::Parsed::Valid(
        payment_core::metadata::RedirectForm {
            endpoint: "https://acs.example".to_string(),
            method: "POST".to_string(),
            form_fields: vec![],
        },
    ));
    let action = resolve(&attempt, Operation::PaymentStatus);
    assert_eq!(
        action,
        Some(NextActionData::RedirectToUrl {
            redirect_to_url: "https://router.example/payments/redirect/pay_1/m_1/pay_1_1"
                .to_string(),
        })
    );
}

#[test]
fn three_ds_invoke_carries_urls_poll_id_and_submission_flag() {
    let attempt = attempt_fixture();
    let authentication = Some(AuthenticationRecord {
        cavv: None,
        threeds_server_transaction_id: None,
        three_ds_method_url: Some("https://acs.example/method".to_string()),
        three_ds_method_data: Some("eyJkYXRhIjoxfQ".to_string()),
        message_version: Some("2.2.0".to_string()),
        directory_server_id: Some("ds_1".to_string()),
        separate_authn_required: true,
        status: None,
        ds_transaction_id: None,
        error_code: None,
        error_message: None,
    });
    let action = resolve_next_action(
        &attempt,
        IntentStatus::RequiresCustomerAction,
        &authentication,
        &None,
        &Vec::new(),
        Operation::PaymentStatus,
        "https://router.example",
    )
    .expect("resolution should succeed");
    assert_eq!(
        action,
        Some(NextActionData::ThreeDsInvoke {
            three_ds_data: ThreeDsData {
                three_ds_authentication_url:
                    "https://router.example/payments/pay_1/3ds/authentication".to_string(),
                three_ds_authorize_url:
                    "https://router.example/payments/pay_1/m_1/authorize/stripe".to_string(),
                three_ds_method_details: ThreeDsMethodData::AcsThreeDsMethodData {
                    three_ds_method_data_submission: true,
                    three_ds_method_data: Some("eyJkYXRhIjoxfQ".to_string()),
                    three_ds_method_url: Some("https://acs.example/method".to_string()),
                },
                poll_config: PollConfigResponse {
                    poll_id: "external_authentication_pay_1".to_string(),
                    delay_in_secs: 2,
                    frequency: 5,
                },
                message_version: Some("2.2.0".to_string()),
                directory_server_id: Some("ds_1".to_string()),
            },
        })
    );
}

#[test]
fn three_ds_invoke_without_method_url_sets_submission_false() {
    let attempt = attempt_fixture();
    let authentication = Some(AuthenticationRecord {
        cavv: None,
        threeds_server_transaction_id: None,
        three_ds_method_url: None,
        three_ds_method_data: Some("eyJkYXRhIjoxfQ".to_string()),
        message_version: None,
        directory_server_id: None,
        separate_authn_required: true,
        status: None,
        ds_transaction_id: None,
        error_code: None,
        error_message: None,
    });
    let action = resolve_next_action(
        &attempt,
        IntentStatus::RequiresCustomerAction,
        &authentication,
        &None,
        &Vec::new(),
        Operation::PaymentStatus,
        "https://router.example",
    )
    .expect("resolution should succeed");
    match action {
        Some(NextActionData::ThreeDsInvoke { three_ds_data }) => {
            assert_eq!(
                three_ds_data.three_ds_method_details,
                ThreeDsMethodData::AcsThreeDsMethodData {
                    three_ds_method_data_submission: false,
                    three_ds_method_data: None,
                    three_ds_method_url: None,
                }
            );
        }
        other => panic!("expected a three-DS invoke, got {other:?}"),
    }
}

#[test]
fn three_ds_invoke_without_connector_name_fails() {
    let mut attempt = attempt_fixture();
    attempt.connector = None;
    let authentication = Some(AuthenticationRecord {
        cavv: None,
        threeds_server_transaction_id: None,
        three_ds_method_url: None,
        three_ds_method_data: None,
        message_version: None,
        directory_server_id: None,
        separate_authn_required: true,
        status: None,
        ds_transaction_id: None,
        error_code: None,
        error_message: None,
    });
    let outcome = resolve_next_action(
        &attempt,
        IntentStatus::RequiresCustomerAction,
        &authentication,
        &None,
        &Vec::new(),
        Operation::PaymentStatus,
        "https://router.example",
    );
    assert_eq!(outcome, Err(ApiError::MissingRequiredField { field: FieldName::Connector }));
}
