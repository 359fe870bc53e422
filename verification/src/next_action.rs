//! The next-action resolver: a precedence-ordered decision procedure
//! over connector metadata and intent/attempt state, producing at most
//! one next-action descriptor. The precedence is total and
//! deterministic; candidates are never combined. A third-party-SDK
//! override, checked last, unconditionally replaces whatever the chain
//! resolved when its predicate holds.

use vstd::prelude::*;

use crate::enums::{IntentStatus, Operation, PaymentMethod, PaymentMethodType};
use crate::errors::{ApiError, FieldName};
use crate::metadata::{
    BankTransferNextStepsData, FetchQrCodeInformation, QrCodeInformation, SdkNextActionData,
    VoucherNextStepData, WaitScreenInstructions,
};
use crate::text::{dup_opt_string, opt_str_eq};
use crate::types::{AuthenticationRecord, PaymentAttempt, PollConfig, SessionToken};
use crate::urls::{
    authentication_poll_id_chars, authentication_url_chars, authorize_url_chars,
    create_authentication_url, create_authorize_url, create_startpay_url,
    get_external_authentication_request_poll_id, startpay_url_chars,
};

verus! {

/// Three-DS method data, with the submission flag that says whether both
/// the method URL and the method data were available.
#[derive(Clone, Debug, PartialEq)]
pub enum ThreeDsMethodData {
    AcsThreeDsMethodData {
        three_ds_method_data_submission: bool,
        three_ds_method_data: Option<String>,
        three_ds_method_url: Option<String>,
    },
}

#[derive(Clone, Debug, PartialEq)]
pub struct PollConfigResponse {
    pub poll_id: String,
    pub delay_in_secs: u16,
    pub frequency: u16,
}

/// Everything a client needs to run a separate three-DS authentication.
#[derive(Clone, Debug, PartialEq)]
pub struct ThreeDsData {
    pub three_ds_authentication_url: String,
    pub three_ds_authorize_url: String,
    pub three_ds_method_details: ThreeDsMethodData,
    pub poll_config: PollConfigResponse,
    pub message_version: Option<String>,
    pub directory_server_id: Option<String>,
}

/// The single instruction returned to a client describing what it must
/// do to continue the payment.
#[derive(Clone, Debug, PartialEq)]
pub enum NextActionData {
    RedirectToUrl { redirect_to_url: String },
    DisplayBankTransferInformation { bank_transfer_steps_and_charges_details: BankTransferNextStepsData },
    DisplayVoucherInformation { voucher_details: VoucherNextStepData },
    QrCodeInformation {
        image_data_url: Option<String>,
        display_to_timestamp: Option<i64>,
        qr_code_url: Option<String>,
    },
    FetchQrCodeInformation { qr_code_fetch_url: String },
    InvokeSdkClient { next_action_data: SdkNextActionData },
    WaitScreenInformation { display_from_timestamp: i64, display_to_timestamp: Option<i64> },
    ThirdPartySdkSessionToken { session_token: Option<SessionToken> },
    ThreeDsInvoke { three_ds_data: ThreeDsData },
}

/// The observable value of a poll configuration: the poll id by its
/// characters.
#[verifier::ext_equal]
pub ghost struct ObsPollConfig {
    pub poll_id: Seq<char>,
    pub delay_in_secs: u16,
    pub frequency: u16,
}

/// The observable value of three-DS invoke data: derived URLs by their
/// characters, forwarded fields by value.
#[verifier::ext_equal]
pub ghost struct ObsThreeDsData {
    pub three_ds_authentication_url: Seq<char>,
    pub three_ds_authorize_url: Seq<char>,
    pub three_ds_method_details: ThreeDsMethodData,
    pub poll_config: ObsPollConfig,
    pub message_version: Option<String>,
    pub directory_server_id: Option<String>,
}

/// The observable value of a next action: strings the resolver derives
/// appear by their characters, everything it forwards appears by value.
#[verifier::ext_equal]
pub ghost enum ObsNextAction {
    RedirectToUrl { redirect_to_url: Seq<char> },
    DisplayBankTransferInformation { bank_transfer_steps_and_charges_details: BankTransferNextStepsData },
    DisplayVoucherInformation { voucher_details: VoucherNextStepData },
    QrCodeInformation {
        image_data_url: Option<String>,
        display_to_timestamp: Option<i64>,
        qr_code_url: Option<String>,
    },
    FetchQrCodeInformation { qr_code_fetch_url: String },
    InvokeSdkClient { next_action_data: SdkNextActionData },
    WaitScreenInformation { display_from_timestamp: i64, display_to_timestamp: Option<i64> },
    ThirdPartySdkSessionToken { session_token: Option<SessionToken> },
    ThreeDsInvoke { three_ds_data: ObsThreeDsData },
}

/// Maps a next action to its observable value.
pub open spec fn next_action_obs(n: NextActionData) -> ObsNextAction {
    match n {
        NextActionData::RedirectToUrl { redirect_to_url } => ObsNextAction::RedirectToUrl {
            redirect_to_url: redirect_to_url@,
        },
        NextActionData::DisplayBankTransferInformation {
            bank_transfer_steps_and_charges_details,
        } => ObsNextAction::DisplayBankTransferInformation {
            bank_transfer_steps_and_charges_details,
        },
        NextActionData::DisplayVoucherInformation { voucher_details } => {
            ObsNextAction::DisplayVoucherInformation { voucher_details }
        },
        NextActionData::QrCodeInformation { image_data_url, display_to_timestamp, qr_code_url } => {
            ObsNextAction::QrCodeInformation { image_data_url, display_to_timestamp, qr_code_url }
        },
        NextActionData::FetchQrCodeInformation { qr_code_fetch_url } => {
            ObsNextAction::FetchQrCodeInformation { qr_code_fetch_url }
        },
        NextActionData::InvokeSdkClient { next_action_data } => ObsNextAction::InvokeSdkClient {
            next_action_data,
        },
        NextActionData::WaitScreenInformation { display_from_timestamp, display_to_timestamp } => {
            ObsNextAction::WaitScreenInformation { display_from_timestamp, display_to_timestamp }
        },
        NextActionData::ThirdPartySdkSessionToken { session_token } => {
            ObsNextAction::ThirdPartySdkSessionToken { session_token }
        },
        NextActionData::ThreeDsInvoke { three_ds_data } => ObsNextAction::ThreeDsInvoke {
            three_ds_data: ObsThreeDsData {
                three_ds_authentication_url: three_ds_data.three_ds_authentication_url@,
                three_ds_authorize_url: three_ds_data.three_ds_authorize_url@,
                three_ds_method_details: three_ds_data.three_ds_method_details,
                poll_config: ObsPollConfig {
                    poll_id: three_ds_data.poll_config.poll_id@,
                    delay_in_secs: three_ds_data.poll_config.delay_in_secs,
                    frequency: three_ds_data.poll_config.frequency,
                },
                message_version: three_ds_data.message_version,
                directory_server_id: three_ds_data.directory_server_id,
            },
        },
    }
}

/// Maps an optional next action to its observable value.
pub open spec fn next_action_opt_obs(o: Option<NextActionData>) -> Option<ObsNextAction> {
    match o {
        Some(n) => Some(next_action_obs(n)),
        None => None,
    }
}

/// Maps a resolver outcome to its observable value.
pub open spec fn next_action_result_obs(r: Result<Option<NextActionData>, ApiError>) -> Result<
    Option<ObsNextAction>,
    ApiError,
> {
    match r {
        Ok(o) => Ok(next_action_opt_obs(o)),
        Err(e) => Err(e),
    }
}

/// Bank-transfer instructions apply only when the payment method is a
/// bank transfer and the method type is not Pix.
pub open spec fn spec_bank_transfer_next_steps(a: PaymentAttempt) -> Option<
    BankTransferNextStepsData,
> {
    if a.payment_method == Some(PaymentMethod::BankTransfer) && a.payment_method_type != Some(
        PaymentMethodType::Pix,
    ) {
        match a.connector_metadata {
            Some(m) => m.bank_transfer_steps,
            None => None,
        }
    } else {
        None
    }
}

/// Voucher instructions apply only when the payment method is a voucher.
pub open spec fn spec_voucher_next_steps(a: PaymentAttempt) -> Option<VoucherNextStepData> {
    if a.payment_method == Some(PaymentMethod::Voucher) {
        match a.connector_metadata {
            Some(m) => m.voucher_steps,
            None => None,
        }
    } else {
        None
    }
}

pub open spec fn spec_qr_code_next_steps(a: PaymentAttempt) -> Option<QrCodeInformation> {
    match a.connector_metadata {
        Some(m) => m.qr_code,
        None => None,
    }
}

pub open spec fn spec_paypal_sdk_next_steps(a: PaymentAttempt) -> Option<SdkNextActionData> {
    match a.connector_metadata {
        Some(m) => m.sdk_next_action,
        None => None,
    }
}

pub open spec fn spec_fetch_qr_code_next_steps(a: PaymentAttempt) -> Option<
    FetchQrCodeInformation,
> {
    match a.connector_metadata {
        Some(m) => m.fetch_qr_code,
        None => None,
    }
}

pub open spec fn spec_wait_screen_next_steps(a: PaymentAttempt) -> Option<WaitScreenInstructions> {
    match a.connector_metadata {
        Some(m) => m.wait_screen,
        None => None,
    }
}

/// Reads bank-transfer next steps off the attempt; absent or malformed
/// metadata degrades to `None`, never to an error.
pub fn bank_transfer_next_steps_check(payment_attempt: &PaymentAttempt) -> (r: Result<
    Option<BankTransferNextStepsData>,
    ApiError,
>)
    ensures
        r == Ok::<_, ApiError>(spec_bank_transfer_next_steps(*payment_attempt)),
{
    let method_applies = matches!(payment_attempt.payment_method, Some(PaymentMethod::BankTransfer))
        && !matches!(payment_attempt.payment_method_type, Some(PaymentMethodType::Pix));
    if method_applies {
        match &payment_attempt.connector_metadata {
            Some(m) => match &m.bank_transfer_steps {
                Some(b) => Ok(Some(b.duplicate())),
                None => Ok(None),
            },
            None => Ok(None),
        }
    } else {
        Ok(None)
    }
}

/// Reads voucher next steps off the attempt; absent or malformed
/// metadata degrades to `None`, never to an error.
pub fn voucher_next_steps_check(payment_attempt: &PaymentAttempt) -> (r: Result<
    Option<VoucherNextStepData>,
    ApiError,
>)
    ensures
        r == Ok::<_, ApiError>(spec_voucher_next_steps(*payment_attempt)),
{
    if matches!(payment_attempt.payment_method, Some(PaymentMethod::Voucher)) {
        match &payment_attempt.connector_metadata {
            Some(m) => match &m.voucher_steps {
                Some(v) => Ok(Some(v.duplicate())),
                None => Ok(None),
            },
            None => Ok(None),
        }
    } else {
        Ok(None)
    }
}

/// Reads QR-code display data off the attempt's metadata.
pub fn qr_code_next_steps_check(payment_attempt: &PaymentAttempt) -> (r: Result<
    Option<QrCodeInformation>,
    ApiError,
>)
    ensures
        r == Ok::<_, ApiError>(spec_qr_code_next_steps(*payment_attempt)),
{
    match &payment_attempt.connector_metadata {
        Some(m) => match &m.qr_code {
            Some(q) => Ok(Some(q.duplicate())),
            None => Ok(None),
        },
        None => Ok(None),
    }
}

/// Reads PayPal SDK invocation data off the attempt's metadata.
pub fn paypal_sdk_next_steps_check(payment_attempt: &PaymentAttempt) -> (r: Result<
    Option<SdkNextActionData>,
    ApiError,
>)
    ensures
        r == Ok::<_, ApiError>(spec_paypal_sdk_next_steps(*payment_attempt)),
{
    match &payment_attempt.connector_metadata {
        Some(m) => Ok(m.sdk_next_action),
        None => Ok(None),
    }
}

/// Reads the QR-code fetch URL off the attempt's metadata.
pub fn fetch_qr_code_url_next_steps_check(payment_attempt: &PaymentAttempt) -> (r: Result<
    Option<FetchQrCodeInformation>,
    ApiError,
>)
    ensures
        r == Ok::<_, ApiError>(spec_fetch_qr_code_next_steps(*payment_attempt)),
{
    match &payment_attempt.connector_metadata {
        Some(m) => match &m.fetch_qr_code {
            Some(f) => Ok(Some(f.duplicate())),
            None => Ok(None),
        },
        None => Ok(None),
    }
}

/// Reads wait-screen instructions off the attempt's metadata.
pub fn wait_screen_next_steps_check(payment_attempt: &PaymentAttempt) -> (r: Result<
    Option<WaitScreenInstructions>,
    ApiError,
>)
    ensures
        r == Ok::<_, ApiError>(spec_wait_screen_next_steps(*payment_attempt)),
{
    match &payment_attempt.connector_metadata {
        Some(m) => Ok(m.wait_screen),
        None => Ok(None),
    }
}

/// The third-party-SDK override applies for a confirm operation when the
/// connector is trustpay or payme with a wallet, or plaid with
/// open-banking PIS.
pub open spec fn spec_third_party_sdk_session(a: PaymentAttempt, operation: Operation) -> bool {
    &&& operation is PaymentConfirm
    &&& {
        ||| {
            &&& a.connector matches Some(c) && (c@ == "trustpay"@ || c@ == "payme"@)
            &&& a.payment_method == Some(PaymentMethod::Wallet)
        }
        ||| {
            &&& a.connector matches Some(c) && c@ == "plaid"@
            &&& a.payment_method == Some(PaymentMethod::OpenBanking)
            &&& a.payment_method_type == Some(PaymentMethodType::OpenBankingPIS)
        }
    }
}

/// Decides whether a session token must be returned as the next action
/// in place of whatever the precedence chain resolved.
pub fn third_party_sdk_session_next_action(
    payment_attempt: &PaymentAttempt,
    operation: Operation,
) -> (r: bool)
    ensures
        r == spec_third_party_sdk_session(*payment_attempt, operation),
{
    if matches!(operation, Operation::PaymentConfirm) {
        let wallet_connector = opt_str_eq(&payment_attempt.connector, "trustpay") || opt_str_eq(
            &payment_attempt.connector,
            "payme",
        );
        let condition1 = wallet_connector && matches!(
            payment_attempt.payment_method,
            Some(PaymentMethod::Wallet),
        );
        let condition2 = opt_str_eq(&payment_attempt.connector, "plaid") && matches!(
            payment_attempt.payment_method,
            Some(PaymentMethod::OpenBanking),
        ) && matches!(
            payment_attempt.payment_method_type,
            Some(PaymentMethodType::OpenBankingPIS),
        );
        condition1 || condition2
    } else {
        false
    }
}

impl NextActionData {
    /// The next action a QR-code shape translates to: both URLs, image
    /// only, or URL only, with the timestamp carried unchanged.
    pub open spec fn spec_from_qr(qr_info: QrCodeInformation) -> NextActionData {
        match qr_info {
            QrCodeInformation::QrCodeUrl { image_data_url, qr_code_url, display_to_timestamp } => {
                NextActionData::QrCodeInformation {
                    image_data_url: Some(image_data_url),
                    qr_code_url: Some(qr_code_url),
                    display_to_timestamp,
                }
            },
            QrCodeInformation::QrDataUrl { image_data_url, display_to_timestamp } => {
                NextActionData::QrCodeInformation {
                    image_data_url: Some(image_data_url),
                    display_to_timestamp,
                    qr_code_url: None,
                }
            },
            QrCodeInformation::QrCodeImageUrl { qr_code_url, display_to_timestamp } => {
                NextActionData::QrCodeInformation {
                    qr_code_url: Some(qr_code_url),
                    image_data_url: None,
                    display_to_timestamp,
                }
            },
        }
    }

    /// Translates a QR-code shape into the QR next action.
    pub fn foreign_from(qr_info: QrCodeInformation) -> (r: NextActionData)
        ensures
            r == Self::spec_from_qr(qr_info),
    {
        match qr_info {
            QrCodeInformation::QrCodeUrl { image_data_url, qr_code_url, display_to_timestamp } => {
                NextActionData::QrCodeInformation {
                    image_data_url: Some(image_data_url),
                    qr_code_url: Some(qr_code_url),
                    display_to_timestamp,
                }
            },
            QrCodeInformation::QrDataUrl { image_data_url, display_to_timestamp } => {
                NextActionData::QrCodeInformation {
                    image_data_url: Some(image_data_url),
                    display_to_timestamp,
                    qr_code_url: None,
                }
            },
            QrCodeInformation::QrCodeImageUrl { qr_code_url, display_to_timestamp } => {
                NextActionData::QrCodeInformation {
                    qr_code_url: Some(qr_code_url),
                    image_data_url: None,
                    display_to_timestamp,
                }
            },
        }
    }
}

/// Whether any next-action source is live: the chain is evaluated only
/// when the intent requires customer action, some metadata shape is
/// present, or an authentication record exists.
pub open spec fn spec_next_action_gate(
    a: PaymentAttempt,
    intent_status: IntentStatus,
    authentication: Option<AuthenticationRecord>,
) -> bool {
    ||| intent_status is RequiresCustomerAction
    ||| spec_bank_transfer_next_steps(a) is Some
    ||| spec_voucher_next_steps(a) is Some
    ||| spec_qr_code_next_steps(a) is Some
    ||| spec_wait_screen_next_steps(a) is Some
    ||| spec_paypal_sdk_next_steps(a) is Some
    ||| spec_fetch_qr_code_next_steps(a) is Some
    ||| authentication is Some
}

/// Three-DS invoke applies only when the intent still requires customer
/// action, an authentication record exists without a cardholder
/// verification value, and separate authentication is required.
pub open spec fn spec_three_ds_invoke_applies(
    intent_status: IntentStatus,
    authentication: Option<AuthenticationRecord>,
) -> bool {
    &&& authentication matches Some(auth)
    &&& intent_status is RequiresCustomerAction
    &&& auth.cavv is None
    &&& auth.separate_authn_required
}

/// The observable three-DS invoke data synthesized for one attempt: the
/// method-data-submission flag is true exactly when both the method URL
/// and the method data are present.
pub open spec fn spec_three_ds_obs(
    a: PaymentAttempt,
    auth: AuthenticationRecord,
    poll_config: Option<PollConfig>,
    base: Seq<char>,
    connector: String,
) -> ObsThreeDsData {
    let pc = match poll_config {
        Some(p) => p,
        None => PollConfig { delay_in_secs: 2, frequency: 5 },
    };
    ObsThreeDsData {
        three_ds_authentication_url: authentication_url_chars(base, a.payment_id@),
        three_ds_authorize_url: authorize_url_chars(base, a.payment_id@, a.merchant_id@, connector@),
        three_ds_method_details: if auth.three_ds_method_url is Some && auth.three_ds_method_data
            is Some {
            ThreeDsMethodData::AcsThreeDsMethodData {
                three_ds_method_data_submission: true,
                three_ds_method_data: Some(auth.three_ds_method_data->0),
                three_ds_method_url: Some(auth.three_ds_method_url->0),
            }
        } else {
            ThreeDsMethodData::AcsThreeDsMethodData {
                three_ds_method_data_submission: false,
                three_ds_method_data: None,
                three_ds_method_url: None,
            }
        },
        poll_config: ObsPollConfig {
            poll_id: authentication_poll_id_chars(a.payment_id@),
            delay_in_secs: pc.delay_in_secs,
            frequency: pc.frequency,
        },
        message_version: auth.message_version,
        directory_server_id: auth.directory_server_id,
    }
}

/// The outcome of the precedence chain alone, before the third-party
/// override: first present candidate wins, in the fixed order
/// bank-transfer, voucher, QR code, fetch-QR-code, PayPal SDK, wait
/// screen, redirect, three-DS invoke.
pub open spec fn spec_resolved_chain(
    a: PaymentAttempt,
    intent_status: IntentStatus,
    authentication: Option<AuthenticationRecord>,
    poll_config: Option<PollConfig>,
    base: Seq<char>,
) -> Result<Option<ObsNextAction>, ApiError> {
    if !spec_next_action_gate(a, intent_status, authentication) {
        Ok(None)
    } else if spec_bank_transfer_next_steps(a) is Some {
        Ok(Some(ObsNextAction::DisplayBankTransferInformation {
            bank_transfer_steps_and_charges_details: spec_bank_transfer_next_steps(a)->0,
        }))
    } else if spec_voucher_next_steps(a) is Some {
        Ok(Some(ObsNextAction::DisplayVoucherInformation {
            voucher_details: spec_voucher_next_steps(a)->0,
        }))
    } else if spec_qr_code_next_steps(a) is Some {
        Ok(Some(next_action_obs(NextActionData::spec_from_qr(spec_qr_code_next_steps(a)->0))))
    } else if spec_fetch_qr_code_next_steps(a) is Some {
        Ok(Some(ObsNextAction::FetchQrCodeInformation {
            qr_code_fetch_url: spec_fetch_qr_code_next_steps(a)->0.qr_code_fetch_url,
        }))
    } else if spec_paypal_sdk_next_steps(a) is Some {
        Ok(Some(ObsNextAction::InvokeSdkClient {
            next_action_data: spec_paypal_sdk_next_steps(a)->0,
        }))
    } else if spec_wait_screen_next_steps(a) is Some {
        Ok(Some(ObsNextAction::WaitScreenInformation {
            display_from_timestamp: spec_wait_screen_next_steps(a)->0.display_from_timestamp,
            display_to_timestamp: spec_wait_screen_next_steps(a)->0.display_to_timestamp,
        }))
    } else if a.authentication_data is Some {
        Ok(Some(ObsNextAction::RedirectToUrl {
            redirect_to_url: startpay_url_chars(base, a.payment_id@, a.merchant_id@, a.attempt_id@),
        }))
    } else if spec_three_ds_invoke_applies(intent_status, authentication) {
        if a.connector is Some {
            Ok(Some(ObsNextAction::ThreeDsInvoke {
                three_ds_data: spec_three_ds_obs(
                    a,
                    authentication->0,
                    poll_config,
                    base,
                    a.connector->0,
                ),
            }))
        } else {
            Err(ApiError::MissingRequiredField { field: FieldName::Connector })
        }
    } else {
        Ok(None)
    }
}

/// The full resolution outcome: the chain's result, replaced by a
/// third-party-SDK session token whenever that override applies.
pub open spec fn spec_resolve_next_action(
    a: PaymentAttempt,
    intent_status: IntentStatus,
    authentication: Option<AuthenticationRecord>,
    poll_config: Option<PollConfig>,
    sessions_token: Seq<SessionToken>,
    operation: Operation,
    base: Seq<char>,
) -> Result<Option<ObsNextAction>, ApiError> {
    match spec_resolved_chain(a, intent_status, authentication, poll_config, base) {
        Err(e) => Err(e),
        Ok(chain) => {
            if spec_third_party_sdk_session(a, operation) {
                Ok(Some(ObsNextAction::ThirdPartySdkSessionToken {
                    session_token: if sessions_token.len() > 0 {
                        Some(sessions_token[0])
                    } else {
                        None
                    },
                }))
            } else {
                Ok(chain)
            }
        },
    }
}

/// Resolves the single next action for one attempt. Metadata-derived
/// candidates degrade to absent when unparseable; only a three-DS invoke
/// with no connector name on the attempt is an error.
pub fn resolve_next_action(
    payment_attempt: &PaymentAttempt,
    intent_status: IntentStatus,
    authentication: &Option<AuthenticationRecord>,
    poll_config: &Option<PollConfig>,
    sessions_token: &Vec<SessionToken>,
    operation: Operation,
    base_url: &str,
) -> (r: Result<Option<NextActionData>, ApiError>)
    ensures
        next_action_result_obs(r) == spec_resolve_next_action(
            *payment_attempt,
            intent_status,
            *authentication,
            *poll_config,
            sessions_token@,
            operation,
            base_url@,
        ),
{
    let bank_transfer_next_steps = match bank_transfer_next_steps_check(payment_attempt) {
        Ok(v) => v,
        Err(e) => { return Err(e) },
    };
    let next_action_voucher = match voucher_next_steps_check(payment_attempt) {
        Ok(v) => v,
        Err(e) => { return Err(e) },
    };
    let qr_code_data = match qr_code_next_steps_check(payment_attempt) {
        Ok(v) => v,
        Err(e) => { return Err(e) },
    };
    let paypal_sdk_data = match paypal_sdk_next_steps_check(payment_attempt) {
        Ok(v) => v,
        Err(e) => { return Err(e) },
    };
    let fetch_qr_code_data = match fetch_qr_code_url_next_steps_check(payment_attempt) {
        Ok(v) => v,
        Err(e) => { return Err(e) },
    };
    let wait_screen_data = match wait_screen_next_steps_check(payment_attempt) {
        Ok(v) => v,
        Err(e) => { return Err(e) },
    };

    let gate = matches!(intent_status, IntentStatus::RequiresCustomerAction)
        || bank_transfer_next_steps.is_some() || next_action_voucher.is_some()
        || qr_code_data.is_some() || wait_screen_data.is_some() || paypal_sdk_data.is_some()
        || fetch_qr_code_data.is_some() || authentication.is_some();

    let chain: Option<NextActionData> = if !gate {
        None
    } else if let Some(b) = bank_transfer_next_steps {
        Some(NextActionData::DisplayBankTransferInformation {
            bank_transfer_steps_and_charges_details: b,
        })
    } else if let Some(v) = next_action_voucher {
        Some(NextActionData::DisplayVoucherInformation { voucher_details: v })
    } else if let Some(q) = qr_code_data {
        Some(NextActionData::foreign_from(q))
    } else if let Some(f) = fetch_qr_code_data {
        Some(NextActionData::FetchQrCodeInformation { qr_code_fetch_url: f.qr_code_fetch_url })
    } else if let Some(p) = paypal_sdk_data {
        Some(NextActionData::InvokeSdkClient { next_action_data: p })
    } else if let Some(w) = wait_screen_data {
        Some(NextActionData::WaitScreenInformation {
            display_from_timestamp: w.display_from_timestamp,
            display_to_timestamp: w.display_to_timestamp,
        })
    } else if payment_attempt.authentication_data.is_some() {
        Some(NextActionData::RedirectToUrl {
            redirect_to_url: create_startpay_url(base_url, payment_attempt),
        })
    } else {
        let three_ds_applies = match authentication {
            Some(auth) => matches!(intent_status, IntentStatus::RequiresCustomerAction)
                && auth.cavv.is_none() && auth.is_separate_authn_required(),
            None => false,
        };
        if three_ds_applies {
            let auth = match authentication {
                Some(auth) => auth,
                None => { return Err(ApiError::InternalServerError) },
            };
            let payment_connector_name = match &payment_attempt.connector {
                Some(c) => c,
                None => {
                    return Err(ApiError::MissingRequiredField { field: FieldName::Connector });
                },
            };
            let pc: PollConfig = match poll_config {
                Some(p) => *p,
                None => PollConfig::default(),
            };
            let three_ds_method_details = match (&auth.three_ds_method_url, &auth.three_ds_method_data) {
                (Some(u), Some(d)) => ThreeDsMethodData::AcsThreeDsMethodData {
                    three_ds_method_data_submission: true,
                    three_ds_method_data: Some(d.clone()),
                    three_ds_method_url: Some(u.clone()),
                },
                _ => ThreeDsMethodData::AcsThreeDsMethodData {
                    three_ds_method_data_submission: false,
                    three_ds_method_data: None,
                    three_ds_method_url: None,
                },
            };
            Some(NextActionData::ThreeDsInvoke {
                three_ds_data: ThreeDsData {
                    three_ds_authentication_url: create_authentication_url(
                        base_url,
                        payment_attempt,
                    ),
                    three_ds_authorize_url: create_authorize_url(
                        base_url,
                        payment_attempt,
                        payment_connector_name.as_str(),
                    ),
                    three_ds_method_details,
                    poll_config: PollConfigResponse {
                        poll_id: get_external_authentication_request_poll_id(
                            payment_attempt.payment_id.as_str(),
                        ),
                        delay_in_secs: pc.delay_in_secs,
                        frequency: pc.frequency,
                    },
                    message_version: dup_opt_string(&auth.message_version),
                    directory_server_id: dup_opt_string(&auth.directory_server_id),
                },
            })
        } else {
            None
        }
    };

    if third_party_sdk_session_next_action(payment_attempt, operation) {
        let session_token = if sessions_token.len() > 0 {
            Some(sessions_token[0].duplicate())
        } else {
            None
        };
        Ok(Some(NextActionData::ThirdPartySdkSessionToken { session_token }))
    } else {
        Ok(chain)
    }
}

/// For a Pix bank transfer the bank-transfer next action is always
/// absent: the Pix exclusion is a deliberate, literal policy.
pub proof fn lemma_pix_bank_transfer_absent(a: PaymentAttempt)
    requires
        a.payment_method == Some(PaymentMethod::BankTransfer),
        a.payment_method_type == Some(PaymentMethodType::Pix),
    ensures
        spec_bank_transfer_next_steps(a) is None,
{
}

/// When an attempt satisfies both the voucher and the QR-code metadata
/// shapes, the resolved action is always the voucher: the precedence
/// order is total and deterministic.
pub proof fn lemma_voucher_precedes_qr_code(
    a: PaymentAttempt,
    intent_status: IntentStatus,
    authentication: Option<AuthenticationRecord>,
    poll_config: Option<PollConfig>,
    sessions_token: Seq<SessionToken>,
    operation: Operation,
    base: Seq<char>,
)
    requires
        spec_voucher_next_steps(a) is Some,
        spec_qr_code_next_steps(a) is Some,
        !spec_third_party_sdk_session(a, operation),
    ensures
        spec_resolve_next_action(
            a,
            intent_status,
            authentication,
            poll_config,
            sessions_token,
            operation,
            base,
        ) == Ok::<_, ApiError>(
            Some(ObsNextAction::DisplayVoucherInformation {
                voucher_details: spec_voucher_next_steps(a)->0,
            }),
        ),
{
    assert(spec_bank_transfer_next_steps(a) is None);
}

/// For a confirm operation on trustpay with a wallet, the resolved next
/// action is always the third-party-SDK session token, whatever the
/// chain would have produced.
pub proof fn lemma_third_party_sdk_override(
    a: PaymentAttempt,
    intent_status: IntentStatus,
    authentication: Option<AuthenticationRecord>,
    poll_config: Option<PollConfig>,
    sessions_token: Seq<SessionToken>,
    base: Seq<char>,
)
    requires
        a.connector matches Some(c) && c@ == "trustpay"@,
        a.payment_method == Some(PaymentMethod::Wallet),
        spec_resolved_chain(a, intent_status, authentication, poll_config, base) is Ok,
    ensures
        spec_resolve_next_action(
            a,
            intent_status,
            authentication,
            poll_config,
            sessions_token,
            Operation::PaymentConfirm,
            base,
        ) == Ok::<_, ApiError>(
            Some(ObsNextAction::ThirdPartySdkSessionToken {
                session_token: if sessions_token.len() > 0 {
                    Some(sessions_token[0])
                } else {
                    None
                },
            }),
        ),
{
}

/// A QR-code shape with both URLs survives resolution without loss:
/// both URLs populated and the timestamp unchanged.
pub proof fn lemma_qr_code_url_round_trip(
    a: PaymentAttempt,
    intent_status: IntentStatus,
    authentication: Option<AuthenticationRecord>,
    poll_config: Option<PollConfig>,
    sessions_token: Seq<SessionToken>,
    operation: Operation,
    base: Seq<char>,
    image_data_url: String,
    qr_code_url: String,
    display_to_timestamp: Option<i64>,
)
    requires
        spec_qr_code_next_steps(a) == Some(QrCodeInformation::QrCodeUrl {
            image_data_url,
            qr_code_url,
            display_to_timestamp,
        }),
        spec_bank_transfer_next_steps(a) is None,
        spec_voucher_next_steps(a) is None,
        !spec_third_party_sdk_session(a, operation),
    ensures
        spec_resolve_next_action(
            a,
            intent_status,
            authentication,
            poll_config,
            sessions_token,
            operation,
            base,
        ) == Ok::<_, ApiError>(
            Some(ObsNextAction::QrCodeInformation {
                image_data_url: Some(image_data_url),
                qr_code_url: Some(qr_code_url),
                display_to_timestamp,
            }),
        ),
{
}

} // verus!
