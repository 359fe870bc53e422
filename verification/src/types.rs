//! The canonical payment aggregate: one intent, one active attempt, and
//! the optional side-collections the synthesizers project from. All
//! monetary amounts are integer minor units.

use vstd::prelude::*;

use crate::enums::{
    AcceptanceType, AttemptStatus, AuthenticationType, CaptureMethod, CaptureStatus, ConfirmSource,
    Country, Currency, FutureUsage, IntentStatus, PaymentExperience, PaymentMethod,
    PaymentMethodType, RequestIncrementalAuthorization,
};
use crate::metadata::{
    AdditionalPaymentData, BrowserInformation, ConnectorMetadataShapes, CustomerData,
    IntentConnectorMetadata, OrderDetailsWithAmount, Parsed, PaymentCharges, RedirectForm,
};

verus! {

/// Merchant-level payment object, created once per checkout.
#[derive(Clone, Debug, PartialEq)]
pub struct PaymentIntent {
    pub payment_id: String,
    pub merchant_id: String,
    pub status: IntentStatus,
    pub amount: i64,
    pub amount_captured: Option<i64>,
    pub currency: Option<Currency>,
    pub description: Option<String>,
    pub return_url: Option<String>,
    pub metadata: Option<String>,
    pub connector_metadata: Option<Parsed<IntentConnectorMetadata>>,
    pub feature_metadata: Option<String>,
    pub frm_metadata: Option<String>,
    pub customer_details: Option<Parsed<CustomerData>>,
    pub billing_details: Option<Parsed<Address>>,
    pub shipping_details: Option<Parsed<Address>>,
    pub client_secret: Option<String>,
    pub created_at: i64,
    pub modified_at: i64,
    pub session_expiry: Option<i64>,
    pub setup_future_usage: Option<FutureUsage>,
    pub statement_descriptor_name: Option<String>,
    pub statement_descriptor_suffix: Option<String>,
    pub business_country: Option<Country>,
    pub business_label: Option<String>,
    pub allowed_payment_method_types: Option<String>,
    pub attempt_count: u32,
    pub profile_id: Option<String>,
    pub merchant_decision: Option<String>,
    pub payment_confirm_source: Option<ConfirmSource>,
    pub incremental_authorization_allowed: Option<bool>,
    pub authorization_count: Option<u32>,
    pub request_incremental_authorization: Option<RequestIncrementalAuthorization>,
    pub charges: Option<Parsed<PaymentCharges>>,
    pub merchant_order_reference_id: Option<String>,
    pub fingerprint_id: Option<String>,
    pub customer_id: Option<String>,
    pub order_details: Option<Vec<Parsed<OrderDetailsWithAmount>>>,
}

/// One connector-facing try within an intent.
#[derive(Clone, Debug, PartialEq)]
pub struct PaymentAttempt {
    pub payment_id: String,
    pub merchant_id: String,
    pub attempt_id: String,
    pub status: AttemptStatus,
    pub amount: i64,
    pub net_amount: i64,
    pub amount_capturable: i64,
    pub amount_to_capture: Option<i64>,
    pub currency: Option<Currency>,
    pub connector: Option<String>,
    pub connector_transaction_id: Option<String>,
    pub payment_method: Option<PaymentMethod>,
    pub payment_method_type: Option<PaymentMethodType>,
    pub payment_method_id: Option<String>,
    pub authentication_type: Option<AuthenticationType>,
    pub capture_method: Option<CaptureMethod>,
    pub confirm: bool,
    pub browser_info: Option<Parsed<BrowserInformation>>,
    pub payment_method_data: Option<Parsed<AdditionalPaymentData>>,
    pub connector_metadata: Option<ConnectorMetadataShapes>,
    pub authentication_data: Option<Parsed<RedirectForm>>,
    pub error_code: Option<String>,
    pub error_message: Option<String>,
    pub error_reason: Option<String>,
    pub unified_code: Option<String>,
    pub unified_message: Option<String>,
    pub cancellation_reason: Option<String>,
    pub mandate_id: Option<String>,
    pub payment_token: Option<String>,
    pub payment_experience: Option<PaymentExperience>,
    pub business_sub_label: Option<String>,
    pub merchant_connector_id: Option<String>,
    pub connector_response_reference_id: Option<String>,
    pub preprocessing_step_id: Option<String>,
    pub encoded_data: Option<String>,
    pub external_three_ds_authentication_attempted: Option<bool>,
    pub charge_id: Option<String>,
    pub surcharge_amount: Option<i64>,
    pub tax_amount: Option<i64>,
}

#[derive(Clone, Debug, PartialEq)]
pub struct AddressDetails {
    pub city: Option<String>,
    pub country: Option<Country>,
    pub line1: Option<String>,
    pub zip: Option<String>,
}

#[derive(Clone, Debug, PartialEq)]
pub struct Address {
    pub address: Option<AddressDetails>,
    pub email: Option<String>,
}

impl AddressDetails {
    /// Copies the details, preserving their value.
    pub fn duplicate(&self) -> (r: Self)
        ensures
            r == *self,
    {
        AddressDetails {
            city: crate::text::dup_opt_string(&self.city),
            country: self.country,
            line1: crate::text::dup_opt_string(&self.line1),
            zip: crate::text::dup_opt_string(&self.zip),
        }
    }
}

impl Address {
    /// Copies the address, preserving its value.
    pub fn duplicate(&self) -> (r: Self)
        ensures
            r == *self,
    {
        Address {
            address: match &self.address {
                Some(details) => Some(details.duplicate()),
                None => None,
            },
            email: crate::text::dup_opt_string(&self.email),
        }
    }
}

/// Copies an optional address, preserving its value.
pub fn dup_opt_address(a: &Option<Address>) -> (r: Option<Address>)
    ensures
        r == *a,
{
    match a {
        Some(address) => Some(address.duplicate()),
        None => None,
    }
}

/// The address set carried by one payment: shipping, intent-level
/// billing, and the billing stored with the payment method.
#[derive(Clone, Debug, PartialEq)]
pub struct PaymentAddress {
    pub shipping: Option<Address>,
    pub billing: Option<Address>,
    pub payment_method_billing: Option<Address>,
    pub request_payment_method_billing: Option<Address>,
}

impl PaymentAddress {
    pub fn get_shipping(&self) -> (r: &Option<Address>)
        ensures
            r == &self.shipping,
    {
        &self.shipping
    }

    pub fn get_payment_billing(&self) -> (r: &Option<Address>)
        ensures
            r == &self.billing,
    {
        &self.billing
    }

    pub fn get_payment_method_billing(&self) -> (r: &Option<Address>)
        ensures
            r == &self.payment_method_billing,
    {
        &self.payment_method_billing
    }

    pub fn get_request_payment_method_billing(&self) -> (r: &Option<Address>)
        ensures
            r == &self.request_payment_method_billing,
    {
        &self.request_payment_method_billing
    }

    /// Copies the address set, preserving its value.
    pub fn duplicate(&self) -> (r: Self)
        ensures
            r == *self,
    {
        PaymentAddress {
            shipping: dup_opt_address(&self.shipping),
            billing: dup_opt_address(&self.billing),
            payment_method_billing: dup_opt_address(&self.payment_method_billing),
            request_payment_method_billing: dup_opt_address(&self.request_payment_method_billing),
        }
    }

    /// Merges a payment-method-stored billing address into the set; the
    /// stored address takes precedence over what the aggregate carried.
    pub fn unify_with_payment_data_billing(self, other: Option<Address>) -> (r: PaymentAddress)
        ensures
            r.shipping == self.shipping,
            r.billing == self.billing,
            r.request_payment_method_billing == self.request_payment_method_billing,
            other is Some ==> r.payment_method_billing == other,
            other is None ==> r.payment_method_billing == self.payment_method_billing,
    {
        match other {
            Some(b) => PaymentAddress { payment_method_billing: Some(b), ..self },
            None => self,
        }
    }
}

/// A customer-table record.
#[derive(Clone, Debug, PartialEq)]
pub struct Customer {
    pub customer_id: String,
    pub name: Option<String>,
    pub email: Option<String>,
    pub phone: Option<String>,
    pub phone_country_code: Option<String>,
}

/// Surcharge computed for this payment; when present, `final_amount`
/// overrides the base amount everywhere an amount is derived.
#[derive(Clone, Copy, Debug, PartialEq, Eq, Structural)]
pub struct SurchargeDetails {
    pub surcharge_amount: i64,
    pub tax_on_surcharge_amount: i64,
    pub final_amount: i64,
}

#[derive(Clone, Debug, PartialEq)]
pub struct MandateIds {
    pub mandate_id: Option<String>,
}

#[derive(Clone, Debug, PartialEq)]
pub struct OnlineMandate {
    pub ip_address: Option<String>,
    pub user_agent: String,
}

#[derive(Clone, Debug, PartialEq)]
pub struct CustomerAcceptance {
    pub acceptance_type: AcceptanceType,
    pub accepted_at: Option<i64>,
    pub online: Option<OnlineMandate>,
}

#[derive(Clone, Debug, PartialEq)]
pub struct MandateAmountData {
    pub amount: i64,
    pub currency: Currency,
    pub start_date: Option<i64>,
    pub end_date: Option<i64>,
    pub metadata: Option<String>,
}

/// Single-use or multi-use, with the amount window carried unchanged.
#[derive(Clone, Debug, PartialEq)]
pub enum MandateDataType {
    SingleUse(MandateAmountData),
    MultiUse(Option<MandateAmountData>),
}

#[derive(Clone, Debug, PartialEq)]
pub struct MandateData {
    pub update_mandate_id: Option<String>,
    pub customer_acceptance: Option<CustomerAcceptance>,
    pub mandate_type: Option<MandateDataType>,
}

#[derive(Clone, Debug, PartialEq)]
pub struct Refund {
    pub refund_id: String,
    pub payment_id: String,
    pub refund_amount: i64,
    pub refund_status: String,
    pub error_message: Option<String>,
}

#[derive(Clone, Debug, PartialEq)]
pub struct Dispute {
    pub dispute_id: String,
    pub dispute_stage: String,
    pub dispute_status: String,
    pub connector_dispute_id: String,
    pub amount: String,
}

/// One already-applied incremental authorization, as projected into the
/// response.
#[derive(Clone, Debug, PartialEq)]
pub struct IncrementalAuthorization {
    pub authorization_id: String,
    pub amount: i64,
    pub status: String,
    pub error_code: Option<String>,
    pub error_message: Option<String>,
    pub previously_authorized_amount: i64,
}

#[derive(Clone, Debug, PartialEq)]
pub struct Capture {
    pub capture_id: String,
    pub status: CaptureStatus,
    pub amount: i64,
    pub connector_capture_id: Option<String>,
}

impl Capture {
    /// Copies the capture, preserving its value.
    pub fn duplicate(&self) -> (r: Self)
        ensures
            r == *self,
    {
        Capture {
            capture_id: self.capture_id.clone(),
            status: self.status,
            amount: self.amount,
            connector_capture_id: crate::text::dup_opt_string(&self.connector_capture_id),
        }
    }
}

/// Copies a capture list, preserving each capture's value and the
/// order.
pub fn dup_captures(v: &Vec<Capture>) -> (r: Vec<Capture>)
    ensures
        r@ == v@,
{
    let mut out: Vec<Capture> = Vec::new();
    let mut i: usize = 0;
    while i < v.len()
        invariant
            i <= v@.len(),
            out@ =~= v@.take(i as int),
        decreases v@.len() - i,
    {
        out.push(v[i].duplicate());
        proof {
            assert(out@ =~= v@.take(i as int + 1));
        }
        i = i + 1;
    }
    proof {
        assert(v@.take(v@.len() as int) =~= v@);
    }
    out
}

/// The ids of the pending captures that already have a connector-side
/// id, in the order they appear.
pub open spec fn pending_capture_ids(s: Seq<Capture>) -> Seq<String>
    decreases s.len(),
{
    if s.len() == 0 {
        Seq::empty()
    } else {
        let rest = pending_capture_ids(s.drop_last());
        if s.last().status is Pending && s.last().connector_capture_id is Some {
            rest.push(s.last().connector_capture_id->0)
        } else {
            rest
        }
    }
}

/// The capture set of a multi-capture payment; holds at least one
/// capture once any capture has been initiated.
#[derive(Clone, Debug, PartialEq)]
pub struct MultipleCaptureData {
    pub captures: Vec<Capture>,
    pub expand_captures: Option<bool>,
}

impl MultipleCaptureData {
    /// A capture set is well-formed once it holds its first capture.
    pub open spec fn wf(self) -> bool {
        self.captures@.len() > 0
    }

    pub fn get_all_captures(&self) -> (r: &Vec<Capture>)
        ensures
            r == &self.captures,
    {
        &self.captures
    }

    pub fn get_captures_count(&self) -> (r: usize)
        ensures
            r == self.captures@.len(),
    {
        self.captures.len()
    }

    /// The most recently appended capture.
    pub fn get_latest_capture(&self) -> (r: &Capture)
        requires
            self.wf(),
        ensures
            r == &self.captures@.last(),
    {
        &self.captures[self.captures.len() - 1]
    }

    /// The connector ids of all pending captures, for a multi-capture
    /// sync request.
    pub fn get_pending_connector_capture_ids(&self) -> (r: Vec<String>)
        ensures
            r@ == pending_capture_ids(self.captures@),
    {
        let mut out: Vec<String> = Vec::new();
        let mut i: usize = 0;
        while i < self.captures.len()
            invariant
                i <= self.captures@.len(),
                out@ == pending_capture_ids(self.captures@.take(i as int)),
            decreases self.captures@.len() - i,
        {
            proof {
                assert(self.captures@.take(i as int + 1).drop_last() =~= self.captures@.take(
                    i as int,
                ));
                assert(self.captures@.take(i as int + 1).last() == self.captures@[i as int]);
            }
            let c = &self.captures[i];
            if matches!(c.status, CaptureStatus::Pending) {
                match &c.connector_capture_id {
                    Some(id) => {
                        out.push(id.clone());
                    },
                    None => {},
                }
            }
            i = i + 1;
        }
        proof {
            assert(self.captures@.take(self.captures@.len() as int) =~= self.captures@);
        }
        out
    }
}

/// The record of an external (separate) authentication run.
#[derive(Clone, Debug, PartialEq)]
pub struct AuthenticationRecord {
    pub cavv: Option<String>,
    pub threeds_server_transaction_id: Option<String>,
    pub three_ds_method_url: Option<String>,
    pub three_ds_method_data: Option<String>,
    pub message_version: Option<String>,
    pub directory_server_id: Option<String>,
    pub separate_authn_required: bool,
    pub status: Option<String>,
    pub ds_transaction_id: Option<String>,
    pub error_code: Option<String>,
    pub error_message: Option<String>,
}

impl AuthenticationRecord {
    /// Whether this record demands a separate authentication call before
    /// authorization.
    pub fn is_separate_authn_required(&self) -> (r: bool)
        ensures
            r == self.separate_authn_required,
    {
        self.separate_authn_required
    }
}

/// How often and how long a client should poll for an authentication
/// outcome.
#[derive(Clone, Copy, Debug, PartialEq, Eq, Structural)]
pub struct PollConfig {
    pub delay_in_secs: u16,
    pub frequency: u16,
}

impl Default for PollConfig {
    /// The stock polling cadence used when no per-connector
    /// configuration exists.
    fn default() -> (r: Self)
        ensures
            r == (PollConfig { delay_in_secs: 2u16, frequency: 5u16 }),
    {
        PollConfig { delay_in_secs: 2, frequency: 5 }
    }
}

/// The fraud-check outcome attached to a payment.
#[derive(Clone, Debug, PartialEq)]
pub struct FraudCheck {
    pub frm_name: String,
    pub frm_transaction_id: Option<String>,
    pub frm_transaction_type: String,
    pub frm_status: String,
    pub frm_score: Option<i32>,
    pub frm_reason: Option<String>,
    pub frm_error: Option<String>,
}

#[derive(Clone, Debug, PartialEq)]
pub struct EphemeralKey {
    pub customer_id: String,
    pub created_at: i64,
    pub expires: i64,
    pub secret: String,
}

#[derive(Clone, Debug, PartialEq)]
pub struct SessionToken {
    pub connector: String,
    pub session_token: String,
}

impl SessionToken {
    /// Copies the token, preserving its value.
    pub fn duplicate(&self) -> (r: Self)
        ensures
            r == *self,
    {
        SessionToken {
            connector: self.connector.clone(),
            session_token: self.session_token.clone(),
        }
    }
}

#[derive(Clone, Copy, Debug, PartialEq, Eq, Structural)]
pub struct RecurringMandatePaymentData {
    pub payment_method_type: Option<PaymentMethodType>,
    pub original_payment_authorized_amount: Option<i64>,
    pub original_payment_authorized_currency: Option<Currency>,
}

#[derive(Clone, Copy, Debug, PartialEq, Eq, Structural)]
pub enum PaymentMethodStatus {
    Active,
    Inactive,
    Processing,
    AwaitingData,
}

/// The stored payment-method record attached to this payment. Its
/// billing address is encrypted at rest; the decrypted value is handed
/// to the router record constructor separately.
#[derive(Clone, Debug, PartialEq)]
pub struct PaymentMethodInfo {
    pub status: PaymentMethodStatus,
}

/// The payment-method data supplied for this attempt. The core only
/// decides on its kind; connector-specific payloads stay opaque to it.
#[derive(Clone, Copy, Debug, PartialEq, Eq, Structural)]
pub enum PaymentMethodData {
    Card,
    Wallet,
    BankTransfer,
    BankDebit,
    BankRedirect,
    OpenBanking,
    Voucher,
    MandatePayment,
}

#[derive(Clone, Debug, PartialEq)]
pub struct RedirectResponse {
    pub param: Option<String>,
    pub json_payload: Option<String>,
}

#[derive(Clone, Debug, PartialEq)]
pub struct IncrementalAuthorizationDetails {
    pub total_amount: i64,
    pub additional_amount: i64,
    pub reason: Option<String>,
}

#[derive(Clone, Debug, PartialEq)]
pub struct PaymentLinkResponse {
    pub link: String,
    pub payment_link_id: String,
}

/// The canonical payment aggregate: everything response synthesis and
/// request building read.
#[derive(Clone, Debug, PartialEq)]
pub struct PaymentData {
    pub payment_intent: PaymentIntent,
    pub payment_attempt: PaymentAttempt,
    pub currency: Currency,
    pub amount: i64,
    pub email: Option<String>,
    pub creds_identifier: Option<String>,
    pub pm_token: Option<String>,
    pub connector_customer_id: Option<String>,
    pub payment_method_data: Option<PaymentMethodData>,
    pub payment_method_info: Option<PaymentMethodInfo>,
    pub refunds: Vec<Refund>,
    pub disputes: Vec<Dispute>,
    pub authorizations: Vec<IncrementalAuthorization>,
    pub attempts: Option<Vec<PaymentAttempt>>,
    pub multiple_capture_data: Option<MultipleCaptureData>,
    pub mandate_id: Option<MandateIds>,
    pub setup_mandate: Option<MandateData>,
    pub customer_acceptance: Option<CustomerAcceptance>,
    pub surcharge_details: Option<SurchargeDetails>,
    pub authentication: Option<AuthenticationRecord>,
    pub poll_config: Option<PollConfig>,
    pub frm_message: Option<FraudCheck>,
    pub address: PaymentAddress,
    pub sessions_token: Vec<SessionToken>,
    pub ephemeral_key: Option<EphemeralKey>,
    pub redirect_response: Option<RedirectResponse>,
    pub incremental_authorization_details: Option<IncrementalAuthorizationDetails>,
    pub payment_link_data: Option<PaymentLinkResponse>,
    pub recurring_mandate_payment_data: Option<RecurringMandatePaymentData>,
    pub token: Option<String>,
    pub frm_metadata: Option<String>,
}

impl PaymentData {
    /// Validity of the aggregate: the active attempt belongs to the
    /// intent (same payment and merchant, so ids derived from either
    /// agree), and a multi-capture set, once present, holds at least
    /// one capture.
    pub open spec fn wf(self) -> bool {
        &&& self.payment_attempt.payment_id == self.payment_intent.payment_id
        &&& self.payment_attempt.merchant_id == self.payment_intent.merchant_id
        &&& (self.multiple_capture_data matches Some(m) ==> m.wf())
    }

    /// The effective amount: the surcharge's final amount when a
    /// surcharge is present, the base amount otherwise.
    pub open spec fn spec_effective_amount(self) -> i64 {
        match self.surcharge_details {
            Some(s) => s.final_amount,
            None => self.amount,
        }
    }

    /// Derives the effective amount for downstream computation.
    pub fn effective_amount(&self) -> (r: i64)
        ensures
            r == self.spec_effective_amount(),
    {
        match &self.surcharge_details {
            Some(s) => s.final_amount,
            None => self.amount,
        }
    }
}

} // verus!
