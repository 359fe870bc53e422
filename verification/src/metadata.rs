//! Connector metadata is an opaque, schema-per-connector document. The
//! core never inspects the raw document; it works on the outcome of
//! attempting to read each named shape out of it. A shape that is absent
//! or malformed is simply `None` — "feature absent", never an error.
//! One document may satisfy several shapes at once; the next-action
//! resolver's precedence order decides between them.
//!
//! Blobs whose malformedness *is* an error (browser info, order details,
//! charges, redirection data) are carried as [`Parsed`], which remembers
//! whether the typed decode succeeded.

use vstd::prelude::*;

verus! {

/// The outcome of decoding an opaque blob into a typed value: either the
/// value, or the fact that the blob was present but malformed.
#[derive(Clone, Debug, PartialEq)]
pub enum Parsed<T> {
    Valid(T),
    Malformed,
}

/// What a decode outcome means for the caller: the value when it was
/// valid, nothing when the blob was absent, the given error when the
/// blob was present but malformed.
pub open spec fn spec_decode_parsed<T>(b: Option<Parsed<T>>, err: crate::errors::ApiError) -> Result<
    Option<T>,
    crate::errors::ApiError,
> {
    match b {
        None => Ok(None),
        Some(Parsed::Valid(x)) => Ok(Some(x)),
        Some(Parsed::Malformed) => Err(err),
    }
}

/// Unwraps a decode outcome, surfacing the given error for a malformed
/// blob and `None` for an absent one.
pub fn decode_parsed<T>(b: Option<Parsed<T>>, err: crate::errors::ApiError) -> (r: Result<
    Option<T>,
    crate::errors::ApiError,
>)
    ensures
        r == spec_decode_parsed(b, err),
{
    match b {
        None => Ok(None),
        Some(Parsed::Valid(x)) => Ok(Some(x)),
        Some(Parsed::Malformed) => Err(err),
    }
}

/// QR-code display data, in the three flavours connectors emit: both
/// URLs, image only, or URL only.
#[derive(Clone, Debug, PartialEq)]
pub enum QrCodeInformation {
    QrCodeUrl { image_data_url: String, qr_code_url: String, display_to_timestamp: Option<i64> },
    QrDataUrl { image_data_url: String, display_to_timestamp: Option<i64> },
    QrCodeImageUrl { qr_code_url: String, display_to_timestamp: Option<i64> },
}

/// What an SDK client should do next.
#[derive(Clone, Copy, Debug, PartialEq, Eq, Structural)]
pub enum NextActionCall {
    Confirm,
    Sync,
    PostSessionTokens,
}

/// Client-side SDK invocation data (the PayPal SDK path).
#[derive(Clone, Copy, Debug, PartialEq, Eq, Structural)]
pub struct SdkNextActionData {
    pub next_action: NextActionCall,
}

#[derive(Clone, Debug, PartialEq)]
pub struct FetchQrCodeInformation {
    pub qr_code_fetch_url: String,
}

#[derive(Clone, Copy, Debug, PartialEq, Eq, Structural)]
pub struct WaitScreenInstructions {
    pub display_from_timestamp: i64,
    pub display_to_timestamp: Option<i64>,
}

/// Bank-transfer instructions a customer must follow.
#[derive(Clone, Debug, PartialEq)]
pub struct BankTransferNextStepsData {
    pub bank_transfer_instructions: String,
    pub receiver: Option<String>,
}

/// Voucher details a customer must present.
#[derive(Clone, Debug, PartialEq)]
pub struct VoucherNextStepData {
    pub expires_at: Option<i64>,
    pub reference: String,
    pub download_url: Option<String>,
    pub instructions_url: Option<String>,
}

impl QrCodeInformation {
    /// Copies the shape, preserving its value.
    pub fn duplicate(&self) -> (r: Self)
        ensures
            r == *self,
    {
        match self {
            QrCodeInformation::QrCodeUrl { image_data_url, qr_code_url, display_to_timestamp } => {
                QrCodeInformation::QrCodeUrl {
                    image_data_url: image_data_url.clone(),
                    qr_code_url: qr_code_url.clone(),
                    display_to_timestamp: *display_to_timestamp,
                }
            },
            QrCodeInformation::QrDataUrl { image_data_url, display_to_timestamp } => {
                QrCodeInformation::QrDataUrl {
                    image_data_url: image_data_url.clone(),
                    display_to_timestamp: *display_to_timestamp,
                }
            },
            QrCodeInformation::QrCodeImageUrl { qr_code_url, display_to_timestamp } => {
                QrCodeInformation::QrCodeImageUrl {
                    qr_code_url: qr_code_url.clone(),
                    display_to_timestamp: *display_to_timestamp,
                }
            },
        }
    }
}

impl FetchQrCodeInformation {
    /// Copies the shape, preserving its value.
    pub fn duplicate(&self) -> (r: Self)
        ensures
            r == *self,
    {
        FetchQrCodeInformation { qr_code_fetch_url: self.qr_code_fetch_url.clone() }
    }
}

impl BankTransferNextStepsData {
    /// Copies the shape, preserving its value.
    pub fn duplicate(&self) -> (r: Self)
        ensures
            r == *self,
    {
        BankTransferNextStepsData {
            bank_transfer_instructions: self.bank_transfer_instructions.clone(),
            receiver: crate::text::dup_opt_string(&self.receiver),
        }
    }
}

impl VoucherNextStepData {
    /// Copies the shape, preserving its value.
    pub fn duplicate(&self) -> (r: Self)
        ensures
            r == *self,
    {
        VoucherNextStepData {
            expires_at: self.expires_at,
            reference: self.reference.clone(),
            download_url: crate::text::dup_opt_string(&self.download_url),
            instructions_url: crate::text::dup_opt_string(&self.instructions_url),
        }
    }
}

/// The outcome of reading each named shape out of one attempt-level
/// connector-metadata document.
#[derive(Clone, Debug, PartialEq)]
pub struct ConnectorMetadataShapes {
    pub qr_code: Option<QrCodeInformation>,
    pub sdk_next_action: Option<SdkNextActionData>,
    pub fetch_qr_code: Option<FetchQrCodeInformation>,
    pub wait_screen: Option<WaitScreenInstructions>,
    pub bank_transfer_steps: Option<BankTransferNextStepsData>,
    pub voucher_steps: Option<VoucherNextStepData>,
    /// Some connectors bury the transaction id in the metadata instead of
    /// the normal field; the override capability reads it from here.
    pub transaction_id: Option<String>,
}

/// Intent-level connector metadata: the only part the builders read is
/// the order category.
#[derive(Clone, Debug, PartialEq)]
pub struct IntentConnectorMetadata {
    pub noon_order_category: Option<String>,
}

/// Typed browser information decoded from the attempt's opaque blob.
#[derive(Clone, Debug, PartialEq)]
pub struct BrowserInformation {
    pub user_agent: Option<String>,
    pub accept_header: Option<String>,
    pub language: Option<String>,
    pub color_depth: Option<u8>,
    pub screen_height: Option<u32>,
    pub screen_width: Option<u32>,
    pub time_zone: Option<i32>,
    pub java_enabled: Option<bool>,
    pub java_script_enabled: Option<bool>,
    pub ip_address: Option<String>,
}

/// The additional payment-method data stored on an attempt, surfaced in
/// responses.
#[derive(Clone, Debug, PartialEq)]
pub struct AdditionalPaymentData {
    pub last4: Option<String>,
    pub card_network: Option<String>,
}

/// A redirection form decoded from the attempt's authentication data.
#[derive(Clone, Debug, PartialEq)]
pub struct RedirectForm {
    pub endpoint: String,
    pub method: String,
    pub form_fields: Vec<(String, String)>,
}

/// Charge configuration decoded from the intent's charges blob.
#[derive(Clone, Debug, PartialEq)]
pub struct PaymentCharges {
    pub charge_type: String,
    pub fees: i64,
    pub transfer_account_id: String,
}

/// Customer details decoded from the intent's encrypted customer blob.
#[derive(Clone, Debug, PartialEq)]
pub struct CustomerData {
    pub name: Option<String>,
    pub email: Option<String>,
    pub phone: Option<String>,
    pub phone_country_code: Option<String>,
}

/// One order line decoded from the intent's order-details array, amount
/// included.
#[derive(Clone, Debug, PartialEq)]
pub struct OrderDetailsWithAmount {
    pub product_name: String,
    pub quantity: u16,
    pub amount: i64,
    pub product_img_link: Option<String>,
    pub requires_shipping: Option<bool>,
    pub product_id: Option<String>,
    pub category: Option<String>,
    pub sub_category: Option<String>,
    pub brand: Option<String>,
    pub product_type: Option<String>,
}

impl OrderDetailsWithAmount {
    /// Copies the order line, preserving its value.
    pub fn duplicate(&self) -> (r: Self)
        ensures
            r == *self,
    {
        OrderDetailsWithAmount {
            product_name: self.product_name.clone(),
            quantity: self.quantity,
            amount: self.amount,
            product_img_link: crate::text::dup_opt_string(&self.product_img_link),
            requires_shipping: self.requires_shipping,
            product_id: crate::text::dup_opt_string(&self.product_id),
            category: crate::text::dup_opt_string(&self.category),
            sub_category: crate::text::dup_opt_string(&self.sub_category),
            brand: crate::text::dup_opt_string(&self.brand),
            product_type: crate::text::dup_opt_string(&self.product_type),
        }
    }
}

/// One order line without an amount, as merchants submit it.
#[derive(Clone, Debug, PartialEq)]
pub struct OrderDetails {
    pub product_name: String,
    pub quantity: u16,
    pub product_img_link: Option<String>,
    pub requires_shipping: Option<bool>,
    pub product_id: Option<String>,
    pub category: Option<String>,
    pub sub_category: Option<String>,
    pub brand: Option<String>,
    pub product_type: Option<String>,
}

} // verus!
