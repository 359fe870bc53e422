//! The closed enumerations the core decides over: payment methods and
//! method types, lifecycle statuses, capture state, currencies and the
//! connectors with special-cased behaviour.

use vstd::prelude::*;

verus! {

#[derive(Clone, Copy, Debug, PartialEq, Eq, Structural)]
pub enum PaymentMethod {
    Card,
    CardRedirect,
    PayLater,
    Wallet,
    BankRedirect,
    BankTransfer,
    Crypto,
    BankDebit,
    Reward,
    Upi,
    Voucher,
    GiftCard,
    OpenBanking,
}

#[derive(Clone, Copy, Debug, PartialEq, Eq, Structural)]
pub enum PaymentMethodType {
    Ach,
    ApplePay,
    Boleto,
    Credit,
    Debit,
    GooglePay,
    Klarna,
    OpenBankingPIS,
    Oxxo,
    Pix,
    Sepa,
    UpiCollect,
}

/// Merchant-level lifecycle state of a payment intent.
#[derive(Clone, Copy, Debug, PartialEq, Eq, Structural)]
pub enum IntentStatus {
    RequiresPaymentMethod,
    RequiresConfirmation,
    RequiresCustomerAction,
    RequiresMerchantAction,
    RequiresCapture,
    Processing,
    Succeeded,
    PartiallyCaptured,
    Failed,
    Cancelled,
}

/// Connector-facing state of one payment attempt.
#[derive(Clone, Copy, Debug, PartialEq, Eq, Structural)]
pub enum AttemptStatus {
    Started,
    AuthenticationPending,
    Authorized,
    Authorizing,
    Charged,
    PartialCharged,
    CaptureInitiated,
    Pending,
    Failure,
    Voided,
    Unresolved,
}

/// Local state of one capture within a multi-capture payment.
#[derive(Clone, Copy, Debug, PartialEq, Eq, Structural)]
pub enum CaptureStatus {
    Started,
    Pending,
    Charged,
    Failed,
}

#[derive(Clone, Copy, Debug, PartialEq, Eq, Structural)]
pub enum AuthenticationType {
    ThreeDs,
    NoThreeDs,
}

#[derive(Clone, Copy, Debug, PartialEq, Eq, Structural)]
pub enum CaptureMethod {
    Automatic,
    Manual,
    ManualMultiple,
    Scheduled,
}

#[derive(Clone, Copy, Debug, PartialEq, Eq, Structural)]
pub enum FutureUsage {
    OnSession,
    OffSession,
}

#[derive(Clone, Copy, Debug, PartialEq, Eq, Structural)]
pub enum RequestIncrementalAuthorization {
    True,
    False,
    Default,
}

#[derive(Clone, Copy, Debug, PartialEq, Eq, Structural)]
pub enum PaymentExperience {
    RedirectToUrl,
    InvokeSdkClient,
    DisplayQrCode,
    OneClick,
    DisplayWaitScreen,
}

/// How a mandate acceptance was collected.
#[derive(Clone, Copy, Debug, PartialEq, Eq, Structural)]
pub enum AcceptanceType {
    Online,
    Offline,
}

/// Where a payment confirmation originated, surfaced as a response header.
#[derive(Clone, Copy, Debug, PartialEq, Eq, Structural)]
pub enum ConfirmSource {
    Sdk,
    Dashboard,
}

/// The operation on whose behalf a response is synthesized.
#[derive(Clone, Copy, Debug, PartialEq, Eq, Structural)]
pub enum Operation {
    PaymentCreate,
    PaymentConfirm,
    PaymentStart,
    PaymentStatus,
    PaymentUpdate,
    PaymentCapture,
    PaymentCancel,
    PaymentSession,
}

/// Whether the caller is the merchant or a client-side integration;
/// merchant-only fields are withheld from clients.
#[derive(Clone, Copy, Debug, PartialEq, Eq, Structural)]
pub enum AuthFlow {
    Client,
    Merchant,
}

#[derive(Clone, Copy, Debug, PartialEq, Eq, Structural)]
pub enum Country {
    Us,
    Gb,
    De,
    Fr,
    In,
    Nl,
    Br,
    Jp,
}

/// Currencies are carried as integer minor units; the exponent says how
/// many minor-unit digits make one base unit.
#[derive(Clone, Copy, Debug, PartialEq, Eq, Structural)]
pub enum Currency {
    Aed,
    Brl,
    Clp,
    Eur,
    Gbp,
    Inr,
    Jpy,
    Kwd,
    Sgd,
    Usd,
}

/// The downstream processors the core can address. Only the listed ones
/// carry special-cased behaviour (third-party SDK sessions, transaction-id
/// override); the rest behave uniformly.
#[derive(Clone, Copy, Debug, PartialEq, Eq, Structural)]
pub enum Connector {
    Adyen,
    Helcim,
    Nexinets,
    Payme,
    Plaid,
    Stripe,
    Trustpay,
}

impl Country {
    pub open spec fn code_chars(self) -> Seq<char> {
        match self {
            Country::Us => "US"@,
            Country::Gb => "GB"@,
            Country::De => "DE"@,
            Country::Fr => "FR"@,
            Country::In => "IN"@,
            Country::Nl => "NL"@,
            Country::Br => "BR"@,
            Country::Jp => "JP"@,
        }
    }

    /// The ISO 3166 alpha-2 code.
    pub fn code(&self) -> (r: &'static str)
        ensures
            r@ == self.code_chars(),
    {
        match self {
            Country::Us => "US",
            Country::Gb => "GB",
            Country::De => "DE",
            Country::Fr => "FR",
            Country::In => "IN",
            Country::Nl => "NL",
            Country::Br => "BR",
            Country::Jp => "JP",
        }
    }
}

impl Currency {
    /// How many minor-unit digits one base unit spans.
    pub open spec fn spec_exponent(self) -> nat {
        match self {
            Currency::Jpy => 0,
            Currency::Clp => 0,
            Currency::Kwd => 3,
            _ => 2,
        }
    }

    pub fn exponent(&self) -> (r: u32)
        ensures
            r == self.spec_exponent(),
    {
        match self {
            Currency::Jpy => 0,
            Currency::Clp => 0,
            Currency::Kwd => 3,
            _ => 2,
        }
    }

    pub open spec fn code_chars(self) -> Seq<char> {
        match self {
            Currency::Aed => "AED"@,
            Currency::Brl => "BRL"@,
            Currency::Clp => "CLP"@,
            Currency::Eur => "EUR"@,
            Currency::Gbp => "GBP"@,
            Currency::Inr => "INR"@,
            Currency::Jpy => "JPY"@,
            Currency::Kwd => "KWD"@,
            Currency::Sgd => "SGD"@,
            Currency::Usd => "USD"@,
        }
    }

    /// The ISO 4217 code, used wherever the response renders a currency.
    pub fn code(&self) -> (r: &'static str)
        ensures
            r@ == self.code_chars(),
    {
        match self {
            Currency::Aed => "AED",
            Currency::Brl => "BRL",
            Currency::Clp => "CLP",
            Currency::Eur => "EUR",
            Currency::Gbp => "GBP",
            Currency::Inr => "INR",
            Currency::Jpy => "JPY",
            Currency::Kwd => "KWD",
            Currency::Sgd => "SGD",
            Currency::Usd => "USD",
        }
    }
}

impl ConfirmSource {
    pub open spec fn text_chars(self) -> Seq<char> {
        match self {
            ConfirmSource::Sdk => "sdk"@,
            ConfirmSource::Dashboard => "merchant_dashboard"@,
        }
    }

    /// The value rendered into the payment-confirm-source header.
    pub fn as_text(&self) -> (r: &'static str)
        ensures
            r@ == self.text_chars(),
    {
        match self {
            ConfirmSource::Sdk => "sdk",
            ConfirmSource::Dashboard => "merchant_dashboard",
        }
    }
}

impl Operation {
    /// The start-pay operation renders a redirection form instead of a
    /// JSON response whenever the attempt carries authentication data.
    pub open spec fn spec_is_start_pay(self) -> bool {
        self is PaymentStart
    }

    pub fn is_start_pay(&self) -> (r: bool)
        ensures
            r == self.spec_is_start_pay(),
    {
        matches!(self, Operation::PaymentStart)
    }
}

} // verus!
