//! The event types under which API operations are recorded for
//! analytics, and the metric trait that says which event type a payload
//! reports itself under.

use vstd::prelude::*;

verus! {

/// The flow family an API event belongs to.
#[derive(Clone, Debug, PartialEq, Eq)]
pub enum ApiEventsType {
    Payout { payout_id: String },
    Payment { payment_id: String },
    Refund { payment_id: Option<String>, refund_id: String },
    PaymentMethod {
        payment_method_id: String,
        payment_method: Option<crate::enums::PaymentMethod>,
        payment_method_type: Option<crate::enums::PaymentMethodType>,
    },
    Customer { customer_id: String },
    User { user_id: String },
    PaymentMethodList { payment_id: Option<String> },
    Webhooks { connector: String, payment_id: Option<String> },
    Routing,
    ResourceListAPI,
    PaymentRedirectionResponse { connector: Option<String>, payment_id: Option<String> },
    Gsm,
    Miscellaneous,
    Keymanager,
    RustLocker,
    ApplePayCertificatesMigration,
    FraudCheck,
    Recon,
    Dispute { dispute_id: String },
    Events { merchant_id: String },
    PaymentMethodCollectLink { link_id: String },
    Poll { poll_id: String },
    Analytics,
}

/// What event type, if any, a payload reports itself under. Each
/// implementation declares its event type as a spec function and the
/// reporting method is held to it.
pub trait ApiEventMetric {
    /// The event type this payload reports itself under, if any.
    spec fn spec_api_event_type(&self) -> Option<ApiEventsType>;

    /// Reports the payload's event type.
    fn get_api_event_type(&self) -> (r: Option<ApiEventsType>)
        ensures
            r == self.spec_api_event_type(),
    ;
}

/// A result reports the event type of its success payload; an error
/// value never produces an event type.
impl<Q: ApiEventMetric, E> ApiEventMetric for Result<Q, E> {
    open spec fn spec_api_event_type(&self) -> Option<ApiEventsType> {
        match self {
            Ok(q) => q.spec_api_event_type(),
            Err(_) => None,
        }
    }

    fn get_api_event_type(&self) -> (r: Option<ApiEventsType>) {
        match self {
            Ok(q) => q.get_api_event_type(),
            Err(_) => None,
        }
    }
}

/// A bare list has no dedicated event type of its own.
impl<T> ApiEventMetric for Vec<T> {
    open spec fn spec_api_event_type(&self) -> Option<ApiEventsType> {
        Some(ApiEventsType::Miscellaneous)
    }

    fn get_api_event_type(&self) -> (r: Option<ApiEventsType>) {
        Some(ApiEventsType::Miscellaneous)
    }
}

/// A bare string has no dedicated event type of its own.
impl ApiEventMetric for String {
    open spec fn spec_api_event_type(&self) -> Option<ApiEventsType> {
        Some(ApiEventsType::Miscellaneous)
    }

    fn get_api_event_type(&self) -> (r: Option<ApiEventsType>) {
        Some(ApiEventsType::Miscellaneous)
    }
}

/// A bare flag has no dedicated event type of its own.
impl ApiEventMetric for bool {
    open spec fn spec_api_event_type(&self) -> Option<ApiEventsType> {
        Some(ApiEventsType::Miscellaneous)
    }

    fn get_api_event_type(&self) -> (r: Option<ApiEventsType>) {
        Some(ApiEventsType::Miscellaneous)
    }
}

/// A reference reports exactly what the value behind it reports.
impl<T: ApiEventMetric> ApiEventMetric for &T {
    open spec fn spec_api_event_type(&self) -> Option<ApiEventsType> {
        (**self).spec_api_event_type()
    }

    fn get_api_event_type(&self) -> (r: Option<ApiEventsType>) {
        T::get_api_event_type(self)
    }
}

} // verus!
