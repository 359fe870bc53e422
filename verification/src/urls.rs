//! Deterministic URL derivation. Every builder and the next-action
//! resolver share these functions, so redirect targets and webhook
//! targets can never diverge. Each derivation is a pure function of the
//! base URL, the attempt's identifiers, the connector name and, where
//! applicable, a credential identifier.

use vstd::prelude::*;

use crate::types::PaymentAttempt;

verus! {

/// The characters of the redirect (return) URL for one attempt.
pub open spec fn redirect_url_chars(
    base: Seq<char>,
    payment_id: Seq<char>,
    merchant_id: Seq<char>,
    connector: Seq<char>,
    creds_identifier: Option<Seq<char>>,
) -> Seq<char> {
    let stem = base + "/payments/"@ + payment_id + "/"@ + merchant_id + "/redirect/response/"@
        + connector;
    match creds_identifier {
        Some(c) => stem + "/"@ + c,
        None => stem,
    }
}

/// The characters of the webhook URL for one merchant and connector.
pub open spec fn webhook_url_chars(
    base: Seq<char>,
    merchant_id: Seq<char>,
    connector: Seq<char>,
) -> Seq<char> {
    base + "/webhooks/"@ + merchant_id + "/"@ + connector
}

/// The characters of the complete-authorize URL for one attempt.
pub open spec fn complete_authorize_url_chars(
    base: Seq<char>,
    payment_id: Seq<char>,
    merchant_id: Seq<char>,
    connector: Seq<char>,
) -> Seq<char> {
    base + "/payments/"@ + payment_id + "/"@ + merchant_id + "/redirect/complete/"@ + connector
}

/// The characters of the start-pay URL for one attempt.
pub open spec fn startpay_url_chars(
    base: Seq<char>,
    payment_id: Seq<char>,
    merchant_id: Seq<char>,
    attempt_id: Seq<char>,
) -> Seq<char> {
    base + "/payments/redirect/"@ + payment_id + "/"@ + merchant_id + "/"@ + attempt_id
}

/// The characters of the three-DS authentication URL for one payment.
pub open spec fn authentication_url_chars(base: Seq<char>, payment_id: Seq<char>) -> Seq<char> {
    base + "/payments/"@ + payment_id + "/3ds/authentication"@
}

/// The characters of the three-DS authorize URL for one attempt.
pub open spec fn authorize_url_chars(
    base: Seq<char>,
    payment_id: Seq<char>,
    merchant_id: Seq<char>,
    connector: Seq<char>,
) -> Seq<char> {
    base + "/payments/"@ + payment_id + "/"@ + merchant_id + "/authorize/"@ + connector
}

/// The characters of the poll id handed out with a three-DS invoke.
pub open spec fn authentication_poll_id_chars(payment_id: Seq<char>) -> Seq<char> {
    "external_authentication_"@ + payment_id
}

/// Derives the redirect (return) URL the connector sends the customer
/// back to.
pub fn create_redirect_url(
    router_base_url: &str,
    payment_attempt: &PaymentAttempt,
    connector_name: &str,
    creds_identifier: Option<&str>,
) -> (r: String)
    ensures
        r@ == redirect_url_chars(
            router_base_url@,
            payment_attempt.payment_id@,
            payment_attempt.merchant_id@,
            connector_name@,
            match creds_identifier {
                Some(c) => Some(c@),
                None => None,
            },
        ),
{
    let mut s: String = router_base_url.to_owned();
    s.append("/payments/");
    s.append(payment_attempt.payment_id.as_str());
    s.append("/");
    s.append(payment_attempt.merchant_id.as_str());
    s.append("/redirect/response/");
    s.append(connector_name);
    if let Some(c) = creds_identifier {
        s.append("/");
        s.append(c);
    }
    s
}

/// Derives the webhook URL the connector posts events to.
pub fn create_webhook_url(
    router_base_url: &str,
    merchant_id: &str,
    connector_name: &str,
) -> (r: String)
    ensures
        r@ == webhook_url_chars(router_base_url@, merchant_id@, connector_name@),
{
    let mut s: String = router_base_url.to_owned();
    s.append("/webhooks/");
    s.append(merchant_id);
    s.append("/");
    s.append(connector_name);
    s
}

/// Derives the URL the client completes a suspended authorization at.
pub fn create_complete_authorize_url(
    router_base_url: &str,
    payment_attempt: &PaymentAttempt,
    connector_name: &str,
) -> (r: String)
    ensures
        r@ == complete_authorize_url_chars(
            router_base_url@,
            payment_attempt.payment_id@,
            payment_attempt.merchant_id@,
            connector_name@,
        ),
{
    let mut s: String = router_base_url.to_owned();
    s.append("/payments/");
    s.append(payment_attempt.payment_id.as_str());
    s.append("/");
    s.append(payment_attempt.merchant_id.as_str());
    s.append("/redirect/complete/");
    s.append(connector_name);
    s
}

/// Derives the start-pay URL a redirect next-action points at.
pub fn create_startpay_url(base_url: &str, payment_attempt: &PaymentAttempt) -> (r: String)
    ensures
        r@ == startpay_url_chars(
            base_url@,
            payment_attempt.payment_id@,
            payment_attempt.merchant_id@,
            payment_attempt.attempt_id@,
        ),
{
    let mut s: String = base_url.to_owned();
    s.append("/payments/redirect/");
    s.append(payment_attempt.payment_id.as_str());
    s.append("/");
    s.append(payment_attempt.merchant_id.as_str());
    s.append("/");
    s.append(payment_attempt.attempt_id.as_str());
    s
}

/// Derives the three-DS authentication URL for a separate
/// authentication call.
pub fn create_authentication_url(base_url: &str, payment_attempt: &PaymentAttempt) -> (r: String)
    ensures
        r@ == authentication_url_chars(base_url@, payment_attempt.payment_id@),
{
    let mut s: String = base_url.to_owned();
    s.append("/payments/");
    s.append(payment_attempt.payment_id.as_str());
    s.append("/3ds/authentication");
    s
}

/// Derives the three-DS authorize URL the client calls after
/// authentication.
pub fn create_authorize_url(
    base_url: &str,
    payment_attempt: &PaymentAttempt,
    connector_name: &str,
) -> (r: String)
    ensures
        r@ == authorize_url_chars(
            base_url@,
            payment_attempt.payment_id@,
            payment_attempt.merchant_id@,
            connector_name@,
        ),
{
    let mut s: String = base_url.to_owned();
    s.append("/payments/");
    s.append(payment_attempt.payment_id.as_str());
    s.append("/");
    s.append(payment_attempt.merchant_id.as_str());
    s.append("/authorize/");
    s.append(connector_name);
    s
}

/// Derives the poll id under which a client polls for the outcome of an
/// external authentication.
pub fn get_external_authentication_request_poll_id(payment_id: &str) -> (r: String)
    ensures
        r@ == authentication_poll_id_chars(payment_id@),
{
    let mut s: String = "external_authentication_".to_owned();
    s.append(payment_id);
    s
}

} // verus!
