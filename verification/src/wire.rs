//! The wire shapes of the gateway's own answers: the two error
//! vocabularies (the checkout family reports under the key `error`,
//! the x402 family under `errorReason`) and the static webhook
//! acknowledgment.  Every error is reported as the one-field JSON
//! document `{"<key>":"<message>"}`.

use vstd::prelude::*;

verus! {

/// Failures of the checkout-session protocol family.
#[derive(Clone, Copy, PartialEq, Eq, Structural, Debug)]
pub enum CheckoutError {
    /// The requested product is not in the catalog; nothing was sent
    /// upstream.
    NoProduct,
    /// The outbound call could not be completed.
    Network,
    /// The outbound call completed but its body was not a JSON
    /// document.
    Response,
}

/// Failures of the x402 micropayment protocol family.
#[derive(Clone, Copy, PartialEq, Eq, Structural, Debug)]
pub enum X402Error {
    /// The requested product is not in the catalog; nothing was sent
    /// upstream.
    NoProduct,
    /// The inbound settlement payload was not a JSON document;
    /// nothing was sent upstream.
    InvalidData,
    /// The outbound call could not be completed.
    Network,
    /// The outbound call completed but its body was not a JSON
    /// document.
    Response,
}

/// The JSON document `{"<key>":"<msg>"}`, character by character.
pub open spec fn error_doc(key: Seq<char>, msg: Seq<char>) -> Seq<char> {
    "{\""@ + key + "\":\""@ + msg + "\"}"@
}

/// The message a checkout-family failure is reported with.
pub open spec fn checkout_error_msg(e: CheckoutError) -> Seq<char> {
    match e {
        CheckoutError::NoProduct => "no product"@,
        CheckoutError::Network => "network error"@,
        CheckoutError::Response => "response error"@,
    }
}

/// The full response body of a checkout-family failure.
pub open spec fn checkout_error_doc(e: CheckoutError) -> Seq<char> {
    error_doc("error"@, checkout_error_msg(e))
}

/// The message an x402-family failure is reported with.
pub open spec fn x402_error_msg(e: X402Error) -> Seq<char> {
    match e {
        X402Error::NoProduct => "no product"@,
        X402Error::InvalidData => "invalid data"@,
        X402Error::Network => "network error"@,
        X402Error::Response => "response error"@,
    }
}

/// The full response body of an x402-family failure.
pub open spec fn x402_error_doc(e: X402Error) -> Seq<char> {
    error_doc("errorReason"@, x402_error_msg(e))
}

/// Render a checkout-family failure as its wire body, under the key
/// `error`.
pub fn checkout_error_body(e: CheckoutError) -> (r: String)
    ensures
        r@ == checkout_error_doc(e),
{
    let mut s = String::from_str("{\"");
    s.append("error");
    s.append("\":\"");
    match e {
        CheckoutError::NoProduct => s.append("no product"),
        CheckoutError::Network => s.append("network error"),
        CheckoutError::Response => s.append("response error"),
    }
    s.append("\"}");
    proof {
        assert(s@ =~= checkout_error_doc(e));
    }
    s
}

/// Render an x402-family failure as its wire body, under the key
/// `errorReason`.
pub fn x402_error_body(e: X402Error) -> (r: String)
    ensures
        r@ == x402_error_doc(e),
{
    let mut s = String::from_str("{\"");
    s.append("errorReason");
    s.append("\":\"");
    match e {
        X402Error::NoProduct => s.append("no product"),
        X402Error::InvalidData => s.append("invalid data"),
        X402Error::Network => s.append("network error"),
        X402Error::Response => s.append("response error"),
    }
    s.append("\"}");
    proof {
        assert(s@ =~= x402_error_doc(e));
    }
    s
}

/// The two protocol families never mix their error vocabularies: a
/// checkout-family body (keyed `error`) and an x402-family body
/// (keyed `errorReason`) differ, whatever failures they report.
pub proof fn lemma_error_families_never_mixed(c: CheckoutError, x: X402Error)
    ensures
        checkout_error_doc(c) != x402_error_doc(x),
{
    reveal_strlit("{\"");
    reveal_strlit("error");
    reveal_strlit("errorReason");
    reveal_strlit("\":\"");
    assert(checkout_error_doc(c)[7] == '"');
    assert(x402_error_doc(x)[7] == 'R');
}

/// The static acknowledgment the webhook endpoint answers with,
/// whatever it was sent.
pub open spec fn webhook_ack() -> Seq<char> {
    "{\"status\":\"success\"}"@
}

/// The webhook endpoint's whole decision: the same acknowledgment for
/// every notification.
pub fn webhook_reply() -> (r: String)
    ensures
        r@ == webhook_ack(),
{
    String::from_str("{\"status\":\"success\"}")
}

} // verus!
