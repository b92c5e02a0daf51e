//! The payment-gateway proxy: turns one inbound command into the one
//! outbound call it stands for (or into a rejection, with no call at
//! all), and normalizes every observed outcome of such a call into
//! the reply the caller sees.
//!
//! The functions here decide everything before and after the network
//! activity; performing the call itself is the surrounding process's
//! job, which hands the observed [`UpstreamOutcome`] back in.

use vstd::prelude::*;
use crate::catalog::Catalog;
use crate::jsonio::json_document;
use crate::jsonio::parse_json;
use crate::numfmt::signed_dec_rep;
use crate::numfmt::i32_dec_string;
use crate::wire::CheckoutError;
use crate::wire::X402Error;
use crate::wire::checkout_error_doc;
use crate::wire::x402_error_doc;

verus! {

/// HTTP method of an outbound call.
#[derive(Clone, Copy, PartialEq, Eq, Structural, Debug)]
pub enum HttpMethod {
    Get,
    Post,
}

/// Body of an outbound call.
pub enum OutboundBody {
    /// A session lookup carries no body.
    Empty,
    /// The `{"customer", "amount"}` document of the session-creation
    /// and requirement paths.
    Payment { customer: String, amount: i32 },
    /// A settlement payload, passed through exactly as the caller
    /// sent it.
    Raw(serde_json::Value),
}

/// One outbound call to the upstream service, fully determined
/// before any network activity happens.
pub struct OutboundRequest {
    pub method: HttpMethod,
    pub url: String,
    pub body: OutboundBody,
}

/// Process-wide configuration, built once at startup and read-only
/// afterwards; every in-flight request shares it.
pub struct Config {
    /// Base URL of the upstream payment service.
    pub base_url: String,
    /// Shared credential, appended to every outbound URL as the
    /// `apikey` query parameter.
    pub api_key: String,
    /// The static product table.
    pub catalog: Catalog,
}

/// URL of the upstream session-creation endpoint.
pub open spec fn sessions_url(base: Seq<char>, key: Seq<char>) -> Seq<char> {
    base + "/sessions?apikey="@ + key
}

/// URL of the upstream session-lookup endpoint for session `id`.
pub open spec fn session_url(base: Seq<char>, id: int, key: Seq<char>) -> Seq<char> {
    base + "/sessions/"@ + signed_dec_rep(id) + "?apikey="@ + key
}

/// URL of the upstream payment-requirements endpoint.
pub open spec fn requirements_url(base: Seq<char>, key: Seq<char>) -> Seq<char> {
    base + "/x402/requirements?apikey="@ + key
}

/// URL of the upstream payment-settlement endpoint.
pub open spec fn payments_url(base: Seq<char>, key: Seq<char>) -> Seq<char> {
    base + "/x402/payments?apikey="@ + key
}

/// Decide a purchase: price the product through the catalog and
/// build the session-creation call carrying `{customer, amount}`,
/// or reject an unknown product before any outbound activity.
pub fn plan_buy_product(cfg: &Config, product: i32, email: String) -> (r: Result<
    OutboundRequest,
    CheckoutError,
>)
    ensures
        cfg.catalog@.contains_key(product) ==> (r matches Ok(req) && req.method
            == HttpMethod::Post && req.url@ == sessions_url(cfg.base_url@, cfg.api_key@)
            && req.body == (OutboundBody::Payment {
            customer: email,
            amount: cfg.catalog@[product],
        })),
        !cfg.catalog@.contains_key(product) ==> (r matches Err(e) && e
            == CheckoutError::NoProduct),
{
    match cfg.catalog.resolve(product) {
        Some(price) => {
            let mut url = cfg.base_url.clone();
            url.append("/sessions?apikey=");
            url.append(cfg.api_key.as_str());
            Ok(
                OutboundRequest {
                    method: HttpMethod::Post,
                    url,
                    body: OutboundBody::Payment { customer: email, amount: price },
                },
            )
        },
        None => Err(CheckoutError::NoProduct),
    }
}

/// Decide a session lookup: always one GET to the session's URL,
/// with the shared credential and no body.
pub fn plan_fetch_session(cfg: &Config, id: i32) -> (r: OutboundRequest)
    ensures
        r.method == HttpMethod::Get,
        r.url@ == session_url(cfg.base_url@, id as int, cfg.api_key@),
        r.body is Empty,
{
    let mut url = cfg.base_url.clone();
    url.append("/sessions/");
    let digits = i32_dec_string(id);
    url.append(digits.as_str());
    url.append("?apikey=");
    url.append(cfg.api_key.as_str());
    OutboundRequest { method: HttpMethod::Get, url, body: OutboundBody::Empty }
}

/// Decide a requirement query: price the product through the catalog
/// and build the requirements call carrying `{customer, amount}`, or
/// reject an unknown product before any outbound activity.
pub fn plan_x402_requirements(cfg: &Config, product: i32, email: String) -> (r: Result<
    OutboundRequest,
    X402Error,
>)
    ensures
        cfg.catalog@.contains_key(product) ==> (r matches Ok(req) && req.method
            == HttpMethod::Post && req.url@ == requirements_url(cfg.base_url@, cfg.api_key@)
            && req.body == (OutboundBody::Payment {
            customer: email,
            amount: cfg.catalog@[product],
        })),
        !cfg.catalog@.contains_key(product) ==> (r matches Err(e) && e == X402Error::NoProduct),
{
    match cfg.catalog.resolve(product) {
        Some(price) => {
            let mut url = cfg.base_url.clone();
            url.append("/x402/requirements?apikey=");
            url.append(cfg.api_key.as_str());
            Ok(
                OutboundRequest {
                    method: HttpMethod::Post,
                    url,
                    body: OutboundBody::Payment { customer: email, amount: price },
                },
            )
        },
        None => Err(X402Error::NoProduct),
    }
}

/// Decide a settlement submission: accept exactly the bodies that
/// parse as one JSON document, to be forwarded untouched to the
/// settlement endpoint; anything else is rejected as invalid data
/// before any outbound activity.
pub fn plan_x402_payment(cfg: &Config, body: &str) -> (r: Result<OutboundRequest, X402Error>)
    ensures
        json_document(body@) ==> (r matches Ok(req) && req.method == HttpMethod::Post && req.url@
            == payments_url(cfg.base_url@, cfg.api_key@) && req.body is Raw),
        !json_document(body@) ==> (r matches Err(e) && e == X402Error::InvalidData),
{
    match parse_json(body) {
        Some(payload) => {
            let mut url = cfg.base_url.clone();
            url.append("/x402/payments?apikey=");
            url.append(cfg.api_key.as_str());
            Ok(
                OutboundRequest {
                    method: HttpMethod::Post,
                    url,
                    body: OutboundBody::Raw(payload),
                },
            )
        },
        None => Err(X402Error::InvalidData),
    }
}

/// What the process observed of one outbound call.
pub enum UpstreamOutcome {
    /// The call completed and its body parsed as a JSON document.
    Document(serde_json::Value),
    /// The call could not be completed at all (connection failure,
    /// timeout, unresolvable host).
    ConnectFailure,
    /// The call completed but its body was not a JSON document,
    /// whatever its HTTP status.
    MalformedBody,
}

/// A handler's answer: either the upstream's document untouched, or
/// one of the normalized error bodies, rendered ready for the wire.
pub enum Reply {
    /// Pass the upstream document through verbatim.
    Upstream(serde_json::Value),
    /// Answer with this exact JSON text.
    ErrorBody(String),
}

/// Normalize an outcome on the checkout family: the upstream
/// document verbatim on success, else the exact `error`-keyed body
/// for the failure observed.
pub fn finish_checkout(outcome: UpstreamOutcome) -> (r: Reply)
    ensures
        outcome matches UpstreamOutcome::Document(v) ==> r == Reply::Upstream(v),
        outcome is ConnectFailure ==> (r matches Reply::ErrorBody(s) && s@ == checkout_error_doc(
            CheckoutError::Network,
        )),
        outcome is MalformedBody ==> (r matches Reply::ErrorBody(s) && s@ == checkout_error_doc(
            CheckoutError::Response,
        )),
{
    match outcome {
        UpstreamOutcome::Document(v) => Reply::Upstream(v),
        UpstreamOutcome::ConnectFailure => Reply::ErrorBody(
            crate::wire::checkout_error_body(CheckoutError::Network),
        ),
        UpstreamOutcome::MalformedBody => Reply::ErrorBody(
            crate::wire::checkout_error_body(CheckoutError::Response),
        ),
    }
}

/// Normalize an outcome on the x402 family: the upstream document
/// verbatim on success, else the exact `errorReason`-keyed body for
/// the failure observed.
pub fn finish_x402(outcome: UpstreamOutcome) -> (r: Reply)
    ensures
        outcome matches UpstreamOutcome::Document(v) ==> r == Reply::Upstream(v),
        outcome is ConnectFailure ==> (r matches Reply::ErrorBody(s) && s@ == x402_error_doc(
            X402Error::Network,
        )),
        outcome is MalformedBody ==> (r matches Reply::ErrorBody(s) && s@ == x402_error_doc(
            X402Error::Response,
        )),
{
    match outcome {
        UpstreamOutcome::Document(v) => Reply::Upstream(v),
        UpstreamOutcome::ConnectFailure => Reply::ErrorBody(
            crate::wire::x402_error_body(X402Error::Network),
        ),
        UpstreamOutcome::MalformedBody => Reply::ErrorBody(
            crate::wire::x402_error_body(X402Error::Response),
        ),
    }
}

} // verus!
