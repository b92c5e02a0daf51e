use pay_gateway::catalog::Catalog;
use pay_gateway::numfmt::{i32_dec_string, u32_dec_string};
use pay_gateway::proxy::{
    finish_checkout, finish_x402, plan_buy_product, plan_fetch_session, plan_x402_payment,
    plan_x402_requirements, Config, HttpMethod, OutboundBody, Reply, UpstreamOutcome,
};
use pay_gateway::wire::{
    checkout_error_body, webhook_reply, x402_error_body, CheckoutError, X402Error,
};

fn test_config() -> Config {
    let mut catalog = Catalog::new();
    catalog.add(1, 200);
    catalog.add(2, 1000);
    Config {
        base_url: String::from("https://api.zpaynow.com"),
        api_key: String::from("testkey"),
        catalog,
    }
}

#[test]
fn resolve_configured_prices() {
    let cfg = test_config();
    assert_eq!(cfg.catalog.resolve(1), Some(200));
    assert_eq!(cfg.catalog.resolve(2), Some(1000));
    assert_eq!(cfg.catalog.resolve(99), None);
    assert_eq!(cfg.catalog.resolve(-1), None);
    assert_eq!(cfg.catalog.resolve(0), None);
}

#[test]
fn buy_product_builds_session_call() {
    let cfg = test_config();
    let req = plan_buy_product(&cfg, 1, String::from("a@x.com")).unwrap();
    assert_eq!(req.method, HttpMethod::Post);
    assert_eq!(
        req.url,
        "https://api.zpaynow.com/sessions?apikey=testkey"
    );
    match req.body {
        OutboundBody::Payment { customer, amount } => {
            assert_eq!(customer, "a@x.com");
            assert_eq!(amount, 200);
        }
        _ => panic!("expected a payment body"),
    }
}

#[test]
fn buy_product_unknown_is_rejected_without_a_call() {
    let cfg = test_config();
    let r = plan_buy_product(&cfg, 99, String::from("a@x.com"));
    assert!(matches!(r, Err(CheckoutError::NoProduct)));
    assert_eq!(
        checkout_error_body(CheckoutError::NoProduct),
        "{\"error\":\"no product\"}"
    );
}

#[test]
fn fetch_session_url_carries_id_and_credential() {
    let cfg = test_config();
    let req = plan_fetch_session(&cfg, 42);
    assert_eq!(req.method, HttpMethod::Get);
    assert_eq!(
        req.url,
        "https://api.zpaynow.com/sessions/42?apikey=testkey"
    );
    assert!(req.url.contains("/sessions/42"));
    assert!(req.url.contains("apikey=testkey"));
    assert!(matches!(req.body, OutboundBody::Empty));
}

#[test]
fn fetch_session_handles_zero_and_negative_ids() {
    let cfg = test_config();
    assert_eq!(
        plan_fetch_session(&cfg, 0).url,
        "https://api.zpaynow.com/sessions/0?apikey=testkey"
    );
    assert_eq!(
        plan_fetch_session(&cfg, -7).url,
        "https://api.zpaynow.com/sessions/-7?apikey=testkey"
    );
}

#[test]
fn network_failure_normalizes_per_family() {
    match finish_checkout(UpstreamOutcome::ConnectFailure) {
        Reply::ErrorBody(s) => assert_eq!(s, "{\"error\":\"network error\"}"),
        _ => panic!("expected an error body"),
    }
    match finish_x402(UpstreamOutcome::ConnectFailure) {
        Reply::ErrorBody(s) => assert_eq!(s, "{\"errorReason\":\"network error\"}"),
        _ => panic!("expected an error body"),
    }
}

#[test]
fn unparsable_upstream_body_normalizes_per_family() {
    match finish_checkout(UpstreamOutcome::MalformedBody) {
        Reply::ErrorBody(s) => assert_eq!(s, "{\"error\":\"response error\"}"),
        _ => panic!("expected an error body"),
    }
    match finish_x402(UpstreamOutcome::MalformedBody) {
        Reply::ErrorBody(s) => assert_eq!(s, "{\"errorReason\":\"response error\"}"),
        _ => panic!("expected an error body"),
    }
}

#[test]
fn upstream_document_passes_through_verbatim() {
    let doc: serde_json::Value =
        serde_json::from_str("{\"id\": 42, \"status\": \"open\"}").unwrap();
    match finish_checkout(UpstreamOutcome::Document(doc.clone())) {
        Reply::Upstream(v) => assert_eq!(v, doc),
        _ => panic!("expected the upstream document"),
    }
    match finish_x402(UpstreamOutcome::Document(doc.clone())) {
        Reply::Upstream(v) => assert_eq!(v, doc),
        _ => panic!("expected the upstream document"),
    }
}

#[test]
fn x402_requirements_builds_priced_call() {
    let cfg = test_config();
    let req = plan_x402_requirements(&cfg, 2, String::from("b@y.org")).unwrap();
    assert_eq!(req.method, HttpMethod::Post);
    assert_eq!(
        req.url,
        "https://api.zpaynow.com/x402/requirements?apikey=testkey"
    );
    match req.body {
        OutboundBody::Payment { customer, amount } => {
            assert_eq!(customer, "b@y.org");
            assert_eq!(amount, 1000);
        }
        _ => panic!("expected a payment body"),
    }
}

#[test]
fn x402_requirements_unknown_product_uses_its_own_vocabulary() {
    let cfg = test_config();
    let r = plan_x402_requirements(&cfg, 5, String::from("b@y.org"));
    assert!(matches!(r, Err(X402Error::NoProduct)));
    assert_eq!(
        x402_error_body(X402Error::NoProduct),
        "{\"errorReason\":\"no product\"}"
    );
}

#[test]
fn x402_payment_rejects_non_json_body() {
    let cfg = test_config();
    let r = plan_x402_payment(&cfg, "this is not json");
    assert!(matches!(r, Err(X402Error::InvalidData)));
    assert_eq!(
        x402_error_body(X402Error::InvalidData),
        "{\"errorReason\":\"invalid data\"}"
    );
    let r2 = plan_x402_payment(&cfg, "");
    assert!(matches!(r2, Err(X402Error::InvalidData)));
    let r3 = plan_x402_payment(&cfg, "{\"unclosed\": ");
    assert!(matches!(r3, Err(X402Error::InvalidData)));
}

#[test]
fn x402_payment_forwards_settlement_payload() {
    let cfg = test_config();
    let text = "{\"scheme\": \"exact\", \"payload\": {\"signature\": \"0xabc\"}}";
    let req = plan_x402_payment(&cfg, text).unwrap();
    assert_eq!(req.method, HttpMethod::Post);
    assert_eq!(
        req.url,
        "https://api.zpaynow.com/x402/payments?apikey=testkey"
    );
    let expected: serde_json::Value = serde_json::from_str(text).unwrap();
    match req.body {
        OutboundBody::Raw(v) => assert_eq!(v, expected),
        _ => panic!("expected the raw settlement payload"),
    }
}

#[test]
fn webhook_always_acknowledges() {
    assert_eq!(webhook_reply(), "{\"status\":\"success\"}");
}

#[test]
fn concurrent_purchases_get_their_own_prices() {
    let cfg = test_config();
    let first = plan_buy_product(&cfg, 1, String::from("first@x.com")).unwrap();
    let second = plan_buy_product(&cfg, 2, String::from("second@x.com")).unwrap();
    match (first.body, second.body) {
        (
            OutboundBody::Payment { amount: a1, .. },
            OutboundBody::Payment { amount: a2, .. },
        ) => {
            assert_eq!(a1, 200);
            assert_eq!(a2, 1000);
        }
        _ => panic!("expected payment bodies"),
    }
}

#[test]
fn every_checkout_error_has_its_wire_body() {
    assert_eq!(
        checkout_error_body(CheckoutError::NoProduct),
        "{\"error\":\"no product\"}"
    );
    assert_eq!(
        checkout_error_body(CheckoutError::Network),
        "{\"error\":\"network error\"}"
    );
    assert_eq!(
        checkout_error_body(CheckoutError::Response),
        "{\"error\":\"response error\"}"
    );
}

#[test]
fn every_x402_error_has_its_wire_body() {
    assert_eq!(
        x402_error_body(X402Error::NoProduct),
        "{\"errorReason\":\"no product\"}"
    );
    assert_eq!(
        x402_error_body(X402Error::InvalidData),
        "{\"errorReason\":\"invalid data\"}"
    );
    assert_eq!(
        x402_error_body(X402Error::Network),
        "{\"errorReason\":\"network error\"}"
    );
    assert_eq!(
        x402_error_body(X402Error::Response),
        "{\"errorReason\":\"response error\"}"
    );
}

#[test]
fn decimal_rendering_is_exact() {
    assert_eq!(u32_dec_string(0), "0");
    assert_eq!(u32_dec_string(7), "7");
    assert_eq!(u32_dec_string(10), "10");
    assert_eq!(u32_dec_string(4294967295), "4294967295");
    assert_eq!(i32_dec_string(0), "0");
    assert_eq!(i32_dec_string(-1), "-1");
    assert_eq!(i32_dec_string(2147483647), "2147483647");
    assert_eq!(i32_dec_string(-2147483648), "-2147483648");
}
