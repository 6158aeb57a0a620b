use bigneon::stripe_client::{amount_to_string, StripeClient};

fn pair(a: &str, b: &str) -> (String, String) {
    (a.to_string(), b.to_string())
}

#[test]
fn amounts_are_written_in_decimal() {
    assert_eq!(amount_to_string(0), "0");
    assert_eq!(amount_to_string(7), "7");
    assert_eq!(amount_to_string(2500), "2500");
    assert_eq!(amount_to_string(-15), "-15");
    assert_eq!(amount_to_string(i64::MAX), "9223372036854775807");
    assert_eq!(amount_to_string(i64::MIN), "-9223372036854775808");
    for n in [1i64, 9, 10, 99, 100, 101, 1_000_000, -1, -10, -99_999] {
        assert_eq!(amount_to_string(n), n.to_string());
    }
}

#[test]
fn a_charge_captures_at_once() {
    let client = StripeClient::new("sk_test".to_string());
    let request = client.charge("tok_1", 2500, "usd", "Tickets", vec![pair("order_id", "42"), pair("user", "u")]);
    assert_eq!(request.url, "https://api.stripe.com/v1/charges");
    assert_eq!(request.api_key, "sk_test");
    assert_eq!(
        request.params,
        vec![
            pair("currency", "usd"),
            pair("amount", "2500"),
            pair("description", "Tickets"),
            pair("source", "tok_1"),
            pair("capture", "true"),
            pair("metadata[order_id]", "42"),
            pair("metadata[user]", "u"),
        ]
    );
}

#[test]
fn an_authorization_does_not_capture() {
    let client = StripeClient::new("sk_test".to_string());
    let request = client.auth("tok_1", 100, "eur", "Tickets", Vec::new());
    assert_eq!(request.url, "https://api.stripe.com/v1/charges");
    assert_eq!(
        request.params,
        vec![
            pair("currency", "eur"),
            pair("amount", "100"),
            pair("description", "Tickets"),
            pair("source", "tok_1"),
            pair("capture", "false"),
        ]
    );
}

#[test]
fn refunds_and_captures_name_the_charge() {
    let client = StripeClient::new("sk_live".to_string());
    let refund = client.refund("ch_1");
    assert_eq!(refund.url, "https://api.stripe.com/v1/refunds");
    assert_eq!(refund.api_key, "sk_live");
    assert_eq!(refund.params, vec![pair("charge", "ch_1")]);
    let capture = client.complete("ch_1");
    assert_eq!(capture.url, "https://api.stripe.com/v1/charges/ch_1/capture");
    assert_eq!(capture.api_key, "sk_live");
    assert!(capture.params.is_empty());
}
