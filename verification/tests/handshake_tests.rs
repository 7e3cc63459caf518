//! Tests of the handshake gate's cookie parsing.

use wms_api::handshake::handle_websocket_header_inspection;

fn headers(pairs: &[(&str, &str)]) -> Vec<(String, String)> {
    pairs.iter().map(|(n, v)| (n.to_string(), v.to_string())).collect()
}

#[test]
fn extracts_the_token_from_a_single_cookie() {
    let h = headers(&[("cookie", "access_token=U1")]);
    assert_eq!(handle_websocket_header_inspection(&h).unwrap(), "U1");
}

#[test]
fn extracts_the_token_among_other_pairs_with_whitespace() {
    let h = headers(&[("cookie", "a=1; access_token = T2 ;b=2")]);
    assert_eq!(handle_websocket_header_inspection(&h).unwrap(), "T2");
}

#[test]
fn header_name_is_case_insensitive() {
    let h = headers(&[("Cookie", "access_token=tok")]);
    assert_eq!(handle_websocket_header_inspection(&h).unwrap(), "tok");
    let h = headers(&[("COOKIE", "access_token=tok2")]);
    assert_eq!(handle_websocket_header_inspection(&h).unwrap(), "tok2");
}

#[test]
fn missing_token_is_rejected_with_401() {
    let h = headers(&[("cookie", "session=abc; theme=dark")]);
    let rej = handle_websocket_header_inspection(&h).unwrap_err();
    assert_eq!(rej.status, 401);
    assert_eq!(rej.body, "No Token Provided!");
}

#[test]
fn unparseable_cookie_header_is_rejected_with_401() {
    let h = headers(&[("cookie", "not a cookie at all")]);
    let rej = handle_websocket_header_inspection(&h).unwrap_err();
    assert_eq!(rej.status, 401);
    let h = headers(&[("content-type", "text/plain")]);
    assert_eq!(handle_websocket_header_inspection(&h).unwrap_err().status, 401);
    let h = headers(&[]);
    assert_eq!(handle_websocket_header_inspection(&h).unwrap_err().status, 401);
}

#[test]
fn the_last_assignment_wins() {
    let h = headers(&[("cookie", "access_token=first; access_token=second")]);
    assert_eq!(handle_websocket_header_inspection(&h).unwrap(), "second");
    let h = headers(&[("cookie", "access_token=first"), ("cookie", "access_token=later")]);
    assert_eq!(handle_websocket_header_inspection(&h).unwrap(), "later");
    let h = headers(&[("cookie", "access_token=kept"), ("cookie", "other=x")]);
    assert_eq!(handle_websocket_header_inspection(&h).unwrap(), "kept");
}

#[test]
fn an_empty_token_value_still_passes_the_gate() {
    let h = headers(&[("cookie", "access_token=")]);
    assert_eq!(handle_websocket_header_inspection(&h).unwrap(), "");
}

#[test]
fn a_pair_without_equals_is_skipped() {
    let h = headers(&[("cookie", "access_token; access_token=real")]);
    assert_eq!(handle_websocket_header_inspection(&h).unwrap(), "real");
}
