use lognet::http::{client_config, config_request, get, post_json, HttpMethod, HttpRequest};

#[test]
fn client_uses_fixed_timeout_and_user_agent() {
    let c = client_config();
    assert_eq!(c.timeout_secs, 1800);
    assert_eq!(
        c.user_agent,
        "Mozilla/5.0 (Windows NT 10.0; Win64; x64) AppleWebKit/537.36 (KHTML, like Gecko) Chrome/131.0.0.0 Safari/537.36"
    );
}

#[test]
fn get_builds_request_with_default_headers() {
    let r = get("https://example.test/ok");
    assert_eq!(r.method, HttpMethod::Get);
    assert_eq!(r.url, "https://example.test/ok");
    assert_eq!(r.headers.len(), 2);
    assert_eq!(r.headers[0], ("Accept".to_string(), "*/*".to_string()));
    assert_eq!(
        r.headers[1],
        ("Connection".to_string(), "Keep-Alive".to_string())
    );
    assert!(r.body.is_none());
}

#[test]
fn post_json_keeps_body_and_adds_content_type() {
    let body = b"{\"a\":1}".to_vec();
    let r = post_json("https://example.test/echo", body.clone());
    assert_eq!(r.method, HttpMethod::Post);
    assert_eq!(r.url, "https://example.test/echo");
    assert_eq!(r.headers.len(), 3);
    assert_eq!(r.headers[0], ("Accept".to_string(), "*/*".to_string()));
    assert_eq!(
        r.headers[1],
        ("Connection".to_string(), "Keep-Alive".to_string())
    );
    assert_eq!(
        r.headers[2],
        ("Content-Type".to_string(), "application/json".to_string())
    );
    assert_eq!(r.body, Some(body));
}

#[test]
fn serialized_payload_reaches_the_body_exactly() {
    let mut object = serde_json::Map::new();
    object.insert("a".to_string(), serde_json::Value::from(1));
    let payload = serde_json::Value::Object(object);
    let body = serde_json::to_vec(&payload).unwrap();
    assert_eq!(body, b"{\"a\":1}".to_vec());

    let r = post_json("https://example.test/echo", body);
    assert_eq!(r.body, Some(b"{\"a\":1}".to_vec()));
}

#[test]
fn config_request_appends_and_preserves() {
    let request = HttpRequest {
        method: HttpMethod::Post,
        url: "https://example.test".to_string(),
        headers: vec![("X-Custom".to_string(), "1".to_string())],
        body: Some(vec![1, 2, 3]),
    };
    let r = config_request(request);
    assert_eq!(r.method, HttpMethod::Post);
    assert_eq!(r.url, "https://example.test");
    assert_eq!(r.headers.len(), 3);
    assert_eq!(r.headers[0], ("X-Custom".to_string(), "1".to_string()));
    assert_eq!(r.headers[1], ("Accept".to_string(), "*/*".to_string()));
    assert_eq!(
        r.headers[2],
        ("Connection".to_string(), "Keep-Alive".to_string())
    );
    assert_eq!(r.body, Some(vec![1, 2, 3]));
}
