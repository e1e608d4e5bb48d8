use node_fetch::{FetchMethod, build_request_options};

#[test]
fn get_discards_body() {
    let opts = build_request_options(FetchMethod::Get, "non-empty payload", Vec::new());
    assert_eq!(opts.method, "GET");
    assert_eq!(opts.body, None);
}

#[test]
fn post_carries_body() {
    let opts = build_request_options(FetchMethod::Post, "{\"k\":\"v\"}", Vec::new());
    assert_eq!(opts.method, "POST");
    assert_eq!(opts.body, Some("{\"k\":\"v\"}".to_string()));
}

#[test]
fn put_carries_body() {
    let opts = build_request_options(FetchMethod::Put, "payload", Vec::new());
    assert_eq!(opts.method, "PUT");
    assert_eq!(opts.body, Some("payload".to_string()));
}

#[test]
fn get_discards_empty_body_too() {
    let opts = build_request_options(FetchMethod::Get, "", Vec::new());
    assert_eq!(opts.body, None);
}

#[test]
fn method_tokens() {
    assert_eq!(FetchMethod::Get.as_str(), "GET");
    assert_eq!(FetchMethod::Post.as_str(), "POST");
    assert_eq!(FetchMethod::Put.as_str(), "PUT");
}

#[test]
fn headers_verbatim_on_every_method() {
    for method in [FetchMethod::Get, FetchMethod::Post, FetchMethod::Put] {
        let headers = vec![("X-Test".to_string(), "1".to_string())];
        let opts = build_request_options(method, "body", headers.clone());
        assert_eq!(opts.headers, vec![("X-Test".to_string(), "1".to_string())]);
    }
}

#[test]
fn headers_keep_case_and_order() {
    let headers = vec![
        ("content-TYPE".to_string(), "application/JSON".to_string()),
        ("Authorization".to_string(), "Bearer abc".to_string()),
    ];
    let opts = build_request_options(FetchMethod::Post, "b", headers.clone());
    assert_eq!(opts.headers, headers);
}

#[test]
fn no_headers_stays_empty() {
    let opts = build_request_options(FetchMethod::Get, "", Vec::new());
    assert!(opts.headers.is_empty());
}
