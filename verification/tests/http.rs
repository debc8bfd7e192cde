use smop::http::{Client, RequestFailure};

#[test]
fn client_builder_collects_headers() {
    let client = Client::new().timeout(30).header("X-Api-Key", "secret").auth("user", "pw");
    assert_eq!(client.timeout_secs(), Some(30));
    let headers = client.request_headers(Some("application/json"));
    assert_eq!(
        headers,
        vec![
            ("Content-Type".to_string(), "application/json".to_string()),
            ("X-Api-Key".to_string(), "secret".to_string()),
            ("Authorization".to_string(), "Basic user:pw".to_string()),
        ]
    );
    assert_eq!(client.request_headers(None).len(), 2);
    assert_eq!(Client::new().timeout_secs(), None);
}

#[test]
fn request_failure_messages_name_the_url() {
    let url = "http://example.test/x";
    assert_eq!(
        RequestFailure::Status { code: 404 }.message(url),
        "HTTP request to http://example.test/x failed with status 404"
    );
    assert_eq!(
        RequestFailure::Timeout { kind: "Global".to_string() }.message(url),
        "HTTP request to http://example.test/x timed out: Global"
    );
    assert_eq!(
        RequestFailure::HostNotFound.message(url),
        "Host not found for URL: http://example.test/x"
    );
    assert_eq!(
        RequestFailure::Io { detail: "broken pipe".to_string() }.message(url),
        "IO error during HTTP request to http://example.test/x: broken pipe"
    );
    assert_eq!(
        RequestFailure::Other { detail: "bad".to_string() }.message(url),
        "HTTP request to http://example.test/x failed: bad"
    );
}
