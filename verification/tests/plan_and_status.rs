use atticus::auth_methods::AuthTypes;
use atticus::request_methods::Method;
use atticus::request_plan::plan_request;
use atticus::status::{format_response, Progress};
use atticus::workspace::Workspace;

fn headers() -> im::Vector<(String, String)> {
    let mut h = im::Vector::new();
    h.push_back(("A".to_string(), "1".to_string()));
    h.push_back(("B".to_string(), "2".to_string()));
    h.push_back(("A".to_string(), "3".to_string()));
    h
}

#[test]
fn plan_per_method() {
    let cases = [
        (Method::GET, Method::GET, false),
        (Method::POST, Method::POST, true),
        (Method::HEAD, Method::HEAD, false),
        (Method::DELETE, Method::DELETE, false),
        (Method::PUT, Method::PUT, true),
        (Method::PATCH, Method::PUT, true),
    ];
    for (m, wire, with_body) in cases {
        let p = plan_request(
            m,
            headers(),
            "body".to_string(),
            AuthTypes::NoAuth,
            "tok".to_string(),
            "http://x".to_string(),
        );
        assert_eq!(p.method, wire);
        assert_eq!(p.url, "http://x");
        assert_eq!(p.body, if with_body { Some("body".to_string()) } else { None });
        assert_eq!(p.bearer_token, None);
    }
}

#[test]
fn plan_keeps_header_order() {
    let p = plan_request(
        Method::GET,
        headers(),
        String::new(),
        AuthTypes::NoAuth,
        String::new(),
        "u".to_string(),
    );
    assert_eq!(
        p.headers,
        vec![
            ("A".to_string(), "1".to_string()),
            ("B".to_string(), "2".to_string()),
            ("A".to_string(), "3".to_string()),
        ]
    );
    let empty = plan_request(
        Method::GET,
        im::Vector::new(),
        String::new(),
        AuthTypes::NoAuth,
        String::new(),
        "u".to_string(),
    );
    assert!(empty.headers.is_empty());
}

#[test]
fn plan_sends_token_only_for_bearer() {
    let p = plan_request(
        Method::GET,
        im::Vector::new(),
        String::new(),
        AuthTypes::Bearer,
        "secret".to_string(),
        "u".to_string(),
    );
    assert_eq!(p.bearer_token, Some("secret".to_string()));
}

#[test]
fn send_plan_uses_editor() {
    let mut w = Workspace::new(Vec::new());
    w.method = Method::PATCH;
    w.body = "b".to_string();
    w.header_name = "H".to_string();
    w.header_value = "V".to_string();
    w.add_header();
    let p = w.send_plan();
    assert_eq!(p.method, Method::PUT);
    assert_eq!(p.url, "https://example.com");
    assert_eq!(p.body, Some("b".to_string()));
    assert_eq!(p.headers, vec![("H".to_string(), "V".to_string())]);
    assert_eq!(p.bearer_token, None);
}

#[test]
fn progress_lines() {
    assert_eq!(Progress::Idle.message(), " . . . ");
    assert_eq!(Progress::Sending.message(), "sending request ... ");
    assert_eq!(Progress::Formatting.message(), "formatting response... ");
    assert_eq!(Progress::Elapsed(0).message(), "sending request... Elapsed time: 0s");
    assert_eq!(Progress::Elapsed(125).message(), "sending request... Elapsed time: 125s");
    assert_eq!(
        Progress::Elapsed(u64::MAX).message(),
        "sending request... Elapsed time: 18446744073709551615s"
    );
}

#[test]
fn response_is_laid_out_with_four_spaces() {
    assert_eq!(format_response("{\"a\":1}"), "{\n    \"a\": 1\n}\n");
    assert_eq!(format_response("[1,2]"), "[\n    1,\n    2\n]\n");
}
