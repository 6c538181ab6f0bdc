use doneyet_cli::cli::{GlobalArgs, OutputFormat};
use doneyet_cli::client::{
    classify_response, error_detail, status_error_message, status_hint, text_failure, Auth,
    Client, ClientError, ResponseOutcome,
};
use doneyet_cli::config::{ResolvedConfig, StoredConfig, DEFAULT_API_URL};

fn global(api_url: Option<&str>) -> GlobalArgs {
    GlobalArgs {
        api_url: api_url.map(String::from),
        admin_token: None,
        run_token: None,
        read_basic: None,
        output: OutputFormat::Table,
        insecure: false,
    }
}

fn resolved(admin: Option<&str>, run: Option<&str>, basic: Option<&str>) -> ResolvedConfig {
    ResolvedConfig {
        api_url: "https://d.example.com".to_string(),
        admin_token: admin.map(String::from),
        run_token: run.map(String::from),
        read_basic: basic.map(String::from),
        insecure: false,
    }
}

#[test]
fn from_global_prefers_flag_then_stored_then_default() {
    let stored = StoredConfig {
        api_url: Some("http://stored:1/".into()),
        admin_token: Some("stored-token".into()),
        read_basic: None,
    };
    let r = ResolvedConfig::from_global(&global(Some("http://flag:2//")), stored.clone());
    assert_eq!(r.api_url, "http://flag:2");
    assert_eq!(r.admin_token.as_deref(), Some("stored-token"));

    let r = ResolvedConfig::from_global(&global(None), stored);
    assert_eq!(r.api_url, "http://stored:1");

    let r = ResolvedConfig::from_global(&global(None), StoredConfig::default());
    assert_eq!(r.api_url, DEFAULT_API_URL);
    assert_eq!(r.admin_token, None);
}

#[test]
fn from_global_flag_tokens_win() {
    let mut g = global(None);
    g.admin_token = Some("flag-admin".into());
    g.run_token = Some("run-1".into());
    g.insecure = true;
    let stored = StoredConfig {
        api_url: None,
        admin_token: Some("stored".into()),
        read_basic: Some("u:p".into()),
    };
    let r = ResolvedConfig::from_global(&g, stored);
    assert_eq!(r.admin_token.as_deref(), Some("flag-admin"));
    assert_eq!(r.run_token.as_deref(), Some("run-1"));
    assert_eq!(r.read_basic.as_deref(), Some("u:p"));
    assert!(r.insecure);
}

#[test]
fn normalized_url_law_resolving_twice_is_stable() {
    let r = ResolvedConfig::from_global(&global(Some("http://x///")), StoredConfig::default());
    let again = ResolvedConfig::from_global(&global(Some(&r.api_url)), StoredConfig::default());
    assert_eq!(r.api_url, again.api_url);
    assert!(!r.api_url.ends_with('/'));
}

#[test]
fn api_base_and_urls() {
    let c = Client::new(resolved(None, None, None));
    assert_eq!(c.config().api_base(), "https://d.example.com/api/v1");
    assert_eq!(c.url("/runs"), "https://d.example.com/api/v1/runs");
    assert_eq!(c.root_url("/health"), "https://d.example.com/health");
    assert_eq!(c.request_url("/api/v2/x"), "https://d.example.com/api/v2/x");
    assert_eq!(c.request_url("/workflows"), "https://d.example.com/api/v1/workflows");
    assert_eq!(c.text_url("/health"), "https://d.example.com/health");
    assert_eq!(c.text_url("/metrics"), "https://d.example.com/metrics");
    assert_eq!(
        c.text_url("/workflows/a/catalog-info"),
        "https://d.example.com/api/v1/workflows/a/catalog-info"
    );
}

#[test]
fn authorization_headers() {
    let c = Client::new(resolved(Some("adm"), Some("runtok"), Some("user:pass")));
    assert_eq!(c.authorization(Auth::Admin).unwrap().as_deref(), Some("Bearer adm"));
    assert_eq!(c.authorization(Auth::Run).unwrap().as_deref(), Some("Bearer runtok"));
    assert_eq!(
        c.authorization(Auth::ReadOptional).unwrap().as_deref(),
        Some("Basic dXNlcjpwYXNz")
    );
    assert_eq!(c.authorization(Auth::Unauthenticated).unwrap(), None);
}

#[test]
fn authorization_missing_tokens() {
    let c = Client::new(resolved(None, None, None));
    assert_eq!(c.authorization(Auth::Admin).unwrap_err(), ClientError::AdminTokenRequired);
    assert_eq!(c.authorization(Auth::Run).unwrap_err(), ClientError::RunTokenRequired);
    assert_eq!(c.authorization(Auth::ReadOptional).unwrap(), None);
    assert!(ClientError::AdminTokenRequired.message().contains("dyt login"));
    assert!(ClientError::RunTokenRequired.message().contains("--run-token"));
}

#[test]
fn authorization_refuses_bad_header_text() {
    let c = Client::new(resolved(Some("a\nb"), Some("x\u{7f}"), None));
    assert_eq!(c.authorization(Auth::Admin).unwrap_err(), ClientError::InvalidHeaderValue);
    assert_eq!(c.authorization(Auth::Run).unwrap_err(), ClientError::InvalidHeaderValue);
    let c = Client::new(resolved(Some("tab\tok é"), None, None));
    assert_eq!(c.authorization(Auth::Admin).unwrap().as_deref(), Some("Bearer tab\tok é"));
}

#[test]
fn base64_padding_cases() {
    for (basic, expected) in [("a", "Basic YQ=="), ("ab", "Basic YWI="), ("abc", "Basic YWJj"), ("", "Basic ")] {
        let c = Client::new(resolved(None, None, Some(basic)));
        assert_eq!(c.authorization(Auth::ReadOptional).unwrap().as_deref(), Some(expected));
    }
}

#[test]
fn error_messages_from_status() {
    assert_eq!(
        status_error_message(401, br#"{"error":"bad token"}"#),
        "HTTP 401 Unauthorized: bad token — check your admin/run token"
    );
    assert_eq!(
        status_error_message(500, b"  oops \n"),
        "HTTP 500 Internal Server Error: oops"
    );
    assert_eq!(
        status_error_message(404, br#"{"message":"nope"}"#),
        "HTTP 404 Not Found: {\"message\":\"nope\"} — does the slug / id exist?"
    );
    assert_eq!(
        status_error_message(409, br#"{"error": 3}"#),
        "HTTP 409 Conflict: {\"error\": 3} — the resource state forbids that change"
    );
    assert_eq!(status_hint(418), "");
    assert_eq!(error_detail(b""), "");
}

#[test]
fn classify_responses() {
    assert!(matches!(classify_response(204, b""), ResponseOutcome::Empty));
    assert!(matches!(classify_response(200, b"{}"), ResponseOutcome::Content));
    match classify_response(503, b"down") {
        ResponseOutcome::Failed(m) => assert_eq!(m, "HTTP 503 Service Unavailable: down"),
        other => panic!("unexpected {other:?}"),
    }
    assert!(matches!(classify_response(302, b""), ResponseOutcome::Failed(_)));
}

#[test]
fn text_failures() {
    assert_eq!(text_failure(200, "ok"), None);
    assert_eq!(text_failure(503, "down").as_deref(), Some("503 Service Unavailable: down"));
    assert_eq!(text_failure(599, "x").as_deref(), Some("599 <unknown status code>: x"));
}

#[test]
fn absolute_api_path_law() {
    let c = Client::new(resolved(None, None, None));
    for p in ["/runs", "/workflows/a%20b", "/health"] {
        assert_eq!(c.request_url(&format!("/api/v1{p}")), c.request_url(p));
    }
}

#[test]
fn read_authorization_never_fails_law() {
    for basic in [None, Some("user:pass"), Some("ünï:cödé\n"), Some("")] {
        let c = Client::new(resolved(None, None, basic));
        assert!(c.authorization(Auth::ReadOptional).is_ok());
        assert_eq!(c.authorization(Auth::Unauthenticated).unwrap(), None);
    }
}
