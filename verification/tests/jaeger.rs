use tenex_tui::jaeger::{build_trace_url, validate_and_normalize_endpoint};

#[test]
fn test_validate_empty_endpoint() {
    assert!(validate_and_normalize_endpoint("").is_err());
    assert!(validate_and_normalize_endpoint("   ").is_err());
}

#[test]
fn test_validate_missing_scheme() {
    assert!(validate_and_normalize_endpoint("localhost:16686").is_err());
    assert!(validate_and_normalize_endpoint("jaeger.example.com").is_err());
}

#[test]
fn test_validate_valid_http() {
    let result = validate_and_normalize_endpoint("http://localhost:16686");
    assert!(result.is_ok());
    assert_eq!(result.unwrap(), "http://localhost:16686");
}

#[test]
fn test_validate_valid_https() {
    let result = validate_and_normalize_endpoint("https://jaeger.example.com");
    assert!(result.is_ok());
    assert_eq!(result.unwrap(), "https://jaeger.example.com");
}

#[test]
fn test_normalize_trailing_slashes() {
    let result = validate_and_normalize_endpoint("http://localhost:16686/");
    assert!(result.is_ok());
    assert_eq!(result.unwrap(), "http://localhost:16686");

    let result = validate_and_normalize_endpoint("https://jaeger.example.com///");
    assert!(result.is_ok());
    assert_eq!(result.unwrap(), "https://jaeger.example.com");
}

#[test]
fn test_normalize_whitespace() {
    let result = validate_and_normalize_endpoint("  http://localhost:16686  ");
    assert!(result.is_ok());
    assert_eq!(result.unwrap(), "http://localhost:16686");
}

#[test]
fn test_build_trace_url_without_span() {
    let result = build_trace_url("http://localhost:16686", "abc123", None);
    assert!(result.is_ok());
    assert_eq!(result.unwrap(), "http://localhost:16686/trace/abc123");
}

#[test]
fn test_build_trace_url_with_span() {
    let result = build_trace_url("http://localhost:16686", "abc123", Some("def456"));
    assert!(result.is_ok());
    assert_eq!(
        result.unwrap(),
        "http://localhost:16686/trace/abc123?uiFind=def456"
    );
}

#[test]
fn test_build_trace_url_normalizes_endpoint() {
    let result = build_trace_url("http://localhost:16686///", "abc123", None);
    assert!(result.is_ok());
    assert_eq!(result.unwrap(), "http://localhost:16686/trace/abc123");
}

#[test]
fn test_build_trace_url_invalid_endpoint() {
    let result = build_trace_url("", "abc123", None);
    assert!(result.is_err());

    let result = build_trace_url("localhost:16686", "abc123", None);
    assert!(result.is_err());
}

#[test]
fn empty_endpoint_error_message() {
    assert_eq!(
        validate_and_normalize_endpoint("  \t\n").unwrap_err(),
        "Jaeger endpoint cannot be empty"
    );
}

#[test]
fn missing_scheme_error_message() {
    assert_eq!(
        validate_and_normalize_endpoint("ftp://x").unwrap_err(),
        "Jaeger endpoint must start with http:// or https://"
    );
    assert_eq!(
        build_trace_url("jaeger:16686", "t", Some("s")).unwrap_err(),
        "Jaeger endpoint must start with http:// or https://"
    );
}

#[test]
fn unicode_white_space_is_trimmed() {
    let result = validate_and_normalize_endpoint("\u{3000}\u{a0}https://j.example\u{2028}");
    assert_eq!(result.unwrap(), "https://j.example");
}

#[test]
fn bare_scheme_loses_its_slashes() {
    assert_eq!(validate_and_normalize_endpoint("http://").unwrap(), "http:");
}
