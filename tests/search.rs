use cunzhi::indexing::{bearer, retrieval_text, retrieval_url, search_response, upload_url, IndexError, NO_CONTEXT};
use cunzhi::retry::{is_retryable, RetryPolicy, RetryStep};
use cunzhi::search::{base_url_is_valid, normalize_base_url, resolve_config, AcemcpConfig, ConfigError};

fn config(base: Option<&str>, token: Option<&str>) -> AcemcpConfig {
    AcemcpConfig {
        base_url: base.map(|s| s.to_string()),
        token: token.map(|s| s.to_string()),
        batch_size: None,
        max_lines_per_blob: None,
        text_extensions: Some(vec![".rs".to_string()]),
        exclude_patterns: None,
    }
}

#[test]
fn base_url_without_scheme_gets_http() {
    assert_eq!(normalize_base_url("example.com:8080"), "http://example.com:8080");
}

#[test]
fn base_url_is_trimmed_and_loses_trailing_slashes() {
    assert_eq!(normalize_base_url("  https://api.example.com///  "), "https://api.example.com");
    assert_eq!(normalize_base_url("http://h/"), "http://h");
    assert!(base_url_is_valid("http://example.com"));
    assert!(!base_url_is_valid("http://"));
    assert!(!base_url_is_valid("example.com"));
}

#[test]
fn config_defaults_are_filled_in() {
    let s = resolve_config(&config(Some("example.com:8080"), Some("tok"))).unwrap();
    assert_eq!(s.base_url, "http://example.com:8080");
    assert_eq!(s.token, "tok");
    assert_eq!(s.batch_size, 10);
    assert_eq!(s.max_lines, 800);
    assert_eq!(s.text_extensions, vec![".rs".to_string()]);
    assert!(s.exclude_patterns.is_empty());
}

#[test]
fn config_errors_come_before_any_request() {
    assert_eq!(resolve_config(&config(None, Some("t"))).unwrap_err(), ConfigError::MissingBaseUrl);
    assert_eq!(resolve_config(&config(Some("   "), Some("t"))).unwrap_err(), ConfigError::InvalidBaseUrl);
    assert_eq!(resolve_config(&config(Some("h.io"), None)).unwrap_err(), ConfigError::MissingToken);
    let mut c = config(Some("h.example"), Some("t"));
    c.batch_size = Some(0);
    assert_eq!(resolve_config(&c).unwrap_err(), ConfigError::ZeroBatchSize);
    let mut c = config(Some("h.example"), Some("t"));
    c.max_lines_per_blob = Some(0);
    assert_eq!(resolve_config(&c).unwrap_err(), ConfigError::ZeroMaxLines);
}

#[test]
fn endpoints_and_auth() {
    assert_eq!(upload_url("http://h"), "http://h/batch-upload");
    assert_eq!(retrieval_url("http://h"), "http://h/codebase-retrieval");
    assert_eq!(bearer("abc"), "Bearer abc");
}

#[test]
fn empty_retrieval_is_a_notice() {
    assert_eq!(retrieval_text(None), NO_CONTEXT);
    assert_eq!(retrieval_text(Some(String::new())), NO_CONTEXT);
    assert_eq!(retrieval_text(Some("snippet".to_string())), "snippet");
}

#[test]
fn search_failures_are_error_blocks() {
    let ok = search_response(Ok("found".to_string()));
    assert_eq!(ok.text, "found");
    assert!(!ok.is_error);
    let err = search_response(Err(IndexError::NoIndexableFiles));
    assert!(err.is_error);
    assert_eq!(err.text, "Acemcp执行失败: 未在项目中找到可索引的文本文件");
}

#[test]
fn transient_errors_are_retried_with_doubling_delay() {
    let p = RetryPolicy::for_upload();
    assert!(is_retryable("operation timeout"));
    assert!(is_retryable("error trying to connect: connection refused"));
    assert!(is_retryable("network unreachable"));
    assert!(is_retryable("temporary failure in name resolution"));
    assert_eq!(p.after_failure(1, "connection reset"), RetryStep::Retry { delay_ms: 1000 });
    assert_eq!(p.after_failure(2, "connection reset"), RetryStep::Retry { delay_ms: 2000 });
    assert_eq!(p.after_failure(3, "connection reset"), RetryStep::GiveUp);
    let r = RetryPolicy::for_retrieval();
    assert_eq!(r.after_failure(1, "timeout"), RetryStep::Retry { delay_ms: 2000 });
    assert_eq!(r.delay_ms(3), 8000);
}

#[test]
fn application_errors_are_not_retried() {
    let p = RetryPolicy::for_upload();
    assert!(!is_retryable("HTTP 400 Bad Request"));
    assert_eq!(p.after_failure(1, "HTTP 401 Unauthorized"), RetryStep::GiveUp);
}

#[test]
fn backoff_saturates() {
    let p = RetryPolicy { max_attempts: 100, base_delay_ms: u64::MAX / 2 };
    assert_eq!(p.delay_ms(1), u64::MAX / 2);
    assert_eq!(p.delay_ms(3), u64::MAX);
}
