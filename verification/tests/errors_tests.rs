use crawl_agent::errors::{CrawlerError, ErrorS, ErrorSeverity, ErrorType};

#[test]
fn test_error_creation() {
    let err = CrawlerError::browser("Tab crashed".to_string());
    assert!(matches!(err, CrawlerError::Browser(_)));
    assert!(err.is_retryable());
    assert_eq!(err.severity(), ErrorSeverity::Medium);
}

#[test]
fn test_error_retryable() {
    assert!(CrawlerError::Network("timeout".to_string()).is_retryable());
    assert!(!CrawlerError::config("Invalid config".to_string()).is_retryable());
}

#[test]
fn test_error_severity() {
    assert_eq!(CrawlerError::config("test".to_string()).severity(), ErrorSeverity::Critical);
    assert_eq!(CrawlerError::parser("test".to_string()).severity(), ErrorSeverity::Medium);
    assert_eq!(CrawlerError::rate_limit("test".to_string()).severity(), ErrorSeverity::Low);
}

#[test]
fn severity_labels() {
    assert_eq!(ErrorSeverity::Low.as_str(), "LOW");
    assert_eq!(ErrorSeverity::Medium.as_str(), "MEDIUM");
    assert_eq!(ErrorSeverity::High.as_str(), "HIGH");
    assert_eq!(ErrorSeverity::Critical.as_str(), "CRITICAL");
}

#[test]
fn every_variant_has_its_retry_policy() {
    assert!(CrawlerError::timeout(5).is_retryable());
    assert!(CrawlerError::rate_limit("slow down".to_string()).is_retryable());
    assert!(CrawlerError::external("svc".to_string(), "down".to_string()).is_retryable());
    assert!(CrawlerError::llm("oracle".to_string()).is_retryable());
    assert!(CrawlerError::Io("disk".to_string()).is_retryable());
    assert!(!CrawlerError::Database("dup key".to_string()).is_retryable());
    assert!(!CrawlerError::parser("bad html".to_string()).is_retryable());
    assert!(!CrawlerError::auth("denied".to_string()).is_retryable());
    assert!(!CrawlerError::validation("f".to_string(), "m".to_string()).is_retryable());
    assert!(!CrawlerError::not_found("row".to_string()).is_retryable());
    assert!(!CrawlerError::Serialization("bad json".to_string()).is_retryable());
    assert!(!CrawlerError::unknown("?".to_string()).is_retryable());
}

#[test]
fn structured_error_renders_kind_and_method() {
    let e = ErrorS::browser("open_tab".to_string(), "no tab".to_string());
    assert_eq!(e.render(), "browser error: no tab(in open_tab )");
    let e = ErrorS::data("parse".to_string(), "bad".to_string());
    assert_eq!(e.render(), "data error: bad(in parse )");
    let e = ErrorS::crawl("walk".to_string(), "stuck".to_string());
    assert_eq!(e.render(), "crawl error: stuck(in walk )");
    let e = ErrorS::llm("ask".to_string(), "mute".to_string());
    assert_eq!(e.render(), "LLM error: mute(in ask )");
    let e = ErrorS::new(ErrorType::Block, "fetch".to_string(), "denied".to_string());
    assert_eq!(e.render(), "blocked: denied(in fetch )");
}

#[test]
fn with_source_keeps_the_error() {
    let e = ErrorS::browser("open".to_string(), "boom".to_string())
        .with_source("io: connection reset".to_string());
    assert_eq!(e.render(), "browser error: boom(in open )");
}
