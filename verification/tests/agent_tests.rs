use crawl_agent::actions::{BrowserAction, BrowserState, PrimitiveValue, ScrollDirection,
    execute_outcome, needs_settle_delay, settle_interval};
use crawl_agent::agent::{AgentLoop, LoopPhase, build_action_prompt, filter_output_tokens,
    should_extract_products};
use crawl_agent::monitor::{BrowserMetrics, Monitoring};

fn run_failed_iteration(agent: &mut AgentLoop, now: i64) {
    agent.begin_decision();
    let _action = agent.decide("action: click, value: 1, reason: retry");
    agent.record_execution(false, now, "browser".to_string());
    agent.advance();
}

#[test]
fn failure_threshold_terminates_loop() {
    let mut agent = AgentLoop::new(100, 3);
    agent.enter(1000);
    run_failed_iteration(&mut agent, 1001);
    assert_eq!(agent.phase, LoopPhase::AwaitingDecision);
    run_failed_iteration(&mut agent, 1002);
    assert_eq!(agent.phase, LoopPhase::AwaitingDecision);
    run_failed_iteration(&mut agent, 1003);
    assert_eq!(agent.phase, LoopPhase::Terminated);
    assert_eq!(agent.get_monitoring().consecutive_failures, 3);
    assert_eq!(agent.get_monitoring().failed_requests, 3);
}

#[test]
fn success_resets_the_failure_streak() {
    let mut agent = AgentLoop::new(100, 3);
    agent.enter(0);
    run_failed_iteration(&mut agent, 1);
    run_failed_iteration(&mut agent, 2);
    agent.begin_decision();
    let _ = agent.decide("action: scroll, value: 500, reason: look around");
    agent.record_execution(true, 3, String::new());
    agent.advance();
    assert_eq!(agent.phase, LoopPhase::AwaitingDecision);
    assert_eq!(agent.get_monitoring().consecutive_failures, 0);
    assert_eq!(agent.get_monitoring().successful_requests, 1);
    assert_eq!(agent.get_monitoring().total_requests, 3);
}

#[test]
fn action_budget_terminates_loop() {
    let mut agent = AgentLoop::new(1, 10);
    agent.enter(0);
    agent.begin_decision();
    let _ = agent.decide("action: extract, value: 0, reason: read");
    agent.record_execution(true, 1, String::new());
    agent.advance();
    assert_eq!(agent.phase, LoopPhase::Terminated);
}

#[test]
fn stop_request_terminates_loop() {
    let mut agent = AgentLoop::new(100, 10);
    agent.enter(0);
    agent.request_stop();
    agent.begin_decision();
    let _ = agent.decide("action: wait, value: 1, reason: pause");
    agent.record_execution(true, 1, String::new());
    agent.advance();
    assert_eq!(agent.phase, LoopPhase::Terminated);
}

#[test]
fn decide_maps_kinds_to_actions() {
    let mut agent = AgentLoop::new(10, 3);
    agent.enter(0);
    agent.begin_decision();
    match agent.decide("action: click, value: 1, reason: link") {
        BrowserAction::Click { selector } => assert_eq!(selector, "a, button"),
        other => panic!("unexpected action {:?}", other),
    }
    agent.begin_decision();
    match agent.decide("action: scroll, value: 9, reason: down") {
        BrowserAction::Scroll { direction, amount } => {
            assert!(matches!(direction, ScrollDirection::Down));
            assert_eq!(amount, 500);
        },
        other => panic!("unexpected action {:?}", other),
    }
    agent.begin_decision();
    match agent.decide("action: extract, value: 0, reason: page") {
        BrowserAction::ExtractText { selector } => assert!(selector.is_none()),
        other => panic!("unexpected action {:?}", other),
    }
    agent.begin_decision();
    match agent.decide("action: screenshot, value: 0, reason: capture") {
        BrowserAction::GetPageState => {},
        other => panic!("unexpected action {:?}", other),
    }
}

#[test]
fn oracle_failure_counts_like_execution_failure() {
    let mut agent = AgentLoop::new(10, 2);
    agent.enter(0);
    agent.begin_decision();
    let _ = agent.decide("totally opaque");
    agent.record_execution(false, 1, "oracle".to_string());
    agent.advance();
    let errors: Vec<(String, u32)> = agent.get_monitoring().error_counts.clone();
    assert_eq!(errors.len(), 1);
    assert_eq!(errors[0].0, "oracle");
    assert_eq!(errors[0].1, 1);
    assert_eq!(agent.get_monitoring().last_error.as_deref(), Some("oracle"));
}

#[test]
fn should_extract_looks_for_product_markers() {
    let with = BrowserState::with_html(
        "https://a".to_string(),
        "t".to_string(),
        "<div class=\"price\">9900</div>".to_string(),
    );
    assert!(should_extract_products(&with));
    let without = BrowserState::with_html(
        "https://a".to_string(),
        "t".to_string(),
        "<div>nothing here</div>".to_string(),
    );
    assert!(!should_extract_products(&without));
}

#[test]
fn prompt_names_address_and_bounds_html() {
    let long_html = "x".repeat(5000);
    let p = build_action_prompt("https://shop.example", &long_html);
    assert!(p.starts_with("현재 페이지: https://shop.example"));
    let tail: String = p.chars().rev().take(1000).collect();
    assert!(tail.chars().all(|c| c == 'x'));
    let with_short = build_action_prompt("https://shop.example", "tiny");
    assert!(with_short.ends_with("HTML: tiny"));
}

#[test]
fn screenshot_outcome_populates_only_bytes() {
    let r = execute_outcome(
        &BrowserAction::Screenshot,
        "https://a".to_string(),
        "title".to_string(),
        Ok(PrimitiveValue::Image(vec![137u8, 80, 78, 71])),
    )
    .unwrap();
    let bytes = r.screenshot.expect("screenshot bytes");
    assert!(!bytes.is_empty());
    assert!(r.html.is_none());
    assert!(r.extracted_text.is_none());
}

#[test]
fn extract_outcome_populates_only_text() {
    let r = execute_outcome(
        &BrowserAction::ExtractText { selector: None },
        "https://a".to_string(),
        "title".to_string(),
        Ok(PrimitiveValue::Text("sale 50%".to_string())),
    )
    .unwrap();
    assert_eq!(r.extracted_text.as_deref(), Some("sale 50%"));
    assert!(r.html.is_none());
    assert!(r.screenshot.is_none());
}

#[test]
fn failed_primitive_is_a_browser_error() {
    let r = execute_outcome(
        &BrowserAction::Click { selector: ".x".to_string() },
        "https://a".to_string(),
        "t".to_string(),
        Err("element not found".to_string()),
    );
    let e = r.err().expect("browser error");
    assert_eq!(e.render(), "browser error: element not found(in BrowserSession::execute )");
}

#[test]
fn only_mutating_actions_settle() {
    assert!(needs_settle_delay(&BrowserAction::Click { selector: "a".to_string() }));
    assert!(needs_settle_delay(&BrowserAction::Scroll {
        direction: ScrollDirection::Down,
        amount: 10,
    }));
    assert!(needs_settle_delay(&BrowserAction::FillFrom {
        selector: "input".to_string(),
        value: "x".to_string(),
    }));
    assert!(!needs_settle_delay(&BrowserAction::GetPageState));
    assert!(!needs_settle_delay(&BrowserAction::ExtractText { selector: None }));
    assert!(!needs_settle_delay(&BrowserAction::Screenshot));
    assert!(!needs_settle_delay(&BrowserAction::Navigate { url: "https://a".to_string() }));
}

#[test]
fn settle_interval_is_bounded() {
    assert_eq!(settle_interval(0), 2000);
    assert_eq!(settle_interval(3000), 5000);
    assert_eq!(settle_interval(3001), 2000);
    let v = settle_interval(u64::MAX);
    assert!((2000..=5000).contains(&v));
}

#[test]
fn filter_output_tokens_bounds_and_range() {
    let tokens: Vec<i64> = vec![5, -1, 0, 151936, 151935, 42];
    let out = filter_output_tokens(&tokens);
    assert_eq!(out, vec![5, 151935, 42]);
    let many: Vec<i64> = (1..=200).collect();
    let out = filter_output_tokens(&many);
    assert_eq!(out.len(), 100);
    assert_eq!(out[99], 100);
}

#[test]
fn browser_metrics_counts_and_average() {
    let mut m = BrowserMetrics::default();
    m.record_action(true, 100, false);
    m.record_action(false, 50, true);
    m.increment_active_tabs();
    m.increment_active_tabs();
    m.decrement_active_tabs();
    let snap = m.get_metrics();
    assert_eq!(snap.page_loads_total, 1);
    assert_eq!(snap.actions_total, 2);
    assert_eq!(snap.errors_total, 1);
    assert_eq!(snap.active_tabs, 1);
    assert_eq!(snap.total_action_time_ms, 150);
    assert_eq!(snap.avg_action_time_ms, 75);
}

#[test]
fn monitoring_defaults() {
    let m = Monitoring::default();
    assert_eq!(m.total_requests, 0);
    assert_eq!(m.crawl_interval_ms, 60000);
    assert_eq!(m.timeout_ms, 30000);
    assert_eq!(m.max_retries, 3);
    assert!(!m.is_crawling);
}

#[test]
fn monitoring_marks_start_and_stop() {
    let mut agent = AgentLoop::new(10, 2);
    agent.enter(777);
    assert!(agent.get_monitoring().is_crawling);
    assert_eq!(agent.get_monitoring().started_at_ms, Some(777));
}
