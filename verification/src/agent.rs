//! The agent loop: the bounded decide→act→evaluate cycle that drives
//! one crawl session.  The loop owns the termination policy (action
//! budget, consecutive-failure threshold, explicit stop) and the
//! failure bookkeeping; performing browser work and querying the
//! decision oracle are the application's suspending calls, reported
//! back to the loop as events.

use vstd::prelude::*;
use vstd::string::*;
use crate::actions::{BrowserAction, BrowserState, ScrollDirection};
use crate::monitor::{spec_mon_success, bump_count, Monitoring};
use crate::parser::{parse_safe_spec, ResponseParser};
use crate::text::{chars_vec, contains_at, contains_spec, str_eq, truncate_chars};

verus! {

/// The loop's control states.
#[derive(Debug, Clone, Copy, PartialEq, Eq, Structural)]
pub enum LoopPhase {
    Idle,
    Navigated,
    AwaitingDecision,
    Executing,
    Evaluated,
    Terminated,
}

/// The loop terminates when the action budget is spent, the failure
/// streak reaches the threshold, or a stop was requested.
pub open spec fn should_terminate(
    action_count: int,
    max_actions: int,
    consecutive_failures: int,
    failure_threshold: int,
    stop_requested: bool,
) -> bool {
    action_count >= max_actions || consecutive_failures >= failure_threshold || stop_requested
}

/// The action and failure counters after `n` failed iterations.
pub open spec fn after_n_failures(action_count: int, consecutive: int, n: nat) -> (int, int)
    decreases n,
{
    if n == 0 {
        (action_count, consecutive)
    } else {
        let p = after_n_failures(action_count, consecutive, (n - 1) as nat);
        (p.0 + 1, p.1 + 1)
    }
}

pub proof fn lemma_after_n_failures(action_count: int, consecutive: int, n: nat)
    ensures
        after_n_failures(action_count, consecutive, n) == (action_count + n, consecutive + n),
    decreases n,
{
    if n > 0 {
        lemma_after_n_failures(action_count, consecutive, (n - 1) as nat);
    }
}

/// Law: starting with no failures on record, `n` consecutive failed
/// iterations where `n` equals the failure threshold leave the failure
/// streak at exactly `n`, and the loop's termination test then holds —
/// the loop transitions to Terminated with `consecutive_failures == n`
/// in the snapshot.
pub proof fn lemma_failure_threshold_terminates(
    threshold: u32,
    action_count: int,
    max_actions: int,
)
    requires
        threshold >= 1,
    ensures
        ({
            let t = after_n_failures(action_count, 0, threshold as nat);
            t.1 == threshold && should_terminate(
                t.0,
                max_actions,
                t.1,
                threshold as int,
                false,
            )
        }),
{
    lemma_after_n_failures(action_count, 0, threshold as nat);
}

/// One crawl session's loop state.
#[derive(Debug)]
pub struct AgentLoop {
    pub phase: LoopPhase,
    pub action_count: u64,
    pub max_actions: u64,
    pub failure_threshold: u32,
    pub stop_requested: bool,
    pub monitoring: Monitoring,
}

impl AgentLoop {
    pub fn new(max_actions: u64, failure_threshold: u32) -> (r: Self)
        requires
            failure_threshold >= 1,
        ensures
            r.phase == LoopPhase::Idle,
            r.action_count == 0,
            r.max_actions == max_actions,
            r.failure_threshold == failure_threshold,
            r.stop_requested == false,
            r.monitoring.total_requests == 0,
            r.monitoring.successful_requests == 0,
            r.monitoring.failed_requests == 0,
            r.monitoring.consecutive_failures == 0,
            r.monitoring.items_collected == 0,
            r.monitoring.is_crawling == false,
    {
        AgentLoop {
            phase: LoopPhase::Idle,
            action_count: 0,
            max_actions,
            failure_threshold,
            stop_requested: false,
            monitoring: Monitoring::default(),
        }
    }

    /// Entering the loop: the starting address's tab is open and a
    /// page state was retrieved.
    pub fn enter(&mut self, now_ms: i64)
        requires
            old(self).phase == LoopPhase::Idle,
        ensures
            final(self).phase == LoopPhase::Navigated,
            final(self).action_count == old(self).action_count,
            final(self).max_actions == old(self).max_actions,
            final(self).failure_threshold == old(self).failure_threshold,
            final(self).stop_requested == old(self).stop_requested,
            final(self).monitoring == (Monitoring {
                is_crawling: true,
                started_at_ms: Some(now_ms),
                ..old(self).monitoring
            }),
    {
        self.phase = LoopPhase::Navigated;
        self.monitoring.mark_started(now_ms);
    }

    /// The current page state is about to be sent to the oracle.
    pub fn begin_decision(&mut self)
        requires
            old(self).phase == LoopPhase::Navigated || old(self).phase
                == LoopPhase::AwaitingDecision,
        ensures
            *final(self) == (AgentLoop { phase: LoopPhase::AwaitingDecision, ..*old(self) }),
    {
        self.phase = LoopPhase::AwaitingDecision;
    }

    /// Turn the oracle's raw text into the next concrete browser
    /// action, through the safe parser and the fixed kind-to-action
    /// mapping; unmapped kinds fall back to a state read.
    pub fn decide(&mut self, oracle_text: &str) -> (r: BrowserAction)
        requires
            old(self).phase == LoopPhase::AwaitingDecision,
        ensures
            *final(self) == (AgentLoop { phase: LoopPhase::Executing, ..*old(self) }),
            ({
                let kind = parse_safe_spec(oracle_text@).0;
                &&& kind == "click"@ ==> (r matches BrowserAction::Click { selector }
                    && selector@ == "a, button"@)
                &&& kind == "scroll"@ ==> (r matches BrowserAction::Scroll { direction, amount }
                    && direction == ScrollDirection::Down && amount == 500)
                &&& kind == "extract"@ ==> (r matches BrowserAction::ExtractText { selector }
                    && selector is None)
                &&& (kind != "click"@ && kind != "scroll"@ && kind != "extract"@) ==> (
                r matches BrowserAction::GetPageState)
            }),
    {
        proof {
            reveal_strlit("click");
            reveal_strlit("scroll");
            reveal_strlit("extract");
            assert("click"@.len() == 5);
            assert("scroll"@.len() == 6);
            assert("extract"@.len() == 7);
        }
        self.phase = LoopPhase::Executing;
        let (kind, _value, _reason) = ResponseParser::parse_safe(oracle_text);
        if str_eq(kind.as_str(), "click") {
            BrowserAction::Click { selector: String::from_str("a, button") }
        } else if str_eq(kind.as_str(), "scroll") {
            BrowserAction::Scroll { direction: ScrollDirection::Down, amount: 500 }
        } else if str_eq(kind.as_str(), "extract") {
            BrowserAction::ExtractText { selector: None }
        } else {
            BrowserAction::GetPageState
        }
    }

    /// The action has executed: update the counters and the failure
    /// streak.  A decision-oracle failure is reported here exactly like
    /// an execution failure.
    pub fn record_execution(&mut self, success: bool, now_ms: i64, error_kind: String)
        requires
            old(self).phase == LoopPhase::Executing,
            old(self).action_count < u64::MAX,
            old(self).monitoring.total_requests < u64::MAX,
            old(self).monitoring.successful_requests < u64::MAX,
            old(self).monitoring.failed_requests < u32::MAX,
            old(self).monitoring.consecutive_failures < u32::MAX,
        ensures
            final(self).phase == LoopPhase::Evaluated,
            final(self).action_count == old(self).action_count + 1,
            final(self).max_actions == old(self).max_actions,
            final(self).failure_threshold == old(self).failure_threshold,
            final(self).stop_requested == old(self).stop_requested,
            success ==> final(self).monitoring == spec_mon_success(
                old(self).monitoring,
                now_ms,
            ),
            !success ==> {
                &&& final(self).monitoring.total_requests == old(
                    self,
                ).monitoring.total_requests + 1
                &&& final(self).monitoring.failed_requests == old(
                    self,
                ).monitoring.failed_requests + 1
                &&& final(self).monitoring.consecutive_failures == old(
                    self,
                ).monitoring.consecutive_failures + 1
                &&& final(self).monitoring.counts_model() == bump_count(
                    old(self).monitoring.counts_model(),
                    error_kind@,
                )
                &&& final(self).monitoring.last_error matches Some(e) && e@ == error_kind@
                &&& final(self).monitoring.last_failure_at_ms == Some(now_ms)
                &&& final(self).monitoring.successful_requests == old(
                    self,
                ).monitoring.successful_requests
            },
    {
        self.action_count = self.action_count + 1;
        if success {
            self.monitoring.record_success(now_ms);
        } else {
            self.monitoring.record_failure(now_ms, error_kind);
        }
        self.phase = LoopPhase::Evaluated;
    }

    /// Leave the evaluated state: terminate when a bound is hit,
    /// otherwise await the next decision.
    pub fn advance(&mut self)
        requires
            old(self).phase == LoopPhase::Evaluated,
        ensures
            final(self).phase == (if should_terminate(
                old(self).action_count as int,
                old(self).max_actions as int,
                old(self).monitoring.consecutive_failures as int,
                old(self).failure_threshold as int,
                old(self).stop_requested,
            ) {
                LoopPhase::Terminated
            } else {
                LoopPhase::AwaitingDecision
            }),
            final(self).action_count == old(self).action_count,
            final(self).max_actions == old(self).max_actions,
            final(self).failure_threshold == old(self).failure_threshold,
            final(self).stop_requested == old(self).stop_requested,
            final(self).monitoring == old(self).monitoring,
            final(self).phase == LoopPhase::Terminated ==> final(self).monitoring.is_crawling
                == old(self).monitoring.is_crawling,
    {
        if self.action_count >= self.max_actions
            || self.monitoring.consecutive_failures >= self.failure_threshold
            || self.stop_requested {
            self.phase = LoopPhase::Terminated;
        } else {
            self.phase = LoopPhase::AwaitingDecision;
        }
    }

    /// Ask the loop to stop at the next evaluation.
    pub fn request_stop(&mut self)
        ensures
            *final(self) == (AgentLoop { stop_requested: true, ..*old(self) }),
    {
        self.stop_requested = true;
    }

    /// The loop has finished; report the final monitoring snapshot.
    pub fn get_monitoring(&self) -> (r: &Monitoring)
        ensures
            r == &self.monitoring,
    {
        &self.monitoring
    }
}

/// Whether the page looks like a product page, so extraction should
/// run: its HTML mentions product or price markup.
pub fn should_extract_products(state: &BrowserState) -> (r: bool)
    ensures
        r == (match state.html {
            Some(h) => contains_spec(h@, "product"@) || contains_spec(h@, "price"@)
                || contains_spec(h@, "상품"@),
            None => false,
        }),
{
    proof {
        reveal_strlit("product");
        reveal_strlit("price");
        reveal_strlit("상품");
    }
    match &state.html {
        Some(h) => {
            let v = chars_vec(h.as_str());
            let n = v.len();
            let r = contains_at(&v, 0, n, &chars_vec("product")) || contains_at(
                &v,
                0,
                n,
                &chars_vec("price"),
            ) || contains_at(&v, 0, n, &chars_vec("상품"));
            proof {
                assert(v@.subrange(0, n as int) =~= h@);
            }
            r
        },
        None => false,
    }
}

/// The bounded page-state summary sent to the oracle: the prompt names
/// the current address and carries at most 1000 characters of HTML.
pub open spec fn action_prompt_spec(url: Seq<char>, html: Seq<char>) -> Seq<char> {
    "현재 페이지: "@ + url
        + "\n\n다음 중 하나의 액션을 선택하세요:\n- click: 상품 링크나 버튼 클릭\n- scroll: 페이지 스크롤\n- extract: 현재 페이지에서 정보 추출\n\n응답 형식: action: [액션명], value: 1, reason: [이유]\n\nHTML: "@
        + html.take(if html.len() < 1000 {
        html.len() as int
    } else {
        1000
    })
}

/// Build the oracle prompt for the current page.
pub fn build_action_prompt(url: &str, html: &str) -> (r: String)
    ensures
        r@ == action_prompt_spec(url@, html@),
{
    let mut out = String::from_str("현재 페이지: ");
    out.append(url);
    out.append(
        "\n\n다음 중 하나의 액션을 선택하세요:\n- click: 상품 링크나 버튼 클릭\n- scroll: 페이지 스크롤\n- extract: 현재 페이지에서 정보 추출\n\n응답 형식: action: [액션명], value: 1, reason: [이유]\n\nHTML: ",
    );
    let truncated = truncate_chars(html, 1000);
    out.append(truncated.as_str());
    out
}

/// Keep at most the first 100 generated tokens that lie in the model's
/// vocabulary range; what the fallback is when none remain is the
/// caller's decision.
pub fn filter_output_tokens(tokens: &Vec<i64>) -> (r: Vec<i64>)
    ensures
        r@ == tokens@.take(if tokens@.len() < 100 {
            tokens@.len() as int
        } else {
            100
        }).filter(|t: i64| 0 < t < 151936),
{
    let bound = if tokens.len() < 100 {
        tokens.len()
    } else {
        100
    };
    let mut out: Vec<i64> = Vec::new();
    let mut i: usize = 0;
    proof {
        assert(tokens@.take(bound as int).take(0) =~= Seq::<i64>::empty());
        assert(out@ =~= Seq::<i64>::empty().filter(|t: i64| 0 < t < 151936));
    }
    while i < bound
        invariant
            0 <= i <= bound <= tokens@.len(),
            bound == (if tokens@.len() < 100 {
                tokens@.len() as int
            } else {
                100
            }),
            out@ == tokens@.take(bound as int).take(i as int).filter(|t: i64| 0 < t < 151936),
        decreases bound - i,
    {
        let t = tokens[i];
        proof {
            let taken = tokens@.take(bound as int);
            assert(taken.take(i + 1).drop_last() =~= taken.take(i as int));
            assert(taken.take(i + 1).last() == t);
            reveal_with_fuel(Seq::filter, 2);
        }
        if 0 < t && t < 151936 {
            out.push(t);
        }
        i = i + 1;
    }
    proof {
        assert(tokens@.take(bound as int).take(bound as int) =~= tokens@.take(bound as int));
    }
    out
}

} // verus!
