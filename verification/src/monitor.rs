//! Monitoring: monotonic counters and timers that make the agent loop
//! observable.  Fields are updated independently; consumers read an
//! immutable snapshot and must tolerate skew between fields.

use vstd::prelude::*;
use vstd::string::*;

verus! {

/// Per-session browser metrics (the lock-free counters of the manager).
#[derive(Debug)]
pub struct BrowserMetrics {
    /// Navigations performed.
    pub page_loads_total: u64,
    /// All actions performed.
    pub actions_total: u64,
    /// Actions that failed.
    pub errors_total: u64,
    /// Gauge of currently open tabs; rises and falls.
    pub active_tabs: usize,
    /// Accumulated action execution time in milliseconds.
    pub total_action_time_ms: u64,
}

/// An immutable reading of the metrics; fields are sampled
/// independently, so cross-field consistency is not promised.
#[derive(Debug)]
pub struct BrowserMetricsSnapshot {
    pub page_loads_total: u64,
    pub actions_total: u64,
    pub errors_total: u64,
    pub active_tabs: usize,
    pub total_action_time_ms: u64,
    /// `total_action_time_ms / actions_total`, 0 before any action.
    pub avg_action_time_ms: u64,
}

impl Default for BrowserMetrics {
    fn default() -> (r: Self)
        ensures
            r.page_loads_total == 0,
            r.actions_total == 0,
            r.errors_total == 0,
            r.active_tabs == 0,
            r.total_action_time_ms == 0,
    {
        BrowserMetrics {
            page_loads_total: 0,
            actions_total: 0,
            errors_total: 0,
            active_tabs: 0,
            total_action_time_ms: 0,
        }
    }
}

impl BrowserMetrics {
    /// Book one executed action: every action counts, a navigation also
    /// counts as a page load, the duration accumulates, and a failure
    /// bumps the error counter.
    pub fn record_action(&mut self, is_navigation: bool, duration_ms: u64, failed: bool)
        requires
            old(self).actions_total < u64::MAX,
            old(self).page_loads_total < u64::MAX,
            old(self).errors_total < u64::MAX,
            old(self).total_action_time_ms + duration_ms <= u64::MAX,
        ensures
            final(self).actions_total == old(self).actions_total + 1,
            final(self).page_loads_total == old(self).page_loads_total + (if is_navigation {
                1int
            } else {
                0int
            }),
            final(self).errors_total == old(self).errors_total + (if failed {
                1int
            } else {
                0int
            }),
            final(self).total_action_time_ms == old(self).total_action_time_ms + duration_ms,
            final(self).active_tabs == old(self).active_tabs,
    {
        self.actions_total = self.actions_total + 1;
        if is_navigation {
            self.page_loads_total = self.page_loads_total + 1;
        }
        self.total_action_time_ms = self.total_action_time_ms + duration_ms;
        if failed {
            self.errors_total = self.errors_total + 1;
        }
    }

    pub fn increment_active_tabs(&mut self)
        requires
            old(self).active_tabs < usize::MAX,
        ensures
            final(self).active_tabs == old(self).active_tabs + 1,
            final(self).page_loads_total == old(self).page_loads_total,
            final(self).actions_total == old(self).actions_total,
            final(self).errors_total == old(self).errors_total,
            final(self).total_action_time_ms == old(self).total_action_time_ms,
    {
        self.active_tabs = self.active_tabs + 1;
    }

    /// The caller keeps the gauge from going below zero.
    pub fn decrement_active_tabs(&mut self)
        requires
            old(self).active_tabs >= 1,
        ensures
            final(self).active_tabs == old(self).active_tabs - 1,
            final(self).page_loads_total == old(self).page_loads_total,
            final(self).actions_total == old(self).actions_total,
            final(self).errors_total == old(self).errors_total,
            final(self).total_action_time_ms == old(self).total_action_time_ms,
    {
        self.active_tabs = self.active_tabs - 1;
    }

    /// A snapshot of every counter, with the average computed.
    pub fn get_metrics(&self) -> (r: BrowserMetricsSnapshot)
        ensures
            r.page_loads_total == self.page_loads_total,
            r.actions_total == self.actions_total,
            r.errors_total == self.errors_total,
            r.active_tabs == self.active_tabs,
            r.total_action_time_ms == self.total_action_time_ms,
            r.avg_action_time_ms == (if self.actions_total > 0 {
                self.total_action_time_ms as int / self.actions_total as int
            } else {
                0int
            }),
    {
        BrowserMetricsSnapshot {
            page_loads_total: self.page_loads_total,
            actions_total: self.actions_total,
            errors_total: self.errors_total,
            active_tabs: self.active_tabs,
            total_action_time_ms: self.total_action_time_ms,
            avg_action_time_ms: if self.actions_total > 0 {
                self.total_action_time_ms / self.actions_total
            } else {
                0
            },
        }
    }
}

/// Error counts by kind, first occurrence first.
pub open spec fn bump_count(m: Seq<(Seq<char>, u32)>, kind: Seq<char>) -> Seq<(Seq<char>, u32)>
    decreases m.len(),
{
    if m.len() == 0 {
        seq![(kind, 1u32)]
    } else if m[0].0 == kind {
        m.update(0, (kind, (if m[0].1 < u32::MAX {
            m[0].1 + 1
        } else {
            m[0].1 as int
        }) as u32))
    } else {
        seq![m[0]].add(bump_count(m.drop_first(), kind))
    }
}

/// Loop-health bookkeeping owned by the orchestrator.
#[derive(Debug)]
pub struct Monitoring {
    pub total_requests: u64,
    pub successful_requests: u64,
    pub failed_requests: u32,
    pub consecutive_failures: u32,
    pub items_collected: u64,
    pub duplicate_items: u64,
    pub new_items: u64,
    pub avg_response_time_ms: u64,
    pub requests_per_minute: u64,
    pub last_request_time_ms: Option<i64>,
    pub started_at_ms: Option<i64>,
    pub last_success_at_ms: Option<i64>,
    pub last_failure_at_ms: Option<i64>,
    pub next_scheduled_at_ms: Option<i64>,
    pub memory_usage: u64,
    pub peak_memory_usage: u64,
    pub error_counts: Vec<(String, u32)>,
    pub last_error: Option<String>,
    pub crawl_interval_ms: u64,
    pub timeout_ms: u64,
    pub max_retries: u32,
    pub current_retry: u32,
    pub is_crawling: bool,
}

impl Monitoring {
    pub open spec fn counts_model(&self) -> Seq<(Seq<char>, u32)> {
        self.error_counts@.map_values(|e: (String, u32)| (e.0@, e.1))
    }
}

impl Default for Monitoring {
    fn default() -> (r: Self)
        ensures
            r.total_requests == 0,
            r.successful_requests == 0,
            r.failed_requests == 0,
            r.consecutive_failures == 0,
            r.items_collected == 0,
            r.duplicate_items == 0,
            r.new_items == 0,
            r.avg_response_time_ms == 0,
            r.requests_per_minute == 0,
            r.last_request_time_ms is None,
            r.started_at_ms is None,
            r.last_success_at_ms is None,
            r.last_failure_at_ms is None,
            r.next_scheduled_at_ms is None,
            r.memory_usage == 0,
            r.peak_memory_usage == 0,
            r.counts_model() == Seq::<(Seq<char>, u32)>::empty(),
            r.last_error is None,
            r.crawl_interval_ms == 60000,
            r.timeout_ms == 30000,
            r.max_retries == 3,
            r.current_retry == 0,
            r.is_crawling == false,
    {
        let m = Monitoring {
            total_requests: 0,
            successful_requests: 0,
            failed_requests: 0,
            consecutive_failures: 0,
            items_collected: 0,
            duplicate_items: 0,
            new_items: 0,
            avg_response_time_ms: 0,
            requests_per_minute: 0,
            last_request_time_ms: None,
            started_at_ms: None,
            last_success_at_ms: None,
            last_failure_at_ms: None,
            next_scheduled_at_ms: None,
            memory_usage: 0,
            peak_memory_usage: 0,
            error_counts: Vec::new(),
            last_error: None,
            crawl_interval_ms: 60000,
            timeout_ms: 30000,
            max_retries: 3,
            current_retry: 0,
            is_crawling: false,
        };
        proof {
            assert(m.counts_model() =~= Seq::<(Seq<char>, u32)>::empty());
        }
        m
    }
}

/// A successful request: totals rise, the failure streak resets.
pub open spec fn spec_mon_success(m: Monitoring, now: i64) -> Monitoring {
    Monitoring {
        total_requests: (m.total_requests + 1) as u64,
        successful_requests: (m.successful_requests + 1) as u64,
        consecutive_failures: 0,
        last_request_time_ms: Some(now),
        last_success_at_ms: Some(now),
        ..m
    }
}

impl Monitoring {
    pub fn record_success(&mut self, now_ms: i64)
        requires
            old(self).total_requests < u64::MAX,
            old(self).successful_requests < u64::MAX,
        ensures
            *final(self) == spec_mon_success(*old(self), now_ms),
    {
        self.total_requests = self.total_requests + 1;
        self.successful_requests = self.successful_requests + 1;
        self.consecutive_failures = 0;
        self.last_request_time_ms = Some(now_ms);
        self.last_success_at_ms = Some(now_ms);
    }

    pub fn record_failure(&mut self, now_ms: i64, kind: String)
        requires
            old(self).total_requests < u64::MAX,
            old(self).failed_requests < u32::MAX,
            old(self).consecutive_failures < u32::MAX,
        ensures
            final(self).total_requests == old(self).total_requests + 1,
            final(self).failed_requests == old(self).failed_requests + 1,
            final(self).consecutive_failures == old(self).consecutive_failures + 1,
            final(self).last_request_time_ms == Some(now_ms),
            final(self).last_failure_at_ms == Some(now_ms),
            final(self).last_error matches Some(e) && e@ == kind@,
            final(self).counts_model() == bump_count(old(self).counts_model(), kind@),
            final(self).successful_requests == old(self).successful_requests,
            final(self).items_collected == old(self).items_collected,
            final(self).started_at_ms == old(self).started_at_ms,
            final(self).last_success_at_ms == old(self).last_success_at_ms,
            final(self).is_crawling == old(self).is_crawling,
    {
        self.total_requests = self.total_requests + 1;
        self.failed_requests = self.failed_requests + 1;
        self.consecutive_failures = self.consecutive_failures + 1;
        self.last_request_time_ms = Some(now_ms);
        self.last_failure_at_ms = Some(now_ms);
        bump_error_count(&mut self.error_counts, &kind);
        self.last_error = Some(kind);
    }

    /// One more record collected.
    pub fn record_item(&mut self)
        requires
            old(self).items_collected < u64::MAX,
        ensures
            *final(self) == (Monitoring {
                items_collected: (old(self).items_collected + 1) as u64,
                ..*old(self)
            }),
    {
        self.items_collected = self.items_collected + 1;
    }

    /// The loop has started crawling.
    pub fn mark_started(&mut self, now_ms: i64)
        ensures
            *final(self) == (Monitoring {
                is_crawling: true,
                started_at_ms: Some(now_ms),
                ..*old(self)
            }),
    {
        self.is_crawling = true;
        self.started_at_ms = Some(now_ms);
    }

    /// The loop has stopped crawling.
    pub fn mark_stopped(&mut self)
        ensures
            *final(self) == (Monitoring { is_crawling: false, ..*old(self) }),
    {
        self.is_crawling = false;
    }
}

fn bump_error_count(counts: &mut Vec<(String, u32)>, kind: &String)
    ensures
        final(counts)@.map_values(|e: (String, u32)| (e.0@, e.1)) == bump_count(
            old(counts)@.map_values(|e: (String, u32)| (e.0@, e.1)),
            kind@,
        ),
{
    let ghost m = counts@.map_values(|e: (String, u32)| (e.0@, e.1));
    proof {
        assert(m.skip(0) =~= m);
        assert(m.subrange(0, 0) =~= Seq::<(Seq<char>, u32)>::empty());
        assert(m.subrange(0, 0) + bump_count(m.skip(0), kind@) =~= bump_count(m, kind@));
    }
    let mut i: usize = 0;
    while i < counts.len()
        invariant
            counts@ == old(counts)@,
            m == counts@.map_values(|e: (String, u32)| (e.0@, e.1)),
            0 <= i <= counts@.len(),
            forall|j: int| 0 <= j < i ==> (#[trigger] m[j]).0 != kind@,
            bump_count(m, kind@) == m.subrange(0, i as int) + bump_count(
                m.skip(i as int),
                kind@,
            ),
        decreases counts@.len() - i,
    {
        let ghost rest = m.skip(i as int);
        if counts[i].0 == *kind {
            let c = counts[i].1;
            let nc = if c < u32::MAX {
                c + 1
            } else {
                c
            };
            let entry = (kind.clone(), nc);
            counts.set(i, entry);
            proof {
                assert(rest[0].0 == kind@);
                assert(bump_count(rest, kind@) == rest.update(0, (kind@, nc)));
                assert(counts@.map_values(|e: (String, u32)| (e.0@, e.1)) =~= m.subrange(
                    0,
                    i as int,
                ) + rest.update(0, (kind@, nc)));
            }
            return ;
        }
        proof {
            assert(rest[0] == m[i as int]);
            assert(rest[0].0 != kind@);
            assert(rest.drop_first() =~= m.skip(i + 1));
            assert(seq![rest[0]].add(bump_count(rest.drop_first(), kind@)) =~= seq![
                m[i as int],
            ].add(bump_count(m.skip(i + 1), kind@)));
            assert(m.subrange(0, i as int) + bump_count(m.skip(i as int), kind@) =~= m.subrange(
                0,
                i + 1,
            ) + bump_count(m.skip(i + 1), kind@));
        }
        i = i + 1;
    }
    let entry = (kind.clone(), 1u32);
    counts.push(entry);
    proof {
        assert(m.skip(m.len() as int).len() == 0);
        assert(bump_count(m.skip(m.len() as int), kind@) =~= seq![(kind@, 1u32)]);
        assert(m.subrange(0, m.len() as int) =~= m);
        assert(counts@.map_values(|e: (String, u32)| (e.0@, e.1)) =~= m + seq![(kind@, 1u32)]);
        assert(m + seq![(kind@, 1u32)] =~= m.subrange(0, m.len() as int) + bump_count(
            m.skip(m.len() as int),
            kind@,
        ));
    }
}

} // verus!
