//! Reducing a batch of probe results to one ranked health report.

use vstd::prelude::*;

use crate::result::HealthCheckResult;
use crate::status::{severity, status_max, HealthStatus};
use crate::text::{dec_chars, u64_to_string};
use crate::time::now_millis;

verus! {

/// Immutable snapshot produced by one aggregation pass.
#[derive(Debug)]
pub struct HealthReport {
    /// When the aggregation ran, in milliseconds since the Unix epoch.
    pub timestamp: i64,
    /// The maximum severity across `checks`; `Unknown` for an empty pass.
    pub overall_status: HealthStatus,
    /// `checks.len()`.
    pub total_checks: usize,
    /// How many checks reported `Healthy`.
    pub healthy_count: usize,
    /// How many checks reported `Unhealthy`.
    pub unhealthy_count: usize,
    /// How many checks reported `Degraded`.
    pub degraded_count: usize,
    /// How many checks reported `Unknown`.
    pub unknown_count: usize,
    /// The per-probe results, in invocation order.
    pub checks: Vec<HealthCheckResult>,
    /// Derived text restating the counts and the total; a view, never
    /// authoritative.
    pub summary: String,
}

/// The statuses of a result sequence, in order.
pub open spec fn statuses_of(rs: Seq<HealthCheckResult>) -> Seq<HealthStatus> {
    rs.map_values(|r: HealthCheckResult| r.status)
}

/// How many elements of `s` equal `st`.
pub open spec fn count_status(s: Seq<HealthStatus>, st: HealthStatus) -> nat
    decreases s.len(),
{
    if s.len() == 0 {
        0
    } else {
        count_status(s.drop_last(), st) + if s.last() == st {
            1nat
        } else {
            0nat
        }
    }
}

/// The overall verdict for a status sequence: the maximum severity for a
/// non-empty sequence, `Unknown` for an empty one (there is nothing to be
/// healthy or unhealthy about).
pub open spec fn overall_of(s: Seq<HealthStatus>) -> HealthStatus
    decreases s.len(),
{
    if s.len() == 0 {
        HealthStatus::Unknown
    } else if s.len() == 1 {
        s[0]
    } else {
        status_max(overall_of(s.drop_last()), s.last())
    }
}

/// The summary line restating the four counts and the total.
pub open spec fn summary_chars(h: nat, u: nat, d: nat, k: nat, total: nat) -> Seq<char> {
    "Health Check Summary: "@ + dec_chars(h) + " healthy, "@ + dec_chars(u) + " unhealthy, "@
        + dec_chars(d) + " degraded, "@ + dec_chars(k) + " unknown out of "@ + dec_chars(total)
        + " total services"@
}

/// Law: the four status counts partition a sequence, so they always sum
/// to its length.
pub proof fn lemma_counts_partition(s: Seq<HealthStatus>)
    ensures
        count_status(s, HealthStatus::Healthy) + count_status(s, HealthStatus::Unhealthy)
            + count_status(s, HealthStatus::Degraded) + count_status(s, HealthStatus::Unknown)
            == s.len(),
    decreases s.len(),
{
    if s.len() > 0 {
        lemma_counts_partition(s.drop_last());
    }
}

/// Law: for a non-empty sequence the overall verdict is the maximum by
/// severity — no element is more severe, and some element attains it.
pub proof fn lemma_overall_is_max(s: Seq<HealthStatus>)
    requires
        s.len() > 0,
    ensures
        forall|i: int| 0 <= i < s.len() ==> severity(s[i]) <= severity(overall_of(s)),
        exists|i: int| 0 <= i < s.len() && s[i] == overall_of(s),
    decreases s.len(),
{
    if s.len() == 1 {
        assert(s[0] == overall_of(s));
    } else {
        let head = s.drop_last();
        lemma_overall_is_max(head);
        assert forall|i: int| 0 <= i < s.len() implies severity(s[i]) <= severity(
            overall_of(s),
        ) by {
            if i < s.len() - 1 {
                assert(s[i] == head[i]);
            }
        }
        if severity(s.last()) >= severity(overall_of(head)) {
            assert(s[s.len() - 1] == overall_of(s));
        } else {
            let i = choose|i: int| 0 <= i < head.len() && head[i] == overall_of(head);
            assert(s[i] == overall_of(s));
        }
    }
}

/// Law: an empty pass has the `Unknown` overall verdict and all counts
/// zero.
pub proof fn lemma_empty_pass(s: Seq<HealthStatus>)
    requires
        s.len() == 0,
    ensures
        overall_of(s) == HealthStatus::Unknown,
        forall|st: HealthStatus| count_status(s, st) == 0,
{
}

proof fn lemma_count_push(s: Seq<HealthStatus>, x: HealthStatus, st: HealthStatus)
    ensures
        count_status(s.push(x), st) == count_status(s, st) + if x == st {
            1nat
        } else {
            0nat
        },
{
    assert(s.push(x).drop_last() =~= s);
    assert(s.push(x).last() == x);
}

proof fn lemma_overall_push(s: Seq<HealthStatus>, x: HealthStatus)
    requires
        s.len() > 0,
    ensures
        overall_of(s.push(x)) == status_max(overall_of(s), x),
{
    assert(s.push(x).drop_last() =~= s);
    assert(s.push(x).last() == x);
}

/// Pure reduction of a batch of per-probe results to one report.
///
/// All failure handling happened earlier, at the runner boundary: given
/// well-formed results, aggregation cannot fail.
pub struct StatusAggregator;

impl StatusAggregator {
    /// Reduces `checks` to a report stamped `timestamp`.
    ///
    /// The overall verdict is the maximum severity across the batch
    /// (`Unknown` for an empty batch), the counts are one increment per
    /// result's status, and the summary restates counts and total.
    pub fn aggregate(checks: Vec<HealthCheckResult>, timestamp: i64) -> (r: HealthReport)
        ensures
            r.checks == checks,
            r.timestamp == timestamp,
            r.total_checks == checks@.len(),
            r.overall_status == overall_of(statuses_of(checks@)),
            r.healthy_count as nat == count_status(statuses_of(checks@), HealthStatus::Healthy),
            r.unhealthy_count as nat == count_status(
                statuses_of(checks@),
                HealthStatus::Unhealthy,
            ),
            r.degraded_count as nat == count_status(statuses_of(checks@), HealthStatus::Degraded),
            r.unknown_count as nat == count_status(statuses_of(checks@), HealthStatus::Unknown),
            r.summary@ == summary_chars(
                r.healthy_count as nat,
                r.unhealthy_count as nat,
                r.degraded_count as nat,
                r.unknown_count as nat,
                checks@.len(),
            ),
    {
        let ghost all = statuses_of(checks@);
        let mut healthy_count: usize = 0;
        let mut unhealthy_count: usize = 0;
        let mut degraded_count: usize = 0;
        let mut unknown_count: usize = 0;
        let mut overall_status = HealthStatus::Unknown;
        let mut i: usize = 0;
        while i < checks.len()
            invariant
                i <= checks@.len(),
                all == statuses_of(checks@),
                healthy_count as nat == count_status(all.take(i as int), HealthStatus::Healthy),
                unhealthy_count as nat == count_status(
                    all.take(i as int),
                    HealthStatus::Unhealthy,
                ),
                degraded_count as nat == count_status(all.take(i as int), HealthStatus::Degraded),
                unknown_count as nat == count_status(all.take(i as int), HealthStatus::Unknown),
                healthy_count + unhealthy_count + degraded_count + unknown_count == i,
                overall_status == overall_of(all.take(i as int)),
            decreases checks@.len() - i,
        {
            let st = checks[i].status;
            proof {
                assert(all.take(i + 1 as int) =~= all.take(i as int).push(all[i as int]));
                assert(all[i as int] == checks@[i as int].status);
                lemma_count_push(all.take(i as int), st, HealthStatus::Healthy);
                lemma_count_push(all.take(i as int), st, HealthStatus::Unhealthy);
                lemma_count_push(all.take(i as int), st, HealthStatus::Degraded);
                lemma_count_push(all.take(i as int), st, HealthStatus::Unknown);
                if i > 0 {
                    lemma_overall_push(all.take(i as int), st);
                }
            }
            match st {
                HealthStatus::Healthy => healthy_count = healthy_count + 1,
                HealthStatus::Unhealthy => unhealthy_count = unhealthy_count + 1,
                HealthStatus::Degraded => degraded_count = degraded_count + 1,
                HealthStatus::Unknown => unknown_count = unknown_count + 1,
            }
            overall_status = if i == 0 {
                st
            } else {
                overall_status.max_with(st)
            };
            i = i + 1;
        }
        proof {
            assert(all.take(checks@.len() as int) =~= all);
        }
        let total_checks = checks.len();
        let summary = Self::render_summary(
            healthy_count,
            unhealthy_count,
            degraded_count,
            unknown_count,
            total_checks,
        );
        HealthReport {
            timestamp,
            overall_status,
            total_checks,
            healthy_count,
            unhealthy_count,
            degraded_count,
            unknown_count,
            checks,
            summary,
        }
    }

    /// Reduces `checks` to a report stamped with the current wall-clock
    /// time; otherwise exactly [`Self::aggregate`].
    pub fn aggregate_now(checks: Vec<HealthCheckResult>) -> (r: HealthReport)
        ensures
            r.checks == checks,
            r.total_checks == checks@.len(),
            r.overall_status == overall_of(statuses_of(checks@)),
            r.healthy_count as nat == count_status(statuses_of(checks@), HealthStatus::Healthy),
            r.unhealthy_count as nat == count_status(
                statuses_of(checks@),
                HealthStatus::Unhealthy,
            ),
            r.degraded_count as nat == count_status(statuses_of(checks@), HealthStatus::Degraded),
            r.unknown_count as nat == count_status(statuses_of(checks@), HealthStatus::Unknown),
            r.summary@ == summary_chars(
                r.healthy_count as nat,
                r.unhealthy_count as nat,
                r.degraded_count as nat,
                r.unknown_count as nat,
                checks@.len(),
            ),
    {
        let timestamp = now_millis();
        Self::aggregate(checks, timestamp)
    }

    /// The summary line, matching [`summary_chars`].
    pub fn render_summary(h: usize, u: usize, d: usize, k: usize, total: usize) -> (r: String)
        ensures
            r@ == summary_chars(h as nat, u as nat, d as nat, k as nat, total as nat),
    {
        let mut s = String::from_str("Health Check Summary: ");
        s.append(u64_to_string(h as u64).as_str());
        s.append(" healthy, ");
        s.append(u64_to_string(u as u64).as_str());
        s.append(" unhealthy, ");
        s.append(u64_to_string(d as u64).as_str());
        s.append(" degraded, ");
        s.append(u64_to_string(k as u64).as_str());
        s.append(" unknown out of ");
        s.append(u64_to_string(total as u64).as_str());
        s.append(" total services");
        proof {
            assert(s@ =~= summary_chars(h as nat, u as nat, d as nat, k as nat, total as nat));
        }
        s
    }
}

} // verus!
