//! Settling raw probe outcomes into results: the failure-isolation
//! boundary.
//!
//! Probe implementations (and the harness that executes them with a
//! per-probe deadline) report what happened as a [`ProbeOutcome`]; the
//! runner turns each outcome into exactly one
//! [`HealthCheckResult`], so no timeout or internal fault can abort a
//! batch or touch a sibling probe's result.

use vstd::prelude::*;

use crate::result::HealthCheckResult;
use crate::status::HealthStatus;
use crate::time::now_millis;

verus! {

/// What one probe execution came to, before settlement.
#[derive(Clone, Debug)]
pub enum ProbeOutcome {
    /// The probe returned a verdict of its own within its deadline.
    Completed { status: HealthStatus, details: String, error_message: Option<String> },
    /// The probe did not finish within its deadline. Merely slow is not
    /// confirmed down, so this settles as `Degraded`, never `Unhealthy`.
    TimedOut,
    /// The probe failed abnormally: an unexpected fault its
    /// implementation did not translate itself. `details` is the fixed
    /// text the probe's caller shows; `message` is the fault description.
    Faulted { details: String, message: String },
}

/// How a settled result relates to the raw outcome it came from.
pub open spec fn settled_from(
    r: HealthCheckResult,
    service_name: String,
    outcome: ProbeOutcome,
    response_time_ms: u64,
    timestamp: i64,
) -> bool {
    &&& r.service_name == service_name
    &&& r.response_time_ms == response_time_ms
    &&& r.timestamp == timestamp
    &&& match outcome {
        ProbeOutcome::Completed { status, details, error_message } => {
            &&& r.status == status
            &&& r.details == details
            &&& r.error_message == error_message
        },
        ProbeOutcome::TimedOut => {
            &&& r.status == HealthStatus::Degraded
            &&& r.details@ == "Timed out"@
            &&& r.error_message matches Some(m) && m@ == "timeout"@
        },
        ProbeOutcome::Faulted { details, message } => {
            &&& r.status == HealthStatus::Unhealthy
            &&& r.details == details
            &&& r.error_message == Some(message)
        },
    }
}

/// Executes batches of probes by settling what each one came to.
///
/// The execution itself (I/O, deadlines, joining concurrent probes) is
/// the harness's concern; the runner owns the verdict each raw outcome
/// settles to, and the guarantee that results stand in invocation order,
/// one per probe.
pub struct ProbeRunner;

impl ProbeRunner {
    /// Settles one probe's outcome into its result.
    ///
    /// A timeout settles as `Degraded` with error `"timeout"`; an
    /// abnormal fault settles as `Unhealthy` with the fault description
    /// as error; a completed probe's own verdict passes through.
    pub fn settle(
        service_name: String,
        outcome: ProbeOutcome,
        response_time_ms: u64,
        timestamp: i64,
    ) -> (r: HealthCheckResult)
        ensures
            settled_from(r, service_name, outcome, response_time_ms, timestamp),
    {
        match outcome {
            ProbeOutcome::Completed { status, details, error_message } => HealthCheckResult {
                service_name,
                status,
                response_time_ms,
                details,
                timestamp,
                error_message,
            },
            ProbeOutcome::TimedOut => HealthCheckResult {
                service_name,
                status: HealthStatus::Degraded,
                response_time_ms,
                details: String::from_str("Timed out"),
                timestamp,
                error_message: Some(String::from_str("timeout")),
            },
            ProbeOutcome::Faulted { details, message } => HealthCheckResult {
                service_name,
                status: HealthStatus::Unhealthy,
                response_time_ms,
                details,
                timestamp,
                error_message: Some(message),
            },
        }
    }

    /// Settles one probe's outcome, stamped with the current wall-clock
    /// time; otherwise exactly [`Self::settle`].
    pub fn settle_now(service_name: String, outcome: ProbeOutcome, response_time_ms: u64) -> (r:
        HealthCheckResult)
        ensures
            settled_from(r, service_name, outcome, response_time_ms, r.timestamp),
    {
        let timestamp = now_millis();
        Self::settle(service_name, outcome, response_time_ms, timestamp)
    }

    /// Settles a whole batch, one result per probe, in input order.
    ///
    /// Each entry is `(service_name, outcome, response_time_ms)`. Every
    /// result depends only on its own entry: one probe's timeout or fault
    /// leaves every sibling's result exactly what its own outcome says.
    pub fn settle_batch(outcomes: Vec<(String, ProbeOutcome, u64)>, timestamp: i64) -> (r: Vec<
        HealthCheckResult,
    >)
        ensures
            r@.len() == outcomes@.len(),
            forall|i: int|
                0 <= i < r@.len() ==> settled_from(
                    r@[i],
                    outcomes@[i].0,
                    outcomes@[i].1,
                    outcomes@[i].2,
                    timestamp,
                ),
    {
        let ghost all = outcomes@;
        let total = outcomes.len();
        let mut results: Vec<HealthCheckResult> = Vec::new();
        let mut remaining = outcomes;
        let mut i: usize = 0;
        // Settling consumes each entry, so the batch is drained from the
        // front while results grow at the back.
        while remaining.len() > 0
            invariant
                total == all.len(),
                i + remaining@.len() == all.len(),
                results@.len() == i,
                remaining@ == all.skip(i as int),
                forall|j: int|
                    0 <= j < i ==> settled_from(
                        results@[j],
                        all[j].0,
                        all[j].1,
                        all[j].2,
                        timestamp,
                    ),
            decreases remaining@.len(),
        {
            let (service_name, outcome, response_time_ms) = remaining.remove(0);
            proof {
                assert(all.skip(i as int)[0] == all[i as int]);
                assert(all.skip(i as int).skip(1) =~= all.skip(i + 1 as int));
            }
            let settled = Self::settle(service_name, outcome, response_time_ms, timestamp);
            results.push(settled);
            i = i + 1;
        }
        results
    }
}

} // verus!
