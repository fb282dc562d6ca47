//! The outcome of one probe invocation.

use vstd::prelude::*;

use crate::status::HealthStatus;

verus! {

/// One probe's outcome within a single aggregation pass.
///
/// Exactly one of these exists per probe invocation, whatever happened
/// inside the probe: the runner synthesizes one for a timeout or an
/// internal fault, so a broken probe can never abort its batch.
#[derive(Clone, Debug)]
pub struct HealthCheckResult {
    /// Non-empty identifier, unique within one pass.
    pub service_name: String,
    /// The probe's verdict.
    pub status: HealthStatus,
    /// How long the probe took to produce its verdict, in milliseconds.
    pub response_time_ms: u64,
    /// Human-readable free text; may be empty.
    pub details: String,
    /// Completion time, in milliseconds since the Unix epoch.
    pub timestamp: i64,
    /// Structured cause, present exactly when the probe itself failed
    /// abnormally rather than reporting on a degraded or unhealthy target.
    pub error_message: Option<String>,
}

} // verus!
