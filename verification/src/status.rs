//! The ordered health verdict and its severity ranking.

use vstd::prelude::*;

verus! {

/// One probe's verdict, or the overall verdict of a whole pass.
///
/// The severity order is total and load-bearing: aggregation picks the
/// maximum, so `Healthy < Unknown < Degraded < Unhealthy`.
#[derive(Clone, Copy, Debug, PartialEq, Eq, Structural)]
pub enum HealthStatus {
    Healthy,
    Unhealthy,
    Degraded,
    Unknown,
}

/// Severity rank: `Healthy` (0) < `Unknown` (1) < `Degraded` (2) < `Unhealthy` (3).
pub open spec fn severity(s: HealthStatus) -> nat {
    match s {
        HealthStatus::Healthy => 0,
        HealthStatus::Unknown => 1,
        HealthStatus::Degraded => 2,
        HealthStatus::Unhealthy => 3,
    }
}

/// The more severe of two statuses; the left one wins a tie.
pub open spec fn status_max(a: HealthStatus, b: HealthStatus) -> HealthStatus {
    if severity(a) >= severity(b) {
        a
    } else {
        b
    }
}

impl HealthStatus {
    /// Executable severity rank, matching [`severity`].
    pub fn severity_rank(&self) -> (r: u8)
        ensures
            r as nat == severity(*self),
    {
        match self {
            HealthStatus::Healthy => 0,
            HealthStatus::Unknown => 1,
            HealthStatus::Degraded => 2,
            HealthStatus::Unhealthy => 3,
        }
    }

    /// The more severe of `self` and `other`, matching [`status_max`].
    pub fn max_with(self, other: HealthStatus) -> (r: HealthStatus)
        ensures
            r == status_max(self, other),
    {
        if self.severity_rank() >= other.severity_rank() {
            self
        } else {
            other
        }
    }

    /// Display label: the marker and name a rendering prints for this status.
    pub fn label(&self) -> (r: String)
        ensures
            self is Healthy ==> r@ == "Healthy"@,
            self is Unhealthy ==> r@ == "Unhealthy"@,
            self is Degraded ==> r@ == "Degraded"@,
            self is Unknown ==> r@ == "Unknown"@,
    {
        match self {
            HealthStatus::Healthy => String::from_str("Healthy"),
            HealthStatus::Unhealthy => String::from_str("Unhealthy"),
            HealthStatus::Degraded => String::from_str("Degraded"),
            HealthStatus::Unknown => String::from_str("Unknown"),
        }
    }
}

} // verus!
