//! Health-probe aggregation engine.
//!
//! A batch of independent probes (containers, databases, caches,
//! coordination services, HTTP endpoints, GPU hardware) each yields one
//! [`HealthCheckResult`]; the aggregator reduces a batch to a single
//! [`HealthReport`] ranked by the severity order on [`HealthStatus`],
//! and a [`Monitor`](monitor::Monitor) drives repeated passes with a
//! bounded run count and cooperative cancellation.
//!
//! The engine itself performs no I/O: probe implementations hand it
//! plain observations and take plain verdicts back.

pub mod checks;
pub mod docker;
pub mod gpu;
pub mod matching;
pub mod monitor;
pub mod parse;
pub mod report;
pub mod result;
pub mod runner;
pub mod services;
pub mod split;
pub mod status;
pub mod text;
mod time;

pub use checks::SystemChecker;
pub use docker::ContainerInfo;
pub use gpu::{AppleGpuInfo, GpuInfo, GpuMonitor, GpuProcess};
pub use monitor::{Monitor, MonitorAction, MonitorPhase};
pub use report::{HealthReport, StatusAggregator};
pub use result::HealthCheckResult;
pub use runner::{ProbeOutcome, ProbeRunner};
pub use status::HealthStatus;
