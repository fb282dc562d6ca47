use health_checker::{HealthCheckResult, HealthStatus, StatusAggregator};

fn result_with(name: &str, status: HealthStatus) -> HealthCheckResult {
    HealthCheckResult {
        service_name: name.to_string(),
        status,
        response_time_ms: 5,
        details: String::new(),
        timestamp: 1_700_000_000_000,
        error_message: None,
    }
}

#[test]
fn mixed_batch_ranks_unhealthy_overall() {
    let checks = vec![
        result_with("a", HealthStatus::Healthy),
        result_with("b", HealthStatus::Degraded),
        result_with("c", HealthStatus::Healthy),
        result_with("d", HealthStatus::Unhealthy),
    ];
    let report = StatusAggregator::aggregate(checks, 7);
    assert!(matches!(report.overall_status, HealthStatus::Unhealthy));
    assert_eq!(report.healthy_count, 2);
    assert_eq!(report.degraded_count, 1);
    assert_eq!(report.unhealthy_count, 1);
    assert_eq!(report.unknown_count, 0);
    assert_eq!(report.total_checks, 4);
    assert_eq!(report.timestamp, 7);
}

#[test]
fn counts_partition_the_batch() {
    let checks = vec![
        result_with("a", HealthStatus::Unknown),
        result_with("b", HealthStatus::Degraded),
        result_with("c", HealthStatus::Degraded),
        result_with("d", HealthStatus::Healthy),
        result_with("e", HealthStatus::Unhealthy),
    ];
    let report = StatusAggregator::aggregate(checks, 0);
    let sum = report.healthy_count
        + report.unhealthy_count
        + report.degraded_count
        + report.unknown_count;
    assert_eq!(sum, report.checks.len());
    assert_eq!(sum, report.total_checks);
}

#[test]
fn all_healthy_batch_is_healthy() {
    let checks = vec![
        result_with("a", HealthStatus::Healthy),
        result_with("b", HealthStatus::Healthy),
    ];
    let report = StatusAggregator::aggregate(checks, 0);
    assert!(matches!(report.overall_status, HealthStatus::Healthy));
    assert_eq!(report.healthy_count, 2);
}

#[test]
fn single_unknown_batch_is_unknown() {
    let checks = vec![result_with("gpu", HealthStatus::Unknown)];
    let report = StatusAggregator::aggregate(checks, 0);
    assert!(matches!(report.overall_status, HealthStatus::Unknown));
    assert_eq!(report.unknown_count, 1);
}

#[test]
fn empty_batch_is_unknown_with_zero_counts() {
    let report = StatusAggregator::aggregate(Vec::new(), 3);
    assert!(matches!(report.overall_status, HealthStatus::Unknown));
    assert_eq!(report.total_checks, 0);
    assert_eq!(report.healthy_count, 0);
    assert_eq!(report.unhealthy_count, 0);
    assert_eq!(report.degraded_count, 0);
    assert_eq!(report.unknown_count, 0);
    assert_eq!(
        report.summary,
        "Health Check Summary: 0 healthy, 0 unhealthy, 0 degraded, 0 unknown out of 0 total services"
    );
}

#[test]
fn summary_restates_counts_and_total() {
    let checks = vec![
        result_with("a", HealthStatus::Healthy),
        result_with("b", HealthStatus::Degraded),
        result_with("c", HealthStatus::Healthy),
        result_with("d", HealthStatus::Unhealthy),
    ];
    let report = StatusAggregator::aggregate(checks, 0);
    assert_eq!(
        report.summary,
        "Health Check Summary: 2 healthy, 1 unhealthy, 1 degraded, 0 unknown out of 4 total services"
    );
}

#[test]
fn summary_recomputed_from_counts_is_consistent() {
    let checks = vec![
        result_with("a", HealthStatus::Unknown),
        result_with("b", HealthStatus::Unhealthy),
        result_with("c", HealthStatus::Healthy),
    ];
    let report = StatusAggregator::aggregate(checks, 0);
    let recomputed = StatusAggregator::render_summary(
        report.healthy_count,
        report.unhealthy_count,
        report.degraded_count,
        report.unknown_count,
        report.total_checks,
    );
    assert_eq!(report.summary, recomputed);
}

#[test]
fn result_order_is_invocation_order() {
    let checks = vec![
        result_with("first", HealthStatus::Unhealthy),
        result_with("second", HealthStatus::Healthy),
        result_with("third", HealthStatus::Degraded),
    ];
    let report = StatusAggregator::aggregate(checks, 0);
    let names: Vec<&str> = report.checks.iter().map(|c| c.service_name.as_str()).collect();
    assert_eq!(names, vec!["first", "second", "third"]);
}

#[test]
fn aggregate_now_reduces_like_aggregate() {
    let checks = vec![
        result_with("a", HealthStatus::Degraded),
        result_with("b", HealthStatus::Unknown),
    ];
    let report = StatusAggregator::aggregate_now(checks);
    assert!(matches!(report.overall_status, HealthStatus::Degraded));
    assert_eq!(report.degraded_count, 1);
    assert_eq!(report.unknown_count, 1);
    assert_eq!(report.total_checks, 2);
}
