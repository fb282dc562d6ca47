use health_checker::HealthStatus;

#[test]
fn severity_orders_the_four_statuses() {
    assert!(HealthStatus::Healthy.severity_rank() < HealthStatus::Unknown.severity_rank());
    assert!(HealthStatus::Unknown.severity_rank() < HealthStatus::Degraded.severity_rank());
    assert!(HealthStatus::Degraded.severity_rank() < HealthStatus::Unhealthy.severity_rank());
}

#[test]
fn max_with_picks_the_more_severe() {
    assert!(matches!(
        HealthStatus::Healthy.max_with(HealthStatus::Degraded),
        HealthStatus::Degraded
    ));
    assert!(matches!(
        HealthStatus::Unhealthy.max_with(HealthStatus::Unknown),
        HealthStatus::Unhealthy
    ));
    assert!(matches!(
        HealthStatus::Unknown.max_with(HealthStatus::Healthy),
        HealthStatus::Unknown
    ));
    assert!(matches!(
        HealthStatus::Healthy.max_with(HealthStatus::Healthy),
        HealthStatus::Healthy
    ));
}

#[test]
fn labels_name_each_status() {
    assert_eq!(HealthStatus::Healthy.label(), "Healthy");
    assert_eq!(HealthStatus::Unhealthy.label(), "Unhealthy");
    assert_eq!(HealthStatus::Degraded.label(), "Degraded");
    assert_eq!(HealthStatus::Unknown.label(), "Unknown");
}
