use health_checker::{HealthStatus, SystemChecker};

#[test]
fn docker_daemon_reports_the_version_line() {
    let stdout = "Client: Docker Engine\n Version: 24.0.7\n API version: 1.43\n".to_string();
    let (status, details) =
        SystemChecker::check_docker_daemon(Ok((true, stdout, String::new())));
    assert!(matches!(status, HealthStatus::Healthy));
    assert_eq!(details, " Version: 24.0.7");
}

#[test]
fn docker_daemon_without_version_line_reports_running() {
    let (status, details) =
        SystemChecker::check_docker_daemon(Ok((true, "no banner here".to_string(), String::new())));
    assert!(matches!(status, HealthStatus::Healthy));
    assert_eq!(details, "Docker daemon running");
}

#[test]
fn docker_daemon_command_failure_is_unhealthy() {
    let (status, details) = SystemChecker::check_docker_daemon(Ok((
        false,
        String::new(),
        "permission denied".to_string(),
    )));
    assert!(matches!(status, HealthStatus::Unhealthy));
    assert_eq!(details, "Docker command failed: permission denied");
}

#[test]
fn docker_daemon_missing_is_unhealthy() {
    let (status, details) =
        SystemChecker::check_docker_daemon(Err("No such file or directory".to_string()));
    assert!(matches!(status, HealthStatus::Unhealthy));
    assert_eq!(details, "Docker not found or not running: No such file or directory");
}

#[test]
fn system_resources_reads_disk_usage_from_the_table() {
    let df = "Filesystem Size Used Avail Use% Mounted\n/dev/disk1 500G 450G 50G 93% /\n";
    let (status, details) =
        SystemChecker::check_system_resources(Some(true), Some(df.to_string()));
    assert!(matches!(status, HealthStatus::Degraded));
    assert_eq!(details, "Memory check completed, Disk usage high: 93%");
}

#[test]
fn system_resources_healthy_disk_and_memory() {
    let df = "Filesystem Size Used Avail Use% Mounted\n/dev/disk1 500G 100G 400G 20% /\n";
    let (status, details) =
        SystemChecker::check_system_resources(Some(true), Some(df.to_string()));
    assert!(matches!(status, HealthStatus::Healthy));
    assert_eq!(details, "Memory check completed, Disk usage: 20%");
}

#[test]
fn system_resources_memory_failure_degrades() {
    let (status, details) = SystemChecker::check_system_resources(Some(false), None);
    assert!(matches!(status, HealthStatus::Degraded));
    assert_eq!(details, "Memory check failed");
}

#[test]
fn read_disk_usage_needs_five_columns() {
    assert_eq!(SystemChecker::read_disk_usage("only\none two three\n"), None);
    assert_eq!(SystemChecker::read_disk_usage(""), None);
    assert_eq!(
        SystemChecker::read_disk_usage("h\na b c d 85% rest\n"),
        Some(85)
    );
}

#[test]
fn connectivity_all_endpoints_reachable() {
    let (status, details) = SystemChecker::check_network_connectivity(6, vec![]);
    assert!(matches!(status, HealthStatus::Healthy));
    assert_eq!(details, "All 6 endpoints accessible");
}

#[test]
fn connectivity_majority_reachable_is_degraded() {
    let failed = vec!["Prometheus (localhost:9090)".to_string(), "Grafana (localhost:3000)".to_string()];
    let (status, details) = SystemChecker::check_network_connectivity(4, failed);
    assert!(matches!(status, HealthStatus::Degraded));
    assert_eq!(
        details,
        "4/6 endpoints accessible (66.7%) - Failed: Prometheus (localhost:9090), Grafana (localhost:3000)"
    );
}

#[test]
fn connectivity_minority_reachable_is_unhealthy() {
    let failed: Vec<String> = (0..5).map(|i| format!("svc{i}")).collect();
    let (status, _) = SystemChecker::check_network_connectivity(1, failed);
    assert!(matches!(status, HealthStatus::Unhealthy));
}

#[test]
fn port_usage_thresholds() {
    let (s4, d4) = SystemChecker::check_port_usage(4, 2);
    assert!(matches!(s4, HealthStatus::Healthy));
    assert_eq!(d4, "4 services listening, 2 ports available");
    let (s2, _) = SystemChecker::check_port_usage(2, 4);
    assert!(matches!(s2, HealthStatus::Degraded));
    let (s1, d1) = SystemChecker::check_port_usage(1, 5);
    assert!(matches!(s1, HealthStatus::Unhealthy));
    assert_eq!(d1, "1 services listening, 5 ports available");
}

#[test]
fn configuration_files_all_found() {
    let found = vec!["Manager configuration".to_string(), "Agent configuration".to_string()];
    let (status, details) = SystemChecker::check_configuration_files(found, vec![]);
    assert!(matches!(status, HealthStatus::Healthy));
    assert_eq!(details, "All 2 configuration files found");
}

#[test]
fn configuration_files_one_missing_is_degraded() {
    let found = vec!["Manager configuration".to_string()];
    let missing = vec!["Agent configuration".to_string()];
    let (status, details) = SystemChecker::check_configuration_files(found, missing);
    assert!(matches!(status, HealthStatus::Degraded));
    assert_eq!(details, "1 configs found, 1 missing: Agent configuration");
}

#[test]
fn configuration_files_two_missing_is_unhealthy() {
    let missing = vec!["a".to_string(), "b".to_string()];
    let (status, details) = SystemChecker::check_configuration_files(vec![], missing);
    assert!(matches!(status, HealthStatus::Unhealthy));
    assert_eq!(details, "0 configs found, 2 missing: a, b");
}
