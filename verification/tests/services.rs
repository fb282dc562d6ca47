use health_checker::services::{
    etcd_verdict, grafana_verdict, manager_api_verdict, postgresql_verdict, prometheus_verdict,
    redis_verdict, GrafanaBody, GrafanaObservation, HttpObservation, PostgresObservation,
};
use health_checker::HealthStatus;

#[test]
fn postgresql_version_row_keeps_two_words() {
    let obs = PostgresObservation::VersionRow {
        version: "PostgreSQL 15.2 (Debian 15.2-1.pgdg110+1) on x86_64-pc-linux-gnu".to_string(),
    };
    let (status, details) = postgresql_verdict(obs);
    assert!(matches!(status, HealthStatus::Healthy));
    assert_eq!(details, "Connected - PostgreSQL 15.2");
}

#[test]
fn postgresql_empty_result_is_still_healthy() {
    let (status, details) = postgresql_verdict(PostgresObservation::NoRows);
    assert!(matches!(status, HealthStatus::Healthy));
    assert_eq!(details, "Connected - Version query returned no results");
}

#[test]
fn postgresql_query_failure_is_degraded() {
    let obs = PostgresObservation::QueryFailed { error: "permission denied".to_string() };
    let (status, details) = postgresql_verdict(obs);
    assert!(matches!(status, HealthStatus::Degraded));
    assert_eq!(details, "Connected but query failed: permission denied");
}

#[test]
fn postgresql_connect_failure_is_unhealthy() {
    let obs = PostgresObservation::ConnectFailed { error: "refused".to_string() };
    let (status, details) = postgresql_verdict(obs);
    assert!(matches!(status, HealthStatus::Unhealthy));
    assert_eq!(details, "Connection failed: refused");
}

#[test]
fn redis_pong_is_healthy() {
    let (status, details) = redis_verdict("PONG");
    assert!(matches!(status, HealthStatus::Healthy));
    assert_eq!(details, "PING successful");
}

#[test]
fn redis_unexpected_reply_is_degraded() {
    let (status, details) = redis_verdict("LOADING");
    assert!(matches!(status, HealthStatus::Degraded));
    assert_eq!(details, "Unexpected PING response: LOADING");
}

#[test]
fn etcd_round_trip_verdicts() {
    let (ok_status, ok_details) = etcd_verdict(Ok(()));
    assert!(matches!(ok_status, HealthStatus::Healthy));
    assert_eq!(ok_details, "Key operations successful");
    let (err_status, err_details) = etcd_verdict(Err("deadline exceeded".to_string()));
    assert!(matches!(err_status, HealthStatus::Unhealthy));
    assert_eq!(err_details, "etcd operations failed: deadline exceeded");
}

#[test]
fn manager_api_verdicts() {
    let (s, d, e) = manager_api_verdict(HttpObservation::Responded {
        success: true,
        status_text: "200 OK".to_string(),
        body: Ok("{\"version\":\"24.03\"}".to_string()),
    });
    assert!(matches!(s, HealthStatus::Healthy));
    assert_eq!(d, "API accessible - Status: 200 OK");
    assert!(e.is_none());

    let (s, d, e) = manager_api_verdict(HttpObservation::Responded {
        success: true,
        status_text: "200 OK".to_string(),
        body: Err("decode error".to_string()),
    });
    assert!(matches!(s, HealthStatus::Degraded));
    assert_eq!(d, "API accessible but response parsing failed: decode error");
    assert!(e.is_none());

    let (s, d, e) = manager_api_verdict(HttpObservation::Responded {
        success: false,
        status_text: "503 Service Unavailable".to_string(),
        body: Ok(String::new()),
    });
    assert!(matches!(s, HealthStatus::Degraded));
    assert_eq!(d, "API responded with status: 503 Service Unavailable");
    assert!(e.is_none());

    let (s, d, e) = manager_api_verdict(HttpObservation::Failed {
        connect: true,
        timeout: false,
        error: "connection refused".to_string(),
    });
    assert!(matches!(s, HealthStatus::Unhealthy));
    assert_eq!(d, "Connection refused - service may be down");
    assert!(e.is_none());

    let (s, d, e) = manager_api_verdict(HttpObservation::Failed {
        connect: false,
        timeout: false,
        error: "tls handshake".to_string(),
    });
    assert!(matches!(s, HealthStatus::Unhealthy));
    assert_eq!(d, "Request failed: tls handshake");
    assert!(e.is_none());
}

#[test]
fn manager_api_transport_timeout_is_degraded_with_timeout_cause() {
    let (s, d, e) = manager_api_verdict(HttpObservation::Failed {
        connect: false,
        timeout: true,
        error: "deadline elapsed".to_string(),
    });
    assert!(matches!(s, HealthStatus::Degraded));
    assert!(!matches!(s, HealthStatus::Unhealthy));
    assert_eq!(d, "Request timeout - service may be slow");
    assert_eq!(e.as_deref(), Some("timeout"));
}

#[test]
fn prometheus_verdicts() {
    let (s, d) = prometheus_verdict(HttpObservation::Responded {
        success: true,
        status_text: "200 OK".to_string(),
        body: Ok(String::new()),
    });
    assert!(matches!(s, HealthStatus::Healthy));
    assert_eq!(d, "Healthy endpoint accessible");

    let (s, d) = prometheus_verdict(HttpObservation::Responded {
        success: false,
        status_text: "500 Internal Server Error".to_string(),
        body: Ok(String::new()),
    });
    assert!(matches!(s, HealthStatus::Degraded));
    assert_eq!(d, "Unhealthy status: 500 Internal Server Error");

    let (s, d) = prometheus_verdict(HttpObservation::Failed {
        connect: false,
        timeout: true,
        error: "timed out".to_string(),
    });
    // A timeout is not special here: any failed request is unhealthy.
    assert!(matches!(s, HealthStatus::Unhealthy));
    assert_eq!(d, "Request failed: timed out");
}

#[test]
fn grafana_verdicts() {
    let (s, d) = grafana_verdict(GrafanaObservation::Responded {
        success: true,
        status_text: "200 OK".to_string(),
        body: GrafanaBody::Database { state: "ok".to_string() },
    });
    assert!(matches!(s, HealthStatus::Healthy));
    assert_eq!(d, "Database connection OK");

    let (s, d) = grafana_verdict(GrafanaObservation::Responded {
        success: true,
        status_text: "200 OK".to_string(),
        body: GrafanaBody::Database { state: "failing".to_string() },
    });
    assert!(matches!(s, HealthStatus::Degraded));
    assert_eq!(d, "Database status: failing");

    let (s, d) = grafana_verdict(GrafanaObservation::Responded {
        success: true,
        status_text: "200 OK".to_string(),
        body: GrafanaBody::Unparsed,
    });
    assert!(matches!(s, HealthStatus::Healthy));
    assert_eq!(d, "Health endpoint accessible");

    let (s, d) = grafana_verdict(GrafanaObservation::Responded {
        success: false,
        status_text: "401 Unauthorized".to_string(),
        body: GrafanaBody::NoDatabaseField,
    });
    assert!(matches!(s, HealthStatus::Degraded));
    assert_eq!(d, "HTTP status: 401 Unauthorized");

    let (s, d) = grafana_verdict(GrafanaObservation::Failed {
        connect: true,
        error: "refused".to_string(),
    });
    assert!(matches!(s, HealthStatus::Unhealthy));
    assert_eq!(d, "Connection refused");
}
