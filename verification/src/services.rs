//! Service-probe verdicts: the pure decisions behind the database,
//! cache, coordination and HTTP probes.
//!
//! Each probe's I/O shell connects, queries or fetches, translates what
//! it saw into one of the plain observation types here, and the verdict
//! functions turn that into a `(status, detail)` pair with an exact
//! contract. No failure mode leaves this layer as an error: every
//! observation has a verdict.

use vstd::prelude::*;

use crate::matching::str_eq;
use crate::split::{first_two_words, first_two_words_chars};
use crate::status::HealthStatus;

verus! {

/// What the relational-database probe saw.
pub enum PostgresObservation {
    /// The connection could not be established.
    ConnectFailed { error: String },
    /// Connected, but the version query failed.
    QueryFailed { error: String },
    /// Connected and queried, but no row came back.
    NoRows,
    /// Connected; the version query returned this banner.
    VersionRow { version: String },
}

/// Verdict on the relational database: connected-and-answering is
/// healthy (the detail keeps the first two words of the version banner),
/// a failing query on a live connection is degraded, no connection is
/// unhealthy.
pub fn postgresql_verdict(obs: PostgresObservation) -> (r: (HealthStatus, String))
    ensures
        obs matches PostgresObservation::ConnectFailed { error } ==> r.0
            == HealthStatus::Unhealthy && r.1@ == "Connection failed: "@ + error@,
        obs matches PostgresObservation::QueryFailed { error } ==> r.0 == HealthStatus::Degraded
            && r.1@ == "Connected but query failed: "@ + error@,
        obs is NoRows ==> r.0 == HealthStatus::Healthy && r.1@
            == "Connected - Version query returned no results"@,
        obs matches PostgresObservation::VersionRow { version } ==> r.0 == HealthStatus::Healthy
            && r.1@ == "Connected - "@ + first_two_words_chars(version@),
{
    match obs {
        PostgresObservation::ConnectFailed { error } => {
            let mut d = String::from_str("Connection failed: ");
            d.append(error.as_str());
            (HealthStatus::Unhealthy, d)
        },
        PostgresObservation::QueryFailed { error } => {
            let mut d = String::from_str("Connected but query failed: ");
            d.append(error.as_str());
            (HealthStatus::Degraded, d)
        },
        PostgresObservation::NoRows => (
            HealthStatus::Healthy,
            String::from_str("Connected - Version query returned no results"),
        ),
        PostgresObservation::VersionRow { version } => {
            let mut d = String::from_str("Connected - ");
            d.append(first_two_words(version.as_str()).as_str());
            (HealthStatus::Healthy, d)
        },
    }
}

/// Verdict on the cache: the canonical `PONG` answer is healthy, any
/// other answer degraded (the connection worked, the reply did not).
pub fn redis_verdict(pong: &str) -> (r: (HealthStatus, String))
    ensures
        pong@ == "PONG"@ ==> r.0 == HealthStatus::Healthy && r.1@ == "PING successful"@,
        pong@ != "PONG"@ ==> r.0 == HealthStatus::Degraded && r.1@
            == "Unexpected PING response: "@ + pong@,
{
    if str_eq(pong, "PONG") {
        (HealthStatus::Healthy, String::from_str("PING successful"))
    } else {
        let mut d = String::from_str("Unexpected PING response: ");
        d.append(pong);
        (HealthStatus::Degraded, d)
    }
}

/// Verdict on the coordination service, from its test key round trip:
/// a working put is healthy, a failing one unhealthy.
pub fn etcd_verdict(put_result: Result<(), String>) -> (r: (HealthStatus, String))
    ensures
        put_result is Ok ==> r.0 == HealthStatus::Healthy && r.1@
            == "Key operations successful"@,
        put_result matches Err(e) ==> r.0 == HealthStatus::Unhealthy && r.1@
            == "etcd operations failed: "@ + e@,
{
    match put_result {
        Ok(()) => (HealthStatus::Healthy, String::from_str("Key operations successful")),
        Err(e) => {
            let mut d = String::from_str("etcd operations failed: ");
            d.append(e.as_str());
            (HealthStatus::Unhealthy, d)
        },
    }
}

/// What an HTTP probe saw. `status_text` is the displayed status line
/// (code and reason); `body` is whether the body could be read.
pub enum HttpObservation {
    /// The server answered.
    Responded { success: bool, status_text: String, body: Result<String, String> },
    /// The request itself failed, with the transport's classification.
    Failed { connect: bool, timeout: bool, error: String },
}

/// Verdict on the manager API, as the full `(status, detail, optional
/// cause)` triple one probe yields: a readable success is healthy; a
/// success whose body cannot be read and a non-success answer are
/// degraded; a transport timeout is degraded — no answer is not a
/// confirmed failure — and alone carries the structured cause
/// `"timeout"`; refused connections and other transport failures are
/// unhealthy.
pub fn manager_api_verdict(obs: HttpObservation) -> (r: (HealthStatus, String, Option<String>))
    ensures
        obs matches HttpObservation::Responded { success, status_text, body } ==> {
            &&& (success && body is Ok) ==> r.0 == HealthStatus::Healthy && r.1@
                == "API accessible - Status: "@ + status_text@
            &&& body matches Err(e) ==> (success ==> r.0 == HealthStatus::Degraded && r.1@
                == "API accessible but response parsing failed: "@ + e@)
            &&& !success ==> r.0 == HealthStatus::Degraded && r.1@
                == "API responded with status: "@ + status_text@
            &&& r.2 is None
        },
        obs matches HttpObservation::Failed { connect, timeout, error } ==> {
            &&& connect ==> r.0 == HealthStatus::Unhealthy && r.1@
                == "Connection refused - service may be down"@ && r.2 is None
            &&& (!connect && timeout) ==> r.0 == HealthStatus::Degraded && r.1@
                == "Request timeout - service may be slow"@ && (r.2 matches Some(m) && m@
                == "timeout"@)
            &&& (!connect && !timeout) ==> r.0 == HealthStatus::Unhealthy && r.1@
                == "Request failed: "@ + error@ && r.2 is None
        },
{
    match obs {
        HttpObservation::Responded { success, status_text, body } => {
            if success {
                match body {
                    Ok(_) => {
                        let mut d = String::from_str("API accessible - Status: ");
                        d.append(status_text.as_str());
                        (HealthStatus::Healthy, d, None)
                    },
                    Err(e) => {
                        let mut d = String::from_str(
                            "API accessible but response parsing failed: ",
                        );
                        d.append(e.as_str());
                        (HealthStatus::Degraded, d, None)
                    },
                }
            } else {
                let mut d = String::from_str("API responded with status: ");
                d.append(status_text.as_str());
                (HealthStatus::Degraded, d, None)
            }
        },
        HttpObservation::Failed { connect, timeout, error } => {
            if connect {
                (
                    HealthStatus::Unhealthy,
                    String::from_str("Connection refused - service may be down"),
                    None,
                )
            } else if timeout {
                (
                    HealthStatus::Degraded,
                    String::from_str("Request timeout - service may be slow"),
                    Some(String::from_str("timeout")),
                )
            } else {
                let mut d = String::from_str("Request failed: ");
                d.append(error.as_str());
                (HealthStatus::Unhealthy, d, None)
            }
        },
    }
}

/// Verdict on the metrics service's health endpoint: any success is
/// healthy, a non-success answer degraded, a failed request unhealthy
/// (whatever its transport cause).
pub fn prometheus_verdict(obs: HttpObservation) -> (r: (HealthStatus, String))
    ensures
        obs matches HttpObservation::Responded { success, status_text, body } ==> {
            &&& success ==> r.0 == HealthStatus::Healthy && r.1@
                == "Healthy endpoint accessible"@
            &&& !success ==> r.0 == HealthStatus::Degraded && r.1@ == "Unhealthy status: "@
                + status_text@
        },
        obs matches HttpObservation::Failed { connect, timeout, error } ==> {
            &&& connect ==> r.0 == HealthStatus::Unhealthy && r.1@ == "Connection refused"@
            &&& !connect ==> r.0 == HealthStatus::Unhealthy && r.1@ == "Request failed: "@
                + error@
        },
{
    match obs {
        HttpObservation::Responded { success, status_text, body: _ } => {
            if success {
                (HealthStatus::Healthy, String::from_str("Healthy endpoint accessible"))
            } else {
                let mut d = String::from_str("Unhealthy status: ");
                d.append(status_text.as_str());
                (HealthStatus::Degraded, d)
            }
        },
        HttpObservation::Failed { connect, timeout: _, error } => {
            if connect {
                (HealthStatus::Unhealthy, String::from_str("Connection refused"))
            } else {
                let mut d = String::from_str("Request failed: ");
                d.append(error.as_str());
                (HealthStatus::Unhealthy, d)
            }
        },
    }
}

/// What the dashboard's health endpoint reported about its database,
/// once the body was (or was not) parsed.
pub enum GrafanaBody {
    /// The health document names its database state.
    Database { state: String },
    /// A document came back without a database field.
    NoDatabaseField,
    /// The body was not a readable document.
    Unparsed,
}

/// What the dashboard probe saw.
pub enum GrafanaObservation {
    /// The server answered.
    Responded { success: bool, status_text: String, body: GrafanaBody },
    /// The request itself failed.
    Failed { connect: bool, error: String },
}

/// Verdict on the dashboard: a success whose document says the database
/// is `ok` (or says nothing about it, or cannot be parsed) is healthy;
/// any other database state is degraded, as is a non-success answer;
/// failed requests are unhealthy.
pub fn grafana_verdict(obs: GrafanaObservation) -> (r: (HealthStatus, String))
    ensures
        obs matches GrafanaObservation::Responded { success, status_text, body } ==> {
            &&& body matches GrafanaBody::Database { state } ==> {
                &&& (success && state@ == "ok"@) ==> r.0 == HealthStatus::Healthy && r.1@
                    == "Database connection OK"@
                &&& (success && state@ != "ok"@) ==> r.0 == HealthStatus::Degraded && r.1@
                    == "Database status: "@ + state@
            }
            &&& (success && !(body is Database)) ==> r.0 == HealthStatus::Healthy && r.1@
                == "Health endpoint accessible"@
            &&& !success ==> r.0 == HealthStatus::Degraded && r.1@ == "HTTP status: "@
                + status_text@
        },
        obs matches GrafanaObservation::Failed { connect, error } ==> {
            &&& connect ==> r.0 == HealthStatus::Unhealthy && r.1@ == "Connection refused"@
            &&& !connect ==> r.0 == HealthStatus::Unhealthy && r.1@ == "Request failed: "@
                + error@
        },
{
    match obs {
        GrafanaObservation::Responded { success, status_text, body } => {
            if success {
                match body {
                    GrafanaBody::Database { state } => {
                        if str_eq(state.as_str(), "ok") {
                            (HealthStatus::Healthy, String::from_str("Database connection OK"))
                        } else {
                            let mut d = String::from_str("Database status: ");
                            d.append(state.as_str());
                            (HealthStatus::Degraded, d)
                        }
                    },
                    GrafanaBody::NoDatabaseField => (
                        HealthStatus::Healthy,
                        String::from_str("Health endpoint accessible"),
                    ),
                    GrafanaBody::Unparsed => (
                        HealthStatus::Healthy,
                        String::from_str("Health endpoint accessible"),
                    ),
                }
            } else {
                let mut d = String::from_str("HTTP status: ");
                d.append(status_text.as_str());
                (HealthStatus::Degraded, d)
            }
        },
        GrafanaObservation::Failed { connect, error } => {
            if connect {
                (HealthStatus::Unhealthy, String::from_str("Connection refused"))
            } else {
                let mut d = String::from_str("Request failed: ");
                d.append(error.as_str());
                (HealthStatus::Unhealthy, d)
            }
        },
    }
}

} // verus!
