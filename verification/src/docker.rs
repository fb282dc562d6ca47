//! Container-probe logic: which containers the checker watches, and the
//! health verdict read off one container's inspection.

use vstd::prelude::*;

use crate::matching::{
    contains_sub, is_backend_ai_container, is_backend_ai_image, lower_of, spec_backend_ai_image,
    spec_backend_ai_name, spec_contains,
};
use crate::split::{strip_leading, strip_leading_char};
use crate::status::HealthStatus;
use crate::text::{
    dec_chars, dec_chars_i64, i64_to_string, mem_pct_tenths, tenths_chars, tenths_to_string,
    u64_to_string,
};

verus! {

/// One watched container, as the reporting layer shows it.
#[derive(Clone, Debug)]
pub struct ContainerInfo {
    pub id: String,
    /// The first listed name without its leading slashes, or the first
    /// twelve characters of the id when the container has no name.
    pub name: String,
    pub image: String,
    pub status: String,
    /// Port labels: `public:private` for published ports, `private` for
    /// the rest.
    pub ports: Vec<String>,
}

/// The label shown for one port mapping.
pub open spec fn port_label(private_port: u16, public_port: Option<u16>) -> Seq<char> {
    match public_port {
        Some(p) => dec_chars(p as nat) + ":"@ + dec_chars(private_port as nat),
        None => dec_chars(private_port as nat),
    }
}

/// Whether a container with these names and this image is watched.
pub open spec fn spec_watched(names: Seq<Seq<char>>, image: Seq<char>) -> bool {
    (exists|i: int| 0 <= i < names.len() && spec_backend_ai_name(lower_of(names[i])))
        || spec_backend_ai_image(lower_of(image))
}

/// Builds the record for one listed container, or nothing when neither
/// a name nor the image marks it as watched. Absent fields default to
/// empty, as the listing reports them.
pub fn container_record(
    id: Option<String>,
    names: Vec<String>,
    image: Option<String>,
    status: Option<String>,
    ports: Vec<(u16, Option<u16>)>,
) -> (r: Option<ContainerInfo>)
    requires
        names@.len() > 0 || (id matches Some(s) && s@.len() >= 12),
    ensures
        ({
            let image_view = match image {
                Some(im) => im@,
                None => Seq::<char>::empty(),
            };
            let names_views = names@.map_values(|p: String| p@);
            &&& r is Some <==> spec_watched(names_views, image_view)
            &&& r matches Some(c) ==> {
                &&& c.id@ == (match id {
                    Some(s) => s@,
                    None => Seq::<char>::empty(),
                })
                &&& c.name@ == (if names_views.len() > 0 {
                    strip_leading(names_views[0], '/')
                } else {
                    (match id {
                        Some(s) => s@,
                        None => Seq::<char>::empty(),
                    }).take(12)
                })
                &&& c.image@ == image_view
                &&& c.status@ == (match status {
                    Some(s) => s@,
                    None => Seq::<char>::empty(),
                })
                &&& c.ports@.map_values(|p: String| p@) == ports@.map_values(
                    |p: (u16, Option<u16>)| port_label(p.0, p.1),
                )
            }
        }),
{
    let ghost names_views = names@.map_values(|p: String| p@);
    let mut name_matched = false;
    let mut i: usize = 0;
    while i < names.len()
        invariant
            names_views == names@.map_values(|p: String| p@),
            i <= names_views.len(),
            name_matched == exists|j: int|
                0 <= j < i && spec_backend_ai_name(lower_of(names_views[j])),
        decreases names_views.len() - i,
    {
        if is_backend_ai_container(names[i].as_str()) {
            proof {
                assert(spec_backend_ai_name(lower_of(names_views[i as int])));
            }
            name_matched = true;
        }
        i = i + 1;
    }
    let image_str: String = match image {
        Some(im) => im,
        None => String::new(),
    };
    let matched = name_matched || is_backend_ai_image(image_str.as_str());
    if !matched {
        return None;
    }
    let id_str: String = match id {
        Some(s) => s,
        None => String::new(),
    };
    let name: String = if names.len() > 0 {
        String::from_str(strip_leading_char(names[0].as_str(), '/'))
    } else {
        String::from_str(id_str.as_str().substring_char(0, 12))
    };
    let status_str: String = match status {
        Some(s) => s,
        None => String::new(),
    };
    let mut port_labels: Vec<String> = Vec::new();
    let mut k: usize = 0;
    while k < ports.len()
        invariant
            k <= ports@.len(),
            port_labels@.map_values(|p: String| p@) =~= ports@.take(k as int).map_values(
                |p: (u16, Option<u16>)| port_label(p.0, p.1),
            ),
        decreases ports@.len() - k,
    {
        let (private_port, public_port) = ports[k];
        let label: String = match public_port {
            Some(p) => {
                let mut l = u64_to_string(p as u64);
                l.append(":");
                l.append(u64_to_string(private_port as u64).as_str());
                l
            },
            None => u64_to_string(private_port as u64),
        };
        proof {
            let f = |p: (u16, Option<u16>)| port_label(p.0, p.1);
            assert(label@ =~= port_label(ports@[k as int].0, ports@[k as int].1));
            assert(ports@.take(k + 1 as int).map_values(f) =~= ports@.take(k as int).map_values(
                f,
            ).push(port_label(ports@[k as int].0, ports@[k as int].1)));
            assert(port_labels@.push(label).map_values(|p: String| p@) =~= port_labels@.map_values(
                |p: String| p@,
            ).push(label@));
        }
        port_labels.push(label);
        k = k + 1;
    }
    proof {
        assert(ports@.take(ports@.len() as int) =~= ports@);
        assert(port_labels@.map_values(|p: String| p@) =~= ports@.map_values(
            |p: (u16, Option<u16>)| port_label(p.0, p.1),
        ));
    }
    Some(ContainerInfo { id: id_str, name, image: image_str, status: status_str, ports: port_labels })
}

/// The detail line shown for one container's resource statistics:
/// cumulative CPU usage, memory in whole megabytes, and memory usage as
/// a one-decimal percentage of the limit (zero without a limit).
pub fn stats_detail(cpu_total: u64, memory_usage: u64, memory_limit: u64) -> (r: String)
    ensures
        r@ == "CPU: "@ + dec_chars(cpu_total as nat) + ", Memory: "@ + dec_chars(
            (memory_usage / 1024 / 1024) as nat,
        ) + "MB/"@ + dec_chars((memory_limit / 1024 / 1024) as nat) + "MB ("@ + tenths_chars(
            mem_pct_tenths(memory_usage as int, memory_limit as int),
        ) + "%)"@,
{
    let pct_tenths: u128 = if memory_limit == 0 {
        0
    } else {
        ((memory_usage as u128) * 1000 + (memory_limit as u128) / 2) / (memory_limit as u128)
    };
    let mut d = String::from_str("CPU: ");
    d.append(u64_to_string(cpu_total).as_str());
    d.append(", Memory: ");
    d.append(u64_to_string(memory_usage / 1024 / 1024).as_str());
    d.append("MB/");
    d.append(u64_to_string(memory_limit / 1024 / 1024).as_str());
    d.append("MB (");
    d.append(tenths_to_string(pct_tenths).as_str());
    d.append("%)");
    proof {
        assert(d@ =~= "CPU: "@ + dec_chars(cpu_total as nat) + ", Memory: "@ + dec_chars(
            (memory_usage / 1024 / 1024) as nat,
        ) + "MB/"@ + dec_chars((memory_limit / 1024 / 1024) as nat) + "MB ("@ + tenths_chars(
            mem_pct_tenths(memory_usage as int, memory_limit as int),
        ) + "%)"@);
    }
    d
}

/// What inspecting one container showed.
pub enum ContainerInspection {
    /// The inspection answered.
    Inspected {
        running: bool,
        /// The displayed state of the container's own health check, when
        /// it has one.
        health_status: Option<String>,
        exit_code: i64,
        started_at: Option<String>,
    },
    /// The inspection itself failed.
    Failed { error: String },
}

/// The verdict read off a displayed health-check state. The arms are
/// tried in this order, so a state naming `unhealthy` in lowercase is
/// caught by the `healthy` test first.
pub open spec fn health_state_verdict(h: Seq<char>) -> HealthStatus {
    if spec_contains(h, "healthy"@) {
        HealthStatus::Healthy
    } else if spec_contains(h, "unhealthy"@) {
        HealthStatus::Unhealthy
    } else if spec_contains(h, "starting"@) {
        HealthStatus::Degraded
    } else {
        HealthStatus::Unknown
    }
}

/// Verdict on one container: running with a passing (or absent) health
/// check is healthy; a stopped container is unhealthy with its exit
/// code; an unanswerable inspection is unknown.
pub fn container_health_verdict(inspection: ContainerInspection) -> (r: (HealthStatus, String))
    ensures
        inspection matches ContainerInspection::Inspected {
            running,
            health_status,
            exit_code,
            started_at,
        } ==> {
            &&& running ==> r.0 == (match health_status {
                Some(h) => health_state_verdict(h@),
                None => HealthStatus::Healthy,
            })
            &&& running ==> r.1@ == (match started_at {
                Some(t) => "Running since "@ + t@,
                None => "Running"@,
            })
            &&& !running ==> r.0 == HealthStatus::Unhealthy && r.1@ == "Stopped (exit code: "@
                + dec_chars_i64(exit_code as int) + ")"@
        },
        inspection matches ContainerInspection::Failed { error } ==> r.0 == HealthStatus::Unknown
            && r.1@ == "Inspection failed: "@ + error@,
{
    match inspection {
        ContainerInspection::Inspected { running, health_status, exit_code, started_at } => {
            if running {
                let status = match &health_status {
                    Some(h) => {
                        if contains_sub(h.as_str(), "healthy") {
                            HealthStatus::Healthy
                        } else if contains_sub(h.as_str(), "unhealthy") {
                            HealthStatus::Unhealthy
                        } else if contains_sub(h.as_str(), "starting") {
                            HealthStatus::Degraded
                        } else {
                            HealthStatus::Unknown
                        }
                    },
                    None => HealthStatus::Healthy,
                };
                let details = match started_at {
                    Some(t) => {
                        let mut d = String::from_str("Running since ");
                        d.append(t.as_str());
                        d
                    },
                    None => String::from_str("Running"),
                };
                (status, details)
            } else {
                let mut d = String::from_str("Stopped (exit code: ");
                d.append(i64_to_string(exit_code).as_str());
                d.append(")");
                (HealthStatus::Unhealthy, d)
            }
        },
        ContainerInspection::Failed { error } => {
            let mut d = String::from_str("Inspection failed: ");
            d.append(error.as_str());
            (HealthStatus::Unknown, d)
        },
    }
}

} // verus!
