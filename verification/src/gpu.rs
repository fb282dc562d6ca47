//! GPU-probe logic: the health evaluation of GPU readings, the parsing
//! of the vendor tool's CSV output, and the monitor over which GPU
//! families are present.
//!
//! Readings are modelled as integers: power in milliwatts, one-decimal
//! displays as counts of tenths. What only vendor tooling can measure is
//! read by the probe's I/O shell and handed in as these plain values.

use vstd::prelude::*;

use crate::parse::{
    parse_tenths_or_zero, parse_u32_or_zero, spec_parse_tenths_or_zero, spec_parse_u32_or_zero,
};
use crate::result::HealthCheckResult;
use crate::split::{lines_of, split_chars, split_lines, split_str, trim_chars, trim_spaces};
use crate::status::HealthStatus;
use crate::text::{
    dec_chars, join_chars, join_with, mem_pct_tenths, tenths_chars, tenths_to_string,
    u64_to_string,
};

verus! {

/// One process occupying a GPU.
#[derive(Clone, Debug)]
pub struct GpuProcess {
    pub pid: u32,
    pub name: String,
    pub memory_used: u64,
}

/// One GPU's readings. Power is in milliwatts, as the vendor library
/// reports it; memory in bytes; utilizations and temperature as whole
/// percents and degrees.
#[derive(Clone, Debug)]
pub struct GpuInfo {
    pub id: u32,
    pub name: String,
    pub uuid: Option<String>,
    pub driver_version: String,
    pub cuda_version: Option<String>,
    pub memory_total: u64,
    pub memory_used: u64,
    pub memory_free: u64,
    pub utilization_gpu: u32,
    pub utilization_memory: u32,
    pub temperature: u32,
    pub power_usage_milliwatts: u64,
    pub power_limit_milliwatts: u64,
    pub fan_speed: Option<u32>,
    pub processes: Vec<GpuProcess>,
}

/// Apple Silicon GPU readings, in tenths (one-decimal displays) and
/// permille for the memory-pressure fraction.
#[derive(Clone, Debug)]
pub struct AppleGpuInfo {
    pub name: String,
    pub utilization_tenths: u32,
    pub memory_pressure_permille: u32,
    pub temp_gpu_tenths: u32,
    pub temp_tgpu_tenths: u32,
    pub power_usage_tenths: u32,
}

/// Milliwatts as tenths of a watt, rounded half-up.
pub open spec fn power_w_tenths(mw: int) -> int {
    (mw + 50) / 100
}

/// Power usage in tenths of a percent of the limit; zero without a
/// limit to measure against.
pub open spec fn power_pct_tenths(usage_mw: int, limit_mw: int) -> int {
    if limit_mw == 0 {
        0
    } else {
        (usage_mw * 1000 + limit_mw / 2) / limit_mw
    }
}

/// The GPU runs hot.
pub open spec fn nvidia_temp_high(g: GpuInfo) -> bool {
    g.temperature > 85
}

/// Memory usage is over 90% of a known total.
pub open spec fn nvidia_mem_high(g: GpuInfo) -> bool {
    g.memory_total > 0 && g.memory_used * 100 > g.memory_total * 90
}

/// Power draw is over 95% of a known limit.
pub open spec fn nvidia_power_high(g: GpuInfo) -> bool {
    g.power_limit_milliwatts > 0 && g.power_usage_milliwatts * 100 > g.power_limit_milliwatts * 95
}

/// The issue lines an evaluation collects, in order.
pub open spec fn nvidia_issues(g: GpuInfo) -> Seq<Seq<char>> {
    (if nvidia_temp_high(g) {
        seq!["High temperature: "@ + dec_chars(g.temperature as nat) + "\u{b0}C"@]
    } else {
        Seq::empty()
    }) + (if nvidia_mem_high(g) {
        seq![
            "High memory usage: "@
                + tenths_chars(mem_pct_tenths(g.memory_used as int, g.memory_total as int)) + "%"@,
        ]
    } else {
        Seq::empty()
    }) + (if nvidia_power_high(g) {
        seq![
            "High power usage: "@ + tenths_chars(power_w_tenths(g.power_usage_milliwatts as int))
                + "W ("@
                + tenths_chars(
                power_pct_tenths(
                    g.power_usage_milliwatts as int,
                    g.power_limit_milliwatts as int,
                ),
            ) + "%)"@,
        ]
    } else {
        Seq::empty()
    })
}

/// Healthy unless something runs high; then degraded.
pub open spec fn nvidia_status(g: GpuInfo) -> HealthStatus {
    if nvidia_temp_high(g) || nvidia_mem_high(g) || nvidia_power_high(g) {
        HealthStatus::Degraded
    } else {
        HealthStatus::Healthy
    }
}

/// The detail line: the readings when nothing runs high, else the
/// issues.
pub open spec fn nvidia_details(g: GpuInfo) -> Seq<char> {
    if nvidia_issues(g).len() == 0 {
        g.name@ + " - GPU: "@ + dec_chars(g.utilization_gpu as nat) + "%, Mem: "@ + tenths_chars(
            mem_pct_tenths(g.memory_used as int, g.memory_total as int),
        ) + "% ("@ + dec_chars((g.memory_used / 1024 / 1024) as nat) + "/"@ + dec_chars(
            (g.memory_total / 1024 / 1024) as nat,
        ) + "MB), Temp: "@ + dec_chars(g.temperature as nat) + "\u{b0}C, Power: "@ + tenths_chars(
            power_w_tenths(g.power_usage_milliwatts as int),
        ) + "W"@
    } else {
        g.name@ + " - Issues: "@ + join_chars(nvidia_issues(g), ", "@)
    }
}

/// The Apple GPU runs hot.
pub open spec fn apple_temp_high(g: AppleGpuInfo) -> bool {
    g.temp_gpu_tenths > 800
}

/// Memory pressure is over 0.8.
pub open spec fn apple_pressure_high(g: AppleGpuInfo) -> bool {
    g.memory_pressure_permille > 800
}

/// The issue lines an Apple evaluation collects, in order.
pub open spec fn apple_issues(g: AppleGpuInfo) -> Seq<Seq<char>> {
    (if apple_temp_high(g) {
        seq!["High GPU temperature: "@ + tenths_chars(g.temp_gpu_tenths as int) + "\u{b0}C"@]
    } else {
        Seq::empty()
    }) + (if apple_pressure_high(g) {
        seq![
            "High memory pressure: "@ + tenths_chars(g.memory_pressure_permille as int) + "%"@,
        ]
    } else {
        Seq::empty()
    })
}

/// Healthy unless something runs high; then degraded.
pub open spec fn apple_status(g: AppleGpuInfo) -> HealthStatus {
    if apple_temp_high(g) || apple_pressure_high(g) {
        HealthStatus::Degraded
    } else {
        HealthStatus::Healthy
    }
}

/// The Apple detail line: readings when nothing runs high, else issues.
pub open spec fn apple_details(g: AppleGpuInfo) -> Seq<char> {
    if apple_issues(g).len() == 0 {
        g.name@ + " - Utilization: "@ + tenths_chars(g.utilization_tenths as int)
            + "%, Memory Pressure: "@ + tenths_chars(g.memory_pressure_permille as int)
            + "%, Temp: "@ + tenths_chars(g.temp_gpu_tenths as int) + "\u{b0}C, Power: "@
            + tenths_chars(g.power_usage_tenths as int) + "W"@
    } else {
        g.name@ + " - Issues: "@ + join_chars(apple_issues(g), ", "@)
    }
}

/// Degraded when the temperature or the memory utilization runs high.
pub open spec fn gpu_metrics_status(mem_util: int, temp: int) -> HealthStatus {
    if temp > 85 || mem_util > 90 {
        HealthStatus::Degraded
    } else {
        HealthStatus::Healthy
    }
}

/// The issue lines for command-line readings, in order.
pub open spec fn gpu_metrics_issues(mem_util: int, temp: int) -> Seq<Seq<char>> {
    (if temp > 85 {
        seq!["High temperature: "@ + dec_chars(temp as nat) + "\u{b0}C"@]
    } else {
        Seq::empty()
    }) + (if mem_util > 90 {
        seq!["High memory utilization: "@ + dec_chars(mem_util as nat) + "%"@]
    } else {
        Seq::empty()
    })
}

/// The detail line for command-line readings: always the readings, with
/// the issues appended when something runs high.
pub open spec fn gpu_metrics_details(gpu_util: int, mem_util: int, temp: int, power_tenths: int) -> Seq<
    char,
> {
    let base = "GPU: "@ + dec_chars(gpu_util as nat) + "%, Memory: "@ + dec_chars(mem_util as nat)
        + "%, Temp: "@ + dec_chars(temp as nat) + "\u{b0}C, Power: "@ + tenths_chars(power_tenths)
        + "W"@;
    let issues = gpu_metrics_issues(mem_util, temp);
    if issues.len() == 0 {
        base
    } else {
        base + " - Issues: "@ + join_chars(issues, ", "@)
    }
}

/// Watches whichever GPU families the host was found to have.
pub struct GpuMonitor {
    pub nvidia_available: bool,
    pub apple_silicon_available: bool,
}

impl GpuMonitor {
    /// A monitor over the two detected GPU families. Detection itself
    /// runs vendor commands, so the caller performs it and hands in the
    /// two findings.
    pub fn new(nvidia_available: bool, apple_silicon_available: bool) -> (r: GpuMonitor)
        ensures
            r.nvidia_available == nvidia_available,
            r.apple_silicon_available == apple_silicon_available,
    {
        GpuMonitor { nvidia_available, apple_silicon_available }
    }

    /// One line naming the GPU families available on this host.
    pub fn get_gpu_summary(&self) -> (r: String)
        ensures
            (self.nvidia_available && self.apple_silicon_available) ==> r@
                == "NVIDIA and Apple Silicon GPUs available"@,
            (self.nvidia_available && !self.apple_silicon_available) ==> r@
                == "NVIDIA GPUs available"@,
            (!self.nvidia_available && self.apple_silicon_available) ==> r@
                == "Apple Silicon GPU available"@,
            (!self.nvidia_available && !self.apple_silicon_available) ==> r@
                == "No supported GPU hardware detected"@,
    {
        if self.nvidia_available && self.apple_silicon_available {
            String::from_str("NVIDIA and Apple Silicon GPUs available")
        } else if self.nvidia_available {
            String::from_str("NVIDIA GPUs available")
        } else if self.apple_silicon_available {
            String::from_str("Apple Silicon GPU available")
        } else {
            String::from_str("No supported GPU hardware detected")
        }
    }

    /// Evaluates one GPU's readings, matching [`nvidia_status`] and
    /// [`nvidia_details`].
    pub fn evaluate_nvidia_gpu_health(&self, g: &GpuInfo) -> (r: (HealthStatus, String))
        ensures
            r.0 == nvidia_status(*g),
            r.1@ == nvidia_details(*g),
    {
        let mut issues: Vec<String> = Vec::new();
        let mut status = HealthStatus::Healthy;
        if g.temperature > 85 {
            let mut d = String::from_str("High temperature: ");
            d.append(u64_to_string(g.temperature as u64).as_str());
            d.append("\u{b0}C");
            issues.push(d);
            status = HealthStatus::Degraded;
        }
        let mem_pct: u128 = if g.memory_total == 0 {
            0
        } else {
            ((g.memory_used as u128) * 1000 + (g.memory_total as u128) / 2) / (
            g.memory_total as u128)
        };
        if g.memory_total > 0 && (g.memory_used as u128) * 100 > (g.memory_total as u128) * 90 {
            let mut d = String::from_str("High memory usage: ");
            d.append(tenths_to_string(mem_pct).as_str());
            d.append("%");
            issues.push(d);
            status = HealthStatus::Degraded;
        }
        let power_tenths: u128 = ((g.power_usage_milliwatts as u128) + 50) / 100;
        if g.power_limit_milliwatts > 0 && (g.power_usage_milliwatts as u128) * 100 > (
        g.power_limit_milliwatts as u128) * 95 {
            let pct: u128 = ((g.power_usage_milliwatts as u128) * 1000 + (
            g.power_limit_milliwatts as u128) / 2) / (g.power_limit_milliwatts as u128);
            let mut d = String::from_str("High power usage: ");
            d.append(tenths_to_string(power_tenths).as_str());
            d.append("W (");
            d.append(tenths_to_string(pct).as_str());
            d.append("%)");
            issues.push(d);
            status = HealthStatus::Degraded;
        }
        proof {
            assert(issues@.map_values(|p: String| p@) =~= nvidia_issues(*g));
        }
        let details = if issues.len() == 0 {
            let mut d = g.name.clone();
            d.append(" - GPU: ");
            d.append(u64_to_string(g.utilization_gpu as u64).as_str());
            d.append("%, Mem: ");
            d.append(tenths_to_string(mem_pct).as_str());
            d.append("% (");
            d.append(u64_to_string(g.memory_used / 1024 / 1024).as_str());
            d.append("/");
            d.append(u64_to_string(g.memory_total / 1024 / 1024).as_str());
            d.append("MB), Temp: ");
            d.append(u64_to_string(g.temperature as u64).as_str());
            d.append("\u{b0}C, Power: ");
            d.append(tenths_to_string(power_tenths).as_str());
            d.append("W");
            proof {
                assert(d@ =~= nvidia_details(*g));
            }
            d
        } else {
            let mut d = g.name.clone();
            d.append(" - Issues: ");
            d.append(join_with(&issues, ", ").as_str());
            proof {
                assert(d@ =~= nvidia_details(*g));
            }
            d
        };
        (status, details)
    }

    /// Evaluates Apple Silicon readings, matching [`apple_status`] and
    /// [`apple_details`].
    pub fn evaluate_apple_gpu_health(&self, g: &AppleGpuInfo) -> (r: (HealthStatus, String))
        ensures
            r.0 == apple_status(*g),
            r.1@ == apple_details(*g),
    {
        let mut issues: Vec<String> = Vec::new();
        let mut status = HealthStatus::Healthy;
        if g.temp_gpu_tenths > 800 {
            let mut d = String::from_str("High GPU temperature: ");
            d.append(tenths_to_string(g.temp_gpu_tenths as u128).as_str());
            d.append("\u{b0}C");
            issues.push(d);
            status = HealthStatus::Degraded;
        }
        if g.memory_pressure_permille > 800 {
            let mut d = String::from_str("High memory pressure: ");
            d.append(tenths_to_string(g.memory_pressure_permille as u128).as_str());
            d.append("%");
            issues.push(d);
            status = HealthStatus::Degraded;
        }
        proof {
            assert(issues@.map_values(|p: String| p@) =~= apple_issues(*g));
        }
        let details = if issues.len() == 0 {
            let mut d = g.name.clone();
            d.append(" - Utilization: ");
            d.append(tenths_to_string(g.utilization_tenths as u128).as_str());
            d.append("%, Memory Pressure: ");
            d.append(tenths_to_string(g.memory_pressure_permille as u128).as_str());
            d.append("%, Temp: ");
            d.append(tenths_to_string(g.temp_gpu_tenths as u128).as_str());
            d.append("\u{b0}C, Power: ");
            d.append(tenths_to_string(g.power_usage_tenths as u128).as_str());
            d.append("W");
            proof {
                assert(d@ =~= apple_details(*g));
            }
            d
        } else {
            let mut d = g.name.clone();
            d.append(" - Issues: ");
            d.append(join_with(&issues, ", ").as_str());
            proof {
                assert(d@ =~= apple_details(*g));
            }
            d
        };
        (status, details)
    }

    /// Evaluates one set of command-line readings, matching
    /// [`gpu_metrics_status`] and [`gpu_metrics_details`]. `power_tenths`
    /// is the power draw in tenths of a watt.
    pub fn evaluate_gpu_metrics(
        &self,
        gpu_util: u32,
        mem_util: u32,
        temp: u32,
        power_tenths: u64,
    ) -> (r: (HealthStatus, String))
        ensures
            r.0 == gpu_metrics_status(mem_util as int, temp as int),
            r.1@ == gpu_metrics_details(
                gpu_util as int,
                mem_util as int,
                temp as int,
                power_tenths as int,
            ),
    {
        let mut issues: Vec<String> = Vec::new();
        let mut status = HealthStatus::Healthy;
        if temp > 85 {
            let mut d = String::from_str("High temperature: ");
            d.append(u64_to_string(temp as u64).as_str());
            d.append("\u{b0}C");
            issues.push(d);
            status = HealthStatus::Degraded;
        }
        if mem_util > 90 {
            let mut d = String::from_str("High memory utilization: ");
            d.append(u64_to_string(mem_util as u64).as_str());
            d.append("%");
            issues.push(d);
            status = HealthStatus::Degraded;
        }
        proof {
            assert(issues@.map_values(|p: String| p@) =~= gpu_metrics_issues(
                mem_util as int,
                temp as int,
            ));
        }
        let mut d = String::from_str("GPU: ");
        d.append(u64_to_string(gpu_util as u64).as_str());
        d.append("%, Memory: ");
        d.append(u64_to_string(mem_util as u64).as_str());
        d.append("%, Temp: ");
        d.append(u64_to_string(temp as u64).as_str());
        d.append("\u{b0}C, Power: ");
        d.append(tenths_to_string(power_tenths as u128).as_str());
        d.append("W");
        if issues.len() > 0 {
            d.append(" - Issues: ");
            d.append(join_with(&issues, ", ").as_str());
        }
        proof {
            assert(d@ =~= gpu_metrics_details(
                gpu_util as int,
                mem_util as int,
                temp as int,
                power_tenths as int,
            ));
        }
        (status, d)
    }
}

/// The comma-separated fields of one CSV row, each trimmed.
pub open spec fn nvidia_fields(l: Seq<char>) -> Seq<Seq<char>> {
    split_chars(l, ',').map_values(|f: Seq<char>| trim_chars(f))
}

/// What one line of the vendor tool's CSV output yields: nothing for a
/// blank or short line, else `(index, name, gpu%, mem%, temp,
/// power-tenths)` with malformed numbers read as zero.
pub open spec fn line_sample(l: Seq<char>) -> Option<(Seq<char>, Seq<char>, int, int, int, int)> {
    if trim_chars(l).len() == 0 {
        None
    } else {
        let fs = nvidia_fields(l);
        if fs.len() >= 9 {
            Some(
                (
                    fs[0],
                    fs[1],
                    spec_parse_u32_or_zero(fs[2]),
                    spec_parse_u32_or_zero(fs[3]),
                    spec_parse_u32_or_zero(fs[6]),
                    spec_parse_tenths_or_zero(fs[7]),
                ),
            )
        } else {
            None
        }
    }
}

/// The samples of a whole CSV dump, in line order.
pub open spec fn samples_of(lines: Seq<Seq<char>>) -> Seq<
    (Seq<char>, Seq<char>, int, int, int, int),
>
    decreases lines.len(),
{
    if lines.len() == 0 {
        Seq::empty()
    } else {
        samples_of(lines.drop_last()) + (match line_sample(lines.last()) {
            Some(s) => seq![s],
            None => Seq::empty(),
        })
    }
}

/// Parses one CSV row, matching [`line_sample`] for a non-blank line.
pub fn parse_nvidia_csv_line(line: &str) -> (r: Option<(String, String, u32, u32, u32, u64)>)
    ensures
        r is Some <==> nvidia_fields(line@).len() >= 9,
        r matches Some(t) ==> {
            &&& t.0@ == nvidia_fields(line@)[0]
            &&& t.1@ == nvidia_fields(line@)[1]
            &&& t.2 as int == spec_parse_u32_or_zero(nvidia_fields(line@)[2])
            &&& t.3 as int == spec_parse_u32_or_zero(nvidia_fields(line@)[3])
            &&& t.4 as int == spec_parse_u32_or_zero(nvidia_fields(line@)[6])
            &&& t.5 as int == spec_parse_tenths_or_zero(nvidia_fields(line@)[7])
        },
{
    let parts = split_str(line, ',');
    proof {
        assert(nvidia_fields(line@).len() == parts@.len()) by {
            assert(parts@.map_values(|p: String| p@).len() == parts@.len());
        }
    }
    if parts.len() < 9 {
        return None;
    }
    proof {
        let raw = parts@.map_values(|p: String| p@);
        assert forall|k: int| 0 <= k < 9 implies nvidia_fields(line@)[k] == trim_chars(
            parts@[k]@,
        ) by {
            assert(raw[k] == parts@[k]@);
        }
    }
    let index_field = String::from_str(trim_spaces(parts[0].as_str()));
    let name_field = String::from_str(trim_spaces(parts[1].as_str()));
    let gpu_util = parse_u32_or_zero(trim_spaces(parts[2].as_str()));
    let mem_util = parse_u32_or_zero(trim_spaces(parts[3].as_str()));
    let temp = parse_u32_or_zero(trim_spaces(parts[6].as_str()));
    let power_tenths = parse_tenths_or_zero(trim_spaces(parts[7].as_str()));
    Some((index_field, name_field, gpu_util, mem_util, temp, power_tenths))
}

/// Turns the vendor tool's whole CSV dump into one result per GPU row,
/// matching [`samples_of`] over the dump's lines: blank and short rows
/// yield nothing, every other row yields exactly one result evaluated by
/// [`GpuMonitor::evaluate_gpu_metrics`].
pub fn nvidia_command_results(monitor: &GpuMonitor, stdout: &str, timestamp: i64) -> (r: Vec<
    HealthCheckResult,
>)
    ensures
        ({
            let samples = samples_of(lines_of(stdout@));
            &&& r@.len() == samples.len()
            &&& forall|j: int|
                0 <= j < samples.len() ==> {
                    &&& r@[j].service_name@ == "NVIDIA GPU "@ + samples[j].0 + " ("@
                        + samples[j].1 + ")"@
                    &&& r@[j].status == gpu_metrics_status(samples[j].3, samples[j].4)
                    &&& r@[j].details@ == gpu_metrics_details(
                        samples[j].2,
                        samples[j].3,
                        samples[j].4,
                        samples[j].5,
                    )
                    &&& r@[j].response_time_ms == 0
                    &&& r@[j].timestamp == timestamp
                    &&& r@[j].error_message is None
                }
        }),
{
    let lines = split_lines(stdout);
    let ghost views = lines@.map_values(|l: String| l@);
    let mut out: Vec<HealthCheckResult> = Vec::new();
    let mut i: usize = 0;
    proof {
        assert(views.take(0) =~= Seq::<Seq<char>>::empty());
    }
    while i < lines.len()
        invariant
            views == lines@.map_values(|l: String| l@),
            views == lines_of(stdout@),
            i <= views.len(),
            out@.len() == samples_of(views.take(i as int)).len(),
            forall|j: int|
                #![trigger out@[j]]
                0 <= j < out@.len() ==> {
                    let s = samples_of(views.take(i as int))[j];
                    &&& out@[j].service_name@ == "NVIDIA GPU "@ + s.0 + " ("@ + s.1 + ")"@
                    &&& out@[j].status == gpu_metrics_status(s.3, s.4)
                    &&& out@[j].details@ == gpu_metrics_details(s.2, s.3, s.4, s.5)
                    &&& out@[j].response_time_ms == 0
                    &&& out@[j].timestamp == timestamp
                    &&& out@[j].error_message is None
                },
        decreases views.len() - i,
    {
        proof {
            assert(views[i as int] == lines@[i as int]@);
            assert(views.take(i + 1 as int).drop_last() =~= views.take(i as int));
            assert(views.take(i + 1 as int).last() == views[i as int]);
        }
        let ghost prev = samples_of(views.take(i as int));
        let trimmed = trim_spaces(lines[i].as_str());
        if !trimmed.is_empty() {
            match parse_nvidia_csv_line(lines[i].as_str()) {
                Some((index_field, name_field, gpu_util, mem_util, temp, power_tenths)) => {
                    proof {
                        assert(line_sample(views[i as int]) == Some(
                            (
                                index_field@,
                                name_field@,
                                gpu_util as int,
                                mem_util as int,
                                temp as int,
                                power_tenths as int,
                            ),
                        ));
                        assert(samples_of(views.take(i + 1 as int)) =~= prev.push(
                            line_sample(views[i as int])->0,
                        ));
                    }
                    let monitor_eval = monitor.evaluate_gpu_metrics(
                        gpu_util,
                        mem_util,
                        temp,
                        power_tenths,
                    );
                    let (status, details) = monitor_eval;
                    let mut service_name = String::from_str("NVIDIA GPU ");
                    service_name.append(index_field.as_str());
                    service_name.append(" (");
                    service_name.append(name_field.as_str());
                    service_name.append(")");
                    proof {
                        assert(service_name@ =~= "NVIDIA GPU "@ + index_field@ + " ("@
                            + name_field@ + ")"@);
                    }
                    out.push(
                        HealthCheckResult {
                            service_name,
                            status,
                            response_time_ms: 0,
                            details,
                            timestamp,
                            error_message: None,
                        },
                    );
                },
                None => {
                    proof {
                        assert(line_sample(views[i as int]) is None);
                        assert(samples_of(views.take(i + 1 as int)) =~= prev);
                    }
                },
            }
        } else {
            proof {
                assert(trim_chars(views[i as int]).len() == 0);
                assert(line_sample(views[i as int]) is None);
                assert(samples_of(views.take(i + 1 as int)) =~= prev);
            }
        }
        i = i + 1;
    }
    proof {
        assert(views.take(views.len() as int) =~= views);
    }
    out
}

/// The synthesized result when the NVIDIA family check itself fails.
pub fn nvidia_failure_result(error: String, timestamp: i64) -> (r: HealthCheckResult)
    ensures
        r.service_name@ == "NVIDIA GPU"@,
        r.status == HealthStatus::Unhealthy,
        r.response_time_ms == 0,
        r.details@ == "NVIDIA check failed: "@ + error@,
        r.timestamp == timestamp,
        r.error_message == Some(error),
{
    let mut details = String::from_str("NVIDIA check failed: ");
    details.append(error.as_str());
    HealthCheckResult {
        service_name: String::from_str("NVIDIA GPU"),
        status: HealthStatus::Unhealthy,
        response_time_ms: 0,
        details,
        timestamp,
        error_message: Some(error),
    }
}

/// The synthesized result when the Apple family check itself fails.
pub fn apple_failure_result(error: String, timestamp: i64) -> (r: HealthCheckResult)
    ensures
        r.service_name@ == "Apple Silicon GPU"@,
        r.status == HealthStatus::Unhealthy,
        r.response_time_ms == 0,
        r.details@ == "Apple GPU check failed: "@ + error@,
        r.timestamp == timestamp,
        r.error_message == Some(error),
{
    let mut details = String::from_str("Apple GPU check failed: ");
    details.append(error.as_str());
    HealthCheckResult {
        service_name: String::from_str("Apple Silicon GPU"),
        status: HealthStatus::Unhealthy,
        response_time_ms: 0,
        details,
        timestamp,
        error_message: Some(error),
    }
}

/// The synthesized result when Apple metrics collection fails.
pub fn apple_metrics_failure_result(error: String, response_time_ms: u64, timestamp: i64) -> (r:
    HealthCheckResult)
    ensures
        r.service_name@ == "Apple Silicon GPU"@,
        r.status == HealthStatus::Unhealthy,
        r.response_time_ms == response_time_ms,
        r.details@ == "Metrics collection failed: "@ + error@,
        r.timestamp == timestamp,
        r.error_message == Some(error),
{
    let mut details = String::from_str("Metrics collection failed: ");
    details.append(error.as_str());
    HealthCheckResult {
        service_name: String::from_str("Apple Silicon GPU"),
        status: HealthStatus::Unhealthy,
        response_time_ms,
        details,
        timestamp,
        error_message: Some(error),
    }
}

/// The result reported for the Apple family on a host that is not a Mac.
pub fn apple_unsupported_result(timestamp: i64) -> (r: HealthCheckResult)
    ensures
        r.service_name@ == "Apple Silicon GPU"@,
        r.status == HealthStatus::Unknown,
        r.response_time_ms == 0,
        r.details@ == "Not running on macOS"@,
        r.timestamp == timestamp,
        r.error_message is None,
{
    HealthCheckResult {
        service_name: String::from_str("Apple Silicon GPU"),
        status: HealthStatus::Unknown,
        response_time_ms: 0,
        details: String::from_str("Not running on macOS"),
        timestamp,
        error_message: None,
    }
}

/// Guarantees a GPU pass reports something: absence of supported
/// hardware is a reportable `Unknown`, not an empty batch.
pub fn ensure_gpu_results(results: Vec<HealthCheckResult>, timestamp: i64) -> (r: Vec<
    HealthCheckResult,
>)
    ensures
        results@.len() > 0 ==> r == results,
        results@.len() == 0 ==> {
            &&& r@.len() == 1
            &&& r@[0].service_name@ == "GPU Hardware"@
            &&& r@[0].status == HealthStatus::Unknown
            &&& r@[0].response_time_ms == 0
            &&& r@[0].details@ == "No supported GPU hardware detected"@
            &&& r@[0].timestamp == timestamp
            &&& r@[0].error_message is None
        },
{
    if results.len() > 0 {
        results
    } else {
        let mut out = results;
        out.push(
            HealthCheckResult {
                service_name: String::from_str("GPU Hardware"),
                status: HealthStatus::Unknown,
                response_time_ms: 0,
                details: String::from_str("No supported GPU hardware detected"),
                timestamp,
                error_message: None,
            },
        );
        out
    }
}

} // verus!
