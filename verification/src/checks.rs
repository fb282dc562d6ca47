//! System-level check verdicts: the pure decisions behind the host
//! probes (daemon banner, resources, connectivity, ports, config files).
//!
//! Each probe's I/O shell runs commands or opens sockets and hands the
//! raw observations in as plain values; the verdicts here are exact.

use vstd::prelude::*;

use crate::matching::{contains_sub, spec_contains};
use crate::parse::{parse_u32, spec_parse_u32};
use crate::split::{
    lines_of, split_lines, split_words, strip_trailing, strip_trailing_char, words_of,
};
use crate::status::HealthStatus;
use crate::text::{dec_chars, dec_digit_str, join_chars, join_with, u64_to_string};

verus! {

/// The first of `lines` in which `pat` occurs.
pub open spec fn first_line_containing(lines: Seq<Seq<char>>, pat: Seq<char>) -> Option<Seq<char>>
    decreases lines.len(),
{
    if lines.len() == 0 {
        None
    } else if spec_contains(lines[0], pat) {
        Some(lines[0])
    } else {
        first_line_containing(lines.drop_first(), pat)
    }
}

/// The banner line a healthy daemon check reports: the first line of
/// `out` naming a version, or the fixed fallback.
pub open spec fn docker_version_line(out: Seq<char>) -> Seq<char> {
    match first_line_containing(lines_of(out), "Version:"@) {
        Some(l) => l,
        None => "Docker daemon running"@,
    }
}

/// The disk-usage percentage read from `df` output: the fifth column of
/// the second line, with trailing `%` stripped, as a decimal.
pub open spec fn disk_usage_of(out: Seq<char>) -> Option<u32> {
    let lines = lines_of(out);
    if lines.len() < 2 {
        None
    } else {
        let parts = words_of(lines[1]);
        if parts.len() < 5 {
            None
        } else {
            spec_parse_u32(strip_trailing(parts[4], '%'))
        }
    }
}

/// The detail fragments a resources check collects, in order: one for
/// the memory check if it ran, one for the disk usage if it was read.
pub open spec fn resources_details(vm_stat: Option<bool>, usage: Option<u32>) -> Seq<Seq<char>> {
    (match vm_stat {
        Some(true) => seq!["Memory check completed"@],
        Some(false) => seq!["Memory check failed"@],
        None => Seq::empty(),
    }) + (match usage {
        Some(u) => seq![
            if u > 90 {
                "Disk usage high: "@ + dec_chars(u as nat) + "%"@
            } else {
                "Disk usage: "@ + dec_chars(u as nat) + "%"@
            },
        ],
        None => Seq::empty(),
    })
}

/// The connectivity success rate in tenths of a percent, rounded half-up.
pub open spec fn rate_tenths(successful: nat, total: nat) -> int {
    (successful * 1000 + total / 2) as int / total as int
}

/// Host-level checks around the probed services, pure verdicts only.
pub struct SystemChecker;

impl SystemChecker {
    /// Verdict on the container daemon, from the version command's
    /// outcome: `Ok((success, stdout, stderr))` if the command ran, the
    /// error text if it could not be run at all.
    #[verifier::loop_isolation(false)]
    pub fn check_docker_daemon(run: Result<(bool, String, String), String>) -> (r: (
        HealthStatus,
        String,
    ))
        ensures
            run matches Ok(t) ==> {
                &&& t.0 ==> r.0 == HealthStatus::Healthy && r.1@ == docker_version_line(t.1@)
                &&& !t.0 ==> r.0 == HealthStatus::Unhealthy && r.1@ == "Docker command failed: "@
                    + t.2@
            },
            run matches Err(e) ==> r.0 == HealthStatus::Unhealthy && r.1@
                == "Docker not found or not running: "@ + e@,
    {
        match run {
            Ok((true, stdout, _)) => {
                let lines = split_lines(stdout.as_str());
                let ghost views = lines@.map_values(|l: String| l@);
                let mut i: usize = 0;
                proof {
                    assert(views.skip(0) =~= views);
                }
                while i < lines.len()
                    invariant
                        views == lines@.map_values(|l: String| l@),
                        views == lines_of(stdout@),
                        i <= views.len(),
                        first_line_containing(views, "Version:"@) == first_line_containing(
                            views.skip(i as int),
                            "Version:"@,
                        ),
                    decreases views.len() - i,
                {
                    proof {
                        assert(views.skip(i as int)[0] == views[i as int]);
                        assert(views.skip(i as int).drop_first() =~= views.skip(i + 1 as int));
                        assert(views[i as int] == lines@[i as int]@);
                    }
                    if contains_sub(lines[i].as_str(), "Version:") {
                        proof {
                            assert(first_line_containing(views, "Version:"@) == Some(
                                views[i as int],
                            ));
                        }
                        return (HealthStatus::Healthy, lines[i].clone());
                    }
                    i = i + 1;
                }
                proof {
                    assert(views.skip(views.len() as int) =~= Seq::<Seq<char>>::empty());
                }
                (HealthStatus::Healthy, String::from_str("Docker daemon running"))
            },
            Ok((false, _, stderr)) => {
                let mut d = String::from_str("Docker command failed: ");
                d.append(stderr.as_str());
                (HealthStatus::Unhealthy, d)
            },
            Err(e) => {
                let mut d = String::from_str("Docker not found or not running: ");
                d.append(e.as_str());
                (HealthStatus::Unhealthy, d)
            },
        }
    }

    /// Verdict on system resources. `vm_stat` is whether the memory
    /// check command succeeded (absent if it could not run); `df_out` is
    /// the disk-usage table (present only when that command succeeded).
    /// Degraded when the memory check failed or disk usage is over 90%.
    pub fn check_system_resources(vm_stat: Option<bool>, df_out: Option<String>) -> (r: (
        HealthStatus,
        String,
    ))
        ensures
            ({
                let usage = match df_out {
                    Some(out) => disk_usage_of(out@),
                    None => None,
                };
                &&& r.0 == (if vm_stat == Some(false) || (usage matches Some(u) && u > 90) {
                    HealthStatus::Degraded
                } else {
                    HealthStatus::Healthy
                })
                &&& r.1@ == join_chars(resources_details(vm_stat, usage), ", "@)
            }),
    {
        let mut status = HealthStatus::Healthy;
        let mut details: Vec<String> = Vec::new();
        match vm_stat {
            Some(true) => details.push(String::from_str("Memory check completed")),
            Some(false) => {
                details.push(String::from_str("Memory check failed"));
                status = HealthStatus::Degraded;
            },
            None => {},
        }
        let usage: Option<u32> = match &df_out {
            Some(out) => Self::read_disk_usage(out.as_str()),
            None => None,
        };
        match usage {
            Some(u) => {
                let mut d = if u > 90 {
                    status = HealthStatus::Degraded;
                    String::from_str("Disk usage high: ")
                } else {
                    String::from_str("Disk usage: ")
                };
                d.append(u64_to_string(u as u64).as_str());
                d.append("%");
                details.push(d);
            },
            None => {},
        }
        proof {
            let ghost spec_usage = match df_out {
                Some(out) => disk_usage_of(out@),
                None => None,
            };
            assert(details@.map_values(|p: String| p@) =~= resources_details(
                vm_stat,
                spec_usage,
            ));
        }
        let joined = join_with(&details, ", ");
        (status, joined)
    }

    /// Reads the disk-usage percentage out of a `df` table, matching
    /// [`disk_usage_of`].
    pub fn read_disk_usage(out: &str) -> (r: Option<u32>)
        ensures
            r == disk_usage_of(out@),
    {
        let lines = split_lines(out);
        if lines.len() < 2 {
            return None;
        }
        proof {
            assert(lines@.map_values(|l: String| l@)[1] == lines@[1]@);
        }
        let parts = split_words(lines[1].as_str());
        if parts.len() < 5 {
            return None;
        }
        proof {
            assert(parts@.map_values(|p: String| p@)[4] == parts@[4]@);
        }
        let stripped = strip_trailing_char(parts[4].as_str(), '%');
        parse_u32(stripped)
    }

    /// Verdict on network connectivity: `successful` endpoints answered,
    /// the named ones did not. All reachable is healthy, more than half
    /// degraded, otherwise unhealthy.
    pub fn check_network_connectivity(successful: usize, failed: Vec<String>) -> (r: (
        HealthStatus,
        String,
    ))
        requires
            successful + failed@.len() <= usize::MAX,
        ensures
            ({
                let total = successful + failed@.len();
                &&& r.0 == (if successful == total {
                    HealthStatus::Healthy
                } else if successful > total / 2 {
                    HealthStatus::Degraded
                } else {
                    HealthStatus::Unhealthy
                })
                &&& failed@.len() == 0 ==> r.1@ == "All "@ + dec_chars(total as nat)
                    + " endpoints accessible"@
                &&& failed@.len() > 0 ==> r.1@ == dec_chars(successful as nat) + "/"@ + dec_chars(
                    total as nat,
                ) + " endpoints accessible ("@ + dec_chars(
                    (rate_tenths(successful as nat, total as nat) / 10) as nat,
                ) + "."@ + dec_digit_str((rate_tenths(successful as nat, total as nat) % 10) as nat)
                    + "%) - Failed: "@ + join_chars(failed@.map_values(|p: String| p@), ", "@)
            }),
    {
        let total = successful + failed.len();
        let status = if successful == total {
            HealthStatus::Healthy
        } else if successful > total / 2 {
            HealthStatus::Degraded
        } else {
            HealthStatus::Unhealthy
        };
        if failed.len() == 0 {
            let mut d = String::from_str("All ");
            d.append(u64_to_string(total as u64).as_str());
            d.append(" endpoints accessible");
            (status, d)
        } else {
            let wide: u128 = ((successful as u128) * 1000 + (total as u128) / 2) / (total as u128);
            proof {
                let s = successful as int;
                let t = total as int;
                let x = s * 1000 + t / 2;
                vstd::arithmetic::div_mod::lemma_fundamental_div_mod(t, 2);
                assert(x <= 1001 * t - 1);
                vstd::arithmetic::div_mod::lemma_div_is_ordered(x, 1001 * t - 1, t);
                vstd::arithmetic::div_mod::lemma_fundamental_div_mod_converse_div(
                    1001 * t - 1,
                    t,
                    1000,
                    t - 1,
                );
                assert(x / t <= 1000);
            }
            let tenths: u64 = wide as u64;
            let whole = tenths / 10;
            let frac = tenths % 10;
            let mut d = u64_to_string(successful as u64);
            d.append("/");
            d.append(u64_to_string(total as u64).as_str());
            d.append(" endpoints accessible (");
            d.append(u64_to_string(whole).as_str());
            d.append(".");
            let frac_digit = u64_to_string(frac);
            proof {
                assert(dec_chars(frac as nat) == dec_digit_str(frac as nat));
            }
            d.append(frac_digit.as_str());
            d.append("%) - Failed: ");
            d.append(join_with(&failed, ", ").as_str());
            (status, d)
        }
    }

    /// Verdict on listening ports: at least four services listening is
    /// healthy, at least two degraded, fewer unhealthy.
    pub fn check_port_usage(listening: usize, available: usize) -> (r: (HealthStatus, String))
        ensures
            r.0 == (if listening >= 4 {
                HealthStatus::Healthy
            } else if listening >= 2 {
                HealthStatus::Degraded
            } else {
                HealthStatus::Unhealthy
            }),
            r.1@ == dec_chars(listening as nat) + " services listening, "@ + dec_chars(
                available as nat,
            ) + " ports available"@,
    {
        let status = if listening >= 4 {
            HealthStatus::Healthy
        } else if listening >= 2 {
            HealthStatus::Degraded
        } else {
            HealthStatus::Unhealthy
        };
        let mut d = u64_to_string(listening as u64);
        d.append(" services listening, ");
        d.append(u64_to_string(available as u64).as_str());
        d.append(" ports available");
        (status, d)
    }

    /// Verdict on configuration files: all present is healthy, one
    /// missing degraded, more unhealthy; the detail names what is
    /// missing.
    pub fn check_configuration_files(found: Vec<String>, missing: Vec<String>) -> (r: (
        HealthStatus,
        String,
    ))
        ensures
            r.0 == (if missing@.len() == 0 {
                HealthStatus::Healthy
            } else if missing@.len() <= 1 {
                HealthStatus::Degraded
            } else {
                HealthStatus::Unhealthy
            }),
            missing@.len() == 0 ==> r.1@ == "All "@ + dec_chars(found@.len())
                + " configuration files found"@,
            missing@.len() > 0 ==> r.1@ == dec_chars(found@.len()) + " configs found, "@
                + dec_chars(missing@.len()) + " missing: "@ + join_chars(
                missing@.map_values(|p: String| p@),
                ", "@,
            ),
    {
        let status = if missing.len() == 0 {
            HealthStatus::Healthy
        } else if missing.len() <= 1 {
            HealthStatus::Degraded
        } else {
            HealthStatus::Unhealthy
        };
        if missing.len() == 0 {
            let mut d = String::from_str("All ");
            d.append(u64_to_string(found.len() as u64).as_str());
            d.append(" configuration files found");
            (status, d)
        } else {
            let mut d = u64_to_string(found.len() as u64);
            d.append(" configs found, ");
            d.append(u64_to_string(missing.len() as u64).as_str());
            d.append(" missing: ");
            d.append(join_with(&missing, ", ").as_str());
            (status, d)
        }
    }
}

} // verus!
