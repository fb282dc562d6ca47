use health_checker::gpu::{
    apple_failure_result, ensure_gpu_results, nvidia_command_results, nvidia_failure_result,
    parse_nvidia_csv_line,
};
use health_checker::{AppleGpuInfo, GpuInfo, GpuMonitor, GpuProcess, HealthStatus};

fn sample_gpu() -> GpuInfo {
    GpuInfo {
        id: 0,
        name: "NVIDIA A100".to_string(),
        uuid: Some("GPU-1234".to_string()),
        driver_version: "550.54".to_string(),
        cuda_version: Some("12.4".to_string()),
        memory_total: 8 * 1024 * 1024 * 1024,
        memory_used: 4 * 1024 * 1024 * 1024,
        memory_free: 4 * 1024 * 1024 * 1024,
        utilization_gpu: 10,
        utilization_memory: 5,
        temperature: 50,
        power_usage_milliwatts: 10_000,
        power_limit_milliwatts: 400_000,
        fan_speed: Some(30),
        processes: vec![GpuProcess {
            pid: 4242,
            name: "Process 4242".to_string(),
            memory_used: 1024 * 1024,
        }],
    }
}

#[test]
fn gpu_summary_names_the_families() {
    assert_eq!(
        GpuMonitor::new(true, true).get_gpu_summary(),
        "NVIDIA and Apple Silicon GPUs available"
    );
    assert_eq!(GpuMonitor::new(true, false).get_gpu_summary(), "NVIDIA GPUs available");
    assert_eq!(GpuMonitor::new(false, true).get_gpu_summary(), "Apple Silicon GPU available");
    assert_eq!(
        GpuMonitor::new(false, false).get_gpu_summary(),
        "No supported GPU hardware detected"
    );
}

#[test]
fn healthy_gpu_reports_its_readings() {
    let monitor = GpuMonitor::new(true, false);
    let (status, details) = monitor.evaluate_nvidia_gpu_health(&sample_gpu());
    assert!(matches!(status, HealthStatus::Healthy));
    assert_eq!(
        details,
        "NVIDIA A100 - GPU: 10%, Mem: 50.0% (4096/8192MB), Temp: 50\u{b0}C, Power: 10.0W"
    );
}

#[test]
fn hot_and_full_gpu_lists_its_issues() {
    let monitor = GpuMonitor::new(true, false);
    let mut gpu = sample_gpu();
    gpu.temperature = 91;
    gpu.memory_used = gpu.memory_total / 100 * 95;
    let (status, details) = monitor.evaluate_nvidia_gpu_health(&gpu);
    assert!(matches!(status, HealthStatus::Degraded));
    assert_eq!(
        details,
        "NVIDIA A100 - Issues: High temperature: 91\u{b0}C, High memory usage: 95.0%"
    );
}

#[test]
fn overdrawn_gpu_reports_power() {
    let monitor = GpuMonitor::new(true, false);
    let mut gpu = sample_gpu();
    gpu.power_usage_milliwatts = 396_000;
    let (status, details) = monitor.evaluate_nvidia_gpu_health(&gpu);
    assert!(matches!(status, HealthStatus::Degraded));
    assert_eq!(
        details,
        "NVIDIA A100 - Issues: High power usage: 396.0W (99.0%)"
    );
}

#[test]
fn apple_gpu_healthy_readings() {
    let monitor = GpuMonitor::new(false, true);
    let info = AppleGpuInfo {
        name: "Apple Silicon GPU".to_string(),
        utilization_tenths: 123,
        memory_pressure_permille: 400,
        temp_gpu_tenths: 520,
        temp_tgpu_tenths: 530,
        power_usage_tenths: 82,
    };
    let (status, details) = monitor.evaluate_apple_gpu_health(&info);
    assert!(matches!(status, HealthStatus::Healthy));
    assert_eq!(
        details,
        "Apple Silicon GPU - Utilization: 12.3%, Memory Pressure: 40.0%, Temp: 52.0\u{b0}C, Power: 8.2W"
    );
}

#[test]
fn apple_gpu_pressure_degrades() {
    let monitor = GpuMonitor::new(false, true);
    let info = AppleGpuInfo {
        name: "Apple Silicon GPU".to_string(),
        utilization_tenths: 10,
        memory_pressure_permille: 900,
        temp_gpu_tenths: 810,
        temp_tgpu_tenths: 0,
        power_usage_tenths: 10,
    };
    let (status, details) = monitor.evaluate_apple_gpu_health(&info);
    assert!(matches!(status, HealthStatus::Degraded));
    assert_eq!(
        details,
        "Apple Silicon GPU - Issues: High GPU temperature: 81.0\u{b0}C, High memory pressure: 90.0%"
    );
}

#[test]
fn command_metrics_verdicts() {
    let monitor = GpuMonitor::new(true, false);
    let (status, details) = monitor.evaluate_gpu_metrics(50, 30, 60, 417);
    assert!(matches!(status, HealthStatus::Healthy));
    assert_eq!(details, "GPU: 50%, Memory: 30%, Temp: 60\u{b0}C, Power: 41.7W");

    let (status, details) = monitor.evaluate_gpu_metrics(50, 95, 90, 10);
    assert!(matches!(status, HealthStatus::Degraded));
    assert_eq!(
        details,
        "GPU: 50%, Memory: 95%, Temp: 90\u{b0}C, Power: 1.0W - Issues: High temperature: 90\u{b0}C, High memory utilization: 95%"
    );
}

#[test]
fn csv_row_parses_into_a_sample() {
    let line = "0, NVIDIA A100, 50, 30, 40960, 20480, 60, 41.73, 400.00";
    let (index, name, gpu_util, mem_util, temp, power_tenths) =
        parse_nvidia_csv_line(line).expect("nine fields parse");
    assert_eq!(index, "0");
    assert_eq!(name, "NVIDIA A100");
    assert_eq!(gpu_util, 50);
    assert_eq!(mem_util, 30);
    assert_eq!(temp, 60);
    assert_eq!(power_tenths, 417);
}

#[test]
fn short_csv_row_is_skipped() {
    assert!(parse_nvidia_csv_line("0, NVIDIA A100, 50").is_none());
}

#[test]
fn csv_dump_yields_one_result_per_row() {
    let monitor = GpuMonitor::new(true, false);
    let stdout = "0, NVIDIA A100, 50, 30, 40960, 20480, 60, 41.73, 400.00\n\n1, NVIDIA A100, 10, 95, 40960, 39000, 90, 100.00, 400.00\n";
    let results = nvidia_command_results(&monitor, stdout, 77);
    assert_eq!(results.len(), 2);
    assert_eq!(results[0].service_name, "NVIDIA GPU 0 (NVIDIA A100)");
    assert!(matches!(results[0].status, HealthStatus::Healthy));
    assert_eq!(results[0].timestamp, 77);
    assert_eq!(results[1].service_name, "NVIDIA GPU 1 (NVIDIA A100)");
    assert!(matches!(results[1].status, HealthStatus::Degraded));
    assert!(results[1].details.contains("High temperature: 90"));
}

#[test]
fn empty_gpu_pass_reports_unknown_hardware() {
    let results = ensure_gpu_results(Vec::new(), 5);
    assert_eq!(results.len(), 1);
    assert_eq!(results[0].service_name, "GPU Hardware");
    assert!(matches!(results[0].status, HealthStatus::Unknown));
    assert_eq!(results[0].details, "No supported GPU hardware detected");
}

#[test]
fn nonempty_gpu_pass_is_left_alone() {
    let seed = nvidia_failure_result("driver fault".to_string(), 9);
    let results = ensure_gpu_results(vec![seed], 9);
    assert_eq!(results.len(), 1);
    assert_eq!(results[0].service_name, "NVIDIA GPU");
    assert!(matches!(results[0].status, HealthStatus::Unhealthy));
    assert_eq!(results[0].details, "NVIDIA check failed: driver fault");
    assert_eq!(results[0].error_message.as_deref(), Some("driver fault"));
}

#[test]
fn apple_family_failure_is_synthesized() {
    let r = apple_failure_result("powermetrics denied".to_string(), 4);
    assert_eq!(r.service_name, "Apple Silicon GPU");
    assert!(matches!(r.status, HealthStatus::Unhealthy));
    assert_eq!(r.details, "Apple GPU check failed: powermetrics denied");
}
