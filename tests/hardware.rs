use server_manager::hardware::{HardwareInfo, HardwareProfile};
use server_manager::host::{GpuType, HardwareManager};
use server_manager::host::HardwareProfile as Tier;

const GB: u64 = 1024 * 1024 * 1024;

fn gib(x: f64) -> u64 {
    (x * 1073741824.0) as u64
}

#[test]
fn test_hardware_profile_evaluation() {
    assert_eq!(HardwareInfo::evaluate_profile(2, 4, 2), HardwareProfile::Low); // Low RAM
    assert_eq!(HardwareInfo::evaluate_profile(8, 1, 2), HardwareProfile::Low); // Low Cores
    assert_eq!(HardwareInfo::evaluate_profile(32, 8, 0), HardwareProfile::High); // High RAM ignores Swap
    assert_eq!(HardwareInfo::evaluate_profile(8, 4, 0), HardwareProfile::Standard); // 8GB RAM No Swap -> Standard
    assert_eq!(HardwareInfo::evaluate_profile(6, 4, 0), HardwareProfile::Low); // 6GB RAM No Swap -> Low
    assert_eq!(HardwareInfo::evaluate_profile(6, 4, 2), HardwareProfile::Standard); // 6GB RAM + Swap -> Standard
}

#[test]
fn classifier_boundaries() {
    assert_eq!(HardwareInfo::evaluate_profile(4, 3, 2), HardwareProfile::Standard);
    assert_eq!(HardwareInfo::evaluate_profile(17, 8, 0), HardwareProfile::High);
    assert_eq!(HardwareInfo::evaluate_profile(6, 4, 0), HardwareProfile::Low);
    assert_eq!(HardwareInfo::evaluate_profile(6, 4, 2), HardwareProfile::Standard);
    // 3.9 GB of RAM rounds down to 3 whole gigabytes
    let hw = HardwareInfo::from_metrics(gib(3.9), 2 * GB, 8, &vec![], false, false, "1000".to_string(), "1000".to_string());
    assert_eq!(hw.ram_gb, 3);
    assert_eq!(hw.profile, HardwareProfile::Low);
}

#[test]
fn classifier_edge_cases() {
    // exactly 4 GB is not below the floor
    assert_eq!(HardwareInfo::evaluate_profile(4, 4, 1), HardwareProfile::Standard);
    assert_eq!(HardwareInfo::evaluate_profile(3, 4, 1), HardwareProfile::Low);
    // exactly 2 cores is low
    assert_eq!(HardwareInfo::evaluate_profile(12, 2, 4), HardwareProfile::Low);
    assert_eq!(HardwareInfo::evaluate_profile(12, 3, 4), HardwareProfile::Standard);
    // exactly 16 GB is not high
    assert_eq!(HardwareInfo::evaluate_profile(16, 8, 0), HardwareProfile::Standard);
    // zero swap only matters below 8 GB
    assert_eq!(HardwareInfo::evaluate_profile(7, 4, 0), HardwareProfile::Low);
    assert_eq!(HardwareInfo::evaluate_profile(7, 4, 1), HardwareProfile::Standard);
}

#[test]
fn from_metrics_rounds_and_sums() {
    let disks = vec![500 * GB + 12345, 1000 * GB, GB - 1];
    let hw = HardwareInfo::from_metrics(8 * GB + 1, 2 * GB, 4, &disks, true, false, "1001".to_string(), "1002".to_string());
    assert_eq!(hw.ram_gb, 8);
    assert_eq!(hw.swap_gb, 2);
    assert_eq!(hw.disk_gb, 1500);
    assert_eq!(hw.cpu_cores, 4);
    assert_eq!(hw.profile, HardwareProfile::Standard);
    assert!(hw.has_nvidia);
    assert!(!hw.has_intel_quicksync);
    assert_eq!(hw.user_id, "1001");
    assert_eq!(hw.group_id, "1002");
}

#[test]
fn from_metrics_saturates_disk_total() {
    let disks = vec![u64::MAX; 3];
    let hw = HardwareInfo::from_metrics(32 * GB, 0, 16, &disks, false, true, "0".to_string(), "0".to_string());
    assert_eq!(hw.disk_gb, 3 * (u64::MAX / GB));
    assert_eq!(hw.profile, HardwareProfile::High);
}

#[test]
fn nvidia_needs_driver_and_toolkit() {
    assert!(HardwareInfo::nvidia_ready(true, true, false));
    assert!(HardwareInfo::nvidia_ready(true, false, true));
    assert!(!HardwareInfo::nvidia_ready(true, false, false));
    assert!(!HardwareInfo::nvidia_ready(false, true, true));
}

#[test]
fn identity_resolution_order() {
    let sudo = Some(("1005".to_string(), "1006".to_string()));
    let lookup = Some(("2000".to_string(), "2001".to_string()));
    assert_eq!(HardwareInfo::resolve_identity(sudo.clone(), lookup.clone()), ("1005".to_string(), "1006".to_string()));
    assert_eq!(HardwareInfo::resolve_identity(None, lookup), ("2000".to_string(), "2001".to_string()));
    assert_eq!(HardwareInfo::resolve_identity(None, None), ("1000".to_string(), "1000".to_string()));
}

#[test]
fn test_evaluate_profile_low_ram() {
    let profile = HardwareManager::evaluate_profile(3 * 1024 * 1024 * 1024, 2 * 1024 * 1024 * 1024, 4);
    assert_eq!(profile, Tier::Low);
}

#[test]
fn test_evaluate_profile_low_cpu() {
    let profile = HardwareManager::evaluate_profile(8 * 1024 * 1024 * 1024, 2 * 1024 * 1024 * 1024, 2);
    assert_eq!(profile, Tier::Low);
}

#[test]
fn test_evaluate_profile_low_swap() {
    let profile = HardwareManager::evaluate_profile(8 * 1024 * 1024 * 1024, 512 * 1024 * 1024, 4);
    assert_eq!(profile, Tier::Low);
}

#[test]
fn test_evaluate_profile_high() {
    let profile = HardwareManager::evaluate_profile(8 * 1024 * 1024 * 1024, 2 * 1024 * 1024 * 1024, 4);
    assert_eq!(profile, Tier::High);
}

#[test]
fn test_evaluate_profile() {
    // High Spec: 8GB RAM, 4 Cores, 2GB Swap
    assert_eq!(HardwareManager::evaluate_profile(gib(8.0), gib(2.0), 4), Tier::High);

    // Low RAM: 3.5GB
    assert_eq!(HardwareManager::evaluate_profile(gib(3.5), gib(2.0), 4), Tier::Low);

    // Low CPU: 2 Cores
    assert_eq!(HardwareManager::evaluate_profile(gib(8.0), gib(2.0), 2), Tier::Low);

    // Low Swap: 0.5GB
    assert_eq!(HardwareManager::evaluate_profile(gib(8.0), gib(0.5), 4), Tier::Low);
}

#[test]
fn test_gdhd_logic() {
    let mem_gb = 2.0;
    let cpu_count = 1;
    let swap_gb = 0.5;

    let is_low_spec = mem_gb < 4.0 || cpu_count <= 2 || swap_gb < 1.0;
    assert!(is_low_spec);
    assert_eq!(HardwareManager::evaluate_profile(gib(mem_gb), gib(swap_gb), cpu_count), Tier::Low);
}

#[test]
fn gpu_classification() {
    let none: Vec<String> = vec![];
    let nodes = vec!["card0".to_string(), "renderD128".to_string()];
    let cards = vec!["card0".to_string(), "render".to_string()];
    let g = HardwareManager::classify_gpu(true, true, &nodes);
    assert_eq!(g.gpu_type, GpuType::Nvidia);
    assert!(g.device_path.is_none());
    let g = HardwareManager::classify_gpu(true, false, &nodes);
    assert_eq!(g.gpu_type, GpuType::Intel);
    assert_eq!(g.device_path.as_deref(), Some("/dev/dri"));
    let g = HardwareManager::classify_gpu(false, false, &cards);
    assert_eq!(g.gpu_type, GpuType::Absent);
    let g = HardwareManager::classify_gpu(false, true, &none);
    assert_eq!(g.gpu_type, GpuType::Absent);
    assert!(g.device_path.is_none());
}
