//! Host probing for the per-service installer: a two-tier classification
//! from raw byte counts, and the GPU decision from what the probes found.

use vstd::prelude::*;
use crate::hardware::GIB;
use crate::config::same_text;

verus! {

/// The installer's coarse tier: any shortage of RAM, swap or cores means `Low`.
#[derive(Debug, Clone, Copy, PartialEq, Eq, Structural)]
pub enum HardwareProfile {
    Low,
    High,
}

#[derive(Debug, Clone, Copy, PartialEq, Eq, Structural)]
pub enum GpuType {
    Nvidia,
    Intel,
    Absent,
}

#[derive(Debug, Clone)]
pub struct GpuInfo {
    pub gpu_type: GpuType,
    pub device_path: Option<String>,
}

pub open spec fn two_tier(total_memory_bytes: int, total_swap_bytes: int, cpu_cores: int) -> HardwareProfile {
    if total_memory_bytes < 4 * GIB || total_swap_bytes < GIB || cpu_cores <= 2 {
        HardwareProfile::Low
    } else {
        HardwareProfile::High
    }
}

pub open spec fn starts_with(s: Seq<char>, prefix: Seq<char>) -> bool {
    prefix.len() <= s.len() && s.subrange(0, prefix.len() as int) == prefix
}

/// Whether some directory entry is a DRM render node.
pub open spec fn has_render_node(entries: Seq<Seq<char>>) -> bool {
    exists|i: int| 0 <= i < entries.len() && starts_with(#[trigger] entries[i], "renderD"@)
}

pub fn has_prefix(s: &str, prefix: &str) -> (r: bool)
    ensures
        r == starts_with(s@, prefix@),
{
    let n = s.unicode_len();
    let m = prefix.unicode_len();
    if m > n {
        false
    } else {
        same_text(s.substring_char(0, m), prefix)
    }
}

pub struct HardwareManager;

impl HardwareManager {
    /// Classifies from total memory and swap in bytes and the logical core count.
    pub fn evaluate_profile(total_memory_bytes: u64, total_swap_bytes: u64, cpu_cores: usize) -> (r:
        HardwareProfile)
        ensures
            r == two_tier(total_memory_bytes as int, total_swap_bytes as int, cpu_cores as int),
    {
        let is_low_ram = total_memory_bytes < 4 * GIB;
        let is_low_swap = total_swap_bytes < GIB;
        let is_low_cpu = cpu_cores <= 2;
        if is_low_ram || is_low_cpu || is_low_swap {
            HardwareProfile::Low
        } else {
            HardwareProfile::High
        }
    }

    /// The GPU to use: NVIDIA when both the driver and the container toolkit
    /// are present; else Intel when `/dev/dri` holds a render node (the names
    /// of its entries are given); else none.
    pub fn classify_gpu(has_nvidia_driver: bool, has_nvidia_toolkit: bool, dri_entries: &Vec<String>) -> (r:
        GpuInfo)
        ensures
            has_nvidia_driver && has_nvidia_toolkit ==> r.gpu_type == GpuType::Nvidia
                && r.device_path is None,
            !(has_nvidia_driver && has_nvidia_toolkit) && has_render_node(
                dri_entries@.map_values(|e: String| e@),
            ) ==> r.gpu_type == GpuType::Intel && r.device_path is Some && r.device_path->Some_0@
                == "/dev/dri"@,
            !(has_nvidia_driver && has_nvidia_toolkit) && !has_render_node(
                dri_entries@.map_values(|e: String| e@),
            ) ==> r.gpu_type == GpuType::Absent && r.device_path is None,
    {
        if has_nvidia_driver && has_nvidia_toolkit {
            return GpuInfo { gpu_type: GpuType::Nvidia, device_path: None };
        }
        let ghost names = dri_entries@.map_values(|e: String| e@);
        let mut i: usize = 0;
        while i < dri_entries.len()
            invariant
                i <= dri_entries@.len(),
                !(has_nvidia_driver && has_nvidia_toolkit),
                names == dri_entries@.map_values(|e: String| e@),
                forall|j: int| 0 <= j < i ==> !starts_with(#[trigger] names[j], "renderD"@),
            decreases dri_entries@.len() - i,
        {
            if has_prefix(dri_entries[i].as_str(), "renderD") {
                assert(starts_with(names[i as int], "renderD"@));
                return GpuInfo {
                    gpu_type: GpuType::Intel,
                    device_path: Some(String::from_str("/dev/dri")),
                };
            }
            i = i + 1;
        }
        GpuInfo { gpu_type: GpuType::Absent, device_path: None }
    }
}

} // verus!
