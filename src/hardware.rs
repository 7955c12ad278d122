use vstd::prelude::*;

verus! {

/// Coarse capacity tier of the host; drives resource and feature decisions.
#[derive(Debug, Clone, Copy, PartialEq, Eq, Structural)]
pub enum HardwareProfile {
    Low,
    Standard,
    High,
}

/// The classification rule, on whole gigabytes of RAM and swap and a core count.
pub open spec fn classify(ram_gb: int, cpu_cores: int, swap_gb: int) -> HardwareProfile {
    if ram_gb > 16 {
        HardwareProfile::High
    } else if ram_gb < 4 || cpu_cores <= 2 {
        HardwareProfile::Low
    } else if ram_gb < 8 && swap_gb < 1 {
        // borderline RAM with no swap buffer: downgrade to avoid OOM
        HardwareProfile::Low
    } else {
        HardwareProfile::Standard
    }
}

pub const GIB: u64 = 1073741824;

/// Sum of whole gigabytes over a list of disk sizes given in bytes.
pub open spec fn disk_total_gb(disks: Seq<u64>) -> int
    decreases disks.len(),
{
    if disks.len() == 0 {
        0
    } else {
        disk_total_gb(disks.drop_last()) + disks.last() / GIB
    }
}

/// Snapshot of host capacity, GPU capability and the identity that owns bind mounts.
#[derive(Debug, Clone)]
pub struct HardwareInfo {
    pub profile: HardwareProfile,
    pub ram_gb: u64,
    pub cpu_cores: usize,
    pub has_nvidia: bool,
    pub has_intel_quicksync: bool,
    pub disk_gb: u64,
    pub swap_gb: u64,
    pub user_id: String,
    pub group_id: String,
}

impl HardwareInfo {
    /// Classifies the host from whole gigabytes of RAM and swap and the logical core count.
    pub fn evaluate_profile(ram_gb: u64, cpu_cores: usize, swap_gb: u64) -> (r: HardwareProfile)
        ensures
            r == classify(ram_gb as int, cpu_cores as int, swap_gb as int),
    {
        if ram_gb > 16 {
            HardwareProfile::High
        } else if ram_gb < 4 || cpu_cores <= 2 {
            HardwareProfile::Low
        } else if ram_gb < 8 && swap_gb < 1 {
            HardwareProfile::Low
        } else {
            HardwareProfile::Standard
        }
    }

    /// Builds the snapshot from raw probe values: memory, swap and disk sizes in
    /// bytes (rounded down to whole gigabytes), the logical CPU count, the GPU flags
    /// and the resolved owner identity. The disk total saturates at `u64::MAX`.
    pub fn from_metrics(
        total_memory_bytes: u64,
        total_swap_bytes: u64,
        cpu_cores: usize,
        disk_bytes: &Vec<u64>,
        has_nvidia: bool,
        has_intel_quicksync: bool,
        user_id: String,
        group_id: String,
    ) -> (r: HardwareInfo)
        ensures
            r.ram_gb == total_memory_bytes / GIB,
            r.swap_gb == total_swap_bytes / GIB,
            r.cpu_cores == cpu_cores,
            r.disk_gb == if disk_total_gb(disk_bytes@) > u64::MAX as int {
                u64::MAX as int
            } else {
                disk_total_gb(disk_bytes@)
            },
            r.profile == classify(r.ram_gb as int, cpu_cores as int, r.swap_gb as int),
            r.has_nvidia == has_nvidia,
            r.has_intel_quicksync == has_intel_quicksync,
            r.user_id == user_id,
            r.group_id == group_id,
    {
        let ram_gb = total_memory_bytes / GIB;
        let swap_gb = total_swap_bytes / GIB;
        let mut disk_gb: u64 = 0;
        let mut saturated = false;
        let mut i: usize = 0;
        while i < disk_bytes.len()
            invariant
                i <= disk_bytes@.len(),
                saturated ==> disk_total_gb(disk_bytes@.take(i as int)) > u64::MAX as int,
                !saturated ==> disk_gb as int == disk_total_gb(disk_bytes@.take(i as int)),
            decreases disk_bytes@.len() - i,
        {
            proof {
                assert(disk_bytes@.take(i as int + 1).drop_last() =~= disk_bytes@.take(i as int));
            }
            let add = disk_bytes[i] / GIB;
            if !saturated {
                if disk_gb > u64::MAX - add {
                    saturated = true;
                } else {
                    disk_gb = disk_gb + add;
                }
            }
            i = i + 1;
        }
        proof {
            assert(disk_bytes@.take(disk_bytes@.len() as int) =~= disk_bytes@);
        }
        if saturated {
            disk_gb = u64::MAX;
        }
        let profile = Self::evaluate_profile(ram_gb, cpu_cores, swap_gb);
        HardwareInfo {
            profile,
            ram_gb,
            cpu_cores,
            has_nvidia,
            has_intel_quicksync,
            disk_gb,
            swap_gb,
            user_id,
            group_id,
        }
    }

    /// NVIDIA acceleration needs the driver tool and at least one of the container
    /// toolkit's entry points.
    pub fn nvidia_ready(has_smi: bool, has_container_cli: bool, has_container_runtime: bool) -> (r:
        bool)
        ensures
            r == (has_smi && (has_container_cli || has_container_runtime)),
    {
        has_smi && (has_container_cli || has_container_runtime)
    }

    /// Chooses the owner identity for bind mounts: the invoking user's ids when
    /// both are given, else the ids looked up by the invoking user's name, else 1000/1000.
    pub fn resolve_identity(
        sudo_ids: Option<(String, String)>,
        looked_up: Option<(String, String)>,
    ) -> (r: (String, String))
        ensures
            sudo_ids is Some ==> r == sudo_ids->Some_0,
            sudo_ids is None && looked_up is Some ==> r == looked_up->Some_0,
            sudo_ids is None && looked_up is None ==> r.0@ == "1000"@ && r.1@ == "1000"@,
    {
        match sudo_ids {
            Some(ids) => ids,
            None => match looked_up {
                Some(ids) => ids,
                None => (String::from_str("1000"), String::from_str("1000")),
            },
        }
    }
}

} // verus!
