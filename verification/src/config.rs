//! The machine configuration and the rules that every new configuration has
//! to meet: CPU topology arithmetic and memory sizing.

use vstd::prelude::*;
use vstd::string::*;
use crate::error::VmConfigError;
use crate::error::VmmActionError;

verus! {

/// The largest number of vCPUs that a virtual machine can have.
pub const MAX_SUPPORTED_VCPUS: u8 = 254;

/// The largest memory size, in MiB: one TiB.
pub const MAX_MEM_SIZE_MIB: usize = 0x10_0000;

/// How the vCPUs are arranged.
#[derive(Clone, Copy, Debug, PartialEq, Eq, Structural)]
pub struct CpuTopology {
    /// Threads per core.
    pub threads_per_core: u8,
    /// Cores per die.
    pub cores_per_die: u8,
    /// Dies per socket.
    pub dies_per_socket: u8,
    /// Number of sockets.
    pub sockets: u8,
}

impl CpuTopology {
    /// The number of vCPUs that the topology holds, as a mathematical integer.
    pub open spec fn vcpu_total(self) -> int {
        self.sockets as int * self.dies_per_socket as int * self.cores_per_die as int
            * self.threads_per_core as int
    }

    /// Whether multiplying sockets, dies, cores and threads in this order
    /// leaves the range of a byte on the way, or ends above the maximum.
    pub open spec fn exceeds_maximum(self) -> bool {
        ||| self.sockets as int * self.dies_per_socket as int > u8::MAX as int
        ||| self.sockets as int * self.dies_per_socket as int * self.cores_per_die as int
            > u8::MAX as int
        ||| self.vcpu_total() > MAX_SUPPORTED_VCPUS as int
    }

    /// What validating the topology against `vcpu_count` answers.
    pub open spec fn check(self, vcpu_count: u8) -> Result<(), VmConfigError> {
        if self.threads_per_core < 1 || self.threads_per_core > 2 {
            Err(VmConfigError::InvalidThreadsPerCore(self.threads_per_core))
        } else if self.exceeds_maximum() {
            Err(VmConfigError::VcpuCountExceedsMaximum)
        } else if self.vcpu_total() < vcpu_count as int {
            Err(VmConfigError::InvalidCpuTopology(self.vcpu_total() as u8))
        } else {
            Ok(())
        }
    }

    /// The topology of one thread on one core of one die in one socket. A
    /// request that carries it names no topology of its own.
    pub open spec fn unit() -> CpuTopology {
        CpuTopology { threads_per_core: 1, cores_per_die: 1, dies_per_socket: 1, sockets: 1 }
    }

    /// The topology that stands in where the caller names none: one socket of
    /// one die, one thread per core, and as many cores as the larger of the two
    /// counts.
    pub open spec fn synthesized(vcpu_count: u8, max_vcpu_count: u8) -> CpuTopology {
        CpuTopology {
            threads_per_core: 1,
            cores_per_die: if max_vcpu_count > vcpu_count { max_vcpu_count } else { vcpu_count },
            dies_per_socket: 1,
            sockets: 1,
        }
    }
}

impl Default for CpuTopology {
    fn default() -> (r: Self)
        ensures
            r == CpuTopology::unit(),
    {
        CpuTopology { threads_per_core: 1, cores_per_die: 1, dies_per_socket: 1, sockets: 1 }
    }
}

/// Validates `cpu_topology` against the number of vCPUs asked for and hands
/// it back unchanged where it is sound.
pub fn handle_cpu_topology(cpu_topology: &CpuTopology, vcpu_count: u8) -> (r: Result<
    &CpuTopology,
    VmmActionError,
>)
    ensures
        match cpu_topology.check(vcpu_count) {
            Ok(()) => r == Ok::<&CpuTopology, VmmActionError>(cpu_topology),
            Err(e) => r == Err::<&CpuTopology, VmmActionError>(VmmActionError::MachineConfig(e)),
        },
{
    if cpu_topology.threads_per_core < 1 || cpu_topology.threads_per_core > 2 {
        return Err(
            VmmActionError::MachineConfig(
                VmConfigError::InvalidThreadsPerCore(cpu_topology.threads_per_core),
            ),
        );
    }
    let sd: u8 = match cpu_topology.sockets.checked_mul(cpu_topology.dies_per_socket) {
        Some(v) => v,
        None => {
            return Err(VmmActionError::MachineConfig(VmConfigError::VcpuCountExceedsMaximum));
        },
    };
    let sdc: u8 = match sd.checked_mul(cpu_topology.cores_per_die) {
        Some(v) => v,
        None => {
            return Err(VmmActionError::MachineConfig(VmConfigError::VcpuCountExceedsMaximum));
        },
    };
    let vcpu_count_from_topo: u8 = match sdc.checked_mul(cpu_topology.threads_per_core) {
        Some(v) => v,
        None => {
            return Err(VmmActionError::MachineConfig(VmConfigError::VcpuCountExceedsMaximum));
        },
    };
    if vcpu_count_from_topo > MAX_SUPPORTED_VCPUS {
        return Err(VmmActionError::MachineConfig(VmConfigError::VcpuCountExceedsMaximum));
    }
    if vcpu_count_from_topo < vcpu_count {
        return Err(
            VmmActionError::MachineConfig(VmConfigError::InvalidCpuTopology(vcpu_count_from_topo)),
        );
    }
    Ok(cpu_topology)
}

/// The configuration of a virtual machine.
#[derive(Debug, PartialEq, Eq)]
pub struct VmConfigInfo {
    /// Number of vCPUs to start with.
    pub vcpu_count: u8,
    /// Largest number of vCPUs that the machine can grow to.
    pub max_vcpu_count: u8,
    /// CPU power management.
    pub cpu_pm: String,
    /// How the vCPUs are arranged.
    pub cpu_topology: CpuTopology,
    /// Virtual performance-monitoring unit.
    pub vpmu_feature: u8,
    /// Kind of memory backing.
    pub mem_type: String,
    /// Path of the file that backs the memory; empty where there is none.
    pub mem_file_path: String,
    /// Memory size in MiB.
    pub mem_size_mib: usize,
    /// Path of the serial port's socket.
    pub serial_path: Option<String>,
}

/// A machine configuration as plain mathematical values.
pub struct VmConfigView {
    pub vcpu_count: u8,
    pub max_vcpu_count: u8,
    pub cpu_pm: Seq<char>,
    pub cpu_topology: CpuTopology,
    pub vpmu_feature: u8,
    pub mem_type: Seq<char>,
    pub mem_file_path: Seq<char>,
    pub mem_size_mib: usize,
    pub serial_path: Option<Seq<char>>,
}

impl VmConfigView {
    /// Whether the configuration meets every rule on vCPUs, memory and the
    /// serial port: at least one vCPU, 1 or 2 threads per core, a topology
    /// that stays under the maximum and holds the vCPUs asked for, a maximum
    /// vCPU count that is the topology's, an accepted memory size, a backing
    /// file where huge pages are used, and a serial port path.
    pub open spec fn sound(self) -> bool {
        &&& self.vcpu_count >= 1
        &&& (self.cpu_topology.threads_per_core == 1 || self.cpu_topology.threads_per_core == 2)
        &&& !self.cpu_topology.exceeds_maximum()
        &&& self.cpu_topology.vcpu_total() >= self.vcpu_count
        &&& self.max_vcpu_count as int == self.cpu_topology.vcpu_total()
        &&& mem_size_ok(self.mem_size_mib)
        &&& (self.mem_type == "hugetlbfs"@ ==> self.mem_file_path.len() > 0)
        &&& self.serial_path is Some
    }
}

impl View for VmConfigInfo {
    type V = VmConfigView;

    open spec fn view(&self) -> VmConfigView {
        VmConfigView {
            vcpu_count: self.vcpu_count,
            max_vcpu_count: self.max_vcpu_count,
            cpu_pm: self.cpu_pm@,
            cpu_topology: self.cpu_topology,
            vpmu_feature: self.vpmu_feature,
            mem_type: self.mem_type@,
            mem_file_path: self.mem_file_path@,
            mem_size_mib: self.mem_size_mib,
            serial_path: match self.serial_path {
                Some(p) => Some(p@),
                None => None,
            },
        }
    }
}

impl VmConfigInfo {
    /// The configuration of a machine that nobody has configured yet.
    pub open spec fn initial() -> VmConfigView {
        VmConfigView {
            vcpu_count: 1,
            max_vcpu_count: 1,
            cpu_pm: "on"@,
            cpu_topology: CpuTopology {
                threads_per_core: 1,
                cores_per_die: 1,
                dies_per_socket: 1,
                sockets: 1,
            },
            vpmu_feature: 0,
            mem_type: "shmem"@,
            mem_file_path: Seq::<char>::empty(),
            mem_size_mib: 128,
            serial_path: None,
        }
    }
}

impl Default for VmConfigInfo {
    fn default() -> (r: Self)
        ensures
            r@ == VmConfigInfo::initial(),
    {
        VmConfigInfo {
            vcpu_count: 1,
            max_vcpu_count: 1,
            cpu_pm: String::from_str("on"),
            cpu_topology: CpuTopology::default(),
            vpmu_feature: 0,
            mem_type: String::from_str("shmem"),
            mem_file_path: String::new(),
            mem_size_mib: 128,
            serial_path: None,
        }
    }
}

impl Clone for VmConfigInfo {
    fn clone(&self) -> (r: Self)
        ensures
            r == *self,
    {
        VmConfigInfo {
            vcpu_count: self.vcpu_count,
            max_vcpu_count: self.max_vcpu_count,
            cpu_pm: self.cpu_pm.clone(),
            cpu_topology: self.cpu_topology,
            vpmu_feature: self.vpmu_feature,
            mem_type: self.mem_type.clone(),
            mem_file_path: self.mem_file_path.clone(),
            mem_size_mib: self.mem_size_mib,
            serial_path: match &self.serial_path {
                Some(p) => Some(p.clone()),
                None => None,
            },
        }
    }
}

/// Whether a memory size in MiB is accepted: not zero, at most one TiB, and
/// even, so that huge pages of 2 MiB fit.
pub open spec fn mem_size_ok(mem_size_mib: usize) -> bool {
    mem_size_mib != 0 && mem_size_mib <= MAX_MEM_SIZE_MIB && mem_size_mib % 2 == 0
}

/// Checks a memory size in MiB.
pub fn check_mem_size(mem_size_mib: usize) -> (r: Result<(), VmConfigError>)
    ensures
        mem_size_ok(mem_size_mib) ==> r == Ok::<(), VmConfigError>(()),
        !mem_size_ok(mem_size_mib) ==> r == Err::<(), VmConfigError>(
            VmConfigError::InvalidMemorySize(mem_size_mib),
        ),
{
    if mem_size_mib == 0 || mem_size_mib > MAX_MEM_SIZE_MIB || mem_size_mib % 2 != 0 {
        Err(VmConfigError::InvalidMemorySize(mem_size_mib))
    } else {
        Ok(())
    }
}

/// The serial port's path of a machine for which none was ever given.
pub open spec fn default_serial_path(vm_id: Seq<char>) -> Seq<char> {
    "/run/dragonball/"@ + vm_id + "_com1"@
}

/// The topology that a request leads to: its own where it names one, else
/// the synthesized one. Which of the two does not depend on the
/// configuration in force, so that a request means the same each time.
pub open spec fn merged_topology(requested: VmConfigView) -> CpuTopology {
    if requested.cpu_topology != CpuTopology::unit() {
        requested.cpu_topology
    } else {
        CpuTopology::synthesized(requested.vcpu_count, requested.max_vcpu_count)
    }
}

/// The first rule that a request breaks, if it breaks one.
pub open spec fn merge_fault(requested: VmConfigInfo) -> Option<VmConfigError> {
    let topology = merged_topology(requested@);
    if requested.vcpu_count == 0 {
        Some(VmConfigError::InvalidVcpuCount(requested.vcpu_count))
    } else if topology.check(requested.vcpu_count) is Err {
        Some(topology.check(requested.vcpu_count)->Err_0)
    } else if requested.max_vcpu_count < requested.vcpu_count {
        Some(VmConfigError::InvalidMaxVcpuCount(requested.max_vcpu_count))
    } else if !mem_size_ok(requested.mem_size_mib) {
        Some(VmConfigError::InvalidMemorySize(requested.mem_size_mib))
    } else if requested.mem_type@ == "hugetlbfs"@ && requested.mem_file_path@.len() == 0 {
        Some(VmConfigError::InvalidMemFilePath(requested.mem_file_path))
    } else {
        None
    }
}

/// The configuration that a request without fault leads to.
pub open spec fn merged_config(
    current: VmConfigView,
    requested: VmConfigView,
    vm_id: Seq<char>,
) -> VmConfigView {
    let topology = merged_topology(requested);
    VmConfigView {
        vcpu_count: requested.vcpu_count,
        max_vcpu_count: topology.vcpu_total() as u8,
        cpu_pm: requested.cpu_pm,
        cpu_topology: topology,
        vpmu_feature: requested.vpmu_feature,
        mem_type: requested.mem_type,
        mem_file_path: requested.mem_file_path,
        mem_size_mib: requested.mem_size_mib,
        serial_path: Some(
            match requested.serial_path {
                Some(p) => p,
                None => match current.serial_path {
                    Some(p) => p,
                    None => default_serial_path(vm_id),
                },
            },
        ),
    }
}

/// Lays `machine_config` over `current` and validates the outcome as a
/// whole. Nothing is written anywhere: the caller stores the result, or
/// answers with the error.
pub fn merge_vm_configuration(
    current: &VmConfigInfo,
    machine_config: VmConfigInfo,
    vm_id: &str,
) -> (r: Result<VmConfigInfo, VmmActionError>)
    ensures
        match merge_fault(machine_config) {
            Some(e) => r == Err::<VmConfigInfo, VmmActionError>(VmmActionError::MachineConfig(e)),
            None => r is Ok && r->Ok_0@ == merged_config(current@, machine_config@, vm_id@),
        },
        r is Ok ==> r->Ok_0@.sound(),
{
    let vcpu_count: u8 = machine_config.vcpu_count;
    if vcpu_count == 0 {
        return Err(VmmActionError::MachineConfig(VmConfigError::InvalidVcpuCount(vcpu_count)));
    }
    let candidate = if machine_config.cpu_topology != CpuTopology::default() {
        machine_config.cpu_topology
    } else {
        let mut synthesized = CpuTopology {
            threads_per_core: 1,
            cores_per_die: vcpu_count,
            dies_per_socket: 1,
            sockets: 1,
        };
        if machine_config.max_vcpu_count > vcpu_count {
            synthesized.cores_per_die = machine_config.max_vcpu_count;
        }
        synthesized
    };
    let cpu_topology = match handle_cpu_topology(&candidate, vcpu_count) {
        Ok(t) => *t,
        Err(e) => {
            return Err(e);
        },
    };
    if machine_config.max_vcpu_count < vcpu_count {
        return Err(
            VmmActionError::MachineConfig(
                VmConfigError::InvalidMaxVcpuCount(machine_config.max_vcpu_count),
            ),
        );
    }
    let max_vcpu_from_topo: u8 = topology_total(&cpu_topology);
    match check_mem_size(machine_config.mem_size_mib) {
        Ok(()) => {},
        Err(e) => {
            return Err(VmmActionError::MachineConfig(e));
        },
    }
    let hugetlbfs = String::from_str("hugetlbfs");
    if machine_config.mem_type == hugetlbfs && machine_config.mem_file_path.as_str().is_empty() {
        return Err(
            VmmActionError::MachineConfig(
                VmConfigError::InvalidMemFilePath(machine_config.mem_file_path),
            ),
        );
    }
    let serial_path = match machine_config.serial_path {
        Some(value) => value,
        None => match &current.serial_path {
            Some(value) => value.clone(),
            None => String::from_str("/run/dragonball/").concat(vm_id).concat("_com1"),
        },
    };
    Ok(
        VmConfigInfo {
            vcpu_count,
            max_vcpu_count: max_vcpu_from_topo,
            cpu_pm: machine_config.cpu_pm,
            cpu_topology,
            vpmu_feature: machine_config.vpmu_feature,
            mem_type: machine_config.mem_type,
            mem_file_path: machine_config.mem_file_path,
            mem_size_mib: machine_config.mem_size_mib,
            serial_path: Some(serial_path),
        },
    )
}

/// The number of vCPUs in a topology that is known to stay under the maximum.
pub fn topology_total(cpu_topology: &CpuTopology) -> (r: u8)
    requires
        !cpu_topology.exceeds_maximum(),
    ensures
        r as int == cpu_topology.vcpu_total(),
{
    let s = cpu_topology.sockets;
    let d = cpu_topology.dies_per_socket;
    let c = cpu_topology.cores_per_die;
    let t = cpu_topology.threads_per_core;
    let sd: u8 = s * d;
    let sdc: u8 = sd * c;
    sdc * t
}

/// The configuration of a machine that nobody has configured yet is
/// accepted.
pub proof fn lemma_initial_configuration_accepted(requested: VmConfigInfo)
    requires
        requested@ == VmConfigInfo::initial(),
    ensures
        merge_fault(requested) is None,
{
    reveal_strlit("shmem");
    reveal_strlit("hugetlbfs");
    let t = merged_topology(requested@);
    let s = t.sockets as int;
    let d = t.dies_per_socket as int;
    let c = t.cores_per_die as int;
    let h = t.threads_per_core as int;
    assert(s * d == 1 && s * d * c == 1 && s * d * c * h == 1) by (nonlinear_arith)
        requires
            s == 1,
            d == 1,
            c == 1,
            h == 1,
    ;
    assert("shmem"@.len() == 5 && "hugetlbfs"@.len() == 9);
}

/// A request without fault leads to a configuration that meets every rule.
pub proof fn lemma_merged_config_sound(
    current: VmConfigInfo,
    requested: VmConfigInfo,
    vm_id: Seq<char>,
)
    requires
        merge_fault(requested) is None,
    ensures
        merged_config(current@, requested@, vm_id).sound(),
{
}

/// The synthesized topology holds as many vCPUs as the larger of the two
/// counts.
pub proof fn lemma_synthesized_total(vcpu_count: u8, max_vcpu_count: u8)
    ensures
        CpuTopology::synthesized(vcpu_count, max_vcpu_count).vcpu_total() == if max_vcpu_count
            > vcpu_count {
            max_vcpu_count as int
        } else {
            vcpu_count as int
        },
        CpuTopology::synthesized(vcpu_count, max_vcpu_count).check(vcpu_count) is Ok <==> vcpu_count
            <= MAX_SUPPORTED_VCPUS && max_vcpu_count <= MAX_SUPPORTED_VCPUS,
{
    let t = CpuTopology::synthesized(vcpu_count, max_vcpu_count);
    let s = t.sockets as int;
    let d = t.dies_per_socket as int;
    let c = t.cores_per_die as int;
    let h = t.threads_per_core as int;
    assert(s * d == 1 && s * d * c == c && s * d * c * h == c) by (nonlinear_arith)
        requires
            s == 1,
            d == 1,
            h == 1,
    ;
}

/// Applying a configuration a second time changes nothing: laid over what
/// the first application stored, the same request leads to the same
/// configuration. Whether the request is valid does not depend on the
/// configuration in force, so the second application is accepted as the
/// first was.
pub proof fn lemma_set_configuration_idempotent(
    current: VmConfigInfo,
    requested: VmConfigInfo,
    stored: VmConfigInfo,
    vm_id: Seq<char>,
)
    requires
        stored@ == merged_config(current@, requested@, vm_id),
    ensures
        merged_config(stored@, requested@, vm_id) == stored@,
{
}

/// Every topology whose threads per core are neither 1 nor 2 is refused for
/// that reason, whatever its other fields hold.
pub proof fn lemma_threads_per_core_checked_first(cpu_topology: CpuTopology, vcpu_count: u8)
    requires
        cpu_topology.threads_per_core != 1 && cpu_topology.threads_per_core != 2,
    ensures
        cpu_topology.check(vcpu_count) == Err::<(), VmConfigError>(
            VmConfigError::InvalidThreadsPerCore(cpu_topology.threads_per_core),
        ),
{
}

/// Every topology with 1 or 2 threads per core whose product is above the
/// maximum, or leaves the range of a byte on the way, is refused for
/// exceeding the maximum.
pub proof fn lemma_ceiling_enforced(cpu_topology: CpuTopology, vcpu_count: u8)
    requires
        cpu_topology.threads_per_core == 1 || cpu_topology.threads_per_core == 2,
        cpu_topology.exceeds_maximum(),
    ensures
        cpu_topology.check(vcpu_count) == Err::<(), VmConfigError>(
            VmConfigError::VcpuCountExceedsMaximum,
        ),
{
}

} // verus!
