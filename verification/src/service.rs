//! The dispatcher: one action in, one answer out.
//!
//! Work that only the surroundings can do (opening the boot files, running the
//! boot sequence, changing a device) is named in a `Delegation`; its outcome
//! comes back as a `Completion` and is turned into the answer.

use vstd::prelude::*;
use crate::cmdline::build_cmdline;
use crate::cmdline::cmdline_capacity;
use crate::cmdline::cmdline_max_size;
use crate::cmdline::cmdline_text;
use crate::cmdline::insert_fault;
use crate::cmdline::lemma_default_cmdline_accepted;
use crate::cmdline::DEFAULT_KERNEL_CMDLINE;
use crate::config::lemma_set_configuration_idempotent;
use crate::config::merge_fault;
use crate::config::merge_vm_configuration;
use crate::config::merged_config;
use crate::config::VmConfigInfo;
use crate::device::BlockDeviceConfigInfo;
use crate::device::BlockDeviceConfigUpdateInfo;
use crate::device::BootSourceConfig;
use crate::device::FsDeviceConfigInfo;
use crate::device::FsDeviceConfigUpdateInfo;
use crate::device::FsMountConfigInfo;
use crate::device::VirtioNetDeviceConfigInfo;
use crate::device::VirtioNetDeviceConfigUpdateInfo;
use crate::device::VsockDeviceConfigInfo;
use crate::error::BlockDeviceError;
use crate::error::BootSourceConfigError;
use crate::error::FsDeviceError;
use crate::error::IoFailure;
use crate::error::StartMicroVmError;
use crate::error::VirtioNetDeviceError;
use crate::error::VmConfigError;
use crate::error::VmmActionError;
use crate::error::VsockDeviceError;
use crate::vm::DeviceOpContext;
use crate::vm::KernelConfigInfo;
use crate::vm::UpcallState;
use crate::vm::Vmm;

verus! {

/// What the control plane can ask of the monitor.
#[derive(Clone, Debug, PartialEq, Eq)]
pub enum VmmAction {
    /// Configure the boot source. Only before boot.
    ConfigureBootSource(BootSourceConfig),
    /// Start the virtual machine. Only before boot.
    StartMicroVm,
    /// Shut the virtual machine down.
    ShutdownMicroVm,
    /// Read the machine configuration.
    GetVmConfiguration,
    /// Set the machine configuration. Only before boot.
    SetVmConfiguration(VmConfigInfo),
    /// Add a socket-proxy device. Only before boot.
    InsertVsockDevice(VsockDeviceConfigInfo),
    /// Add a block device.
    InsertBlockDevice(BlockDeviceConfigInfo),
    /// Remove the block device with this identifier.
    RemoveBlockDevice(String),
    /// Change the limits of a block device. Only after boot.
    UpdateBlockDevice(BlockDeviceConfigUpdateInfo),
    /// Add a network device.
    InsertNetworkDevice(VirtioNetDeviceConfigInfo),
    /// Change the limits of a network device. Only after boot.
    UpdateNetworkInterface(VirtioNetDeviceConfigUpdateInfo),
    /// Add a shared filesystem device.
    InsertFsDevice(FsDeviceConfigInfo),
    /// Attach or detach a backend filesystem. Only after boot.
    ManipulateFsBackendFs(FsMountConfigInfo),
    /// Change the limits of a shared filesystem device. Only after boot.
    UpdateFsDevice(FsDeviceConfigUpdateInfo),
}

/// What a successful action answers with.
#[derive(Debug, PartialEq, Eq)]
pub enum VmmData {
    /// Nothing but the acknowledgment.
    Empty,
    /// The machine configuration.
    MachineConfiguration(Box<VmConfigInfo>),
}

/// A request as it travels from the control plane to the monitor.
pub type VmmRequest = Box<VmmAction>;

/// The answer to an action.
pub type VmmRequestResult = Result<VmmData, VmmActionError>;

/// An answer as it travels from the monitor to the control plane.
pub type VmmResponse = Box<VmmRequestResult>;

/// What a look at the request channel found.
#[derive(Debug, PartialEq, Eq)]
pub enum Polled {
    /// An action is waiting.
    Request(VmmAction),
    /// Nothing is waiting.
    Empty,
    /// The control plane is gone.
    Disconnected,
}

/// Work that the dispatcher hands to its surroundings.
#[derive(Debug, PartialEq, Eq)]
pub enum Delegation {
    /// Open the kernel file and, where one is named, the initrd file.
    OpenBootFiles(BootSourceConfig),
    /// Run the boot sequence.
    Boot,
    /// Let the socket-proxy handler insert the device.
    InsertVsockDevice(DeviceOpContext, VsockDeviceConfigInfo),
    /// Let the block handler insert the device.
    InsertBlockDevice(DeviceOpContext, BlockDeviceConfigInfo),
    /// Let the block handler change the limits of a device.
    UpdateBlockDevice(BlockDeviceConfigUpdateInfo),
    /// Let the block handler remove the device with this identifier.
    RemoveBlockDevice(DeviceOpContext, String),
    /// Let the network handler insert the device.
    InsertNetworkDevice(DeviceOpContext, VirtioNetDeviceConfigInfo),
    /// Let the network handler change the limits of a device.
    UpdateNetworkInterface(VirtioNetDeviceConfigUpdateInfo),
    /// Let the filesystem handler insert the device.
    InsertFsDevice(DeviceOpContext, FsDeviceConfigInfo),
    /// Let the filesystem handler attach or detach a backend.
    ManipulateFsBackendFs(FsMountConfigInfo),
    /// Let the filesystem handler change the limits of a device.
    UpdateFsDevice(FsDeviceConfigUpdateInfo),
}

/// What the dispatcher made of one look at the request channel.
#[derive(Debug, PartialEq, Eq)]
pub enum Step {
    /// Nothing was waiting; there is nothing to answer.
    Idle,
    /// The answer to the action.
    Respond(VmmRequestResult),
    /// The action was admitted; its answer follows from the outcome of this
    /// work.
    Delegate(Delegation),
}

/// The outcome of delegated work.
#[derive(Debug, PartialEq, Eq)]
pub enum Completion {
    /// The boot files were opened, or not.
    BootFiles {
        /// The boot source that was asked for.
        config: BootSourceConfig,
        /// How opening the kernel file went.
        kernel: Result<(), IoFailure>,
        /// How opening the initrd file went, where one was opened.
        initrd: Option<Result<(), IoFailure>>,
    },
    /// The boot sequence ended.
    Boot(Result<(), StartMicroVmError>),
    /// The socket-proxy handler answered.
    Vsock(Result<(), VsockDeviceError>),
    /// The block handler answered.
    Block(Result<(), BlockDeviceError>),
    /// The network handler answered.
    VirtioNet(Result<(), VirtioNetDeviceError>),
    /// The filesystem handler answered.
    FsDevice(Result<(), FsDeviceError>),
}

/// The delegated work whose outcome the service waits for.
#[derive(Clone, Copy, Debug, PartialEq, Eq, Structural)]
pub enum Awaited {
    /// No action is in flight.
    Nothing,
    /// The boot files are being opened.
    BootFiles,
    /// The boot sequence runs.
    Boot,
    /// The socket-proxy handler works.
    Vsock,
    /// The block handler works.
    Block,
    /// The network handler works.
    VirtioNet,
    /// The filesystem handler works.
    FsDevice,
}

impl Delegation {
    /// The outcome that this work will be answered with.
    pub open spec fn awaited(self) -> Awaited {
        match self {
            Delegation::OpenBootFiles(_) => Awaited::BootFiles,
            Delegation::Boot => Awaited::Boot,
            Delegation::InsertVsockDevice(_, _) => Awaited::Vsock,
            Delegation::InsertBlockDevice(_, _) => Awaited::Block,
            Delegation::UpdateBlockDevice(_) => Awaited::Block,
            Delegation::RemoveBlockDevice(_, _) => Awaited::Block,
            Delegation::InsertNetworkDevice(_, _) => Awaited::VirtioNet,
            Delegation::UpdateNetworkInterface(_) => Awaited::VirtioNet,
            Delegation::InsertFsDevice(_, _) => Awaited::FsDevice,
            Delegation::ManipulateFsBackendFs(_) => Awaited::FsDevice,
            Delegation::UpdateFsDevice(_) => Awaited::FsDevice,
        }
    }
}

impl Step {
    /// What the service waits for after this step: the outcome of the work
    /// that it delegates, or nothing.
    pub open spec fn awaited(self) -> Awaited {
        match self {
            Step::Delegate(delegation) => delegation.awaited(),
            _ => Awaited::Nothing,
        }
    }

    /// What the service waits for after this step.
    pub fn to_await(&self) -> (r: Awaited)
        ensures
            r == self.awaited(),
    {
        match self {
            Step::Delegate(Delegation::OpenBootFiles(_)) => Awaited::BootFiles,
            Step::Delegate(Delegation::Boot) => Awaited::Boot,
            Step::Delegate(Delegation::InsertVsockDevice(_, _)) => Awaited::Vsock,
            Step::Delegate(Delegation::InsertBlockDevice(_, _)) => Awaited::Block,
            Step::Delegate(Delegation::UpdateBlockDevice(_)) => Awaited::Block,
            Step::Delegate(Delegation::RemoveBlockDevice(_, _)) => Awaited::Block,
            Step::Delegate(Delegation::InsertNetworkDevice(_, _)) => Awaited::VirtioNet,
            Step::Delegate(Delegation::UpdateNetworkInterface(_)) => Awaited::VirtioNet,
            Step::Delegate(Delegation::InsertFsDevice(_, _)) => Awaited::FsDevice,
            Step::Delegate(Delegation::ManipulateFsBackendFs(_)) => Awaited::FsDevice,
            Step::Delegate(Delegation::UpdateFsDevice(_)) => Awaited::FsDevice,
            Step::Idle => Awaited::Nothing,
            Step::Respond(_) => Awaited::Nothing,
        }
    }
}

impl Completion {
    /// The work that this outcome belongs to.
    pub open spec fn answers(self) -> Awaited {
        match self {
            Completion::BootFiles { .. } => Awaited::BootFiles,
            Completion::Boot(_) => Awaited::Boot,
            Completion::Vsock(_) => Awaited::Vsock,
            Completion::Block(_) => Awaited::Block,
            Completion::VirtioNet(_) => Awaited::VirtioNet,
            Completion::FsDevice(_) => Awaited::FsDevice,
        }
    }

    /// The work that this outcome belongs to.
    pub fn kind(&self) -> (r: Awaited)
        ensures
            r == self.answers(),
    {
        match self {
            Completion::BootFiles { .. } => Awaited::BootFiles,
            Completion::Boot(_) => Awaited::Boot,
            Completion::Vsock(_) => Awaited::Vsock,
            Completion::Block(_) => Awaited::Block,
            Completion::VirtioNet(_) => Awaited::VirtioNet,
            Completion::FsDevice(_) => Awaited::FsDevice,
        }
    }
}

/// The step that answers with an error.
pub open spec fn refuse(e: VmmActionError) -> Step {
    Step::Respond(Err(e))
}

/// Whether a machine exists and has left the state in which it can be
/// configured.
pub open spec fn booted(vmm: Vmm) -> bool {
    vmm.vm is Some && vmm.vm->0.initialized()
}

/// What configuring the boot source leads to, before any file is opened.
pub open spec fn boot_source_step(vmm: Vmm, config: BootSourceConfig) -> Step {
    if vmm.vm is None {
        refuse(VmmActionError::InvalidVMID)
    } else if booted(vmm) {
        refuse(VmmActionError::BootSource(BootSourceConfigError::UpdateNotAllowedPostBoot))
    } else {
        Step::Delegate(Delegation::OpenBootFiles(config))
    }
}

/// What starting the machine leads to.
pub open spec fn start_step(vmm: Vmm) -> Step {
    if vmm.vm is None {
        refuse(VmmActionError::InvalidVMID)
    } else if booted(vmm) {
        refuse(VmmActionError::StartMicroVm(StartMicroVmError::MicroVMAlreadyRunning))
    } else if vmm.vm->0.kernel_config is None {
        refuse(VmmActionError::StartMicroVm(StartMicroVmError::MissingKernelConfig))
    } else {
        Step::Delegate(Delegation::Boot)
    }
}

/// The answer to setting the machine configuration.
pub open spec fn set_configuration_answer(vmm: Vmm, machine_config: VmConfigInfo) -> Result<
    VmmData,
    VmmActionError,
> {
    if vmm.vm is None {
        Err(VmmActionError::InvalidVMID)
    } else if booted(vmm) {
        Err(VmmActionError::MachineConfig(VmConfigError::UpdateNotAllowedPostBoot))
    } else {
        match merge_fault(machine_config) {
            Some(e) => Err(VmmActionError::MachineConfig(e)),
            None => Ok(VmmData::Empty),
        }
    }
}

/// Whether `after` is `before` with the merged configuration in force and
/// nothing else changed.
pub open spec fn configuration_applied(
    before: Vmm,
    after: Vmm,
    machine_config: VmConfigInfo,
) -> bool {
    &&& before.vm is Some
    &&& after.vm is Some
    &&& after.exit_evt_triggered == before.exit_evt_triggered
    &&& after.vm->0.id == before.vm->0.id
    &&& after.vm->0.instance_state == before.vm->0.instance_state
    &&& after.vm->0.kernel_config == before.vm->0.kernel_config
    &&& after.vm->0.upcall == before.vm->0.upcall
    &&& after.vm->0.vm_config@ == merged_config(
        before.vm->0.vm_config@,
        machine_config@,
        before.vm->0.id@,
    )
}

/// What inserting a socket-proxy device leads to. Guest context identifiers
/// up to 2 are reserved and refused before a context is asked for.
pub open spec fn vsock_step(vmm: Vmm, config: VsockDeviceConfigInfo) -> Step {
    if vmm.vm is None {
        refuse(VmmActionError::InvalidVMID)
    } else if booted(vmm) {
        refuse(VmmActionError::Vsock(VsockDeviceError::UpdateNotAllowedPostBoot))
    } else if config.guest_cid <= 2 {
        refuse(VmmActionError::Vsock(VsockDeviceError::GuestCIDInvalid(config.guest_cid)))
    } else {
        Step::Delegate(
            Delegation::InsertVsockDevice(
                DeviceOpContext { hotplug: false, with_epoll_manager: false },
                config,
            ),
        )
    }
}

/// What inserting a block device leads to.
pub open spec fn block_insert_step(vmm: Vmm, config: BlockDeviceConfigInfo) -> Step {
    if vmm.vm is None {
        refuse(VmmActionError::InvalidVMID)
    } else {
        match vmm.vm->0.context(true) {
            Ok(ctx) => Step::Delegate(Delegation::InsertBlockDevice(ctx, config)),
            Err(StartMicroVmError::UpcallNotReady) => refuse(VmmActionError::UpcallNotReady),
            Err(_) => refuse(VmmActionError::Block(BlockDeviceError::UpdateNotAllowedPostBoot)),
        }
    }
}

/// What changing the limits of a block device leads to.
pub open spec fn block_update_step(vmm: Vmm, config: BlockDeviceConfigUpdateInfo) -> Step {
    if vmm.vm is None {
        refuse(VmmActionError::InvalidVMID)
    } else if !booted(vmm) {
        refuse(VmmActionError::Block(BlockDeviceError::MicroVMNotRunning))
    } else {
        Step::Delegate(Delegation::UpdateBlockDevice(config))
    }
}

/// What removing a block device leads to.
pub open spec fn block_remove_step(vmm: Vmm, drive_id: String) -> Step {
    if vmm.vm is None {
        refuse(VmmActionError::InvalidVMID)
    } else {
        match vmm.vm->0.context(true) {
            Ok(ctx) => Step::Delegate(Delegation::RemoveBlockDevice(ctx, drive_id)),
            Err(_) => refuse(VmmActionError::Block(BlockDeviceError::UpdateNotAllowedPostBoot)),
        }
    }
}

/// What inserting a network device leads to.
pub open spec fn net_insert_step(vmm: Vmm, config: VirtioNetDeviceConfigInfo) -> Step {
    if vmm.vm is None {
        refuse(VmmActionError::InvalidVMID)
    } else {
        match vmm.vm->0.context(true) {
            Ok(ctx) => Step::Delegate(Delegation::InsertNetworkDevice(ctx, config)),
            Err(StartMicroVmError::MicroVMAlreadyRunning) => refuse(
                VmmActionError::VirtioNet(VirtioNetDeviceError::UpdateNotAllowedPostBoot),
            ),
            Err(StartMicroVmError::UpcallNotReady) => refuse(VmmActionError::UpcallNotReady),
            Err(e) => refuse(VmmActionError::StartMicroVm(e)),
        }
    }
}

/// What changing the limits of a network device leads to.
pub open spec fn net_update_step(vmm: Vmm, config: VirtioNetDeviceConfigUpdateInfo) -> Step {
    if vmm.vm is None {
        refuse(VmmActionError::InvalidVMID)
    } else if !booted(vmm) {
        refuse(VmmActionError::VirtioNet(VirtioNetDeviceError::MicroVMNotRunning))
    } else {
        Step::Delegate(Delegation::UpdateNetworkInterface(config))
    }
}

/// What inserting a shared filesystem device leads to.
pub open spec fn fs_insert_step(vmm: Vmm, config: FsDeviceConfigInfo) -> Step {
    if vmm.vm is None {
        refuse(VmmActionError::InvalidVMID)
    } else {
        match vmm.vm->0.context(false) {
            Ok(ctx) => Step::Delegate(Delegation::InsertFsDevice(ctx, config)),
            Err(_) => refuse(VmmActionError::FsDevice(FsDeviceError::UpdateNotAllowedPostBoot)),
        }
    }
}

/// What attaching or detaching a backend filesystem leads to.
pub open spec fn fs_backend_step(vmm: Vmm, config: FsMountConfigInfo) -> Step {
    if vmm.vm is None {
        refuse(VmmActionError::InvalidVMID)
    } else if !booted(vmm) {
        refuse(VmmActionError::FsDevice(FsDeviceError::MicroVMNotRunning))
    } else {
        Step::Delegate(Delegation::ManipulateFsBackendFs(config))
    }
}

/// What changing the limits of a shared filesystem device leads to.
pub open spec fn fs_update_step(vmm: Vmm, config: FsDeviceConfigUpdateInfo) -> Step {
    if vmm.vm is None {
        refuse(VmmActionError::InvalidVMID)
    } else if !booted(vmm) {
        refuse(VmmActionError::FsDevice(FsDeviceError::MicroVMNotRunning))
    } else {
        Step::Delegate(Delegation::UpdateFsDevice(config))
    }
}

/// The step that an action leads to, given the configuration that the
/// service remembers and the monitor as it stands.
pub open spec fn dispatch(cached: VmConfigInfo, vmm: Vmm, action: VmmAction) -> Step {
    match action {
        VmmAction::ConfigureBootSource(config) => boot_source_step(vmm, config),
        VmmAction::StartMicroVm => start_step(vmm),
        VmmAction::ShutdownMicroVm => Step::Respond(Ok(VmmData::Empty)),
        VmmAction::GetVmConfiguration => Step::Respond(
            Ok(VmmData::MachineConfiguration(Box::new(cached))),
        ),
        VmmAction::SetVmConfiguration(config) => Step::Respond(
            set_configuration_answer(vmm, config),
        ),
        VmmAction::InsertVsockDevice(config) => vsock_step(vmm, config),
        VmmAction::InsertBlockDevice(config) => block_insert_step(vmm, config),
        VmmAction::RemoveBlockDevice(drive_id) => block_remove_step(vmm, drive_id),
        VmmAction::UpdateBlockDevice(config) => block_update_step(vmm, config),
        VmmAction::InsertNetworkDevice(config) => net_insert_step(vmm, config),
        VmmAction::UpdateNetworkInterface(config) => net_update_step(vmm, config),
        VmmAction::InsertFsDevice(config) => fs_insert_step(vmm, config),
        VmmAction::ManipulateFsBackendFs(config) => fs_backend_step(vmm, config),
        VmmAction::UpdateFsDevice(config) => fs_update_step(vmm, config),
    }
}

/// The boot arguments of a boot source: its own, or the default ones.
pub open spec fn boot_args_text(config: BootSourceConfig) -> Seq<char> {
    match config.boot_args {
        Some(args) => args@,
        None => DEFAULT_KERNEL_CMDLINE@,
    }
}

/// Why a boot source is not installed, if it is not: the machine's state
/// first, then the kernel file, the initrd file and the command line.
pub open spec fn boot_source_fault(
    vmm: Vmm,
    config: BootSourceConfig,
    kernel: Result<(), IoFailure>,
    initrd: Option<Result<(), IoFailure>>,
    capacity: nat,
) -> Option<VmmActionError> {
    if vmm.vm is None {
        Some(VmmActionError::InvalidVMID)
    } else if booted(vmm) {
        Some(VmmActionError::BootSource(BootSourceConfigError::UpdateNotAllowedPostBoot))
    } else if kernel is Err {
        Some(VmmActionError::BootSource(BootSourceConfigError::InvalidKernelPath(kernel->Err_0)))
    } else if initrd is Some && initrd->0 is Err {
        Some(
            VmmActionError::BootSource(BootSourceConfigError::InvalidInitrdPath(initrd->0->Err_0)),
        )
    } else {
        match insert_fault(Seq::<char>::empty(), capacity, boot_args_text(config)) {
            Some(fault) => Some(
                VmmActionError::BootSource(BootSourceConfigError::InvalidKernelCommandLine(fault)),
            ),
            None => None,
        }
    }
}

/// Whether `after` is `before` with the boot source installed and nothing
/// else changed.
pub open spec fn boot_source_installed(
    before: Vmm,
    after: Vmm,
    config: BootSourceConfig,
    capacity: nat,
) -> bool {
    &&& before.vm is Some
    &&& after.vm is Some
    &&& after.exit_evt_triggered == before.exit_evt_triggered
    &&& after.vm->0.id == before.vm->0.id
    &&& after.vm->0.instance_state == before.vm->0.instance_state
    &&& after.vm->0.vm_config == before.vm->0.vm_config
    &&& after.vm->0.upcall == before.vm->0.upcall
    &&& after.vm->0.kernel_config is Some
    &&& after.vm->0.kernel_config->0.kernel_path == config.kernel_path
    &&& after.vm->0.kernel_config->0.initrd_path == config.initrd_path
    &&& cmdline_text(after.vm->0.kernel_config->0.cmdline) == boot_args_text(config)
    &&& cmdline_capacity(after.vm->0.kernel_config->0.cmdline) == capacity
}

/// Whether answer and monitor are what installing a boot source gives with a
/// command line of the given capacity.
pub open spec fn boot_source_outcome(
    before: Vmm,
    after: Vmm,
    config: BootSourceConfig,
    kernel: Result<(), IoFailure>,
    initrd: Option<Result<(), IoFailure>>,
    capacity: nat,
    answer: Result<VmmData, VmmActionError>,
) -> bool {
    match boot_source_fault(before, config, kernel, initrd, capacity) {
        Some(e) => answer == Err::<VmmData, VmmActionError>(e) && after == before,
        None => answer == Ok::<VmmData, VmmActionError>(VmmData::Empty) && boot_source_installed(
            before,
            after,
            config,
            capacity,
        ),
    }
}

/// Installs a boot source on a machine that is not booted yet, once its
/// files were opened, with a kernel command line of the given capacity.
pub fn install_boot_source_with(
    vmm: &mut Vmm,
    config: BootSourceConfig,
    kernel: Result<(), IoFailure>,
    initrd: Option<Result<(), IoFailure>>,
    capacity: usize,
) -> (r: VmmRequestResult)
    requires
        capacity != 0,
    ensures
        boot_source_outcome(*old(vmm), *final(vmm), config, kernel, initrd, capacity as nat, r),
{
    match &vmm.vm {
        None => {
            return Err(VmmActionError::InvalidVMID);
        },
        Some(vm) => {
            if vm.is_vm_initialized() {
                return Err(
                    VmmActionError::BootSource(BootSourceConfigError::UpdateNotAllowedPostBoot),
                );
            }
        },
    }
    match kernel {
        Ok(()) => {},
        Err(e) => {
            return Err(VmmActionError::BootSource(BootSourceConfigError::InvalidKernelPath(e)));
        },
    }
    match initrd {
        Some(Err(e)) => {
            return Err(VmmActionError::BootSource(BootSourceConfigError::InvalidInitrdPath(e)));
        },
        _ => {},
    }
    let built = match &config.boot_args {
        Some(args) => build_cmdline(capacity, args.as_str()),
        None => build_cmdline(capacity, DEFAULT_KERNEL_CMDLINE),
    };
    let cmdline = match built {
        Ok(cmdline) => cmdline,
        Err(fault) => {
            return Err(
                VmmActionError::BootSource(BootSourceConfigError::InvalidKernelCommandLine(fault)),
            );
        },
    };
    let kernel_config = KernelConfigInfo {
        kernel_path: config.kernel_path,
        initrd_path: config.initrd_path,
        cmdline,
    };
    let mut vm = vmm.vm.take().unwrap();
    vm.kernel_config = Some(kernel_config);
    vmm.vm = Some(vm);
    Ok(VmmData::Empty)
}

/// Whether a boot source goes in without regard to the capacity of the
/// command line: the machine exists and is not booted, the files are open,
/// and the default boot arguments are used.
pub open spec fn boot_source_plain(
    vmm: Vmm,
    config: BootSourceConfig,
    kernel: Result<(), IoFailure>,
    initrd: Option<Result<(), IoFailure>>,
) -> bool {
    &&& vmm.vm is Some
    &&& !booted(vmm)
    &&& kernel is Ok
    &&& !(initrd is Some && initrd->0 is Err)
    &&& config.boot_args is None
}

/// A boot source with the default boot arguments is installed on every
/// machine that is not booted yet, once its files are open.
pub proof fn lemma_default_boot_source_accepted(
    vmm: Vmm,
    config: BootSourceConfig,
    kernel: Result<(), IoFailure>,
    initrd: Option<Result<(), IoFailure>>,
    capacity: nat,
)
    requires
        boot_source_plain(vmm, config, kernel, initrd),
        capacity > 100,
    ensures
        boot_source_fault(vmm, config, kernel, initrd, capacity) is None,
{
    lemma_default_cmdline_accepted(capacity);
}

/// The answer to the outcome of the boot sequence or of a device handler:
/// success is acknowledged, a failure is filed under its subsystem. (What
/// follows from opening the boot files depends on the machine as well: see
/// `boot_source_outcome`.)
pub open spec fn completion_answer(completion: Completion) -> Result<VmmData, VmmActionError>
    recommends
        !(completion is BootFiles),
{
    match completion {
        Completion::BootFiles { .. } => Ok(VmmData::Empty),
        Completion::Boot(Ok(())) => Ok(VmmData::Empty),
        Completion::Boot(Err(e)) => Err(VmmActionError::StartMicroVm(e)),
        Completion::Vsock(Ok(())) => Ok(VmmData::Empty),
        Completion::Vsock(Err(e)) => Err(VmmActionError::Vsock(e)),
        Completion::Block(Ok(())) => Ok(VmmData::Empty),
        Completion::Block(Err(e)) => Err(VmmActionError::Block(e)),
        Completion::VirtioNet(Ok(())) => Ok(VmmData::Empty),
        Completion::VirtioNet(Err(e)) => Err(VmmActionError::VirtioNet(e)),
        Completion::FsDevice(Ok(())) => Ok(VmmData::Empty),
        Completion::FsDevice(Err(e)) => Err(VmmActionError::FsDevice(e)),
    }
}

/// The service that answers the control plane's actions. It remembers the
/// machine configuration that it applied last, and the delegated work of
/// the one action that may be in flight.
#[derive(Debug)]
pub struct VmmService {
    machine_config: VmConfigInfo,
    awaited: Awaited,
}

impl VmmService {
    /// The machine configuration that the service remembers.
    pub closed spec fn cached(&self) -> VmConfigInfo {
        self.machine_config
    }

    /// The delegated work whose outcome the service waits for.
    pub closed spec fn awaiting(&self) -> Awaited {
        self.awaited
    }

    /// A service that has applied nothing yet and waits for nothing.
    pub fn new() -> (r: Self)
        ensures
            r.cached()@ == VmConfigInfo::initial(),
            r.awaiting() is Nothing,
    {
        VmmService { machine_config: VmConfigInfo::default(), awaited: Awaited::Nothing }
    }

    /// The delegated work whose outcome the service waits for.
    pub fn awaited(&self) -> (r: Awaited)
        ensures
            r == self.awaiting(),
    {
        self.awaited
    }

    /// The machine configuration that the service remembers.
    pub fn machine_config(&self) -> (r: &VmConfigInfo)
        ensures
            *r == self.cached(),
    {
        &self.machine_config
    }

    /// Handles what a look at the request channel found: nothing where nothing
    /// was waiting, else the answer to the action or the work that it needs.
    /// One action is in flight at a time: delegated work has to be completed
    /// before the channel is looked at again. A channel that the control
    /// plane has left is not handled here.
    pub fn run_vmm_action(&mut self, vmm: &mut Vmm, polled: Polled) -> (r: Step)
        requires
            !(polled is Disconnected),
            old(self).awaiting() is Nothing,
        ensures
            final(self).awaiting() == r.awaited(),
            final(vmm).vm is Some <==> old(vmm).vm is Some,
            final(vmm).vm is Some ==> final(vmm).vm->0.instance_state
                == old(vmm).vm->0.instance_state,
            polled is Empty ==> r == Step::Idle && *final(vmm) == *old(vmm) && final(self).cached()
                == old(self).cached(),
            polled matches Polled::Request(action) ==> {
                &&& r == dispatch(old(self).cached(), *old(vmm), action)
                &&& match action {
                    VmmAction::SetVmConfiguration(config) => if r is Respond && r->Respond_0 is Ok {
                        &&& configuration_applied(*old(vmm), *final(vmm), config)
                        &&& final(self).cached()@ == final(vmm).vm->0.vm_config@
                        &&& final(vmm).vm->0.vm_config@.sound()
                    } else {
                        *final(vmm) == *old(vmm) && final(self).cached() == old(self).cached()
                    },
                    VmmAction::ShutdownMicroVm => {
                        &&& final(vmm).vm == old(vmm).vm
                        &&& final(vmm).exit_evt_triggered
                        &&& final(self).cached() == old(self).cached()
                    },
                    _ => *final(vmm) == *old(vmm) && final(self).cached() == old(self).cached(),
                }
            },
    {
        let request = match polled {
            Polled::Request(action) => action,
            _ => {
                return Step::Idle;
            },
        };
        let step = match request {
            VmmAction::ConfigureBootSource(config) => self.configure_boot_source(vmm, config),
            VmmAction::StartMicroVm => self.start_microvm(vmm),
            VmmAction::ShutdownMicroVm => Step::Respond(self.shutdown_microvm(vmm)),
            VmmAction::GetVmConfiguration => Step::Respond(
                Ok(VmmData::MachineConfiguration(Box::new(self.machine_config.clone()))),
            ),
            VmmAction::SetVmConfiguration(config) => Step::Respond(
                self.set_vm_configuration(vmm, config),
            ),
            VmmAction::InsertVsockDevice(config) => self.add_vsock_device(vmm, config),
            VmmAction::InsertBlockDevice(config) => self.add_block_device(vmm, config),
            VmmAction::UpdateBlockDevice(config) => self.update_blk_rate_limiters(vmm, config),
            VmmAction::RemoveBlockDevice(drive_id) => self.remove_block_device(vmm, drive_id),
            VmmAction::InsertNetworkDevice(config) => self.add_virtio_net_device(vmm, config),
            VmmAction::UpdateNetworkInterface(config) => self.update_net_rate_limiters(
                vmm,
                config,
            ),
            VmmAction::InsertFsDevice(config) => self.add_fs_device(vmm, config),
            VmmAction::ManipulateFsBackendFs(config) => self.manipulate_fs_backend_fs(vmm, config),
            VmmAction::UpdateFsDevice(config) => self.update_fs_rate_limiters(vmm, config),
        };
        self.awaited = step.to_await();
        step
    }

    /// Turns the outcome of the delegated work that the service waits for
    /// into the answer to the action; no action is in flight afterwards.
    /// Where the boot files were opened, the boot source is installed.
    pub fn complete_vmm_action(&mut self, vmm: &mut Vmm, completion: Completion) -> (r:
        VmmRequestResult)
        requires
            old(self).awaiting() == completion.answers(),
        ensures
            final(self).cached() == old(self).cached(),
            final(self).awaiting() is Nothing,
            match completion {
                Completion::BootFiles { config, kernel, initrd } => boot_source_outcome(
                    *old(vmm),
                    *final(vmm),
                    config,
                    kernel,
                    initrd,
                    2048,
                    r,
                ) || boot_source_outcome(
                    *old(vmm),
                    *final(vmm),
                    config,
                    kernel,
                    initrd,
                    0x10000,
                    r,
                ),
                _ => r == completion_answer(completion) && *final(vmm) == *old(vmm),
            },
            completion matches Completion::BootFiles { config, kernel, initrd }
                && boot_source_plain(*old(vmm), config, kernel, initrd) ==> r == Ok::<
                VmmData,
                VmmActionError,
            >(VmmData::Empty),
    {
        self.awaited = Awaited::Nothing;
        match completion {
            Completion::BootFiles { config, kernel, initrd } => self.install_boot_source(
                vmm,
                config,
                kernel,
                initrd,
            ),
            Completion::Boot(outcome) => match outcome {
                Ok(()) => Ok(VmmData::Empty),
                Err(e) => Err(VmmActionError::StartMicroVm(e)),
            },
            Completion::Vsock(outcome) => match outcome {
                Ok(()) => Ok(VmmData::Empty),
                Err(e) => Err(VmmActionError::Vsock(e)),
            },
            Completion::Block(outcome) => match outcome {
                Ok(()) => Ok(VmmData::Empty),
                Err(e) => Err(VmmActionError::Block(e)),
            },
            Completion::VirtioNet(outcome) => match outcome {
                Ok(()) => Ok(VmmData::Empty),
                Err(e) => Err(VmmActionError::VirtioNet(e)),
            },
            Completion::FsDevice(outcome) => match outcome {
                Ok(()) => Ok(VmmData::Empty),
                Err(e) => Err(VmmActionError::FsDevice(e)),
            },
        }
    }

    /// Decides whether a boot source may be configured now. Where it may, the
    /// boot files are to be opened next.
    pub fn configure_boot_source(&self, vmm: &Vmm, boot_source_config: BootSourceConfig) -> (r:
        Step)
        ensures
            r == boot_source_step(*vmm, boot_source_config),
    {
        match &vmm.vm {
            None => Step::Respond(Err(VmmActionError::InvalidVMID)),
            Some(vm) => {
                if vm.is_vm_initialized() {
                    Step::Respond(
                        Err(
                            VmmActionError::BootSource(
                                BootSourceConfigError::UpdateNotAllowedPostBoot,
                            ),
                        ),
                    )
                } else {
                    Step::Delegate(Delegation::OpenBootFiles(boot_source_config))
                }
            },
        }
    }

    /// Installs a boot source once its files were opened. The kernel command
    /// line gets the capacity that the boot layout of this architecture
    /// leaves for it.
    pub fn install_boot_source(
        &self,
        vmm: &mut Vmm,
        config: BootSourceConfig,
        kernel: Result<(), IoFailure>,
        initrd: Option<Result<(), IoFailure>>,
    ) -> (r: VmmRequestResult)
        ensures
            boot_source_outcome(*old(vmm), *final(vmm), config, kernel, initrd, 2048, r)
                || boot_source_outcome(*old(vmm), *final(vmm), config, kernel, initrd, 0x10000, r),
            boot_source_plain(*old(vmm), config, kernel, initrd) ==> r == Ok::<
                VmmData,
                VmmActionError,
            >(VmmData::Empty),
    {
        let capacity: usize = cmdline_max_size();
        proof {
            if boot_source_plain(*vmm, config, kernel, initrd) {
                lemma_default_boot_source_accepted(*vmm, config, kernel, initrd, capacity as nat);
            }
        }
        install_boot_source_with(vmm, config, kernel, initrd, capacity)
    }

    /// Decides whether the machine may boot now: it must exist, not be booted
    /// yet, and have a boot source.
    pub fn start_microvm(&mut self, vmm: &Vmm) -> (r: Step)
        ensures
            r == start_step(*vmm),
            *final(self) == *old(self),
    {
        match &vmm.vm {
            None => Step::Respond(Err(VmmActionError::InvalidVMID)),
            Some(vm) => {
                if vm.is_vm_initialized() {
                    Step::Respond(
                        Err(VmmActionError::StartMicroVm(StartMicroVmError::MicroVMAlreadyRunning)),
                    )
                } else if vm.kernel_config.is_none() {
                    Step::Respond(
                        Err(VmmActionError::StartMicroVm(StartMicroVmError::MissingKernelConfig)),
                    )
                } else {
                    Step::Delegate(Delegation::Boot)
                }
            },
        }
    }

    /// Tells the event loop to leave. This never fails and does not wait for
    /// the machine to stop.
    pub fn shutdown_microvm(&mut self, vmm: &mut Vmm) -> (r: VmmRequestResult)
        ensures
            r == Ok::<VmmData, VmmActionError>(VmmData::Empty),
            final(vmm).exit_evt_triggered,
            final(vmm).vm == old(vmm).vm,
            *final(self) == *old(self),
    {
        vmm.exit_evt_triggered = true;
        Ok(VmmData::Empty)
    }

    /// Sets the machine configuration: the request is laid over the
    /// configuration in force and validated as a whole, and only a valid
    /// outcome is stored, on the machine and in the service.
    pub fn set_vm_configuration(&mut self, vmm: &mut Vmm, machine_config: VmConfigInfo) -> (r:
        VmmRequestResult)
        ensures
            r == set_configuration_answer(*old(vmm), machine_config),
            r is Ok ==> configuration_applied(*old(vmm), *final(vmm), machine_config),
            r is Ok ==> final(self).cached()@ == final(vmm).vm->0.vm_config@,
            r is Ok ==> final(vmm).vm->0.vm_config@.sound(),
            final(self).awaiting() == old(self).awaiting(),
            r is Err ==> *final(vmm) == *old(vmm) && final(self).cached() == old(self).cached(),
    {
        let merged = match &vmm.vm {
            None => {
                return Err(VmmActionError::InvalidVMID);
            },
            Some(vm) => {
                if vm.is_vm_initialized() {
                    return Err(
                        VmmActionError::MachineConfig(VmConfigError::UpdateNotAllowedPostBoot),
                    );
                }
                merge_vm_configuration(&vm.vm_config, machine_config, vm.id.as_str())
            },
        };
        let config = match merged {
            Ok(config) => config,
            Err(e) => {
                return Err(e);
            },
        };
        let mut vm = vmm.vm.take().unwrap();
        vm.vm_config = config.clone();
        vmm.vm = Some(vm);
        self.machine_config = config;
        Ok(VmmData::Empty)
    }

    /// Decides on inserting a socket-proxy device.
    pub fn add_vsock_device(&self, vmm: &Vmm, config: VsockDeviceConfigInfo) -> (r: Step)
        ensures
            r == vsock_step(*vmm, config),
    {
        let vm = match &vmm.vm {
            None => {
                return Step::Respond(Err(VmmActionError::InvalidVMID));
            },
            Some(vm) => vm,
        };
        if vm.is_vm_initialized() {
            return Step::Respond(
                Err(VmmActionError::Vsock(VsockDeviceError::UpdateNotAllowedPostBoot)),
            );
        }
        if config.guest_cid <= 2 {
            return Step::Respond(
                Err(VmmActionError::Vsock(VsockDeviceError::GuestCIDInvalid(config.guest_cid))),
            );
        }
        match vm.create_device_op_context(false) {
            Ok(ctx) => Step::Delegate(Delegation::InsertVsockDevice(ctx, config)),
            Err(_) => Step::Respond(
                Err(VmmActionError::Vsock(VsockDeviceError::UpdateNotAllowedPostBoot)),
            ),
        }
    }

    /// Decides on inserting a block device.
    pub fn add_block_device(&mut self, vmm: &Vmm, config: BlockDeviceConfigInfo) -> (r: Step)
        ensures
            r == block_insert_step(*vmm, config),
            *final(self) == *old(self),
    {
        let vm = match &vmm.vm {
            None => {
                return Step::Respond(Err(VmmActionError::InvalidVMID));
            },
            Some(vm) => vm,
        };
        match vm.create_device_op_context(true) {
            Ok(ctx) => Step::Delegate(Delegation::InsertBlockDevice(ctx, config)),
            Err(StartMicroVmError::UpcallNotReady) => Step::Respond(
                Err(VmmActionError::UpcallNotReady),
            ),
            Err(_) => Step::Respond(
                Err(VmmActionError::Block(BlockDeviceError::UpdateNotAllowedPostBoot)),
            ),
        }
    }

    /// Decides on changing the limits of a block device.
    pub fn update_blk_rate_limiters(
        &mut self,
        vmm: &Vmm,
        config: BlockDeviceConfigUpdateInfo,
    ) -> (r: Step)
        ensures
            r == block_update_step(*vmm, config),
            *final(self) == *old(self),
    {
        match &vmm.vm {
            None => Step::Respond(Err(VmmActionError::InvalidVMID)),
            Some(vm) => {
                if !vm.is_vm_initialized() {
                    Step::Respond(Err(VmmActionError::Block(BlockDeviceError::MicroVMNotRunning)))
                } else {
                    Step::Delegate(Delegation::UpdateBlockDevice(config))
                }
            },
        }
    }

    /// Decides on removing a block device.
    pub fn remove_block_device(&mut self, vmm: &Vmm, drive_id: String) -> (r: Step)
        ensures
            r == block_remove_step(*vmm, drive_id),
            *final(self) == *old(self),
    {
        let vm = match &vmm.vm {
            None => {
                return Step::Respond(Err(VmmActionError::InvalidVMID));
            },
            Some(vm) => vm,
        };
        match vm.create_device_op_context(true) {
            Ok(ctx) => Step::Delegate(Delegation::RemoveBlockDevice(ctx, drive_id)),
            Err(_) => Step::Respond(
                Err(VmmActionError::Block(BlockDeviceError::UpdateNotAllowedPostBoot)),
            ),
        }
    }

    /// Decides on inserting a network device.
    pub fn add_virtio_net_device(&mut self, vmm: &Vmm, config: VirtioNetDeviceConfigInfo) -> (r:
        Step)
        ensures
            r == net_insert_step(*vmm, config),
            *final(self) == *old(self),
    {
        let vm = match &vmm.vm {
            None => {
                return Step::Respond(Err(VmmActionError::InvalidVMID));
            },
            Some(vm) => vm,
        };
        match vm.create_device_op_context(true) {
            Ok(ctx) => Step::Delegate(Delegation::InsertNetworkDevice(ctx, config)),
            Err(StartMicroVmError::MicroVMAlreadyRunning) => Step::Respond(
                Err(VmmActionError::VirtioNet(VirtioNetDeviceError::UpdateNotAllowedPostBoot)),
            ),
            Err(StartMicroVmError::UpcallNotReady) => Step::Respond(
                Err(VmmActionError::UpcallNotReady),
            ),
            Err(e) => Step::Respond(Err(VmmActionError::StartMicroVm(e))),
        }
    }

    /// Decides on changing the limits of a network device.
    pub fn update_net_rate_limiters(
        &mut self,
        vmm: &Vmm,
        config: VirtioNetDeviceConfigUpdateInfo,
    ) -> (r: Step)
        ensures
            r == net_update_step(*vmm, config),
            *final(self) == *old(self),
    {
        match &vmm.vm {
            None => Step::Respond(Err(VmmActionError::InvalidVMID)),
            Some(vm) => {
                if !vm.is_vm_initialized() {
                    Step::Respond(
                        Err(VmmActionError::VirtioNet(VirtioNetDeviceError::MicroVMNotRunning)),
                    )
                } else {
                    Step::Delegate(Delegation::UpdateNetworkInterface(config))
                }
            },
        }
    }

    /// Decides on inserting a shared filesystem device.
    pub fn add_fs_device(&mut self, vmm: &Vmm, config: FsDeviceConfigInfo) -> (r: Step)
        ensures
            r == fs_insert_step(*vmm, config),
            *final(self) == *old(self),
    {
        let vm = match &vmm.vm {
            None => {
                return Step::Respond(Err(VmmActionError::InvalidVMID));
            },
            Some(vm) => vm,
        };
        let hotplug = vm.is_vm_initialized();
        if hotplug && vm.upcall == UpcallState::Unsupported {
            return Step::Respond(
                Err(VmmActionError::FsDevice(FsDeviceError::UpdateNotAllowedPostBoot)),
            );
        }
        match vm.create_device_op_context(false) {
            Ok(ctx) => Step::Delegate(Delegation::InsertFsDevice(ctx, config)),
            Err(_) => Step::Respond(
                Err(VmmActionError::FsDevice(FsDeviceError::UpdateNotAllowedPostBoot)),
            ),
        }
    }

    /// Decides on attaching or detaching a backend filesystem.
    pub fn manipulate_fs_backend_fs(&self, vmm: &Vmm, config: FsMountConfigInfo) -> (r: Step)
        ensures
            r == fs_backend_step(*vmm, config),
    {
        match &vmm.vm {
            None => Step::Respond(Err(VmmActionError::InvalidVMID)),
            Some(vm) => {
                if !vm.is_vm_initialized() {
                    Step::Respond(Err(VmmActionError::FsDevice(FsDeviceError::MicroVMNotRunning)))
                } else {
                    Step::Delegate(Delegation::ManipulateFsBackendFs(config))
                }
            },
        }
    }

    /// Decides on changing the limits of a shared filesystem device.
    pub fn update_fs_rate_limiters(&self, vmm: &Vmm, config: FsDeviceConfigUpdateInfo) -> (r: Step)
        ensures
            r == fs_update_step(*vmm, config),
    {
        match &vmm.vm {
            None => Step::Respond(Err(VmmActionError::InvalidVMID)),
            Some(vm) => {
                if !vm.is_vm_initialized() {
                    Step::Respond(Err(VmmActionError::FsDevice(FsDeviceError::MicroVMNotRunning)))
                } else {
                    Step::Delegate(Delegation::UpdateFsDevice(config))
                }
            },
        }
    }
}

/// Every action leads to an answer or to work whose outcome is answered: no
/// action is dropped.
pub proof fn lemma_every_action_answered(cached: VmConfigInfo, vmm: Vmm, action: VmmAction)
    ensures
        !(dispatch(cached, vmm, action) is Idle),
{
}

/// Once the machine has left the unconfigured state, every action that needs
/// that state is refused with the error of its own subsystem, whatever it
/// carries. For the device classes that can be hot-plugged this holds as far
/// as the upcall channel does not allow the operation.
pub proof fn lemma_refused_after_boot(cached: VmConfigInfo, vmm: Vmm, action: VmmAction)
    requires
        booted(vmm),
    ensures
        action is ConfigureBootSource ==> dispatch(cached, vmm, action) == refuse(
            VmmActionError::BootSource(BootSourceConfigError::UpdateNotAllowedPostBoot),
        ),
        action is StartMicroVm ==> dispatch(cached, vmm, action) == refuse(
            VmmActionError::StartMicroVm(StartMicroVmError::MicroVMAlreadyRunning),
        ),
        action is SetVmConfiguration ==> dispatch(cached, vmm, action) == refuse(
            VmmActionError::MachineConfig(VmConfigError::UpdateNotAllowedPostBoot),
        ),
        action is InsertVsockDevice ==> dispatch(cached, vmm, action) == refuse(
            VmmActionError::Vsock(VsockDeviceError::UpdateNotAllowedPostBoot),
        ),
        action is InsertBlockDevice && (vmm.vm->0.upcall is Unsupported || vmm.vm->0.upcall
            is Missing) ==> dispatch(cached, vmm, action) == refuse(
            VmmActionError::Block(BlockDeviceError::UpdateNotAllowedPostBoot),
        ),
        action is RemoveBlockDevice && !(vmm.vm->0.upcall is Ready) ==> dispatch(
            cached,
            vmm,
            action,
        ) == refuse(VmmActionError::Block(BlockDeviceError::UpdateNotAllowedPostBoot)),
        action is InsertNetworkDevice && vmm.vm->0.upcall is Unsupported ==> dispatch(
            cached,
            vmm,
            action,
        ) == refuse(VmmActionError::VirtioNet(VirtioNetDeviceError::UpdateNotAllowedPostBoot)),
        action is InsertFsDevice && !(vmm.vm->0.upcall is Ready) ==> dispatch(
            cached,
            vmm,
            action,
        ) == refuse(VmmActionError::FsDevice(FsDeviceError::UpdateNotAllowedPostBoot)),
{
}

/// Before boot the same actions pass the check of the machine's state: each
/// is admitted, or refused only for what it carries.
pub proof fn lemma_admitted_before_boot(cached: VmConfigInfo, vmm: Vmm, action: VmmAction)
    requires
        vmm.vm is Some,
        !booted(vmm),
    ensures
        action matches VmmAction::ConfigureBootSource(c) ==> dispatch(cached, vmm, action)
            == Step::Delegate(Delegation::OpenBootFiles(c)),
        action is StartMicroVm && vmm.vm->0.kernel_config is Some ==> dispatch(
            cached,
            vmm,
            action,
        ) == Step::Delegate(Delegation::Boot),
        action matches VmmAction::SetVmConfiguration(c) ==> (dispatch(cached, vmm, action)
            == Step::Respond(Ok(VmmData::Empty)) <==> merge_fault(c) is None),
        action matches VmmAction::InsertVsockDevice(c) ==> c.guest_cid >= 3 ==> dispatch(
            cached,
            vmm,
            action,
        ) == Step::Delegate(
            Delegation::InsertVsockDevice(
                DeviceOpContext { hotplug: false, with_epoll_manager: false },
                c,
            ),
        ),
        action matches VmmAction::InsertBlockDevice(c) ==> dispatch(cached, vmm, action)
            == Step::Delegate(
            Delegation::InsertBlockDevice(
                DeviceOpContext { hotplug: false, with_epoll_manager: true },
                c,
            ),
        ),
        action matches VmmAction::RemoveBlockDevice(id) ==> dispatch(cached, vmm, action)
            == Step::Delegate(
            Delegation::RemoveBlockDevice(
                DeviceOpContext { hotplug: false, with_epoll_manager: true },
                id,
            ),
        ),
        action matches VmmAction::InsertNetworkDevice(c) ==> dispatch(cached, vmm, action)
            == Step::Delegate(
            Delegation::InsertNetworkDevice(
                DeviceOpContext { hotplug: false, with_epoll_manager: true },
                c,
            ),
        ),
        action matches VmmAction::InsertFsDevice(c) ==> dispatch(cached, vmm, action)
            == Step::Delegate(
            Delegation::InsertFsDevice(
                DeviceOpContext { hotplug: false, with_epoll_manager: false },
                c,
            ),
        ),
{
}

/// Setting the same valid configuration twice is acknowledged twice and
/// stores the same configuration twice.
pub proof fn lemma_set_configuration_twice(
    before: Vmm,
    between: Vmm,
    after: Vmm,
    machine_config: VmConfigInfo,
)
    requires
        set_configuration_answer(before, machine_config) is Ok,
        configuration_applied(before, between, machine_config),
        configuration_applied(between, after, machine_config),
    ensures
        set_configuration_answer(before, machine_config) == Ok::<VmmData, VmmActionError>(
            VmmData::Empty,
        ),
        set_configuration_answer(between, machine_config) == Ok::<VmmData, VmmActionError>(
            VmmData::Empty,
        ),
        after.vm->0.vm_config@ == between.vm->0.vm_config@,
{
    lemma_set_configuration_idempotent(
        before.vm->0.vm_config,
        machine_config,
        between.vm->0.vm_config,
        before.vm->0.id@,
    );
}

/// On a machine that is not booted yet, a socket-proxy device with a guest
/// context identifier of 0, 1 or 2 is refused, and one with 3 or more goes
/// to the handler.
pub proof fn lemma_guest_cid_threshold(vmm: Vmm, config: VsockDeviceConfigInfo)
    requires
        vmm.vm is Some,
        !booted(vmm),
    ensures
        config.guest_cid <= 2 ==> vsock_step(vmm, config) == refuse(
            VmmActionError::Vsock(VsockDeviceError::GuestCIDInvalid(config.guest_cid)),
        ),
        config.guest_cid >= 3 ==> vsock_step(vmm, config) == Step::Delegate(
            Delegation::InsertVsockDevice(
                DeviceOpContext { hotplug: false, with_epoll_manager: false },
                config,
            ),
        ),
{
}

} // verus!
