//! The error taxonomy: one top-level error that names the failing subsystem,
//! each subsystem with its own reasons.

use vstd::prelude::*;

verus! {

/// Why a file of the boot source could not be opened.
#[derive(Clone, Debug, PartialEq, Eq)]
pub struct IoFailure {
    /// The operating system's error number, where there is one.
    pub raw_os_error: Option<i32>,
    /// The operating system's description of the failure.
    pub description: String,
}

/// Why the kernel command line refused a string.
#[derive(Clone, Debug, PartialEq, Eq)]
pub enum CmdlineFault {
    /// A null terminator was found in the command line.
    NullTerminator,
    /// The string holds a character that is not printable ASCII.
    InvalidAscii,
    /// An invalid device was passed to the command line builder.
    InvalidDevice(String),
    /// A key or value holds a space.
    HasSpace,
    /// A key or value holds an equals sign.
    HasEquals,
    /// A key was given without a value.
    MissingVal(String),
    /// A memory-mapped device of size zero was given.
    MmioSize,
    /// The string would make the command line too long.
    TooLarge,
}

/// Errors of the boot source configuration.
#[derive(Clone, Debug, PartialEq, Eq)]
pub enum BootSourceConfigError {
    /// The initrd file cannot be opened.
    InvalidInitrdPath(IoFailure),
    /// The kernel command line is invalid.
    InvalidKernelCommandLine(CmdlineFault),
    /// The kernel file cannot be opened.
    InvalidKernelPath(IoFailure),
    /// The boot source cannot be changed after boot.
    UpdateNotAllowedPostBoot,
}

/// Errors of the machine configuration.
#[derive(Clone, Debug, PartialEq, Eq)]
pub enum VmConfigError {
    /// The vCPU count is zero.
    InvalidVcpuCount(u8),
    /// The number of threads per core is neither 1 nor 2.
    InvalidThreadsPerCore(u8),
    /// The topology holds fewer vCPUs than were asked for.
    InvalidCpuTopology(u8),
    /// The topology holds more vCPUs than the machine supports.
    VcpuCountExceedsMaximum,
    /// The maximum vCPU count is below the vCPU count.
    InvalidMaxVcpuCount(u8),
    /// The memory size is zero, odd or too large.
    InvalidMemorySize(usize),
    /// Huge pages were asked for without a backing file.
    InvalidMemFilePath(String),
    /// The machine configuration cannot be changed after boot.
    UpdateNotAllowedPostBoot,
}

/// Errors of starting the virtual machine and of preparing a device operation.
#[derive(Clone, Debug, PartialEq, Eq)]
pub enum StartMicroVmError {
    /// The virtual machine is already running.
    MicroVMAlreadyRunning,
    /// No boot source was configured.
    MissingKernelConfig,
    /// Hot-plugging needs a socket-proxy device for the upcall channel.
    UpcallMissVsock,
    /// The upcall channel is not ready yet.
    UpcallNotReady,
    /// The boot sequence failed, with its cause.
    BootFailed(String),
}

/// Errors of stopping the virtual machine.
#[derive(Clone, Debug, PartialEq, Eq)]
pub enum StopMicrovmError {
    /// The virtual CPUs did not stop in time.
    SlaveTimeout,
    /// The guest memory was never set up.
    GuestMemoryNotInitialized,
}

/// Errors of the socket-proxy device class.
#[derive(Clone, Debug, PartialEq, Eq)]
pub enum VsockDeviceError {
    /// The device cannot be changed after boot.
    UpdateNotAllowedPostBoot,
    /// The guest context identifier is reserved.
    GuestCIDInvalid(u32),
    /// The device handler refused the operation, with its cause.
    DeviceManager(String),
}

/// Errors of the block device class.
#[derive(Clone, Debug, PartialEq, Eq)]
pub enum BlockDeviceError {
    /// The device cannot be changed after boot.
    UpdateNotAllowedPostBoot,
    /// Rate limiters can only be changed on a running machine.
    MicroVMNotRunning,
    /// No device has this identifier.
    InvalidDeviceId(String),
    /// The device handler refused the operation, with its cause.
    DeviceManager(String),
}

/// Errors of the network device class.
#[derive(Clone, Debug, PartialEq, Eq)]
pub enum VirtioNetDeviceError {
    /// The device cannot be changed after boot.
    UpdateNotAllowedPostBoot,
    /// Rate limiters can only be changed on a running machine.
    MicroVMNotRunning,
    /// No interface has this identifier.
    InvalidIfaceId(String),
    /// The device handler refused the operation, with its cause.
    DeviceManager(String),
}

/// Errors of the shared filesystem device class.
#[derive(Clone, Debug, PartialEq, Eq)]
pub enum FsDeviceError {
    /// The device cannot be changed after boot.
    UpdateNotAllowedPostBoot,
    /// Backends and rate limiters can only be changed on a running machine.
    MicroVMNotRunning,
    /// Attaching a backend filesystem failed, with its cause.
    AttachBackendFailed(String),
    /// The device handler refused the operation, with its cause.
    DeviceManager(String),
}

/// Every error that an action can be answered with.
#[derive(Clone, Debug, PartialEq, Eq)]
pub enum VmmActionError {
    /// No virtual machine instance exists.
    InvalidVMID,
    /// The upcall channel is not ready, so nothing can be hot-plugged.
    UpcallNotReady,
    /// Configuring the boot source failed.
    BootSource(BootSourceConfigError),
    /// Starting the virtual machine failed.
    StartMicroVm(StartMicroVmError),
    /// Stopping the virtual machine failed.
    StopMicrovm(StopMicrovmError),
    /// Setting the machine configuration failed.
    MachineConfig(VmConfigError),
    /// A socket-proxy device operation failed.
    Vsock(VsockDeviceError),
    /// A block device operation failed.
    Block(BlockDeviceError),
    /// A network device operation failed.
    VirtioNet(VirtioNetDeviceError),
    /// A shared filesystem device operation failed.
    FsDevice(FsDeviceError),
}

} // verus!
