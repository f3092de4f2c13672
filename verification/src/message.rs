//! The text of each error, as the control plane shows it.

use vstd::prelude::*;
use vstd::string::*;
use crate::error::BlockDeviceError;
use crate::error::BootSourceConfigError;
use crate::error::CmdlineFault;
use crate::error::FsDeviceError;
use crate::error::StartMicroVmError;
use crate::error::StopMicrovmError;
use crate::error::VirtioNetDeviceError;
use crate::error::VmConfigError;
use crate::error::VmmActionError;
use crate::error::VsockDeviceError;

verus! {

/// The character that stands for a digit below sixteen.
pub open spec fn digit_text(d: nat) -> Seq<char> {
    if d == 0 {
        "0"@
    }     else if d == 1 {
        "1"@
    }     else if d == 2 {
        "2"@
    }     else if d == 3 {
        "3"@
    }     else if d == 4 {
        "4"@
    }     else if d == 5 {
        "5"@
    }     else if d == 6 {
        "6"@
    }     else if d == 7 {
        "7"@
    }     else if d == 8 {
        "8"@
    }     else if d == 9 {
        "9"@
    }     else if d == 10 {
        "a"@
    }     else if d == 11 {
        "b"@
    }     else if d == 12 {
        "c"@
    }     else if d == 13 {
        "d"@
    }     else if d == 14 {
        "e"@
    } else {
        "f"@
    }
}

fn digit_str(d: u64) -> (r: &'static str)
    requires
        d < 16,
    ensures
        r@ == digit_text(d as nat),
{
    if d == 0 {
        "0"
    }     else if d == 1 {
        "1"
    }     else if d == 2 {
        "2"
    }     else if d == 3 {
        "3"
    }     else if d == 4 {
        "4"
    }     else if d == 5 {
        "5"
    }     else if d == 6 {
        "6"
    }     else if d == 7 {
        "7"
    }     else if d == 8 {
        "8"
    }     else if d == 9 {
        "9"
    }     else if d == 10 {
        "a"
    }     else if d == 11 {
        "b"
    }     else if d == 12 {
        "c"
    }     else if d == 13 {
        "d"
    }     else if d == 14 {
        "e"
    } else {
        "f"
    }
}

/// The decimal digits of `n`, most significant first, without leading zeros.
pub open spec fn decimal_text(n: nat) -> Seq<char>
    decreases n,
{
    if n < 10 {
        digit_text(n)
    } else {
        decimal_text(n / 10) + digit_text(n % 10)
    }
}

/// The hexadecimal digits of `n` in lower case, most significant first,
/// without leading zeros.
pub open spec fn hex_text(n: nat) -> Seq<char>
    decreases n,
{
    if n < 16 {
        digit_text(n)
    } else {
        hex_text(n / 16) + digit_text(n % 16)
    }
}

/// Writes `n` in decimal.
pub fn format_decimal(n: u64) -> (r: String)
    ensures
        r@ == decimal_text(n as nat),
    decreases n,
{
    if n < 10 {
        String::from_str(digit_str(n))
    } else {
        let head = format_decimal(n / 10);
        head.concat(digit_str(n % 10))
    }
}

/// Writes `n` in hexadecimal, in lower case.
pub fn format_hex(n: u64) -> (r: String)
    ensures
        r@ == hex_text(n as nat),
    decreases n,
{
    if n < 16 {
        String::from_str(digit_str(n))
    } else {
        let head = format_hex(n / 16);
        head.concat(digit_str(n % 16))
    }
}

impl CmdlineFault {
    /// Why the command line refused a string, in words.
    pub open spec fn message_text(self) -> Seq<char> {
        match self {
            CmdlineFault::NullTerminator => {
                "Null terminator detected in the command line structure."@
            },
            CmdlineFault::InvalidAscii => "String contains a non-printable ASCII character."@,
            CmdlineFault::InvalidDevice(dev) => {
                "Invalid device passed to the kernel command line builder: "@
                    + dev@
                    + "."@
            },
            CmdlineFault::HasSpace => "String contains a space."@,
            CmdlineFault::HasEquals => "String contains an equals sign."@,
            CmdlineFault::MissingVal(key) => "Missing value for key "@ + key@ + "."@,
            CmdlineFault::MmioSize => {
                "0-sized virtio MMIO device passed to the kernel command line builder."@
            },
            CmdlineFault::TooLarge => "Inserting string would make command line too long."@,
        }
    }

    /// Why the command line refused a string, in words.
    pub fn message(&self) -> (r: String)
        ensures
            r@ == self.message_text(),
    {
        match self {
            CmdlineFault::NullTerminator => {
                String::from_str("Null terminator detected in the command line structure.")
            },
            CmdlineFault::InvalidAscii => {
                String::from_str("String contains a non-printable ASCII character.")
            },
            CmdlineFault::InvalidDevice(dev) => {
                String::from_str("Invalid device passed to the kernel command line builder: ")
                    .concat(dev.as_str())
                    .concat(".")
            },
            CmdlineFault::HasSpace => String::from_str("String contains a space."),
            CmdlineFault::HasEquals => String::from_str("String contains an equals sign."),
            CmdlineFault::MissingVal(key) => {
                String::from_str("Missing value for key ")
                    .concat(key.as_str())
                    .concat(".")
            },
            CmdlineFault::MmioSize => {
                String::from_str("0-sized virtio MMIO device passed to the kernel command line builder.")
            },
            CmdlineFault::TooLarge => {
                String::from_str("Inserting string would make command line too long.")
            },
        }
    }
}

impl BootSourceConfigError {
    /// Why the boot source was refused, in words.
    pub open spec fn message_text(self) -> Seq<char> {
        match self {
            BootSourceConfigError::InvalidInitrdPath(e) => {
                "the initrd file cannot be opened due to invalid path or invalid permissions: "@
                    + e.description@
            },
            BootSourceConfigError::InvalidKernelCommandLine(e) => {
                "the kernel command line is invalid: "@
                    + e.message_text()
            },
            BootSourceConfigError::InvalidKernelPath(e) => {
                "the kernel file cannot be opened due to invalid kernel path or invalid permissions: "@
                    + e.description@
            },
            BootSourceConfigError::UpdateNotAllowedPostBoot => {
                "the update operation is not allowed after boot"@
            },
        }
    }

    /// Why the boot source was refused, in words.
    pub fn message(&self) -> (r: String)
        ensures
            r@ == self.message_text(),
    {
        match self {
            BootSourceConfigError::InvalidInitrdPath(e) => {
                String::from_str("the initrd file cannot be opened due to invalid path or invalid permissions: ")
                    .concat(e.description.as_str())
            },
            BootSourceConfigError::InvalidKernelCommandLine(e) => {
                String::from_str("the kernel command line is invalid: ")
                    .concat(e.message().as_str())
            },
            BootSourceConfigError::InvalidKernelPath(e) => {
                String::from_str("the kernel file cannot be opened due to invalid kernel path or invalid permissions: ")
                    .concat(e.description.as_str())
            },
            BootSourceConfigError::UpdateNotAllowedPostBoot => {
                String::from_str("the update operation is not allowed after boot")
            },
        }
    }
}

impl VmConfigError {
    /// Why the machine configuration was refused, in words.
    pub open spec fn message_text(self) -> Seq<char> {
        match self {
            VmConfigError::InvalidVcpuCount(n) => {
                "the vCPU number '"@
                    + decimal_text(n as nat)
                    + "' can only be 1 or an even number when hyperthreading is enabled"@
            },
            VmConfigError::InvalidThreadsPerCore(n) => {
                "the threads_per_core number '"@
                    + decimal_text(n as nat)
                    + "' can only be 1 or 2"@
            },
            VmConfigError::InvalidCpuTopology(n) => {
                "the vCPU number '"@
                    + decimal_text(n as nat)
                    + "' of the cpu topology is below the vCPU count"@
            },
            VmConfigError::VcpuCountExceedsMaximum => "the vCPU number shouldn't large than 254"@,
            VmConfigError::InvalidMaxVcpuCount(n) => {
                "the max vCPU number '"@
                    + decimal_text(n as nat)
                    + "' shouldn't less than vCPU count and can only be 1 or an even number when hyperthreading is enabled"@
            },
            VmConfigError::InvalidMemorySize(n) => {
                "the memory size 0x"@
                    + hex_text(n as nat)
                    + "MiB is invalid"@
            },
            VmConfigError::InvalidMemFilePath(_) => "the memory file path is invalid"@,
            VmConfigError::UpdateNotAllowedPostBoot => {
                "update operation is not allowed after boot"@
            },
        }
    }

    /// Why the machine configuration was refused, in words.
    pub fn message(&self) -> (r: String)
        ensures
            r@ == self.message_text(),
    {
        match self {
            VmConfigError::InvalidVcpuCount(n) => {
                String::from_str("the vCPU number '")
                    .concat(format_decimal(*n as u64).as_str())
                    .concat("' can only be 1 or an even number when hyperthreading is enabled")
            },
            VmConfigError::InvalidThreadsPerCore(n) => {
                String::from_str("the threads_per_core number '")
                    .concat(format_decimal(*n as u64).as_str())
                    .concat("' can only be 1 or 2")
            },
            VmConfigError::InvalidCpuTopology(n) => {
                String::from_str("the vCPU number '")
                    .concat(format_decimal(*n as u64).as_str())
                    .concat("' of the cpu topology is below the vCPU count")
            },
            VmConfigError::VcpuCountExceedsMaximum => {
                String::from_str("the vCPU number shouldn't large than 254")
            },
            VmConfigError::InvalidMaxVcpuCount(n) => {
                String::from_str("the max vCPU number '")
                    .concat(format_decimal(*n as u64).as_str())
                    .concat("' shouldn't less than vCPU count and can only be 1 or an even number when hyperthreading is enabled")
            },
            VmConfigError::InvalidMemorySize(n) => {
                String::from_str("the memory size 0x")
                    .concat(format_hex(*n as u64).as_str())
                    .concat("MiB is invalid")
            },
            VmConfigError::InvalidMemFilePath(_) => {
                String::from_str("the memory file path is invalid")
            },
            VmConfigError::UpdateNotAllowedPostBoot => {
                String::from_str("update operation is not allowed after boot")
            },
        }
    }
}

impl StartMicroVmError {
    /// Why the machine did not start, in words.
    pub open spec fn message_text(self) -> Seq<char> {
        match self {
            StartMicroVmError::MicroVMAlreadyRunning => "the virtual machine is already running"@,
            StartMicroVmError::MissingKernelConfig => {
                "cannot start the virtual machine without kernel configuration"@
            },
            StartMicroVmError::UpcallMissVsock => {
                "the upcall client needs a virtio-vsock device for communication"@
            },
            StartMicroVmError::UpcallNotReady => "the upcall client is not ready"@,
            StartMicroVmError::BootFailed(cause) => "the boot sequence failed: "@ + cause@,
        }
    }

    /// Why the machine did not start, in words.
    pub fn message(&self) -> (r: String)
        ensures
            r@ == self.message_text(),
    {
        match self {
            StartMicroVmError::MicroVMAlreadyRunning => {
                String::from_str("the virtual machine is already running")
            },
            StartMicroVmError::MissingKernelConfig => {
                String::from_str("cannot start the virtual machine without kernel configuration")
            },
            StartMicroVmError::UpcallMissVsock => {
                String::from_str("the upcall client needs a virtio-vsock device for communication")
            },
            StartMicroVmError::UpcallNotReady => String::from_str("the upcall client is not ready"),
            StartMicroVmError::BootFailed(cause) => {
                String::from_str("the boot sequence failed: ")
                    .concat(cause.as_str())
            },
        }
    }
}

impl StopMicrovmError {
    /// Why the machine did not stop, in words.
    pub open spec fn message_text(self) -> Seq<char> {
        match self {
            StopMicrovmError::SlaveTimeout => "failed to send shutdown command to VCPUs"@,
            StopMicrovmError::GuestMemoryNotInitialized => "guest memory has not been initialized"@,
        }
    }

    /// Why the machine did not stop, in words.
    pub fn message(&self) -> (r: String)
        ensures
            r@ == self.message_text(),
    {
        match self {
            StopMicrovmError::SlaveTimeout => {
                String::from_str("failed to send shutdown command to VCPUs")
            },
            StopMicrovmError::GuestMemoryNotInitialized => {
                String::from_str("guest memory has not been initialized")
            },
        }
    }
}

impl VsockDeviceError {
    /// Why the socket-proxy device was refused, in words.
    pub open spec fn message_text(self) -> Seq<char> {
        match self {
            VsockDeviceError::UpdateNotAllowedPostBoot => {
                "update operation is not allowed after boot"@
            },
            VsockDeviceError::GuestCIDInvalid(cid) => {
                "the guest CID "@
                    + decimal_text(cid as nat)
                    + " is invalid"@
            },
            VsockDeviceError::DeviceManager(cause) => "vsock device manager error: "@ + cause@,
        }
    }

    /// Why the socket-proxy device was refused, in words.
    pub fn message(&self) -> (r: String)
        ensures
            r@ == self.message_text(),
    {
        match self {
            VsockDeviceError::UpdateNotAllowedPostBoot => {
                String::from_str("update operation is not allowed after boot")
            },
            VsockDeviceError::GuestCIDInvalid(cid) => {
                String::from_str("the guest CID ")
                    .concat(format_decimal(*cid as u64).as_str())
                    .concat(" is invalid")
            },
            VsockDeviceError::DeviceManager(cause) => {
                String::from_str("vsock device manager error: ")
                    .concat(cause.as_str())
            },
        }
    }
}

impl BlockDeviceError {
    /// Why the block device operation failed, in words.
    pub open spec fn message_text(self) -> Seq<char> {
        match self {
            BlockDeviceError::UpdateNotAllowedPostBoot => {
                "block device does not support runtime update"@
            },
            BlockDeviceError::MicroVMNotRunning => {
                "vm is not running when updating a block device"@
            },
            BlockDeviceError::InvalidDeviceId(id) => "invalid block device id '"@ + id@ + "'"@,
            BlockDeviceError::DeviceManager(cause) => {
                "failure in device manager operations, "@
                    + cause@
            },
        }
    }

    /// Why the block device operation failed, in words.
    pub fn message(&self) -> (r: String)
        ensures
            r@ == self.message_text(),
    {
        match self {
            BlockDeviceError::UpdateNotAllowedPostBoot => {
                String::from_str("block device does not support runtime update")
            },
            BlockDeviceError::MicroVMNotRunning => {
                String::from_str("vm is not running when updating a block device")
            },
            BlockDeviceError::InvalidDeviceId(id) => {
                String::from_str("invalid block device id '")
                    .concat(id.as_str())
                    .concat("'")
            },
            BlockDeviceError::DeviceManager(cause) => {
                String::from_str("failure in device manager operations, ")
                    .concat(cause.as_str())
            },
        }
    }
}

impl VirtioNetDeviceError {
    /// Why the network device operation failed, in words.
    pub open spec fn message_text(self) -> Seq<char> {
        match self {
            VirtioNetDeviceError::UpdateNotAllowedPostBoot => {
                "update operation is not allowed after boot"@
            },
            VirtioNetDeviceError::MicroVMNotRunning => {
                "vm is not running when updating a virtio-net device"@
            },
            VirtioNetDeviceError::InvalidIfaceId(id) => {
                "invalid virtio-net iface id '"@
                    + id@
                    + "'"@
            },
            VirtioNetDeviceError::DeviceManager(cause) => {
                "failure in device manager operations, "@
                    + cause@
            },
        }
    }

    /// Why the network device operation failed, in words.
    pub fn message(&self) -> (r: String)
        ensures
            r@ == self.message_text(),
    {
        match self {
            VirtioNetDeviceError::UpdateNotAllowedPostBoot => {
                String::from_str("update operation is not allowed after boot")
            },
            VirtioNetDeviceError::MicroVMNotRunning => {
                String::from_str("vm is not running when updating a virtio-net device")
            },
            VirtioNetDeviceError::InvalidIfaceId(id) => {
                String::from_str("invalid virtio-net iface id '")
                    .concat(id.as_str())
                    .concat("'")
            },
            VirtioNetDeviceError::DeviceManager(cause) => {
                String::from_str("failure in device manager operations, ")
                    .concat(cause.as_str())
            },
        }
    }
}

impl FsDeviceError {
    /// Why the shared filesystem device operation failed, in words.
    pub open spec fn message_text(self) -> Seq<char> {
        match self {
            FsDeviceError::UpdateNotAllowedPostBoot => {
                "update operation is not allowed after boot"@
            },
            FsDeviceError::MicroVMNotRunning => "vm is not running when attaching a backend fs"@,
            FsDeviceError::AttachBackendFailed(_) => "Fs device attach a backend fs failed"@,
            FsDeviceError::DeviceManager(cause) => {
                "failure in device manager operations, "@
                    + cause@
            },
        }
    }

    /// Why the shared filesystem device operation failed, in words.
    pub fn message(&self) -> (r: String)
        ensures
            r@ == self.message_text(),
    {
        match self {
            FsDeviceError::UpdateNotAllowedPostBoot => {
                String::from_str("update operation is not allowed after boot")
            },
            FsDeviceError::MicroVMNotRunning => {
                String::from_str("vm is not running when attaching a backend fs")
            },
            FsDeviceError::AttachBackendFailed(_) => {
                String::from_str("Fs device attach a backend fs failed")
            },
            FsDeviceError::DeviceManager(cause) => {
                String::from_str("failure in device manager operations, ")
                    .concat(cause.as_str())
            },
        }
    }
}

impl VmmActionError {
    /// Why the action failed, in words: the subsystem first, then its reason.
    pub open spec fn message_text(self) -> Seq<char> {
        match self {
            VmmActionError::InvalidVMID => "the virtual machine instance ID is invalid"@,
            VmmActionError::UpcallNotReady => "Upcall not ready, can't hotplug device."@,
            VmmActionError::BootSource(e) => {
                "failed to configure boot source for VM: "@
                    + e.message_text()
            },
            VmmActionError::StartMicroVm(e) => "failed to boot the VM: "@ + e.message_text(),
            VmmActionError::StopMicrovm(e) => "failed to shutdown the VM: "@ + e.message_text(),
            VmmActionError::MachineConfig(e) => {
                "failed to set configuration for the VM: "@
                    + e.message_text()
            },
            VmmActionError::Vsock(e) => "failed to add virtio-vsock device: "@ + e.message_text(),
            VmmActionError::Block(e) => "virtio-blk device error: "@ + e.message_text(),
            VmmActionError::VirtioNet(e) => "virtio-net device error: "@ + e.message_text(),
            VmmActionError::FsDevice(e) => "virtio-fs device error: "@ + e.message_text(),
        }
    }

    /// Why the action failed, in words: the subsystem first, then its reason.
    pub fn message(&self) -> (r: String)
        ensures
            r@ == self.message_text(),
    {
        match self {
            VmmActionError::InvalidVMID => {
                String::from_str("the virtual machine instance ID is invalid")
            },
            VmmActionError::UpcallNotReady => {
                String::from_str("Upcall not ready, can't hotplug device.")
            },
            VmmActionError::BootSource(e) => {
                String::from_str("failed to configure boot source for VM: ")
                    .concat(e.message().as_str())
            },
            VmmActionError::StartMicroVm(e) => {
                String::from_str("failed to boot the VM: ")
                    .concat(e.message().as_str())
            },
            VmmActionError::StopMicrovm(e) => {
                String::from_str("failed to shutdown the VM: ")
                    .concat(e.message().as_str())
            },
            VmmActionError::MachineConfig(e) => {
                String::from_str("failed to set configuration for the VM: ")
                    .concat(e.message().as_str())
            },
            VmmActionError::Vsock(e) => {
                String::from_str("failed to add virtio-vsock device: ")
                    .concat(e.message().as_str())
            },
            VmmActionError::Block(e) => {
                String::from_str("virtio-blk device error: ")
                    .concat(e.message().as_str())
            },
            VmmActionError::VirtioNet(e) => {
                String::from_str("virtio-net device error: ")
                    .concat(e.message().as_str())
            },
            VmmActionError::FsDevice(e) => {
                String::from_str("virtio-fs device error: ")
                    .concat(e.message().as_str())
            },
        }
    }
}

} // verus!
