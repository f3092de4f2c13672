//! The virtual machine as the dispatcher sees it: its life-cycle state, its
//! configuration, its boot source and the state of the hot-plug channel.

use vstd::prelude::*;
use crate::cmdline::cmdline_text;
use crate::cmdline::cmdline_to_string;
use crate::config::VmConfigInfo;
use crate::error::StartMicroVmError;

verus! {

/// Where a virtual machine stands in its life.
#[derive(Clone, Copy, Debug, PartialEq, Eq, Structural)]
pub enum InstanceState {
    /// Not started yet: the machine can still be configured.
    Uninitialized,
    /// The boot sequence is under way.
    Starting,
    /// The guest runs.
    Running,
    /// The machine is shutting down.
    Halting,
    /// The machine has shut down.
    Halted,
    /// The machine has exited, with its exit code.
    Exited(i32),
}

/// The state of the upcall channel, through which devices are hot-plugged
/// into a running guest.
#[derive(Clone, Copy, Debug, PartialEq, Eq, Structural)]
pub enum UpcallState {
    /// The machine cannot hot-plug at all.
    Unsupported,
    /// No socket-proxy device carries the channel.
    Missing,
    /// The channel exists but the guest has not answered yet.
    NotReady,
    /// The channel is ready.
    Ready,
}

/// The scoped token under which a device handler changes devices.
#[derive(Clone, Copy, Debug, PartialEq, Eq, Structural)]
pub struct DeviceOpContext {
    /// Whether the device goes into a running guest.
    pub hotplug: bool,
    /// Whether the operation may register with the event loop.
    pub with_epoll_manager: bool,
}

/// The boot source that a machine was given.
#[derive(Debug)]
pub struct KernelConfigInfo {
    /// Path of the kernel image.
    pub kernel_path: String,
    /// Path of the initial ramdisk, if there is one.
    pub initrd_path: Option<String>,
    /// The kernel command line.
    pub cmdline: linux_loader::cmdline::Cmdline,
}

impl KernelConfigInfo {
    /// The text of the kernel command line.
    pub fn kernel_cmdline(&self) -> (r: String)
        ensures
            r@ == cmdline_text(self.cmdline),
    {
        cmdline_to_string(&self.cmdline)
    }
}

/// A virtual machine.
#[derive(Debug)]
pub struct Vm {
    /// The machine's identity.
    pub id: String,
    /// Where the machine stands in its life.
    pub instance_state: InstanceState,
    /// The configuration in force.
    pub vm_config: VmConfigInfo,
    /// The boot source, once it was configured.
    pub kernel_config: Option<KernelConfigInfo>,
    /// The state of the hot-plug channel.
    pub upcall: UpcallState,
}

impl Vm {
    /// Whether the machine has left the state in which it can be configured.
    pub open spec fn initialized(self) -> bool {
        self.instance_state != InstanceState::Uninitialized
    }

    /// What asking for a device operation context answers.
    pub open spec fn context(self, with_epoll_manager: bool) -> Result<
        DeviceOpContext,
        StartMicroVmError,
    > {
        if !self.initialized() {
            Ok(DeviceOpContext { hotplug: false, with_epoll_manager })
        } else {
            match self.upcall {
                UpcallState::Unsupported => Err(StartMicroVmError::MicroVMAlreadyRunning),
                UpcallState::Missing => Err(StartMicroVmError::UpcallMissVsock),
                UpcallState::NotReady => Err(StartMicroVmError::UpcallNotReady),
                UpcallState::Ready => Ok(DeviceOpContext { hotplug: true, with_epoll_manager }),
            }
        }
    }

    /// A machine that nobody has configured yet.
    pub fn new(id: String) -> (r: Vm)
        ensures
            r.id == id,
            r.instance_state == InstanceState::Uninitialized,
            r.vm_config@ == VmConfigInfo::initial(),
            r.kernel_config is None,
            r.upcall == UpcallState::Missing,
    {
        Vm {
            id,
            instance_state: InstanceState::Uninitialized,
            vm_config: VmConfigInfo::default(),
            kernel_config: None,
            upcall: UpcallState::Missing,
        }
    }

    /// Whether the machine has left the state in which it can be configured.
    pub fn is_vm_initialized(&self) -> (r: bool)
        ensures
            r == self.initialized(),
    {
        self.instance_state != InstanceState::Uninitialized
    }

    /// Asks for the token under which a device handler may work. Before boot
    /// there always is one; after boot only where the upcall channel is ready.
    pub fn create_device_op_context(&self, with_epoll_manager: bool) -> (r: Result<
        DeviceOpContext,
        StartMicroVmError,
    >)
        ensures
            r == self.context(with_epoll_manager),
    {
        if !self.is_vm_initialized() {
            Ok(DeviceOpContext { hotplug: false, with_epoll_manager })
        } else {
            match self.upcall {
                UpcallState::Unsupported => Err(StartMicroVmError::MicroVMAlreadyRunning),
                UpcallState::Missing => Err(StartMicroVmError::UpcallMissVsock),
                UpcallState::NotReady => Err(StartMicroVmError::UpcallNotReady),
                UpcallState::Ready => Ok(DeviceOpContext { hotplug: true, with_epoll_manager }),
            }
        }
    }
}

/// The monitor: at most one virtual machine, and the flag that tells the
/// event loop to leave.
#[derive(Debug)]
pub struct Vmm {
    /// The virtual machine, if one exists.
    pub vm: Option<Vm>,
    /// Set once a shutdown was asked for.
    pub exit_evt_triggered: bool,
}

impl Vmm {
    /// A monitor that holds `vm`.
    pub fn new(vm: Option<Vm>) -> (r: Vmm)
        ensures
            r.vm == vm,
            !r.exit_evt_triggered,
    {
        Vmm { vm, exit_evt_triggered: false }
    }
}

} // verus!
