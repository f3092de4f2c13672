//! What the actions carry to the device handlers. The dispatcher reads the
//! guest context identifier of a socket-proxy device and passes the rest on.

use vstd::prelude::*;

verus! {

/// Where the kernel, its initial ramdisk and its arguments come from.
#[derive(Clone, Debug, PartialEq, Eq, Default)]
pub struct BootSourceConfig {
    /// Path of the kernel image.
    pub kernel_path: String,
    /// Path of the initial ramdisk, if there is one.
    pub initrd_path: Option<String>,
    /// The kernel's boot arguments; a default stands in where there are none.
    pub boot_args: Option<String>,
}

/// Limits on the bandwidth and on the operations of a device.
#[derive(Clone, Debug, PartialEq, Eq, Default)]
pub struct RateLimiterConfigInfo {
    /// Bytes per refill period.
    pub bandwidth: u64,
    /// Operations per refill period.
    pub ops: u64,
    /// Refill period in milliseconds.
    pub refill_time: u64,
}

/// A socket-proxy device.
#[derive(Clone, Debug, PartialEq, Eq, Default)]
pub struct VsockDeviceConfigInfo {
    /// Identifier of the device.
    pub id: String,
    /// The guest's context identifier.
    pub guest_cid: u32,
    /// Path of the host's socket.
    pub uds_path: Option<String>,
    /// Address of a TCP backend.
    pub tcp_addr: Option<String>,
    /// Whether the device shares its interrupt line.
    pub use_shared_irq: Option<bool>,
    /// Whether the device uses a generic interrupt.
    pub use_generic_irq: Option<bool>,
}

/// What stands behind a block device on the host.
#[derive(Clone, Copy, Debug, PartialEq, Eq, Default)]
pub enum BlockDeviceType {
    /// The kind is not known.
    Unknown,
    /// A block backend in another process of the host.
    Spool,
    /// A file or a disk of the host.
    #[default]
    RawBlock,
}

/// A block device.
#[derive(Clone, Debug, PartialEq, Eq, Default)]
pub struct BlockDeviceConfigInfo {
    /// Identifier of the drive.
    pub drive_id: String,
    /// Path of the backing file on the host.
    pub path_on_host: String,
    /// What stands behind the device on the host.
    pub device_type: BlockDeviceType,
    /// Whether the guest boots from this drive.
    pub is_root_device: bool,
    /// Partition to boot from.
    pub part_uuid: Option<String>,
    /// Whether the guest may only read.
    pub is_read_only: bool,
    /// Whether the host's page cache is bypassed.
    pub is_direct: bool,
    /// Whether requests are kept when the queue is full.
    pub no_drop: bool,
    /// Limits on the drive.
    pub rate_limiter: Option<RateLimiterConfigInfo>,
    /// Number of queues.
    pub num_queues: usize,
    /// Size of each queue.
    pub queue_size: u16,
    /// Whether the device shares its interrupt line.
    pub use_shared_irq: Option<bool>,
    /// Whether the device uses a generic interrupt.
    pub use_generic_irq: Option<bool>,
}

impl BlockDeviceConfigInfo {
    /// The number of queues of a drive for which none was given.
    pub fn default_num_queues() -> (r: usize)
        ensures
            r == 1,
    {
        1
    }
}

/// New limits for a block device.
#[derive(Clone, Debug, PartialEq, Eq, Default)]
pub struct BlockDeviceConfigUpdateInfo {
    /// Identifier of the drive.
    pub drive_id: String,
    /// The new limits.
    pub rate_limiter: Option<RateLimiterConfigInfo>,
}

/// A network device.
#[derive(Clone, Debug, PartialEq, Eq, Default)]
pub struct VirtioNetDeviceConfigInfo {
    /// Identifier of the interface.
    pub iface_id: String,
    /// Name of the host's device.
    pub host_dev_name: String,
    /// Number of queues.
    pub num_queues: usize,
    /// Size of each queue.
    pub queue_size: u16,
    /// The guest's hardware address.
    pub guest_mac: Option<String>,
    /// Limits on what the guest receives.
    pub rx_rate_limiter: Option<RateLimiterConfigInfo>,
    /// Limits on what the guest sends.
    pub tx_rate_limiter: Option<RateLimiterConfigInfo>,
    /// Whether the device shares its interrupt line.
    pub use_shared_irq: Option<bool>,
    /// Whether the device uses a generic interrupt.
    pub use_generic_irq: Option<bool>,
}

/// New limits for a network device.
#[derive(Clone, Debug, PartialEq, Eq, Default)]
pub struct VirtioNetDeviceConfigUpdateInfo {
    /// Identifier of the interface.
    pub iface_id: String,
    /// New limits on what the guest receives.
    pub rx_rate_limiter: Option<RateLimiterConfigInfo>,
    /// New limits on what the guest sends.
    pub tx_rate_limiter: Option<RateLimiterConfigInfo>,
}

/// A shared filesystem device.
#[derive(Clone, Debug, PartialEq, Eq, Default)]
pub struct FsDeviceConfigInfo {
    /// Path of the backend's socket.
    pub sock_path: String,
    /// Tag under which the guest mounts the filesystem.
    pub tag: String,
    /// Number of queues.
    pub num_queues: usize,
    /// Size of each queue.
    pub queue_size: u16,
    /// Size of the shared cache window.
    pub cache_size: u64,
    /// Kind of backend.
    pub mode: String,
    /// Limits on the device.
    pub rate_limiter: Option<RateLimiterConfigInfo>,
}

/// A backend filesystem to attach to, or to detach from, a shared filesystem
/// device.
#[derive(Clone, Debug, PartialEq, Eq, Default)]
pub struct FsMountConfigInfo {
    /// What to do: mount, unmount or update.
    pub ops: String,
    /// Kind of the backend filesystem.
    pub fstype: Option<String>,
    /// Where the backend filesystem comes from.
    pub source: Option<String>,
    /// Where it appears in the guest.
    pub mountpoint: String,
    /// Path of the backend's configuration.
    pub config: Option<String>,
    /// Tag of the device.
    pub tag: String,
}

/// New limits for a shared filesystem device.
#[derive(Clone, Debug, PartialEq, Eq, Default)]
pub struct FsDeviceConfigUpdateInfo {
    /// Tag of the device.
    pub tag: String,
    /// The new limits.
    pub rate_limiter: Option<RateLimiterConfigInfo>,
}

} // verus!
