//! The device: a logical handle to hardware-backed graphics, its three
//! queues, and the single outstanding slot of in-flight GPU work.
//!
//! Physical devices and queue families are described by the plain values
//! the selection logic reads: version, queue counts and capability flags.
//! The caller enumerates them from the driver and performs the actual
//! logical-device creation with the queue requests chosen here.

use vstd::prelude::*;
use crate::sync::GpuFuture;

verus! {

/// A driver version.
#[derive(Clone, Copy, Debug, PartialEq, Eq, Structural)]
pub struct Version {
    /// The major version.
    pub major: u32,
    /// The minor version.
    pub minor: u32,
    /// The patch version.
    pub patch: u32,
}

/// Whether version `a` is at least version `b`, lexicographically.
pub open spec fn spec_version_at_least(a: Version, b: Version) -> bool {
    ||| a.major > b.major
    ||| (a.major == b.major && a.minor > b.minor)
    ||| (a.major == b.major && a.minor == b.minor && a.patch >= b.patch)
}

/// Whether version `a` is at least version `b`, lexicographically.
pub fn version_at_least(a: Version, b: Version) -> (r: bool)
    ensures
        r == spec_version_at_least(a, b),
{
    a.major > b.major || (a.major == b.major && a.minor > b.minor) || (a.major == b.major && a.minor
        == b.minor && a.patch >= b.patch)
}

/// The oldest driver version this crate accepts.
pub fn required_vulkan_version() -> (r: Version)
    ensures
        r == (Version { major: 1u32, minor: 0u32, patch: 0u32 }),
{
    Version { major: 1, minor: 0, patch: 0 }
}

/// One queue family of a physical device, described by what the selection
/// logic reads.
#[derive(Clone, Copy, Debug, PartialEq, Eq, Structural)]
pub struct QueueFamily {
    /// The family's identifier.
    pub id: u32,
    /// How many queues the family offers.
    pub queues_count: usize,
    /// Whether the family supports graphics operations.
    pub supports_graphics: bool,
    /// Whether the family supports compute operations.
    pub supports_compute: bool,
    /// Whether the family explicitly supports transfer operations.
    pub explicitly_supports_transfers: bool,
}

/// A physical device as enumerated by the caller: its driver version and
/// queue families.
#[derive(Clone, Debug)]
pub struct PhysicalDevice {
    /// The device's position in the caller's enumeration, so the chosen
    /// description can be mapped back to the driver's handle.
    pub index: usize,
    /// The device's driver version.
    pub api_version: Version,
    /// The device's queue families, in driver order.
    pub queue_families: Vec<QueueFamily>,
}

/// The priority a queue is requested with: `High` for graphics, `Medium`
/// for transfer, `Low` for compute.
#[derive(Clone, Copy, Debug, PartialEq, Eq, Structural)]
pub enum QueuePriority {
    /// The highest priority, used for the graphics queue.
    High,
    /// A middling priority, used for a dedicated transfer queue.
    Medium,
    /// A low priority, used for a dedicated compute queue.
    Low,
}

/// Error during device creation.
#[derive(Clone, Copy, Debug, PartialEq, Eq, Structural)]
pub enum DeviceCreationError {
    /// No hardware devices were found.
    NoPhysicalDevicesFound,
    /// Hardware was found, but none of it is usable here.
    NoCompatiblePhysicalDeviceFound,
    /// Error during the creation of the logical device.
    Logical(LogicalDeviceError),
}

/// A failure the backend reports when creating a logical device.
#[derive(Clone, Copy, Debug, PartialEq, Eq, Structural)]
pub enum LogicalDeviceError {
    /// Initialization of the device failed.
    InitializationFailed,
    /// A requested extension is not present.
    ExtensionNotPresent,
    /// A requested feature is not present.
    FeatureNotPresent,
    /// Too many device objects exist already.
    TooManyObjects,
    /// The backend ran out of memory.
    OutOfMemory,
}

impl From<LogicalDeviceError> for DeviceCreationError {
    fn from(err: LogicalDeviceError) -> (r: DeviceCreationError) {
        DeviceCreationError::Logical(err)
    }
}

impl vstd::std_specs::convert::FromSpecImpl<LogicalDeviceError> for DeviceCreationError {
    open spec fn obeys_from_spec() -> bool {
        true
    }

    open spec fn from_spec(err: LogicalDeviceError) -> DeviceCreationError {
        DeviceCreationError::Logical(err)
    }
}

/// Whether a physical device is usable: a recent enough driver, and queue
/// families that offer both graphics and compute.
pub open spec fn spec_validate_physical_device(device: PhysicalDevice) -> bool {
    &&& spec_version_at_least(
        device.api_version,
        Version { major: 1u32, minor: 0u32, patch: 0u32 },
    )
    &&& exists|i: int|
        0 <= i < device.queue_families@.len() && #[trigger] device.queue_families@[i].queues_count
            > 0 && device.queue_families@[i].supports_graphics
    &&& exists|i: int|
        0 <= i < device.queue_families@.len() && #[trigger] device.queue_families@[i].queues_count
            > 0 && device.queue_families@[i].supports_compute
}

/// Whether a physical device is usable: a recent enough driver version and
/// queue families offering both graphics and compute.
pub fn validate_physical_device(device: &PhysicalDevice) -> (r: bool)
    ensures
        r == spec_validate_physical_device(*device),
{
    if !version_at_least(device.api_version, required_vulkan_version()) {
        return false;
    }
    let mut supports_graphics = false;
    let mut supports_compute = false;
    let mut i: usize = 0;
    while i < device.queue_families.len()
        invariant
            i <= device.queue_families@.len(),
            supports_graphics == exists|j: int|
                0 <= j < i && #[trigger] device.queue_families@[j].queues_count > 0
                    && device.queue_families@[j].supports_graphics,
            supports_compute == exists|j: int|
                0 <= j < i && #[trigger] device.queue_families@[j].queues_count > 0
                    && device.queue_families@[j].supports_compute,
        decreases device.queue_families@.len() - i,
    {
        let family = device.queue_families[i];
        supports_graphics = supports_graphics || (family.queues_count > 0
            && family.supports_graphics);
        supports_compute = supports_compute || (family.queues_count > 0
            && family.supports_compute);
        i = i + 1;
    }
    supports_compute && supports_graphics
}

/// Choose the better of two usable physical devices.  The current policy
/// keeps the first device unless the second is not usable at all.
pub fn choose_better_device(first: PhysicalDevice, second: PhysicalDevice) -> (r: PhysicalDevice)
    ensures
        r == first,
{
    if !validate_physical_device(&second) {
        return first;
    }
    first
}

/// Select the physical device to use from what the caller enumerated: the
/// first device wins, provided it is usable.
pub fn select_physical_device(mut devices: Vec<PhysicalDevice>) -> (r: Result<
    PhysicalDevice,
    DeviceCreationError,
>)
    ensures
        devices@.len() == 0 ==> r == Err::<PhysicalDevice, DeviceCreationError>(
            DeviceCreationError::NoPhysicalDevicesFound,
        ),
        devices@.len() > 0 && spec_validate_physical_device(devices@[0]) ==> r == Ok::<
            PhysicalDevice,
            DeviceCreationError,
        >(devices@[0]),
        devices@.len() > 0 && !spec_validate_physical_device(devices@[0]) ==> r == Err::<
            PhysicalDevice,
            DeviceCreationError,
        >(DeviceCreationError::NoCompatiblePhysicalDeviceFound),
{
    if devices.len() == 0 {
        return Err(DeviceCreationError::NoPhysicalDevicesFound);
    }
    let ghost everything = devices@;
    let mut device = devices.remove(0);
    while devices.len() > 0
        invariant
            device == everything[0],
        decreases devices@.len(),
    {
        let other = devices.remove(0);
        device = choose_better_device(device, other);
    }
    if validate_physical_device(&device) {
        Ok(device)
    } else {
        Err(DeviceCreationError::NoCompatiblePhysicalDeviceFound)
    }
}

/// The better of two candidates for the graphics queue: a family that
/// supports graphics but not compute is preferred, so that graphics work
/// does not contend with compute.
pub open spec fn spec_better_graphics_family(first: QueueFamily, second: QueueFamily)
    -> QueueFamily {
    if !second.supports_graphics {
        first
    } else if second.supports_compute {
        first
    } else {
        second
    }
}

/// The better of two candidates for the graphics queue.
pub fn choose_better_graphics_family(first: QueueFamily, second: QueueFamily) -> (r: QueueFamily)
    ensures
        r == spec_better_graphics_family(first, second),
{
    if !second.supports_graphics {
        return first;
    }
    if second.supports_compute {
        first
    } else {
        second
    }
}

/// The better of two candidates for the transfer queue: exclusively
/// transfer-capable families are preferred over graphics-capable ones, and
/// over compute-capable ones.
pub open spec fn spec_better_transfer_family(first: QueueFamily, second: QueueFamily)
    -> QueueFamily {
    if !second.explicitly_supports_transfers {
        first
    } else if second.supports_graphics {
        first
    } else if first.supports_graphics {
        second
    } else if second.supports_compute {
        first
    } else {
        second
    }
}

/// The better of two candidates for the transfer queue.
pub fn choose_better_transfer_family(first: QueueFamily, second: QueueFamily) -> (r: QueueFamily)
    ensures
        r == spec_better_transfer_family(first, second),
{
    if !second.explicitly_supports_transfers {
        return first;
    }
    if second.supports_graphics {
        first
    } else if first.supports_graphics {
        second
    } else if second.supports_compute {
        first
    } else {
        second
    }
}

/// The better of two candidates for the compute queue: a family that
/// supports compute but not graphics is preferred.
pub open spec fn spec_better_compute_family(first: QueueFamily, second: QueueFamily)
    -> QueueFamily {
    if !second.supports_compute {
        first
    } else if second.supports_graphics {
        first
    } else {
        second
    }
}

/// The better of two candidates for the compute queue.
pub fn choose_better_compute_family(first: QueueFamily, second: QueueFamily) -> (r: QueueFamily)
    ensures
        r == spec_better_compute_family(first, second),
{
    if !second.supports_compute {
        return first;
    }
    if second.supports_graphics {
        first
    } else {
        second
    }
}

/// The graphics candidate after folding the first `i + 1` families.
pub open spec fn spec_best_graphics(families: Seq<QueueFamily>, i: int) -> QueueFamily
    decreases i,
{
    if i <= 0 {
        families[0]
    } else {
        spec_better_graphics_family(spec_best_graphics(families, i - 1), families[i])
    }
}

/// The transfer candidate after folding the first `i + 1` families.
pub open spec fn spec_best_transfer(families: Seq<QueueFamily>, i: int) -> QueueFamily
    decreases i,
{
    if i <= 0 {
        families[0]
    } else {
        spec_better_transfer_family(spec_best_transfer(families, i - 1), families[i])
    }
}

/// The compute candidate after folding the first `i + 1` families.
pub open spec fn spec_best_compute(families: Seq<QueueFamily>, i: int) -> QueueFamily
    decreases i,
{
    if i <= 0 {
        families[0]
    } else {
        spec_better_compute_family(spec_best_compute(families, i - 1), families[i])
    }
}

/// Whether a dedicated transfer queue is requested: the chosen family must
/// have more queues than it loses to a collision with the graphics choice.
pub open spec fn spec_append_transfer(graphics: QueueFamily, transfer: QueueFamily) -> bool {
    transfer.queues_count > (if transfer.id == graphics.id {
        1int
    } else {
        0int
    })
}

/// Whether a dedicated compute queue is requested: the chosen family must
/// have more queues than it loses to collisions with the graphics and
/// transfer choices.
pub open spec fn spec_append_compute(
    graphics: QueueFamily,
    transfer: QueueFamily,
    compute: QueueFamily,
) -> bool {
    compute.queues_count > (if compute.id == graphics.id || compute.id == transfer.id {
        1int
    } else {
        0int
    }) + (if spec_append_transfer(graphics, transfer) {
        1int
    } else {
        0int
    })
}

/// Select the queue families to request queues from: the best graphics
/// family first at high priority, then — when enough distinct queues exist
/// — a transfer family at medium and a compute family at low priority.
pub fn select_queue_families(device: &PhysicalDevice) -> (r: Vec<(QueueFamily, QueuePriority)>)
    requires
        device.queue_families@.len() > 0,
    ensures
        ({
            let families = device.queue_families@;
            let last = families.len() - 1;
            let graphics = spec_best_graphics(families, last);
            let transfer = spec_best_transfer(families, last);
            let compute = spec_best_compute(families, last);
            let append_transfer = spec_append_transfer(graphics, transfer);
            let append_compute = spec_append_compute(graphics, transfer, compute);
            &&& r@.len() == 1 + (if append_transfer {
                1int
            } else {
                0int
            }) + (if append_compute {
                1int
            } else {
                0int
            })
            &&& r@[0] == (graphics, QueuePriority::High)
            &&& append_transfer ==> r@[1] == (transfer, QueuePriority::Medium)
            &&& append_compute ==> r@[r@.len() - 1] == (compute, QueuePriority::Low)
        }),
{
    let families = &device.queue_families;
    let first = families[0];
    let mut graphics = first;
    let mut transfer = first;
    let mut compute = first;
    let mut i: usize = 1;
    while i < families.len()
        invariant
            1 <= i <= families@.len(),
            graphics == spec_best_graphics(families@, i - 1),
            transfer == spec_best_transfer(families@, i - 1),
            compute == spec_best_compute(families@, i - 1),
        decreases families@.len() - i,
    {
        let other = families[i];
        graphics = choose_better_graphics_family(graphics, other);
        transfer = choose_better_transfer_family(transfer, other);
        compute = choose_better_compute_family(compute, other);
        i = i + 1;
    }

    let graphics_collisions: usize = if transfer.id == graphics.id {
        1
    } else {
        0
    };
    let append_transfer = transfer.queues_count > graphics_collisions;
    let compute_collisions: usize = if compute.id == graphics.id || compute.id == transfer.id {
        1
    } else {
        0
    };
    let transfer_requests: usize = if append_transfer {
        1
    } else {
        0
    };
    let append_compute = compute.queues_count > compute_collisions + transfer_requests;

    let mut result: Vec<(QueueFamily, QueuePriority)> = Vec::new();
    result.push((graphics, QueuePriority::High));
    if append_transfer {
        result.push((transfer, QueuePriority::Medium));
    }
    if append_compute {
        result.push((compute, QueuePriority::Low));
    }
    result
}

/// Distribute the queues the backend created over the three roles.  With a
/// single queue all roles share it; with three they are taken in request
/// order.  Unpacking exactly two queues is a known gap and is not accepted.
pub fn unpack_queues(queues: Vec<u64>) -> (r: (u64, u64, u64))
    requires
        queues@.len() == 1 || queues@.len() == 3,
    ensures
        queues@.len() == 1 ==> r == (queues@[0], queues@[0], queues@[0]),
        queues@.len() == 3 ==> r == (queues@[0], queues@[1], queues@[2]),
{
    if queues.len() == 1 {
        let q = queues[0];
        (q, q, q)
    } else {
        (queues[0], queues[1], queues[2])
    }
}

/// A device responsible for hardware-accelerated rendering: the caller's
/// handles for its three queues, and the single slot of outstanding
/// in-flight work.
///
/// At most one frame can be derived from a device at a time: beginning a
/// frame consumes the device, and finishing the frame returns it.  The
/// pending future is taken and replaced across every frame boundary.
#[derive(Debug)]
pub struct Device {
    /// The caller's handle for the graphics queue.
    pub graphics_queue: u64,
    /// The caller's handle for the transfer queue.
    pub transfer_queue: u64,
    /// The caller's handle for the compute queue.
    pub compute_queue: u64,
    /// The one outstanding slot of in-flight GPU work, consumed and
    /// replaced on every frame.
    pub before_frame: Option<GpuFuture>,
}

impl Device {
    /// Create a device from the unpacked queue handles, with no work in
    /// flight.
    pub fn new(graphics_queue: u64, transfer_queue: u64, compute_queue: u64) -> (r: Device)
        ensures
            r == (Device { graphics_queue, transfer_queue, compute_queue, before_frame: None }),
    {
        Device { graphics_queue, transfer_queue, compute_queue, before_frame: None }
    }

    /// The caller's handle for the graphics queue.
    pub fn graphics_queue(&self) -> (r: u64)
        ensures
            r == self.graphics_queue,
    {
        self.graphics_queue
    }

    /// The caller's handle for the transfer queue.
    pub fn transfer_queue(&self) -> (r: u64)
        ensures
            r == self.transfer_queue,
    {
        self.transfer_queue
    }

    /// The caller's handle for the compute queue.
    pub fn compute_queue(&self) -> (r: u64)
        ensures
            r == self.compute_queue,
    {
        self.compute_queue
    }
}

} // verus!
