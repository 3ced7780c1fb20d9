use gaclen::device::Device;
use gaclen::device::DeviceCreationError;
use gaclen::device::PhysicalDevice;
use gaclen::device::QueueFamily;
use gaclen::device::QueuePriority;
use gaclen::device::Version;
use gaclen::device::choose_better_compute_family;
use gaclen::device::choose_better_graphics_family;
use gaclen::device::choose_better_transfer_family;
use gaclen::device::select_physical_device;
use gaclen::device::select_queue_families;
use gaclen::device::unpack_queues;
use gaclen::device::validate_physical_device;
use gaclen::device::version_at_least;

fn family(id: u32, count: usize, graphics: bool, compute: bool, transfers: bool) -> QueueFamily {
    QueueFamily {
        id,
        queues_count: count,
        supports_graphics: graphics,
        supports_compute: compute,
        explicitly_supports_transfers: transfers,
    }
}

fn capable_device() -> PhysicalDevice {
    PhysicalDevice {
        index: 0,
        api_version: Version { major: 1, minor: 2, patch: 0 },
        queue_families: vec![family(0, 4, true, true, true)],
    }
}

#[test]
fn version_comparison_is_lexicographic() {
    let v1_0_0 = Version { major: 1, minor: 0, patch: 0 };
    assert!(version_at_least(Version { major: 1, minor: 0, patch: 0 }, v1_0_0));
    assert!(version_at_least(Version { major: 2, minor: 0, patch: 0 }, v1_0_0));
    assert!(version_at_least(Version { major: 1, minor: 1, patch: 0 }, v1_0_0));
    assert!(!version_at_least(Version { major: 0, minor: 9, patch: 9 }, v1_0_0));
}

#[test]
fn validation_needs_graphics_and_compute() {
    assert!(validate_physical_device(&capable_device()));

    let graphics_only = PhysicalDevice {
        index: 0,
        api_version: Version { major: 1, minor: 0, patch: 0 },
        queue_families: vec![family(0, 1, true, false, false)],
    };
    assert!(!validate_physical_device(&graphics_only));

    let old_driver = PhysicalDevice {
        index: 0,
        api_version: Version { major: 0, minor: 9, patch: 0 },
        queue_families: vec![family(0, 1, true, true, false)],
    };
    assert!(!validate_physical_device(&old_driver));
}

#[test]
fn selection_takes_the_first_usable_device() {
    assert_eq!(
        select_physical_device(Vec::new()).err(),
        Some(DeviceCreationError::NoPhysicalDevicesFound)
    );

    let unusable = PhysicalDevice {
        index: 0,
        api_version: Version { major: 1, minor: 0, patch: 0 },
        queue_families: vec![family(0, 1, false, false, true)],
    };
    assert_eq!(
        select_physical_device(vec![unusable]).err(),
        Some(DeviceCreationError::NoCompatiblePhysicalDeviceFound)
    );

    let chosen = select_physical_device(vec![capable_device()]).unwrap();
    assert_eq!(chosen.api_version, Version { major: 1, minor: 2, patch: 0 });
}

#[test]
fn family_preferences() {
    let generalist = family(0, 1, true, true, true);
    let graphics_only = family(1, 1, true, false, false);
    let compute_only = family(2, 1, false, true, false);
    let transfer_only = family(3, 1, false, false, true);

    // graphics prefers a family without compute
    assert_eq!(choose_better_graphics_family(generalist, graphics_only), graphics_only);
    assert_eq!(choose_better_graphics_family(graphics_only, compute_only), graphics_only);

    // transfer prefers exclusively-transfer families
    assert_eq!(choose_better_transfer_family(generalist, transfer_only), transfer_only);
    assert_eq!(choose_better_transfer_family(transfer_only, generalist), transfer_only);

    // compute prefers a family without graphics
    assert_eq!(choose_better_compute_family(generalist, compute_only), compute_only);
    assert_eq!(choose_better_compute_family(compute_only, graphics_only), compute_only);
}

#[test]
fn one_shared_family_requests_a_single_queue() {
    let device = PhysicalDevice {
        index: 0,
        api_version: Version { major: 1, minor: 0, patch: 0 },
        queue_families: vec![family(0, 1, true, true, true)],
    };
    let requests = select_queue_families(&device);
    assert_eq!(requests.len(), 1);
    assert_eq!(requests[0], (family(0, 1, true, true, true), QueuePriority::High));
}

#[test]
fn distinct_families_request_distinct_queues() {
    // the compute family needs spare queues beyond the transfer request to
    // be appended at all
    let graphics = family(0, 1, true, false, false);
    let transfer = family(1, 1, false, false, true);
    let compute = family(2, 2, false, true, false);
    let device = PhysicalDevice {
        index: 0,
        api_version: Version { major: 1, minor: 0, patch: 0 },
        queue_families: vec![graphics, transfer, compute],
    };
    let requests = select_queue_families(&device);
    assert_eq!(requests.len(), 3);
    assert_eq!(requests[0], (graphics, QueuePriority::High));
    assert_eq!(requests[1], (transfer, QueuePriority::Medium));
    assert_eq!(requests[2], (compute, QueuePriority::Low));
}

#[test]
fn single_queue_distinct_families_share_with_graphics() {
    // with one queue each and no spare depth, only graphics and transfer
    // are requested; compute shares
    let graphics = family(0, 1, true, false, false);
    let transfer = family(1, 1, false, false, true);
    let compute = family(2, 1, false, true, false);
    let device = PhysicalDevice {
        index: 0,
        api_version: Version { major: 1, minor: 0, patch: 0 },
        queue_families: vec![graphics, transfer, compute],
    };
    let requests = select_queue_families(&device);
    assert_eq!(requests.len(), 2);
    assert_eq!(requests[0], (graphics, QueuePriority::High));
    assert_eq!(requests[1], (transfer, QueuePriority::Medium));
}

#[test]
fn a_deep_shared_family_requests_extra_queues() {
    // one family with three queues: the transfer and compute requests
    // survive their collisions with the graphics choice
    let deep = family(0, 3, true, true, true);
    let device = PhysicalDevice {
        index: 0,
        api_version: Version { major: 1, minor: 0, patch: 0 },
        queue_families: vec![deep],
    };
    let requests = select_queue_families(&device);
    assert_eq!(requests.len(), 3);
    assert_eq!(requests[0], (deep, QueuePriority::High));
    assert_eq!(requests[1], (deep, QueuePriority::Medium));
    assert_eq!(requests[2], (deep, QueuePriority::Low));
}

#[test]
fn unpacking_queues_shares_or_distributes() {
    assert_eq!(unpack_queues(vec![11]), (11, 11, 11));
    assert_eq!(unpack_queues(vec![11, 12, 13]), (11, 12, 13));
}

#[test]
fn a_new_device_has_no_work_in_flight() {
    let device = Device::new(11, 12, 13);
    assert_eq!(device.graphics_queue(), 11);
    assert_eq!(device.transfer_queue(), 12);
    assert_eq!(device.compute_queue(), 13);
    assert!(device.before_frame.is_none());
}
