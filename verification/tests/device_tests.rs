use geg::device::{
    device_type_rank, find_queue_family, is_suitable, select_physical_device, Device, DeviceType,
    PhysicalDeviceInfo, QueueFamilyInfo,
};
use geg::error::GegError;

fn family(graphics: bool, present: bool) -> QueueFamilyInfo {
    QueueFamilyInfo { graphics, present }
}

fn device(device_type: DeviceType, supports_swapchain: bool, families: Vec<QueueFamilyInfo>) -> PhysicalDeviceInfo {
    PhysicalDeviceInfo { device_type, supports_swapchain, queue_families: families }
}

#[test]
fn rank_order_prefers_discrete_first() {
    assert_eq!(device_type_rank(DeviceType::DiscreteGpu), 0);
    assert_eq!(device_type_rank(DeviceType::IntegratedGpu), 1);
    assert_eq!(device_type_rank(DeviceType::VirtualGpu), 2);
    assert_eq!(device_type_rank(DeviceType::Cpu), 3);
    assert_eq!(device_type_rank(DeviceType::Other), 4);
}

#[test]
fn find_queue_family_returns_first_usable() {
    let d = device(
        DeviceType::DiscreteGpu,
        true,
        vec![family(true, false), family(false, true), family(true, true), family(true, true)],
    );
    assert_eq!(find_queue_family(&d), Some(2));
}

#[test]
fn find_queue_family_none_without_graphics_present_pair() {
    let d = device(DeviceType::DiscreteGpu, true, vec![family(true, false), family(false, true)]);
    assert_eq!(find_queue_family(&d), None);
}

#[test]
fn suitability_requires_extension_and_family() {
    let no_ext = device(DeviceType::DiscreteGpu, false, vec![family(true, true)]);
    let no_fam = device(DeviceType::DiscreteGpu, true, vec![family(true, false)]);
    let good = device(DeviceType::Cpu, true, vec![family(true, true)]);
    assert!(!is_suitable(&no_ext));
    assert!(!is_suitable(&no_fam));
    assert!(is_suitable(&good));
}

#[test]
fn selects_lowest_rank_among_suitable() {
    let devs = vec![
        device(DeviceType::Cpu, true, vec![family(true, true)]),
        device(DeviceType::VirtualGpu, true, vec![family(true, true)]),
        device(DeviceType::IntegratedGpu, true, vec![family(true, true)]),
    ];
    // integrated outranks virtual and cpu
    assert_eq!(select_physical_device(&devs), Some((2, 0)));
}

#[test]
fn unsuitable_devices_never_win_on_rank() {
    let devs = vec![
        // best rank but no swapchain extension
        device(DeviceType::DiscreteGpu, false, vec![family(true, true)]),
        // best rank but no usable queue family
        device(DeviceType::DiscreteGpu, true, vec![family(false, true)]),
        // worse rank, but the only survivor
        device(DeviceType::Cpu, true, vec![family(false, false), family(true, true)]),
    ];
    assert_eq!(select_physical_device(&devs), Some((2, 1)));
}

#[test]
fn ties_break_by_enumeration_order() {
    let devs = vec![
        device(DeviceType::IntegratedGpu, true, vec![family(true, true)]),
        device(DeviceType::IntegratedGpu, true, vec![family(true, true)]),
    ];
    assert_eq!(select_physical_device(&devs), Some((0, 0)));
}

#[test]
fn selection_none_when_no_device_suitable() {
    let devs = vec![
        device(DeviceType::DiscreteGpu, false, vec![family(true, true)]),
        device(DeviceType::Cpu, true, vec![family(true, false)]),
    ];
    assert_eq!(select_physical_device(&devs), None);
}

#[test]
fn device_new_errors_without_candidate() {
    let devs = vec![device(DeviceType::Other, false, vec![family(true, true)])];
    match Device::new(devs) {
        Err(GegError::NoSuitableDevice) => {}
        other => panic!("expected NoSuitableDevice, got {:?}", other),
    }
}

#[test]
fn device_new_exposes_one_queue_on_selected_family() {
    let devs = vec![
        device(DeviceType::Cpu, true, vec![family(true, true)]),
        device(DeviceType::DiscreteGpu, true, vec![family(false, true), family(true, true)]),
    ];
    let d = Device::new(devs).expect("a suitable device was enumerated");
    assert_eq!(d.queue_family_index, 1);
    assert_eq!(d.queue().family_index, 1);
    assert_eq!(d.physical_device().device_type, DeviceType::DiscreteGpu);
}
