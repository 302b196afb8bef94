use vstd::prelude::*;

use crate::error::GegError;

verus! {

/// The category a driver reports for a physical device, in the preference
/// order of the selection policy: discrete parts are ranked best, then
/// integrated, virtual, CPU-emulated, and anything else last.
#[derive(Clone, Copy, Debug, PartialEq, Eq, Structural)]
pub enum DeviceType {
    DiscreteGpu,
    IntegratedGpu,
    VirtualGpu,
    Cpu,
    Other,
}

/// The rank of a device category; a lower rank is preferred.
pub open spec fn rank(t: DeviceType) -> int {
    match t {
        DeviceType::DiscreteGpu => 0,
        DeviceType::IntegratedGpu => 1,
        DeviceType::VirtualGpu => 2,
        DeviceType::Cpu => 3,
        DeviceType::Other => 4,
    }
}

/// What a queue family declares: graphics capability, and presentation
/// support for the surface the device is being selected against.
#[derive(Clone, Copy, Debug, PartialEq, Eq, Structural)]
pub struct QueueFamilyInfo {
    pub graphics: bool,
    pub present: bool,
}

/// What device selection reads of an enumerated physical device: its
/// category, whether it supports the presentation (swap-image) extension,
/// and its queue families.
#[derive(Clone, Debug)]
pub struct PhysicalDeviceInfo {
    pub device_type: DeviceType,
    pub supports_swapchain: bool,
    pub queue_families: Vec<QueueFamilyInfo>,
}

/// A queue family is usable only if it declares graphics capability and
/// reports presentation support for the target surface.
pub open spec fn family_ok(f: QueueFamilyInfo) -> bool {
    f.graphics && f.present
}

/// A device has a usable queue family.
pub open spec fn has_good_family(d: PhysicalDeviceInfo) -> bool {
    exists|i: int| 0 <= i < d.queue_families@.len() && family_ok(#[trigger] d.queue_families@[i])
}

/// A device survives selection if it supports the presentation extension and
/// has a usable queue family.
pub open spec fn suitable(d: PhysicalDeviceInfo) -> bool {
    d.supports_swapchain && has_good_family(d)
}

/// The selection policy, as a relation: among the enumerated `devices`,
/// index `j` with queue family `q` is the chosen pair exactly when `j` is
/// suitable, `q` is its first usable family, no suitable device ranks
/// strictly better, and no earlier suitable device ranks as well (ties go to
/// enumeration order).
pub open spec fn selection_ok(devices: Seq<PhysicalDeviceInfo>, j: int, q: int) -> bool {
    &&& 0 <= j < devices.len()
    &&& suitable(devices[j])
    &&& 0 <= q < devices[j].queue_families@.len()
    &&& family_ok(devices[j].queue_families@[q])
    &&& forall|k: int| 0 <= k < q ==> !family_ok(#[trigger] devices[j].queue_families@[k])
    &&& forall|k: int|
        0 <= k < devices.len() && suitable(#[trigger] devices[k]) ==> rank(
            devices[j].device_type,
        ) <= rank(devices[k].device_type)
    &&& forall|k: int|
        0 <= k < j && suitable(#[trigger] devices[k]) ==> rank(devices[j].device_type) < rank(
            devices[k].device_type,
        )
}

/// Exposes `rank` to executable callers.
pub fn device_type_rank(t: DeviceType) -> (r: u32)
    ensures
        r == rank(t),
{
    match t {
        DeviceType::DiscreteGpu => 0,
        DeviceType::IntegratedGpu => 1,
        DeviceType::VirtualGpu => 2,
        DeviceType::Cpu => 3,
        DeviceType::Other => 4,
    }
}

/// Returns the first queue family of `d` that has both graphics capability
/// and presentation support, or `None` when no family qualifies.
pub fn find_queue_family(d: &PhysicalDeviceInfo) -> (r: Option<usize>)
    ensures
        match r {
            Some(i) => {
                &&& i < d.queue_families@.len()
                &&& family_ok(d.queue_families@[i as int])
                &&& forall|k: int| 0 <= k < i ==> !family_ok(#[trigger] d.queue_families@[k])
            },
            None => !has_good_family(*d),
        },
{
    let n: usize = d.queue_families.len();
    let mut i: usize = 0;
    while i < n
        invariant
            n == d.queue_families@.len(),
            i <= n,
            forall|k: int| 0 <= k < i ==> !family_ok(#[trigger] d.queue_families@[k]),
        decreases n - i,
    {
        let f = d.queue_families[i];
        if f.graphics && f.present {
            return Some(i);
        }
        i = i + 1;
    }
    None
}

/// Whether `d` survives selection: it supports the presentation extension
/// and has a usable queue family.
pub fn is_suitable(d: &PhysicalDeviceInfo) -> (r: bool)
    ensures
        r == suitable(*d),
{
    if !d.supports_swapchain {
        return false;
    }
    find_queue_family(d).is_some()
}

/// Selects the physical device: among the suitable devices, the one of best
/// (lowest) rank, earliest in enumeration order on a tie, together with its
/// first usable queue family. `None` exactly when no device is suitable.
pub fn select_physical_device(devices: &Vec<PhysicalDeviceInfo>) -> (r: Option<(usize, usize)>)
    ensures
        match r {
            Some((j, q)) => selection_ok(devices@, j as int, q as int),
            None => forall|k: int| 0 <= k < devices@.len() ==> !suitable(#[trigger] devices@[k]),
        },
{
    let n: usize = devices.len();
    let mut best: Option<(usize, usize)> = None;
    let mut j: usize = 0;
    while j < n
        invariant
            n == devices@.len(),
            j <= n,
            match best {
                Some((b, q)) => {
                    &&& b < j
                    &&& suitable(devices@[b as int])
                    &&& q < devices@[b as int].queue_families@.len()
                    &&& family_ok(devices@[b as int].queue_families@[q as int])
                    &&& forall|k: int|
                        0 <= k < q ==> !family_ok(
                            #[trigger] devices@[b as int].queue_families@[k],
                        )
                    &&& forall|k: int|
                        0 <= k < j && suitable(#[trigger] devices@[k]) ==> rank(
                            devices@[b as int].device_type,
                        ) <= rank(devices@[k].device_type)
                    &&& forall|k: int|
                        0 <= k < b && suitable(#[trigger] devices@[k]) ==> rank(
                            devices@[b as int].device_type,
                        ) < rank(devices@[k].device_type)
                },
                None => forall|k: int| 0 <= k < j ==> !suitable(#[trigger] devices@[k]),
            },
        decreases n - j,
    {
        let d = &devices[j];
        if d.supports_swapchain {
            if let Some(q) = find_queue_family(d) {
                let better: bool = match best {
                    Some((b, _)) => device_type_rank(d.device_type) < device_type_rank(
                        devices[b].device_type,
                    ),
                    None => true,
                };
                if better {
                    best = Some((j, q));
                }
            }
        }
        j = j + 1;
    }
    best
}

/// The single graphics-and-present queue a device exposes, named by its
/// queue-family index.
#[derive(Clone, Copy, Debug, PartialEq, Eq, Structural)]
pub struct Queue {
    pub family_index: u32,
}

/// The selected GPU: the chosen physical device, the index of its first
/// usable queue family, and the one queue created on that family.
#[derive(Clone, Debug)]
pub struct Device {
    pub physical: PhysicalDeviceInfo,
    pub queue_family_index: u32,
    pub queue: Queue,
}

impl Device {
    /// A well-formed device was selected by policy: the chosen physical
    /// device is suitable, the stored family index names a usable family,
    /// and the queue lives on that family.
    pub open spec fn wf(self) -> bool {
        &&& suitable(self.physical)
        &&& self.queue_family_index < self.physical.queue_families@.len()
        &&& family_ok(self.physical.queue_families@[self.queue_family_index as int])
        &&& self.queue.family_index == self.queue_family_index
    }

    /// Selects the best-ranked suitable device among those enumerated and
    /// creates its one graphics-and-present queue; fails exactly when no
    /// device is suitable.
    pub fn new(devices: Vec<PhysicalDeviceInfo>) -> (r: Result<Device, GegError>)
        requires
            forall|k: int|
                0 <= k < devices@.len() ==> (#[trigger] devices@[k]).queue_families@.len()
                    <= u32::MAX,
        ensures
            match r {
                Ok(d) => {
                    &&& d.wf()
                    &&& exists|j: int|
                        {
                            &&& #[trigger] selection_ok(devices@, j, d.queue_family_index as int)
                            &&& d.physical == devices@[j]
                        }
                },
                Err(e) => {
                    &&& e == GegError::NoSuitableDevice
                    &&& forall|k: int|
                        0 <= k < devices@.len() ==> !suitable(#[trigger] devices@[k])
                },
            },
    {
        let mut devices = devices;
        // the contract speaks of the enumerated list as it was handed in;
        // this snapshot keeps that value in view once the chosen element is
        // moved out below
        let ghost enumerated: Seq<PhysicalDeviceInfo> = devices@;
        match select_physical_device(&devices) {
            Some((j, q)) => {
                let physical = devices.remove(j);
                let family_index: u32 = q as u32;
                let d = Device {
                    physical,
                    queue_family_index: family_index,
                    queue: Queue { family_index },
                };
                Ok(d)
            },
            None => Err(GegError::NoSuitableDevice),
        }
    }

    /// The chosen physical device, as enumerated.
    pub fn physical_device(&self) -> (r: &PhysicalDeviceInfo)
        ensures
            *r == self.physical,
    {
        &self.physical
    }

    /// The device's single queue.
    pub fn queue(&self) -> (r: Queue)
        ensures
            r == self.queue,
    {
        self.queue
    }
}

/// The selected device's rank is never above the rank of any other
/// surviving candidate: among the devices that satisfy the extension and
/// queue constraints, selection picks one of best rank.
pub proof fn lemma_selected_rank_minimal(devices: Seq<PhysicalDeviceInfo>, j: int, q: int)
    requires
        selection_ok(devices, j, q),
    ensures
        forall|k: int|
            0 <= k < devices.len() && suitable(#[trigger] devices[k]) ==> rank(
                devices[j].device_type,
            ) <= rank(devices[k].device_type),
{
}

} // verus!
