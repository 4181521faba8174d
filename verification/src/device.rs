//! Physical-device and queue-family descriptors, and the first-match
//! device selector.
//!
//! The descriptors hold, as plain values, what the selection policy reads
//! from the driver's enumeration: capability flags and identity of each
//! queue family, and the device properties that are only inspected for
//! diagnostics. The surrounding application fills them from the real
//! enumeration and performs the driver calls on the chosen device.

use vstd::prelude::*;
use crate::error::CoreError;

verus! {

/// Capability flags of one queue family.
#[derive(Clone, Copy, Debug, PartialEq, Eq, Structural)]
pub struct QueueCapabilities {
    pub compute: bool,
    pub graphics: bool,
    pub transfer: bool,
    pub sparse_binding: bool,
}

impl QueueCapabilities {
    /// Every capability demanded by `required` is present in `self`.
    pub open spec fn spec_satisfies(self, required: QueueCapabilities) -> bool {
        &&& (required.compute ==> self.compute)
        &&& (required.graphics ==> self.graphics)
        &&& (required.transfer ==> self.transfer)
        &&& (required.sparse_binding ==> self.sparse_binding)
    }

    pub fn satisfies(&self, required: &QueueCapabilities) -> (r: bool)
        ensures
            r == self.spec_satisfies(*required),
    {
        (!required.compute || self.compute)
            && (!required.graphics || self.graphics)
            && (!required.transfer || self.transfer)
            && (!required.sparse_binding || self.sparse_binding)
    }

    /// The requirement of a compute job: a compute-capable family.
    pub fn compute_only() -> (r: QueueCapabilities)
        ensures
            r == (QueueCapabilities {
                compute: true,
                graphics: false,
                transfer: false,
                sparse_binding: false,
            }),
    {
        QueueCapabilities { compute: true, graphics: false, transfer: false, sparse_binding: false }
    }

    /// The requirement of a presentation job: a graphics-capable family.
    pub fn graphics_only() -> (r: QueueCapabilities)
        ensures
            r == (QueueCapabilities {
                compute: false,
                graphics: true,
                transfer: false,
                sparse_binding: false,
            }),
    {
        QueueCapabilities { compute: false, graphics: true, transfer: false, sparse_binding: false }
    }
}

/// One queue family of a physical device, as enumerated by the driver.
#[derive(Clone, Copy, Debug, PartialEq, Eq, Structural)]
pub struct QueueFamilyDescriptor {
    pub id: u32,
    pub queue_count: u32,
    pub capabilities: QueueCapabilities,
}

/// The broad device classes a driver reports.
#[derive(Clone, Copy, Debug, PartialEq, Eq, Structural)]
pub enum DeviceKind {
    IntegratedGpu,
    DiscreteGpu,
    VirtualGpu,
    Cpu,
    Other,
}

/// An immutable description of one enumerated physical device.
///
/// Read-only after enumeration; the selector never mutates it.
#[derive(Debug)]
pub struct PhysicalDeviceDescriptor {
    pub name: String,
    pub kind: DeviceKind,
    pub api_version: u32,
    pub driver_version: u32,
    pub max_memory_allocation_count: u32,
    pub queue_families: Vec<QueueFamilyDescriptor>,
}

impl PhysicalDeviceDescriptor {
    /// At least one queue family of this device satisfies `required`.
    pub open spec fn spec_suitable(self, required: QueueCapabilities) -> bool {
        exists|j: int|
            0 <= j < self.queue_families@.len()
                && self.queue_families@[j].capabilities.spec_satisfies(required)
    }

    pub fn has_capable_family(&self, required: &QueueCapabilities) -> (r: bool)
        ensures
            r == self.spec_suitable(*required),
    {
        let n = self.queue_families.len();
        let mut j: usize = 0;
        while j < n
            invariant
                n == self.queue_families@.len(),
                j <= n,
                forall|k: int|
                    0 <= k < j ==> !self.queue_families@[k].capabilities.spec_satisfies(*required),
            decreases n - j,
        {
            if self.queue_families[j].capabilities.satisfies(required) {
                return true;
            }
            j += 1;
        }
        false
    }
}

/// First-match selection over an enumeration of physical devices.
///
/// Policy: take the first enumerated device that exposes at least one queue
/// family satisfying the required capability set. No scoring by performance
/// tier, memory size or device class.
pub struct DeviceSelector {
    pub required: QueueCapabilities,
}

impl DeviceSelector {
    pub fn new(required: QueueCapabilities) -> (r: DeviceSelector)
        ensures
            r.required == required,
    {
        DeviceSelector { required }
    }

    /// Picks the first suitable device of `devices` and returns its index in
    /// enumeration order; `devices[i]` is then the selected descriptor.
    ///
    /// Fails with `NoSuitableDeviceError` exactly when the enumeration is
    /// empty or no device exposes a matching queue family.
    pub fn select(&self, devices: &Vec<PhysicalDeviceDescriptor>) -> (r: Result<
        usize,
        CoreError,
    >)
        ensures
            match r {
                Ok(i) => {
                    &&& i < devices@.len()
                    &&& devices@[i as int].spec_suitable(self.required)
                    &&& forall|k: int| 0 <= k < i ==> !devices@[k].spec_suitable(self.required)
                },
                Err(e) => {
                    &&& e == CoreError::NoSuitableDeviceError
                    &&& forall|k: int|
                        0 <= k < devices@.len() ==> !devices@[k].spec_suitable(self.required)
                },
            },
            devices@.len() == 0 ==> r === Err(CoreError::NoSuitableDeviceError),
    {
        let n = devices.len();
        let mut i: usize = 0;
        while i < n
            invariant
                n == devices@.len(),
                i <= n,
                forall|k: int| 0 <= k < i ==> !devices@[k].spec_suitable(self.required),
            decreases n - i,
        {
            if devices[i].has_capable_family(&self.required) {
                return Ok(i);
            }
            i += 1;
        }
        Err(CoreError::NoSuitableDeviceError)
    }

    /// Picks the first queue family of `device` that satisfies the required
    /// capability set, in the device's enumeration order.
    ///
    /// Fails with `NoQueueFamilyError` exactly when no family qualifies.
    pub fn select_queue_family(&self, device: &PhysicalDeviceDescriptor) -> (r: Result<
        QueueFamilyDescriptor,
        CoreError,
    >)
        ensures
            match r {
                Ok(f) => exists|j: int|
                    {
                        &&& 0 <= j < device.queue_families@.len()
                        &&& f == device.queue_families@[j]
                        &&& f.capabilities.spec_satisfies(self.required)
                        &&& forall|k: int|
                            0 <= k < j ==> !device.queue_families@[k].capabilities.spec_satisfies(
                                self.required,
                            )
                    },
                Err(e) => {
                    &&& e == CoreError::NoQueueFamilyError
                    &&& !device.spec_suitable(self.required)
                },
            },
    {
        let n = device.queue_families.len();
        let mut j: usize = 0;
        while j < n
            invariant
                n == device.queue_families@.len(),
                j <= n,
                forall|k: int|
                    0 <= k < j ==> !device.queue_families@[k].capabilities.spec_satisfies(
                        self.required,
                    ),
            decreases n - j,
        {
            if device.queue_families[j].capabilities.satisfies(&self.required) {
                return Ok(device.queue_families[j]);
            }
            j += 1;
        }
        Err(CoreError::NoQueueFamilyError)
    }
}

/// First-match selection is deterministic: any two indices that each point
/// at a suitable device with no suitable device before it are the same
/// index, so `DeviceSelector::select` has exactly one possible answer on a
/// given enumeration.
pub proof fn lemma_first_match_deterministic(
    devices: Seq<PhysicalDeviceDescriptor>,
    required: QueueCapabilities,
    i: int,
    j: int,
)
    requires
        0 <= i < devices.len(),
        devices[i].spec_suitable(required),
        forall|k: int| 0 <= k < i ==> !devices[k].spec_suitable(required),
        0 <= j < devices.len(),
        devices[j].spec_suitable(required),
        forall|k: int| 0 <= k < j ==> !devices[k].spec_suitable(required),
    ensures
        i == j,
{
    if i < j {
        assert(!devices[i].spec_suitable(required));
    }
    if j < i {
        assert(!devices[j].spec_suitable(required));
    }
}

} // verus!
