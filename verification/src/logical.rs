//! The logical device and its queue: creation from a chosen physical device
//! and queue family.
//!
//! The factory validates the request and fixes what the driver call will be
//! handed: exactly one queue, drawn from the chosen family, at the given
//! priority, with no optional features or extensions beyond what a compute
//! dispatch needs. The driver call itself is made by the surrounding
//! application.

use vstd::prelude::*;
use crate::device::PhysicalDeviceDescriptor;
use crate::device::QueueFamilyDescriptor;
use crate::error::CoreError;

verus! {

/// A queue priority in `[0, 1]`, held in thousandths so that the core never
/// computes with floating point. The surrounding application divides by
/// 1000 when it hands the value to the driver.
#[derive(Clone, Copy, Debug, PartialEq, Eq, Structural)]
pub struct QueuePriority {
    thousandths: u16,
}

impl QueuePriority {
    /// The value is inside the unit interval.
    pub closed spec fn wf(self) -> bool {
        self.thousandths <= 1000
    }

    pub closed spec fn spec_thousandths(self) -> u16 {
        self.thousandths
    }

    /// Builds a priority from thousandths of the unit interval; rejects
    /// anything above 1.
    pub fn from_thousandths(thousandths: u16) -> (r: Option<QueuePriority>)
        ensures
            r is Some <==> thousandths <= 1000,
            r matches Some(p) ==> p.spec_thousandths() == thousandths && p.wf(),
    {
        if thousandths <= 1000 {
            Some(QueuePriority { thousandths })
        } else {
            None
        }
    }

    /// The reference priority of 0.5 — arbitrary, and inert while only one
    /// queue exists, but the driver requires a value.
    pub fn half() -> (r: QueuePriority)
        ensures
            r.spec_thousandths() == 500,
            r.wf(),
    {
        QueuePriority { thousandths: 500 }
    }

    pub fn thousandths(&self) -> (r: u16)
        ensures
            r == self.spec_thousandths(),
    {
        self.thousandths
    }
}

/// The application's handle to a created device: it owns the queues made at
/// creation time, all bound to one queue family.
#[derive(Clone, Copy, Debug, PartialEq, Eq, Structural)]
pub struct LogicalDevice {
    pub queue_family_id: u32,
}

/// The one object permitted to accept submitted work; bound permanently to
/// the queue family chosen at device creation.
#[derive(Clone, Copy, Debug, PartialEq, Eq, Structural)]
pub struct Queue {
    pub family_id: u32,
    pub priority: QueuePriority,
}

/// Checks that `family` is one of `device`'s enumerated queue families.
pub fn device_has_family(device: &PhysicalDeviceDescriptor, family: &QueueFamilyDescriptor) -> (r:
    bool)
    ensures
        r == device.queue_families@.contains(*family),
{
    let n = device.queue_families.len();
    let mut j: usize = 0;
    while j < n
        invariant
            n == device.queue_families@.len(),
            j <= n,
            forall|k: int| 0 <= k < j ==> device.queue_families@[k] != *family,
        decreases n - j,
    {
        if device.queue_families[j] == *family {
            return true;
        }
        j += 1;
    }
    false
}

/// Creates the logical device and its single queue from a chosen device and
/// queue family.
///
/// Exactly one queue is created, bound to `family` at `priority`. The
/// request is rejected with `DeviceCreationError` exactly when the priority
/// lies outside the unit interval or the family does not belong to the
/// device — the two requests a driver is certain to refuse.
pub fn create(
    device: &PhysicalDeviceDescriptor,
    family: QueueFamilyDescriptor,
    priority: QueuePriority,
) -> (r: Result<(LogicalDevice, Queue), CoreError>)
    ensures
        match r {
            Ok(pair) => {
                &&& priority.wf()
                &&& device.queue_families@.contains(family)
                &&& pair.0.queue_family_id == family.id
                &&& pair.1.family_id == family.id
                &&& pair.1.priority == priority
            },
            Err(e) => {
                &&& e == CoreError::DeviceCreationError
                &&& !(priority.wf() && device.queue_families@.contains(family))
            },
        },
{
    if !priority_in_range(&priority) {
        return Err(CoreError::DeviceCreationError);
    }
    if !device_has_family(device, &family) {
        return Err(CoreError::DeviceCreationError);
    }
    Ok(
        (
            LogicalDevice { queue_family_id: family.id },
            Queue { family_id: family.id, priority },
        ),
    )
}

/// The priority lies inside the unit interval.
fn priority_in_range(priority: &QueuePriority) -> (r: bool)
    ensures
        r == priority.wf(),
{
    priority.thousandths() <= 1000
}

} // verus!
