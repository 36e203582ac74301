use vstd::prelude::*;

use crate::names::{copy_names, names_view};
use crate::queue_family::QueueFamilyIndices;

verus! {

/// One queue-create request handed to device creation: exactly one queue,
/// from one family.
#[derive(Clone, Copy, PartialEq, Eq, Structural, Debug)]
pub struct QueueCreateRequest {
    pub family_index: u32,
    pub queue_count: u32,
}

/// Where a queue handle is retrieved after device creation: a family and a
/// slot within it. Slot 0 is the only slot this design ever requests.
#[derive(Clone, Copy, PartialEq, Eq, Structural, Debug)]
pub struct QueueSlot {
    pub family_index: u32,
    pub queue_index: u32,
}

/// Everything the device-create request needs: the deduplicated queue-create
/// requests, the device-extension names to enable, and where the graphics
/// and present queue handles are retrieved once the device exists.
#[derive(PartialEq, Eq, Debug)]
pub struct DeviceConfig {
    pub queue_requests: Vec<QueueCreateRequest>,
    pub extensions: Vec<Vec<u8>>,
    pub graphics_slot: QueueSlot,
    pub present_slot: QueueSlot,
}

/// Derive the logical-device configuration from the resolved queue-family
/// indices. The `{graphics, present}` pair is deduplicated into a unique
/// index set — requesting a family twice is itself a driver validation
/// error — so exactly one queue-create request is produced when the indices
/// coincide and exactly two otherwise, each requesting one queue. The
/// previously validated extensions are enabled unchanged, and both queue
/// handles are retrieved at slot 0 of their families: the same slot when the
/// indices coincide.
pub fn build(indices: QueueFamilyIndices, required_extensions: &Vec<Vec<u8>>) -> (r: DeviceConfig)
    requires
        indices.complete(),
    ensures
        indices.graphics_index() == indices.present_index() ==> r.queue_requests@ =~= seq![
            (QueueCreateRequest { family_index: indices.graphics_index(), queue_count: 1 }),
        ],
        indices.graphics_index() != indices.present_index() ==> r.queue_requests@ =~= seq![
            (QueueCreateRequest { family_index: indices.graphics_index(), queue_count: 1 }),
            (QueueCreateRequest { family_index: indices.present_index(), queue_count: 1 }),
        ],
        names_view(r.extensions@) == names_view(required_extensions@),
        r.graphics_slot == (QueueSlot { family_index: indices.graphics_index(), queue_index: 0 }),
        r.present_slot == (QueueSlot { family_index: indices.present_index(), queue_index: 0 }),
        indices.graphics_index() == indices.present_index() ==> r.graphics_slot == r.present_slot,
{
    let graphics = indices.graphics_family.unwrap();
    let present = indices.present_family.unwrap();
    let mut queue_requests: Vec<QueueCreateRequest> = Vec::new();
    queue_requests.push(QueueCreateRequest { family_index: graphics, queue_count: 1 });
    if present != graphics {
        queue_requests.push(QueueCreateRequest { family_index: present, queue_count: 1 });
    }
    DeviceConfig {
        queue_requests,
        extensions: copy_names(required_extensions),
        graphics_slot: QueueSlot { family_index: graphics, queue_index: 0 },
        present_slot: QueueSlot { family_index: present, queue_index: 0 },
    }
}

} // verus!
