use vstd::prelude::*;

use crate::errors::FatalError;
use crate::names::{all_names_present, all_names_present_spec, names_view};
use crate::queue_family::{find_queue_families, has_graphics_family, has_present_family};
use crate::queue_family::QueueFamilyProps;
use crate::swapchain::{swapchain_adequate_spec, SwapchainSupportDetails};

verus! {

/// Everything the suitability checks read about one enumerated physical
/// device: its queue families (presentation support is relative to the
/// bootstrap surface), its supported device-extension names, and the
/// swapchain support it offers for that surface.
#[derive(PartialEq, Eq, Debug)]
pub struct DeviceInfo {
    pub queue_families: Vec<QueueFamilyProps>,
    pub extensions: Vec<Vec<u8>>,
    pub swapchain: SwapchainSupportDetails,
}

impl DeviceInfo {
    /// The driver reports queue-family counts as 32-bit values.
    pub open spec fn wf(self) -> bool {
        self.queue_families@.len() <= u32::MAX
    }
}

/// A device is suitable iff its queue families are complete (a
/// graphics-capable family and a present-capable family both exist), every
/// required device-extension name appears among its extensions, and its
/// swapchain support is adequate.
pub open spec fn device_suitable(device: DeviceInfo, required_extensions: Seq<Seq<u8>>) -> bool {
    &&& has_graphics_family(device.queue_families@)
    &&& has_present_family(device.queue_families@)
    &&& all_names_present_spec(required_extensions, names_view(device.extensions@))
    &&& swapchain_adequate_spec(device.swapchain)
}

/// Run the three suitability checks, short-circuited in this order:
/// queue-family completeness, extension support, swapchain adequacy.
pub fn is_device_suitable(device: &DeviceInfo, required_extensions: &Vec<Vec<u8>>) -> (r: bool)
    requires
        device.wf(),
    ensures
        r == device_suitable(*device, names_view(required_extensions@)),
{
    let indices = find_queue_families(&device.queue_families);
    if !indices.is_complete() {
        return false;
    }
    if !all_names_present(required_extensions, &device.extensions) {
        return false;
    }
    device.swapchain.swapchain_adequate()
}

/// `i` is the position `select` must return for this device list: the device
/// at `i` is suitable and no earlier one is.
pub open spec fn selects(
    devices: Seq<DeviceInfo>,
    required_extensions: Seq<Seq<u8>>,
    i: int,
) -> bool {
    &&& 0 <= i < devices.len()
    &&& device_suitable(devices[i], required_extensions)
    &&& forall|j: int| 0 <= j < i ==> !device_suitable(devices[j], required_extensions)
}

/// First-match device selection in enumeration order: return the position of
/// the first device passing all three suitability checks, or the fatal error
/// when zero devices exist or none passes. No scoring or ranking takes place.
pub fn select(devices: &Vec<DeviceInfo>, required_extensions: &Vec<Vec<u8>>) -> (r: Result<
    usize,
    FatalError,
>)
    requires
        forall|i: int| 0 <= i < devices@.len() ==> (#[trigger] devices@[i]).wf(),
    ensures
        (r matches Ok(i) ==> selects(devices@, names_view(required_extensions@), i as int)),
        (r is Ok <==> exists|j: int|
            0 <= j < devices@.len() && device_suitable(
                #[trigger] devices@[j],
                names_view(required_extensions@),
            )),
        (r matches Err(e) ==> e == FatalError::NoSuitableDevice),
{
    let mut i: usize = 0;
    while i < devices.len()
        invariant
            i <= devices@.len(),
            forall|k: int| 0 <= k < devices@.len() ==> (#[trigger] devices@[k]).wf(),
            forall|j: int| 0 <= j < i ==> !device_suitable(
                #[trigger] devices@[j],
                names_view(required_extensions@),
            ),
        decreases devices@.len() - i,
    {
        if is_device_suitable(&devices[i], required_extensions) {
            return Ok(i);
        }
        i = i + 1;
    }
    Err(FatalError::NoSuitableDevice)
}

/// Moving a passing device ahead of the selected position makes it the
/// selection: a list that agrees with the original below position `k` and
/// holds a suitable device at `k`, for any `k` at or before the originally
/// selected position, selects position `k`.
pub proof fn lemma_earlier_suitable_device_wins(
    devices: Seq<DeviceInfo>,
    moved: Seq<DeviceInfo>,
    required_extensions: Seq<Seq<u8>>,
    i: int,
    k: int,
)
    requires
        selects(devices, required_extensions, i),
        0 <= k <= i,
        k < moved.len(),
        device_suitable(moved[k], required_extensions),
        forall|j: int| 0 <= j < k ==> moved[j] == devices[j],
    ensures
        selects(moved, required_extensions, k),
{
}

} // verus!
