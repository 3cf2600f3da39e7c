//! Choice of a physical device: the first one whose queue families, device
//! extensions and surface support meet the renderer's needs.
use vstd::prelude::*;
use crate::queue_family_indices::{
    QueueFamilyIndices, QueueFamilyInfo, families_suitable, indices_of, supports_graphics,
    supports_present, is_first_graphics, is_first_present,
};
use crate::swapchain::SurfaceSupport;

verus! {

/// What the renderer learns of one physical device before choosing.
#[derive(Debug)]
pub struct DeviceCandidate {
    pub families: Vec<QueueFamilyInfo>,
    /// The names of the extensions the device supports, as bytes.
    pub extensions: Vec<Vec<u8>>,
    pub support: SurfaceSupport,
}

/// The chosen device (its position among the candidates) and its queues.
#[derive(Clone, Copy, Debug, PartialEq, Eq, Structural)]
pub struct PhysicalDeviceChoice {
    pub device: usize,
    pub indices: QueueFamilyIndices,
}

/// No candidate meets the requirements.
#[derive(Clone, Copy, Debug, PartialEq, Eq, Structural)]
pub enum DeviceSelectionError {
    NoSuitableDevice,
}

/// `name` is among the `available` extension names.
pub open spec fn has_name(available: Seq<Vec<u8>>, name: Seq<u8>) -> bool {
    exists|j: int| 0 <= j < available.len() && (#[trigger] available[j])@ == name
}

/// Every required extension name is among the available ones.
pub open spec fn extensions_supported(required: Seq<Vec<u8>>, available: Seq<Vec<u8>>) -> bool {
    forall|i: int| 0 <= i < required.len() ==> has_name(available, (#[trigger] required[i])@)
}

/// A device the renderer can use.
pub open spec fn device_suitable(d: DeviceCandidate, required: Seq<Vec<u8>>) -> bool {
    &&& families_suitable(d.families@)
    &&& extensions_supported(required, d.extensions@)
    &&& d.support.formats@.len() > 0
    &&& d.support.present_modes@.len() > 0
}

/// `i` is the first suitable device of `devices`.
pub open spec fn is_first_suitable(devices: Seq<DeviceCandidate>, required: Seq<Vec<u8>>, i: int) -> bool {
    &&& 0 <= i < devices.len()
    &&& device_suitable(devices[i], required)
    &&& forall|j: int| 0 <= j < i ==> !device_suitable(#[trigger] devices[j], required)
}

pub open spec fn any_suitable(devices: Seq<DeviceCandidate>, required: Seq<Vec<u8>>) -> bool {
    exists|i: int| 0 <= i < devices.len() && device_suitable(#[trigger] devices[i], required)
}

/// What selection yields among `devices`.
pub open spec fn selection(devices: Seq<DeviceCandidate>, required: Seq<Vec<u8>>) -> Result<
    PhysicalDeviceChoice,
    DeviceSelectionError,
> {
    if any_suitable(devices, required) {
        let i = choose|i: int| is_first_suitable(devices, required, i);
        Ok(PhysicalDeviceChoice { device: i as usize, indices: indices_of(devices[i].families@) })
    } else {
        Err(DeviceSelectionError::NoSuitableDevice)
    }
}

/// Whether two byte strings are equal.
fn bytes_equal(a: &Vec<u8>, b: &Vec<u8>) -> (r: bool)
    ensures
        r == (a@ == b@),
{
    if a.len() != b.len() {
        return false;
    }
    let mut i: usize = 0;
    while i < a.len()
        invariant
            i <= a@.len() == b@.len(),
            forall|j: int| 0 <= j < i ==> a@[j] == b@[j],
        decreases a@.len() - i,
    {
        if a[i] != b[i] {
            return false;
        }
        i += 1;
    }
    assert(a@ =~= b@);
    true
}

/// Whether `name` is among `available`.
fn has_extension(available: &Vec<Vec<u8>>, name: &Vec<u8>) -> (r: bool)
    ensures
        r == has_name(available@, name@),
{
    let mut j: usize = 0;
    while j < available.len()
        invariant
            j <= available@.len(),
            forall|k: int| 0 <= k < j ==> (#[trigger] available@[k])@ != name@,
        decreases available@.len() - j,
    {
        if bytes_equal(&available[j], name) {
            return true;
        }
        j += 1;
    }
    false
}

/// Whether the device offers every extension in `required`.
pub fn check_extensions(required: &Vec<Vec<u8>>, available: &Vec<Vec<u8>>) -> (r: bool)
    ensures
        r == extensions_supported(required@, available@),
{
    let mut i: usize = 0;
    while i < required.len()
        invariant
            i <= required@.len(),
            forall|k: int| 0 <= k < i ==> has_name(available@, (#[trigger] required@[k])@),
        decreases required@.len() - i,
    {
        if !has_extension(available, &required[i]) {
            return false;
        }
        i += 1;
    }
    true
}

/// Whether the device can drive the renderer: its queues, its extensions and
/// its support for the surface.
pub fn is_suitable(device: &DeviceCandidate, required: &Vec<Vec<u8>>) -> (r: Result<
    QueueFamilyIndices,
    DeviceSelectionError,
>)
    requires
        device.families@.len() <= u32::MAX,
    ensures
        r is Ok <==> device_suitable(*device, required@),
        r is Ok ==> r->Ok_0 == indices_of(device.families@),
{
    let indices = match QueueFamilyIndices::get(&device.families) {
        Ok(q) => q,
        Err(_) => return Err(DeviceSelectionError::NoSuitableDevice),
    };
    if !check_extensions(required, &device.extensions) {
        return Err(DeviceSelectionError::NoSuitableDevice);
    }
    if device.support.formats.len() == 0 || device.support.present_modes.len() == 0 {
        return Err(DeviceSelectionError::NoSuitableDevice);
    }
    Ok(indices)
}

/// Picks the first suitable device and resolves its queue families.
pub fn select(devices: &Vec<DeviceCandidate>, required: &Vec<Vec<u8>>) -> (r: Result<
    PhysicalDeviceChoice,
    DeviceSelectionError,
>)
    requires
        forall|i: int| 0 <= i < devices@.len() ==> (#[trigger] devices@[i]).families@.len() <= u32::MAX,
    ensures
        r == selection(devices@, required@),
{
    let mut i: usize = 0;
    while i < devices.len()
        invariant
            i <= devices@.len(),
            forall|i: int| 0 <= i < devices@.len() ==> (#[trigger] devices@[i]).families@.len() <= u32::MAX,
            forall|j: int| 0 <= j < i ==> !device_suitable(#[trigger] devices@[j], required@),
        decreases devices@.len() - i,
    {
        match is_suitable(&devices[i], required) {
            Ok(indices) => {
                proof {
                    assert(is_first_suitable(devices@, required@, i as int));
                    let k = choose|k: int| is_first_suitable(devices@, required@, k);
                    lemma_first_suitable_unique(devices@, required@, i as int, k);
                }
                return Ok(PhysicalDeviceChoice { device: i, indices });
            },
            Err(_) => {},
        }
        i += 1;
    }
    Err(DeviceSelectionError::NoSuitableDevice)
}

/// Only one device is the first suitable one.
pub proof fn lemma_first_suitable_unique(
    devices: Seq<DeviceCandidate>,
    required: Seq<Vec<u8>>,
    i: int,
    k: int,
)
    requires
        is_first_suitable(devices, required, i),
        is_first_suitable(devices, required, k),
    ensures
        i == k,
{
}

/// Whenever some device has a family that draws and one that presents (and
/// offers the required extensions and some surface format and present mode),
/// selection succeeds, and the chosen graphics family supports graphics while
/// the chosen presentation family can present to the surface.
pub proof fn lemma_selected_queues_capable(devices: Seq<DeviceCandidate>, required: Seq<Vec<u8>>)
    requires
        devices.len() <= usize::MAX,
        forall|i: int| 0 <= i < devices.len() ==> (#[trigger] devices[i]).families@.len() <= u32::MAX,
        any_suitable(devices, required),
    ensures
        selection(devices, required) is Ok,
        ({
            let c = selection(devices, required)->Ok_0;
            let fams = devices[c.device as int].families@;
            &&& c.device < devices.len()
            &&& c.indices.graphics < fams.len()
            &&& c.indices.present < fams.len()
            &&& supports_graphics(fams[c.indices.graphics as int])
            &&& supports_present(fams[c.indices.present as int])
        }),
{
    let w = choose|i: int| 0 <= i < devices.len() && device_suitable(#[trigger] devices[i], required);
    lemma_first_suitable_exists(devices, required, w);
    let i = choose|i: int| is_first_suitable(devices, required, i);
    let fams = devices[i].families@;
    let gw = choose|g: int| 0 <= g < fams.len() && supports_graphics(#[trigger] fams[g]);
    let pw = choose|p: int| 0 <= p < fams.len() && supports_present(#[trigger] fams[p]);
    lemma_first_graphics_exists(fams, gw);
    lemma_first_present_exists(fams, pw);
}

proof fn lemma_first_suitable_exists(devices: Seq<DeviceCandidate>, required: Seq<Vec<u8>>, w: int)
    requires
        0 <= w < devices.len(),
        device_suitable(devices[w], required),
    ensures
        exists|i: int| is_first_suitable(devices, required, i),
    decreases w,
{
    if forall|j: int| 0 <= j < w ==> !device_suitable(#[trigger] devices[j], required) {
        assert(is_first_suitable(devices, required, w));
    } else {
        let v = choose|j: int| 0 <= j < w && device_suitable(#[trigger] devices[j], required);
        lemma_first_suitable_exists(devices, required, v);
    }
}

proof fn lemma_first_graphics_exists(fams: Seq<QueueFamilyInfo>, w: int)
    requires
        0 <= w < fams.len(),
        supports_graphics(fams[w]),
    ensures
        exists|i: int| is_first_graphics(fams, i),
    decreases w,
{
    if forall|j: int| 0 <= j < w ==> !supports_graphics(#[trigger] fams[j]) {
        assert(is_first_graphics(fams, w));
    } else {
        let v = choose|j: int| 0 <= j < w && supports_graphics(#[trigger] fams[j]);
        lemma_first_graphics_exists(fams, v);
    }
}

proof fn lemma_first_present_exists(fams: Seq<QueueFamilyInfo>, w: int)
    requires
        0 <= w < fams.len(),
        supports_present(fams[w]),
    ensures
        exists|i: int| is_first_present(fams, i),
    decreases w,
{
    if forall|j: int| 0 <= j < w ==> !supports_present(#[trigger] fams[j]) {
        assert(is_first_present(fams, w));
    } else {
        let v = choose|j: int| 0 <= j < w && supports_present(#[trigger] fams[j]);
        lemma_first_present_exists(fams, v);
    }
}

} // verus!
