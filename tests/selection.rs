use vk_renderer::device_selector::{
    check_extensions, is_suitable, select, DeviceCandidate, DeviceSelectionError, PhysicalDeviceChoice,
};
use vk_renderer::queue_family_indices::{QueueFamilyIndices, QueueFamilyInfo, SuitabilityError};
use vk_renderer::swapchain::{Extent2D, SurfaceCapabilities, SurfaceFormat, SurfaceSupport};

const GRAPHICS: u32 = 0x1;
const COMPUTE: u32 = 0x2;
const TRANSFER: u32 = 0x4;

fn family(queue_flags: u32, supports_present: bool) -> QueueFamilyInfo {
    QueueFamilyInfo { queue_flags, supports_present }
}

fn support(formats: usize, modes: usize) -> SurfaceSupport {
    let extent = Extent2D { width: 800, height: 600 };
    SurfaceSupport {
        capabilities: SurfaceCapabilities {
            min_image_count: 2,
            max_image_count: 8,
            current_extent: extent,
            min_image_extent: extent,
            max_image_extent: extent,
        },
        formats: vec![SurfaceFormat { format: 44, color_space: 0 }; formats],
        present_modes: vec![2; modes],
    }
}

fn swapchain_ext() -> Vec<u8> {
    b"VK_KHR_swapchain".to_vec()
}

fn device(families: Vec<QueueFamilyInfo>, extensions: Vec<Vec<u8>>) -> DeviceCandidate {
    DeviceCandidate { families, extensions, support: support(1, 1) }
}

#[test]
fn graphics_and_present_found_independently() {
    let fams = vec![family(TRANSFER, false), family(COMPUTE, true), family(GRAPHICS | COMPUTE, true)];
    assert_eq!(QueueFamilyIndices::get(&fams), Ok(QueueFamilyIndices { graphics: 2, present: 1 }));
}

#[test]
fn graphics_and_present_may_share_a_family() {
    let fams = vec![family(GRAPHICS | TRANSFER, true), family(GRAPHICS, true)];
    assert_eq!(QueueFamilyIndices::get(&fams), Ok(QueueFamilyIndices { graphics: 0, present: 0 }));
}

#[test]
fn missing_present_family_is_unsuitable() {
    let fams = vec![family(GRAPHICS, false), family(COMPUTE, false)];
    assert_eq!(QueueFamilyIndices::get(&fams), Err(SuitabilityError::MissingQueueFamilies));
}

#[test]
fn missing_graphics_family_is_unsuitable() {
    let fams = vec![family(COMPUTE, true)];
    assert_eq!(QueueFamilyIndices::get(&fams), Err(SuitabilityError::MissingQueueFamilies));
    assert_eq!(QueueFamilyIndices::get(&vec![]), Err(SuitabilityError::MissingQueueFamilies));
}

#[test]
fn extensions_are_matched_by_name() {
    let required = vec![swapchain_ext()];
    assert!(check_extensions(&required, &vec![b"VK_KHR_other".to_vec(), swapchain_ext()]));
    assert!(!check_extensions(&required, &vec![b"VK_KHR_swapchain2".to_vec()]));
    assert!(!check_extensions(&required, &vec![b"VK_KHR_swapchai".to_vec()]));
    assert!(check_extensions(&vec![], &vec![]));
}

#[test]
fn first_suitable_device_is_chosen() {
    let devices = vec![
        device(vec![family(GRAPHICS, true)], vec![]),
        device(vec![family(COMPUTE, false)], vec![swapchain_ext()]),
        device(vec![family(TRANSFER, true), family(GRAPHICS, false)], vec![swapchain_ext()]),
        device(vec![family(GRAPHICS, true)], vec![swapchain_ext()]),
    ];
    let choice = select(&devices, &vec![swapchain_ext()]);
    assert_eq!(
        choice,
        Ok(PhysicalDeviceChoice { device: 2, indices: QueueFamilyIndices { graphics: 1, present: 0 } })
    );
}

#[test]
fn chosen_queues_have_their_capabilities() {
    let devices = vec![
        device(vec![family(COMPUTE, true), family(TRANSFER, false), family(GRAPHICS, false)], vec![
            swapchain_ext(),
        ]),
    ];
    let choice = select(&devices, &vec![swapchain_ext()]).unwrap();
    let fams = &devices[choice.device].families;
    assert_ne!(fams[choice.indices.graphics as usize].queue_flags & GRAPHICS, 0);
    assert!(fams[choice.indices.present as usize].supports_present);
}

#[test]
fn no_suitable_device_is_an_error() {
    let mut no_formats = device(vec![family(GRAPHICS, true)], vec![swapchain_ext()]);
    no_formats.support = support(0, 1);
    let mut no_modes = device(vec![family(GRAPHICS, true)], vec![swapchain_ext()]);
    no_modes.support = support(1, 0);
    assert_eq!(is_suitable(&no_formats, &vec![swapchain_ext()]), Err(DeviceSelectionError::NoSuitableDevice));
    assert_eq!(is_suitable(&no_modes, &vec![swapchain_ext()]), Err(DeviceSelectionError::NoSuitableDevice));
    let devices = vec![no_formats, no_modes, device(vec![family(GRAPHICS, true)], vec![])];
    assert_eq!(select(&devices, &vec![swapchain_ext()]), Err(DeviceSelectionError::NoSuitableDevice));
    assert_eq!(select(&vec![], &vec![]), Err(DeviceSelectionError::NoSuitableDevice));
}

#[test]
fn distinct_queue_families() {
    assert_eq!(QueueFamilyIndices { graphics: 1, present: 1 }.distinct_families(), vec![1]);
    assert_eq!(QueueFamilyIndices { graphics: 0, present: 2 }.distinct_families(), vec![0, 2]);
}
