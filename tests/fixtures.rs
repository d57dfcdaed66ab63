use softvk::fixtures::{
    copy_slice, device_extension_properties, image_format_properties,
    instance_extension_properties, padb256, physical_device_properties, supports_instance_extension,
    surface_capabilities, surface_support, ICD_WSI_PLATFORM_WAYLAND, ICD_WSI_PLATFORM_XCB,
    ICD_WSI_PLATFORM_XLIB,
};
use softvk::status::VkResult;

fn name_of(chars: &[i8; 256]) -> Vec<u8> {
    chars.iter().take_while(|&&c| c != 0).map(|&c| c as u8).collect()
}

#[test]
fn padb256_pads_with_zeros() {
    let r = padb256(b"ab");
    assert_eq!(r[0], 97);
    assert_eq!(r[1], 98);
    assert!(r[2..].iter().all(|&c| c == 0));
    let full = padb256(&[0xffu8; 256]);
    assert!(full.iter().all(|&c| c == -1));
}

#[test]
fn copy_slice_keeps_the_tail() {
    let mut target = [5i8; 6];
    copy_slice(b"hi", &mut target);
    assert_eq!(target, [104, 105, 5, 5, 5, 5]);
}

#[test]
fn instance_extensions_list_surface() {
    let q = instance_extension_properties(false, None);
    assert_eq!(q.count, 1);
    assert_eq!(q.result, VkResult::Success);
    let l = instance_extension_properties(false, Some(1));
    assert_eq!(l.items.len(), 1);
    assert_eq!(name_of(&l.items[0].extension_name), b"VK_KHR_surface".to_vec());
    assert_eq!(l.items[0].spec_version, 25);
    let t = instance_extension_properties(false, Some(0));
    assert_eq!(t.result, VkResult::Incomplete);
    assert_eq!(t.count, 0);
}

#[test]
fn device_extensions_list_swapchain() {
    let l = device_extension_properties(false, Some(3));
    assert_eq!(l.count, 1);
    assert_eq!(l.result, VkResult::Success);
    assert_eq!(name_of(&l.items[0].extension_name), b"VK_KHR_swapchain".to_vec());
    assert_eq!(l.items[0].spec_version, 67);
}

#[test]
fn layer_queries_are_empty() {
    let a = instance_extension_properties(true, Some(4));
    assert_eq!(a.count, 0);
    assert_eq!(a.result, VkResult::Success);
    let b = device_extension_properties(true, None);
    assert_eq!(b.count, 0);
    assert!(b.items.is_empty());
}

#[test]
fn instance_extension_allowlist() {
    assert!(supports_instance_extension(b"VK_KHR_surface"));
    assert!(!supports_instance_extension(b"VK_KHR_swapchain"));
    assert!(!supports_instance_extension(b""));
}

#[test]
fn adapter_properties_are_fixed() {
    let p = physical_device_properties();
    assert_eq!(p.api_version, (1 << 22) | 3);
    assert_eq!(p.driver_version, 1);
    assert_eq!(p.vendor_id, 0);
    assert_eq!(p.device_id, 0);
    assert_eq!(p.device_type, 4);
    assert_eq!(name_of(&p.device_name), b"SoftVK Renderer".to_vec());
}

#[test]
fn surface_capabilities_are_fixed() {
    let c = surface_capabilities();
    assert_eq!(c.min_image_count, 1);
    assert_eq!(c.max_image_count, 1);
    assert_eq!(c.current_extent.width, 256);
    assert_eq!(c.current_extent.height, 256);
    assert_eq!(c.max_image_extent.width, 256);
    assert_eq!(c.max_image_array_layers, 1);
    assert_eq!(c.supported_usage_flags, 0x10);
}

#[test]
fn only_xcb_surfaces_are_supported() {
    assert!(surface_support(ICD_WSI_PLATFORM_XCB));
    assert!(!surface_support(ICD_WSI_PLATFORM_XLIB));
    assert!(!surface_support(ICD_WSI_PLATFORM_WAYLAND));
}

#[test]
fn image_formats_are_not_supported() {
    assert_eq!(image_format_properties(), VkResult::ErrorFormatNotSupported);
}
