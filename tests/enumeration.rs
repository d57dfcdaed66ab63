use softvk::enumerate::do_list;
use softvk::fixtures::{present_modes, surface_formats, swapchain_images, SurfaceFormat};
use softvk::status::VkResult;

#[test]
fn size_query_reports_length() {
    let list = [10u32, 20, 30];
    let l = do_list(&list, None);
    assert_eq!(l.result, VkResult::Success);
    assert_eq!(l.count, 3);
    assert!(l.items.is_empty());
}

#[test]
fn size_query_of_empty_list() {
    let list: [u32; 0] = [];
    let l = do_list(&list, None);
    assert_eq!(l.result, VkResult::Success);
    assert_eq!(l.count, 0);
}

#[test]
fn fill_with_exact_capacity() {
    let list = [10u32, 20, 30];
    let l = do_list(&list, Some(3));
    assert_eq!(l.result, VkResult::Success);
    assert_eq!(l.count, 3);
    assert_eq!(l.items, vec![10, 20, 30]);
}

#[test]
fn fill_with_spare_capacity() {
    let list = [10u32, 20, 30];
    let l = do_list(&list, Some(8));
    assert_eq!(l.result, VkResult::Success);
    assert_eq!(l.count, 3);
    assert_eq!(l.items, vec![10, 20, 30]);
}

#[test]
fn fill_under_capacity_truncates() {
    let list = [10u32, 20, 30];
    let l = do_list(&list, Some(2));
    assert_eq!(l.result, VkResult::Incomplete);
    assert_eq!(l.count, 2);
    assert_eq!(l.items, vec![10, 20]);
}

#[test]
fn fill_with_zero_capacity() {
    let list = [10u32];
    let l = do_list(&list, Some(0));
    assert_eq!(l.result, VkResult::Incomplete);
    assert_eq!(l.count, 0);
    assert!(l.items.is_empty());
}

#[test]
fn fill_empty_list_with_zero_capacity_succeeds() {
    let list: [u32; 0] = [];
    let l = do_list(&list, Some(0));
    assert_eq!(l.result, VkResult::Success);
    assert_eq!(l.count, 0);
}

#[test]
fn surface_formats_hold_one_bgra_format() {
    let q = surface_formats(None);
    assert_eq!(q.count, 1);
    assert_eq!(q.result, VkResult::Success);
    let l = surface_formats(Some(1));
    assert_eq!(l.count, 1);
    assert_eq!(l.items, vec![SurfaceFormat { format: 44, color_space: 0 }]);
}

#[test]
fn present_modes_are_empty() {
    let q = present_modes(None);
    assert_eq!(q.count, 0);
    assert_eq!(q.result, VkResult::Success);
    let l = present_modes(Some(4));
    assert_eq!(l.count, 0);
    assert_eq!(l.result, VkResult::Success);
}

#[test]
fn swapchain_has_one_image() {
    let l = swapchain_images(Some(2));
    assert_eq!(l.count, 1);
    assert_eq!(l.items, vec![40]);
    let t = swapchain_images(Some(0));
    assert_eq!(t.result, VkResult::Incomplete);
}

#[test]
fn status_codes() {
    assert_eq!(VkResult::Success.code(), 0);
    assert_eq!(VkResult::Incomplete.code(), 5);
    assert_eq!(VkResult::ErrorExtensionNotPresent.code(), -7);
    assert_eq!(VkResult::ErrorFormatNotSupported.code(), -11);
}
