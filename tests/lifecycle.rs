use softvk::objects::{
    CommandBuffer, Device, Dispatched, Instance, PhysicalDevice, Queue, Swapchain,
    ICD_LOADER_MAGIC, QUEUE_GRAPHICS_BIT,
};
use softvk::registry::{Object, Registry};
use softvk::status::VkResult;

fn surface() -> Vec<u8> {
    b"VK_KHR_surface".to_vec()
}

#[test]
fn dispatched_wraps_payload_with_marker() {
    let d = Dispatched::new(7u32, 12);
    assert_eq!(d.magic(), ICD_LOADER_MAGIC);
    assert_eq!(d.magic(), 0x01CDC0DE);
    assert_eq!(d.handle(), 12);
    assert_eq!(*d.data(), 7);
}

#[test]
fn create_instance_without_extensions() {
    let mut r = Registry::new();
    assert_eq!(r.create_instance(&[]), Ok(1));
    match r.lookup(1) {
        Some(Object::Instance(d)) => {
            assert_eq!(d.handle(), 1);
            assert_eq!(d.magic(), ICD_LOADER_MAGIC);
            assert_eq!(d.data().physical_devices(), vec![2]);
        }
        _ => panic!("instance not found"),
    }
    assert!(matches!(r.lookup(2), Some(Object::PhysicalDevice { instance: 1 })));
}

#[test]
fn create_instance_with_surface_extension() {
    let mut r = Registry::new();
    assert_eq!(r.create_instance(&[surface(), surface()]), Ok(1));
    assert!(r.holds_instance(1));
}

#[test]
fn unsupported_extension_is_rejected() {
    let mut r = Registry::new();
    let exts = vec![surface(), b"VK_KHR_xlib_surface".to_vec()];
    assert_eq!(r.create_instance(&exts), Err(VkResult::ErrorExtensionNotPresent));
    assert!(r.lookup(1).is_none());
    assert!(!r.holds_instance(1));
    // nothing was allocated: the next instance still gets the first handle
    assert_eq!(r.create_instance(&[]), Ok(1));
}

#[test]
fn extension_names_match_exactly() {
    let mut r = Registry::new();
    assert!(r.create_instance(&[b"VK_KHR_surfac".to_vec()]).is_err());
    assert!(r.create_instance(&[b"VK_KHR_surface\0".to_vec()]).is_err());
    assert!(r.create_instance(&[b"vk_khr_surface".to_vec()]).is_err());
}

#[test]
fn fresh_instance_has_one_adapter_with_one_graphics_family() {
    let mut r = Registry::new();
    let inst = r.create_instance(&[]).unwrap();
    let q = r.enumerate_physical_devices(inst, None).unwrap();
    assert_eq!(q.result, VkResult::Success);
    assert_eq!(q.count, 1);
    let l = r.enumerate_physical_devices(inst, Some(4)).unwrap();
    assert_eq!(l.count, 1);
    let pd = l.items[0];
    assert_eq!(pd, 2);
    let fq = r.queue_family_properties(pd, None).unwrap();
    assert_eq!(fq.count, 1);
    let f = r.queue_family_properties(pd, Some(1)).unwrap();
    assert_eq!(f.result, VkResult::Success);
    assert_eq!(f.items.len(), 1);
    assert_eq!(f.items[0].queue_count, 1);
    assert_ne!(f.items[0].queue_flags & QUEUE_GRAPHICS_BIT, 0);
    assert_eq!(f.items[0].timestamp_valid_bits, 0);
}

#[test]
fn enumerate_adapters_into_empty_buffer_is_incomplete() {
    let mut r = Registry::new();
    let inst = r.create_instance(&[]).unwrap();
    let l = r.enumerate_physical_devices(inst, Some(0)).unwrap();
    assert_eq!(l.result, VkResult::Incomplete);
    assert_eq!(l.count, 0);
}

#[test]
fn wrong_handle_kinds_are_refused() {
    let mut r = Registry::new();
    let inst = r.create_instance(&[]).unwrap();
    assert!(r.enumerate_physical_devices(inst + 1, None).is_none());
    assert!(r.queue_family_properties(inst, None).is_none());
    assert!(r.create_device(inst).is_none());
    assert!(r.create_swapchain(inst).is_none());
    assert!(r.allocate_command_buffers(inst, 1).is_none());
    assert!(r.get_device_queue(inst, 0, 0).is_none());
}

#[test]
fn device_round_trip() {
    let mut r = Registry::new();
    let inst = r.create_instance(&[]).unwrap();
    let dev = r.create_device(inst + 1).unwrap();
    assert_eq!(dev, 3);
    match r.lookup(dev) {
        Some(Object::Device(d)) => {
            assert_eq!(d.handle(), dev);
            assert_eq!(d.magic(), ICD_LOADER_MAGIC);
            assert_eq!(*d.data(), Device);
        }
        _ => panic!("device not found"),
    }
    r.destroy_device(dev);
    assert!(r.lookup(dev).is_none());
    assert!(r.holds_instance(inst));
    // handles are not reused
    assert_eq!(r.create_device(inst + 1), Some(4));
}

#[test]
fn destroying_one_device_keeps_another() {
    let mut r = Registry::new();
    let inst = r.create_instance(&[]).unwrap();
    let a = r.create_device(inst + 1).unwrap();
    let b = r.create_device(inst + 1).unwrap();
    r.destroy_device(a);
    r.destroy_device(a);
    assert!(r.holds_device(b));
    assert!(!r.holds_device(a));
}

#[test]
fn destroy_with_wrong_kind_does_nothing() {
    let mut r = Registry::new();
    let inst = r.create_instance(&[]).unwrap();
    r.destroy_device(inst);
    r.destroy_swapchain(inst);
    assert!(r.holds_instance(inst));
}

#[test]
fn instance_round_trip_releases_adapter() {
    let mut r = Registry::new();
    let inst = r.create_instance(&[]).unwrap();
    r.destroy_instance(inst);
    assert!(r.lookup(inst).is_none());
    assert!(r.lookup(inst + 1).is_none());
    assert!(r.create_device(inst + 1).is_none());
}

#[test]
fn queues_are_fresh_wrappers() {
    let mut r = Registry::new();
    let inst = r.create_instance(&[]).unwrap();
    let dev = r.create_device(inst + 1).unwrap();
    let q1 = r.get_device_queue(dev, 0, 0).unwrap();
    let q2 = r.get_device_queue(dev, 0, 0).unwrap();
    assert_ne!(q1, q2);
    match r.lookup(q1) {
        Some(Object::Queue(q)) => {
            assert_eq!(q.handle(), q1);
            assert_eq!(*q.data(), Queue);
        }
        _ => panic!("queue not found"),
    }
    assert!(r.get_device_queue(dev, 0, 1).is_none());
    assert!(r.get_device_queue(dev, 1, 0).is_none());
}

#[test]
fn swapchain_round_trip() {
    let mut r = Registry::new();
    let inst = r.create_instance(&[]).unwrap();
    let dev = r.create_device(inst + 1).unwrap();
    let sc = r.create_swapchain(dev).unwrap();
    assert!(matches!(r.lookup(sc), Some(Object::Swapchain(Swapchain))));
    r.destroy_device(sc);
    assert!(r.lookup(sc).is_some());
    r.destroy_swapchain(sc);
    assert!(r.lookup(sc).is_none());
}

#[test]
fn command_buffers_get_consecutive_handles() {
    let mut r = Registry::new();
    let inst = r.create_instance(&[]).unwrap();
    let dev = r.create_device(inst + 1).unwrap();
    let hs = r.allocate_command_buffers(dev, 3).unwrap();
    assert_eq!(hs, vec![dev + 1, dev + 2, dev + 3]);
    for &h in &hs {
        match r.lookup(h) {
            Some(Object::CommandBuffer(b)) => {
                assert_eq!(b.handle(), h);
                assert_eq!(*b.data(), CommandBuffer);
            }
            _ => panic!("command buffer not found"),
        }
    }
    assert_eq!(r.allocate_command_buffers(dev, 0), Some(vec![]));
}

#[test]
fn object_methods_build_payloads() {
    let dev = Device;
    assert!(dev.create_queue(0, 0, 9).is_some());
    assert!(dev.create_queue(0, 1, 9).is_none());
    assert_eq!(dev.create_queue(0, 0, 9).unwrap().handle(), 9);
    assert_eq!(dev.create_swapchain(), Swapchain);
    assert_eq!(dev.create_command_buffer(5).handle(), 5);
    let pd = PhysicalDevice;
    assert_eq!(pd.create_device(6).handle(), 6);
    assert_eq!(pd.queue_families().len(), 1);
    let inst = Instance::new(11);
    assert_eq!(inst.physical_devices(), vec![11]);
    assert_eq!(inst.physical_device().handle(), 11);
}

#[test]
fn room_shrinks_as_handles_are_given() {
    let mut r = Registry::new();
    let before = r.room();
    r.create_instance(&[]).unwrap();
    assert_eq!(r.room(), before - 2);
}

#[test]
fn new_handles_were_never_live() {
    let mut r = Registry::new();
    let inst = r.create_instance(&[]).unwrap();
    let dev = r.create_device(inst + 1).unwrap();
    assert!(r.lookup(dev + 1).is_none());
    let q = r.get_device_queue(dev, 0, 0).unwrap();
    assert_eq!(q, dev + 1);
    assert!(r.lookup(q + 1).is_none());
    let sc = r.create_swapchain(dev).unwrap();
    assert_eq!(sc, q + 1);
    let live = [inst, dev, q];
    assert!(!live.contains(&sc));
}
