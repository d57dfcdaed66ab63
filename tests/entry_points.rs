use softvk::entry_points::{is_exported_as, EntryTable, ENTRY_POINT_COUNT};

#[test]
fn every_declared_name_resolves() {
    let t = EntryTable::declared();
    assert_eq!(t.len(), ENTRY_POINT_COUNT);
    for i in 0..t.len() {
        let symbol = format!("vk{}", t.name(i));
        assert_eq!(t.resolve(symbol.as_bytes()), Some(i));
    }
}

#[test]
fn known_symbols_resolve() {
    let t = EntryTable::declared();
    let c = t.resolve(b"vkCreateInstance").unwrap();
    assert_eq!(t.name(c), "CreateInstance");
    let g = t.resolve(b"vkGetDeviceProcAddr").unwrap();
    assert_eq!(t.name(g), "GetDeviceProcAddr");
    let f = t.resolve(b"vkGetPhysicalDeviceImageFormatProperties").unwrap();
    assert_eq!(t.name(f), "GetPhysicalDeviceImageFormatProperties");
    assert!(t.resolve(b"vkDestroySwapchainKHR").is_some());
    let i = t.resolve(b"vkCmdExecuteCommands").unwrap();
    assert_eq!(t.name(i), "CmdExecuteCommands");
}

#[test]
fn unknown_symbols_do_not_resolve() {
    let t = EntryTable::declared();
    assert_eq!(t.resolve(b"vkCreateFoo"), None);
    assert_eq!(t.resolve(b"CreateInstance"), None);
    assert_eq!(t.resolve(b"vkcreateinstance"), None);
    assert_eq!(t.resolve(b"vkCreateInstanc"), None);
    assert_eq!(t.resolve(b"vkCreateInstance\0"), None);
    assert_eq!(t.resolve(b"vk"), None);
    assert_eq!(t.resolve(b""), None);
    assert_eq!(t.resolve(b"vk\xff"), None);
    assert_eq!(t.resolve(b"vkCreateInstanceX"), None);
    assert_eq!(t.resolve(b"vkAcquireNextImageKHR"), None);
}

#[test]
fn names_are_distinct() {
    let t = EntryTable::declared();
    for i in 0..t.len() {
        for j in (i + 1)..t.len() {
            assert_ne!(t.name(i), t.name(j));
        }
    }
}

#[test]
fn prefix_matching() {
    assert!(is_exported_as(b"vkDraw", "Draw"));
    assert!(!is_exported_as(b"xxDraw", "Draw"));
    assert!(!is_exported_as(b"v", "Draw"));
}

#[test]
fn names_are_in_strict_order() {
    let t = EntryTable::declared();
    for i in 1..t.len() {
        assert!(t.name(i - 1) < t.name(i));
    }
}
