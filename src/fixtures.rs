use vstd::prelude::*;
use crate::enumerate::{do_list, is_listing, Listing};
use crate::status::VkResult;
use vstd::string::StringSliceAdditionalSpecFns;

verus! {

/// The one instance extension: surface integration.
pub const SURFACE_EXTENSION: &'static str = "VK_KHR_surface";

pub const SURFACE_EXTENSION_VERSION: u32 = 25;

/// The one device extension: presentation through swapchains.
pub const SWAPCHAIN_EXTENSION: &'static str = "VK_KHR_swapchain";

pub const SWAPCHAIN_EXTENSION_VERSION: u32 = 67;

/// The adapter's name, with its terminating zero.
pub const DEVICE_NAME: &'static str = "SoftVK Renderer\0";

/// The supported API version, 1.0.3, packed as major << 22 | minor << 12 | patch.
pub const API_VERSION: u32 = 4194307;

pub const DRIVER_VERSION: u32 = 1;

pub const PHYSICAL_DEVICE_TYPE_CPU: u32 = 4;

pub const FORMAT_B8G8R8A8_UNORM: u32 = 44;

pub const COLORSPACE_SRGB_NONLINEAR_KHR: u32 = 0;

pub const SURFACE_TRANSFORM_IDENTITY_BIT_KHR: u32 = 0x1;

pub const COMPOSITE_ALPHA_OPAQUE_BIT_KHR: u32 = 0x1;

pub const IMAGE_USAGE_COLOR_ATTACHMENT_BIT: u32 = 0x10;

/// The side of the one supported surface extent.
pub const SURFACE_EXTENT: u32 = 256;

/// The one swapchain image handle.
pub const SWAPCHAIN_IMAGE: u64 = 40;

pub const ICD_WSI_PLATFORM_MIR: u32 = 0;

pub const ICD_WSI_PLATFORM_WAYLAND: u32 = 1;

pub const ICD_WSI_PLATFORM_WIN32: u32 = 2;

pub const ICD_WSI_PLATFORM_XCB: u32 = 3;

pub const ICD_WSI_PLATFORM_XLIB: u32 = 4;

/// `s` as signed bytes, followed by zeros up to 256 entries.
pub open spec fn padded(s: Seq<u8>) -> Seq<i8> {
    Seq::new(256, |i: int| if i < s.len() { s[i] as i8 } else { 0i8 })
}

/// Copies `s` into a zeroed 256-entry character array.
pub fn padb256(s: &[u8]) -> (r: [i8; 256])
    requires
        s@.len() <= 256,
    ensures
        r@ == padded(s@),
{
    let mut r = [0i8; 256];
    let mut i: usize = 0;
    while i < s.len()
        invariant
            s@.len() <= 256,
            i <= s@.len(),
            r@.len() == 256,
            forall|k: int| 0 <= k < i ==> r@[k] == s@[k] as i8,
            forall|k: int| i <= k < 256 ==> r@[k] == 0i8,
        decreases s@.len() - i,
    {
        r[i] = s[i] as i8;
        i = i + 1;
    }
    assert(r@ =~= padded(s@));
    r
}

/// A named extension and the version of it that is offered.
#[derive(Clone, Copy, Debug)]
pub struct ExtensionProperties {
    pub extension_name: [i8; 256],
    pub spec_version: u32,
}

/// Whether `e` names the extension `name` at `version`.
pub open spec fn is_extension(e: ExtensionProperties, name: Seq<u8>, version: u32) -> bool {
    e.extension_name@ == padded(name) && e.spec_version == version
}

/// Whether `r` is the two-phase answer for a list of one extension, `name` at
/// `version`.
pub open spec fn lists_extension(
    name: Seq<u8>,
    version: u32,
    capacity: Option<u32>,
    r: Listing<ExtensionProperties>,
) -> bool {
    &&& forall|k: int| 0 <= k < r.items@.len() ==> is_extension(#[trigger] r.items@[k], name, version)
    &&& match capacity {
        None => r.result == VkResult::Success && r.count == 1 && r.items@.len() == 0,
        Some(c) => {
            &&& r.items@.len() == r.count
            &&& r.count == if c == 0 {
                0u32
            } else {
                1u32
            }
            &&& r.result == if c == 0 {
                VkResult::Incomplete
            } else {
                VkResult::Success
            }
        },
    }
}

/// Whether `r` is the answer to an extension query naming a layer: no layer
/// is known, so the count is zero and nothing is copied.
pub open spec fn lists_nothing<T>(r: Listing<T>) -> bool {
    r.result == VkResult::Success && r.count == 0 && r.items@.len() == 0
}

fn list_extension(name: &str, version: u32, capacity: Option<u32>) -> (r: Listing<ExtensionProperties>)
    requires
        name.spec_bytes().len() <= 256,
    ensures
        lists_extension(name.spec_bytes(), version, capacity, r),
{
    let e = ExtensionProperties { extension_name: padb256(name.as_bytes()), spec_version: version };
    let list = vec![e];
    let r = do_list(list.as_slice(), capacity);
    assert(list@ =~= seq![e]);
    assert forall|k: int| 0 <= k < r.items@.len() implies is_extension(
        #[trigger] r.items@[k],
        name.spec_bytes(),
        version,
    ) by {
        assert(r.items@[k] == list@[k]);
    }
    r
}

/// The instance extensions: surface integration only. A query that names a
/// layer gets an empty answer.
pub fn instance_extension_properties(layer_given: bool, capacity: Option<u32>) -> (r: Listing<
    ExtensionProperties,
>)
    ensures
        layer_given ==> lists_nothing(r),
        !layer_given ==> lists_extension(
            SURFACE_EXTENSION.spec_bytes(),
            SURFACE_EXTENSION_VERSION,
            capacity,
            r,
        ),
{
    if layer_given {
        return Listing { result: VkResult::Success, count: 0, items: Vec::new() };
    }
    proof {
        reveal_strlit("VK_KHR_surface");
        assert(vstd::string::is_ascii(SURFACE_EXTENSION));
        vstd::string::is_ascii_spec_bytes(SURFACE_EXTENSION);
    }
    list_extension(SURFACE_EXTENSION, SURFACE_EXTENSION_VERSION, capacity)
}

/// The device extensions: swapchain presentation only. A query that names a
/// layer gets an empty answer.
pub fn device_extension_properties(layer_given: bool, capacity: Option<u32>) -> (r: Listing<
    ExtensionProperties,
>)
    ensures
        layer_given ==> lists_nothing(r),
        !layer_given ==> lists_extension(
            SWAPCHAIN_EXTENSION.spec_bytes(),
            SWAPCHAIN_EXTENSION_VERSION,
            capacity,
            r,
        ),
{
    if layer_given {
        return Listing { result: VkResult::Success, count: 0, items: Vec::new() };
    }
    proof {
        reveal_strlit("VK_KHR_swapchain");
        assert(vstd::string::is_ascii(SWAPCHAIN_EXTENSION));
        vstd::string::is_ascii_spec_bytes(SWAPCHAIN_EXTENSION);
    }
    list_extension(SWAPCHAIN_EXTENSION, SWAPCHAIN_EXTENSION_VERSION, capacity)
}

/// Whether an instance may be created with the extension `name` enabled.
pub open spec fn is_instance_extension(name: Seq<u8>) -> bool {
    name == SURFACE_EXTENSION.spec_bytes()
}

/// Whether `a` and `b` hold the same bytes.
pub fn bytes_eq(a: &[u8], b: &[u8]) -> (r: bool)
    ensures
        r == (a@ == b@),
{
    if a.len() != b.len() {
        return false;
    }
    let mut i: usize = 0;
    while i < a.len()
        invariant
            a@.len() == b@.len(),
            i <= a@.len(),
            a@.subrange(0, i as int) == b@.subrange(0, i as int),
        decreases a@.len() - i,
    {
        if a[i] != b[i] {
            assert(a@[i as int] != b@[i as int]);
            return false;
        }
        assert(a@.subrange(0, i + 1) =~= a@.subrange(0, i as int).push(a@[i as int]));
        assert(b@.subrange(0, i + 1) =~= b@.subrange(0, i as int).push(b@[i as int]));
        i = i + 1;
    }
    assert(a@ =~= a@.subrange(0, i as int));
    assert(b@ =~= b@.subrange(0, i as int));
    true
}

/// Whether the extension `name` is on the instance allowlist.
pub fn supports_instance_extension(name: &[u8]) -> (r: bool)
    ensures
        r == is_instance_extension(name@),
{
    bytes_eq(name, SURFACE_EXTENSION.as_bytes())
}

/// A surface format: a pixel format in a color space.
#[derive(Clone, Copy, Debug, PartialEq, Eq, Structural)]
pub struct SurfaceFormat {
    pub format: u32,
    pub color_space: u32,
}

/// The one supported surface format: 32-bit BGRA in nonlinear sRGB.
pub open spec fn bgra_srgb() -> SurfaceFormat {
    SurfaceFormat { format: FORMAT_B8G8R8A8_UNORM, color_space: COLORSPACE_SRGB_NONLINEAR_KHR }
}

/// The two-phase listing of the surface formats.
pub fn surface_formats(capacity: Option<u32>) -> (r: Listing<SurfaceFormat>)
    ensures
        is_listing(seq![bgra_srgb()], capacity, r),
{
    let list = vec![
        SurfaceFormat { format: FORMAT_B8G8R8A8_UNORM, color_space: COLORSPACE_SRGB_NONLINEAR_KHR },
    ];
    assert(list@ =~= seq![bgra_srgb()]);
    do_list(list.as_slice(), capacity)
}

/// The two-phase listing of the presentation modes: there are none.
pub fn present_modes(capacity: Option<u32>) -> (r: Listing<u32>)
    ensures
        is_listing(Seq::<u32>::empty(), capacity, r),
{
    let list: Vec<u32> = Vec::new();
    assert(list@ =~= Seq::<u32>::empty());
    do_list(list.as_slice(), capacity)
}

/// The two-phase listing of the images of a swapchain: one fixed image.
pub fn swapchain_images(capacity: Option<u32>) -> (r: Listing<u64>)
    ensures
        is_listing(seq![SWAPCHAIN_IMAGE], capacity, r),
{
    let list = vec![SWAPCHAIN_IMAGE];
    assert(list@ =~= seq![SWAPCHAIN_IMAGE]);
    do_list(list.as_slice(), capacity)
}

/// Whether a queue family can present to a surface of the given windowing
/// platform: only XCB surfaces are supported.
pub fn surface_support(platform: u32) -> (r: bool)
    ensures
        r == (platform == ICD_WSI_PLATFORM_XCB),
{
    platform == ICD_WSI_PLATFORM_XCB
}

/// The answer to every image-format capability query: no format is backed.
pub fn image_format_properties() -> (r: VkResult)
    ensures
        r == VkResult::ErrorFormatNotSupported,
{
    VkResult::ErrorFormatNotSupported
}

/// A two-dimensional extent.
#[derive(Clone, Copy, Debug, PartialEq, Eq, Structural)]
pub struct Extent2D {
    pub width: u32,
    pub height: u32,
}

/// What a surface supports.
#[derive(Clone, Copy, Debug, PartialEq, Eq, Structural)]
pub struct SurfaceCapabilities {
    pub min_image_count: u32,
    pub max_image_count: u32,
    pub current_extent: Extent2D,
    pub min_image_extent: Extent2D,
    pub max_image_extent: Extent2D,
    pub max_image_array_layers: u32,
    pub supported_transforms: u32,
    pub current_transform: u32,
    pub supported_composite_alpha: u32,
    pub supported_usage_flags: u32,
}

/// The fixed surface capabilities: one image of 256 by 256, one layer,
/// identity transform, opaque alpha, color-attachment use.
pub open spec fn fixed_surface_capabilities() -> SurfaceCapabilities {
    SurfaceCapabilities {
        min_image_count: 1,
        max_image_count: 1,
        current_extent: Extent2D { width: SURFACE_EXTENT, height: SURFACE_EXTENT },
        min_image_extent: Extent2D { width: SURFACE_EXTENT, height: SURFACE_EXTENT },
        max_image_extent: Extent2D { width: SURFACE_EXTENT, height: SURFACE_EXTENT },
        max_image_array_layers: 1,
        supported_transforms: SURFACE_TRANSFORM_IDENTITY_BIT_KHR,
        current_transform: SURFACE_TRANSFORM_IDENTITY_BIT_KHR,
        supported_composite_alpha: COMPOSITE_ALPHA_OPAQUE_BIT_KHR,
        supported_usage_flags: IMAGE_USAGE_COLOR_ATTACHMENT_BIT,
    }
}

/// The capabilities of every surface.
pub fn surface_capabilities() -> (r: SurfaceCapabilities)
    ensures
        r == fixed_surface_capabilities(),
{
    let extent = Extent2D { width: SURFACE_EXTENT, height: SURFACE_EXTENT };
    SurfaceCapabilities {
        min_image_count: 1,
        max_image_count: 1,
        current_extent: extent,
        min_image_extent: extent,
        max_image_extent: extent,
        max_image_array_layers: 1,
        supported_transforms: SURFACE_TRANSFORM_IDENTITY_BIT_KHR,
        current_transform: SURFACE_TRANSFORM_IDENTITY_BIT_KHR,
        supported_composite_alpha: COMPOSITE_ALPHA_OPAQUE_BIT_KHR,
        supported_usage_flags: IMAGE_USAGE_COLOR_ATTACHMENT_BIT,
    }
}

/// Copies `text` over the front of `target` as signed bytes; the rest of
/// `target` keeps its contents.
pub fn copy_slice(text: &[u8], target: &mut [i8])
    requires
        text@.len() <= old(target)@.len(),
    ensures
        final(target)@.len() == old(target)@.len(),
        forall|k: int| 0 <= k < text@.len() ==> #[trigger] final(target)@[k] == text@[k] as i8,
        forall|k: int|
            text@.len() <= k < old(target)@.len() ==> #[trigger] final(target)@[k] == old(
                target,
            )@[k],
{
    let mut i: usize = 0;
    while i < text.len()
        invariant
            text@.len() <= old(target)@.len(),
            target@.len() == old(target)@.len(),
            i <= text@.len(),
            forall|k: int| 0 <= k < i ==> #[trigger] target@[k] == text@[k] as i8,
            forall|k: int| i <= k < old(target)@.len() ==> #[trigger] target@[k] == old(target)@[k],
        decreases text@.len() - i,
    {
        target[i] = text[i] as i8;
        i = i + 1;
    }
}

/// The identity and kind of the simulated adapter.
#[derive(Clone, Copy, Debug)]
pub struct PhysicalDeviceProperties {
    pub api_version: u32,
    pub driver_version: u32,
    pub vendor_id: u32,
    pub device_id: u32,
    pub device_type: u32,
    pub device_name: [i8; 256],
}

/// The fixed adapter properties: API 1.0.3, a CPU-class device with no vendor,
/// named by `DEVICE_NAME` and zero-padded.
pub fn physical_device_properties() -> (r: PhysicalDeviceProperties)
    ensures
        r.api_version == API_VERSION,
        r.driver_version == DRIVER_VERSION,
        r.vendor_id == 0,
        r.device_id == 0,
        r.device_type == PHYSICAL_DEVICE_TYPE_CPU,
        r.device_name@ == padded(DEVICE_NAME.spec_bytes()),
{
    let mut name = [0i8; 256];
    proof {
        reveal_strlit("SoftVK Renderer\0");
        assert(vstd::string::is_ascii(DEVICE_NAME));
        vstd::string::is_ascii_spec_bytes(DEVICE_NAME);
    }
    copy_slice(DEVICE_NAME.as_bytes(), &mut name);
    assert(name@ =~= padded(DEVICE_NAME.spec_bytes()));
    PhysicalDeviceProperties {
        api_version: API_VERSION,
        driver_version: DRIVER_VERSION,
        vendor_id: 0,
        device_id: 0,
        device_type: PHYSICAL_DEVICE_TYPE_CPU,
        device_name: name,
    }
}

} // verus!
