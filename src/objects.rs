use vstd::prelude::*;

verus! {

/// The marker stamped into every dispatchable object, by which the loader's
/// runtime tells this driver's objects from those of another driver.
pub const ICD_LOADER_MAGIC: usize = 0x01CDC0DE;

/// The queue capability bit for graphics work.
pub const QUEUE_GRAPHICS_BIT: u32 = 0x1;

/// A dispatchable object: the authenticity marker, the handle under which the
/// caller knows the object, and the typed payload.
pub struct Dispatched<T> {
    magic: usize,
    handle: usize,
    data: T,
}

impl<T> Dispatched<T> {
    /// Every dispatchable object carries the authenticity marker.
    #[verifier::type_invariant]
    closed spec fn marked(&self) -> bool {
        self.magic == ICD_LOADER_MAGIC
    }

    pub closed spec fn spec_magic(&self) -> usize {
        self.magic
    }

    pub closed spec fn spec_handle(&self) -> usize {
        self.handle
    }

    pub closed spec fn spec_data(&self) -> T {
        self.data
    }

    /// Wraps `data` under `handle`, stamped with the authenticity marker.
    pub fn new(data: T, handle: usize) -> (r: Dispatched<T>)
        ensures
            r.spec_magic() == ICD_LOADER_MAGIC,
            r.spec_handle() == handle,
            r.spec_data() == data,
    {
        Dispatched { magic: ICD_LOADER_MAGIC, handle, data }
    }

    /// The handle under which the caller knows this object.
    pub fn handle(&self) -> (r: usize)
        ensures
            r == self.spec_handle(),
    {
        self.handle
    }

    /// The authenticity marker of this object, which is always the constant.
    pub fn magic(&self) -> (r: usize)
        ensures
            r == self.spec_magic(),
            r == ICD_LOADER_MAGIC,
    {
        proof {
            use_type_invariant(self);
        }
        self.magic
    }

    /// The payload.
    pub fn data(&self) -> (r: &T)
        ensures
            *r == self.spec_data(),
    {
        &self.data
    }
}

/// A three-dimensional extent.
#[derive(Clone, Copy, Debug, PartialEq, Eq, Structural)]
pub struct Extent3D {
    pub width: u32,
    pub height: u32,
    pub depth: u32,
}

/// What a queue family offers.
#[derive(Clone, Copy, Debug, PartialEq, Eq, Structural)]
pub struct QueueFamilyProperties {
    pub queue_flags: u32,
    pub queue_count: u32,
    pub timestamp_valid_bits: u32,
    pub min_image_transfer_granularity: Extent3D,
}

/// The one queue family of the simulated adapter: graphics, one queue, no
/// timestamps.
pub open spec fn graphics_family() -> QueueFamilyProperties {
    QueueFamilyProperties {
        queue_flags: QUEUE_GRAPHICS_BIT,
        queue_count: 1,
        timestamp_valid_bits: 0,
        min_image_transfer_granularity: Extent3D { width: 0, height: 0, depth: 0 },
    }
}

/// A device queue. It holds no state.
#[derive(Clone, Copy, Debug, PartialEq, Eq, Structural)]
pub struct Queue;

/// A logical device. It holds no state and does not track its children.
#[derive(Clone, Copy, Debug, PartialEq, Eq, Structural)]
pub struct Device;

/// A swapchain. It holds no state and is not dispatchable.
#[derive(Clone, Copy, Debug, PartialEq, Eq, Structural)]
pub struct Swapchain;

/// A command buffer. It holds no state.
#[derive(Clone, Copy, Debug, PartialEq, Eq, Structural)]
pub struct CommandBuffer;

impl Device {
    /// Whether `(family, id)` names a queue slot that the adapter declares.
    pub open spec fn is_queue_slot(family: u32, id: u32) -> bool {
        family == 0 && id < graphics_family().queue_count
    }

    /// A fresh queue wrapper under `handle` for a declared queue slot; `None`
    /// for any other slot.
    pub fn create_queue(&self, family: u32, id: u32, handle: usize) -> (r: Option<
        Dispatched<Queue>,
    >)
        ensures
            Device::is_queue_slot(family, id) <==> r is Some,
            r matches Some(q) ==> q.spec_magic() == ICD_LOADER_MAGIC && q.spec_handle()
                == handle && q.spec_data() == Queue,
    {
        if family == 0 && id < 1 {
            Some(Dispatched::new(Queue, handle))
        } else {
            None
        }
    }

    /// A fresh swapchain.
    pub fn create_swapchain(&self) -> (r: Swapchain)
        ensures
            r == Swapchain,
    {
        Swapchain
    }

    /// A fresh command buffer under `handle`.
    pub fn create_command_buffer(&self, handle: usize) -> (r: Dispatched<CommandBuffer>)
        ensures
            r.spec_magic() == ICD_LOADER_MAGIC,
            r.spec_handle() == handle,
            r.spec_data() == CommandBuffer,
    {
        Dispatched::new(CommandBuffer, handle)
    }
}

/// The simulated adapter. It holds no state.
#[derive(Clone, Copy, Debug, PartialEq, Eq, Structural)]
pub struct PhysicalDevice;

impl PhysicalDevice {
    /// A fresh logical device under `handle`; creation cannot fail.
    pub fn create_device(&self, handle: usize) -> (r: Dispatched<Device>)
        ensures
            r.spec_magic() == ICD_LOADER_MAGIC,
            r.spec_handle() == handle,
            r.spec_data() == Device,
    {
        Dispatched::new(Device, handle)
    }

    /// The queue families of the adapter: exactly one, graphics-capable, with
    /// one queue.
    pub fn queue_families(&self) -> (r: Vec<QueueFamilyProperties>)
        ensures
            r@ == seq![graphics_family()],
    {
        let family = QueueFamilyProperties {
            queue_flags: QUEUE_GRAPHICS_BIT,
            queue_count: 1,
            timestamp_valid_bits: 0,
            min_image_transfer_granularity: Extent3D { width: 0, height: 0, depth: 0 },
        };
        let r = vec![family];
        assert(r@ =~= seq![graphics_family()]);
        r
    }
}

/// The root object. It owns the one simulated adapter.
pub struct Instance {
    physical_device: Dispatched<PhysicalDevice>,
}

impl Instance {
    /// The handle of the adapter that this instance owns.
    pub closed spec fn spec_physical_device(&self) -> usize {
        self.physical_device.spec_handle()
    }

    /// A fresh instance whose adapter is known by `physical_device_handle`.
    pub fn new(physical_device_handle: usize) -> (r: Instance)
        ensures
            r.spec_physical_device() == physical_device_handle,
    {
        Instance { physical_device: Dispatched::new(PhysicalDevice, physical_device_handle) }
    }

    /// The handles of the adapters of this instance: always exactly one.
    pub fn physical_devices(&self) -> (r: Vec<usize>)
        ensures
            r@ == seq![self.spec_physical_device()],
    {
        let r = vec![self.physical_device.handle()];
        assert(r@ =~= seq![self.spec_physical_device()]);
        r
    }

    /// The adapter that this instance owns.
    pub fn physical_device(&self) -> (r: &Dispatched<PhysicalDevice>)
        ensures
            r.spec_handle() == self.spec_physical_device(),
            r.spec_magic() == ICD_LOADER_MAGIC,
    {
        proof {
            use_type_invariant(&self.physical_device);
        }
        &self.physical_device
    }
}

} // verus!
