use vstd::prelude::*;
use crate::enumerate::{do_list, is_listing, Listing};
use crate::objects::{
    graphics_family, CommandBuffer, Device, Dispatched, Instance, PhysicalDevice, Queue,
    QueueFamilyProperties, Swapchain, ICD_LOADER_MAGIC,
};
use crate::fixtures::{is_instance_extension, supports_instance_extension};
use crate::status::VkResult;

verus! {

/// A live object as the registry holds it. An adapter lives inside its
/// instance; its slot only records which instance owns it.
pub enum Object {
    Instance(Dispatched<Instance>),
    PhysicalDevice { instance: usize },
    Device(Dispatched<Device>),
    Queue(Dispatched<Queue>),
    CommandBuffer(Dispatched<CommandBuffer>),
    Swapchain(Swapchain),
}

/// The handle table: every object the caller created and has not destroyed,
/// keyed by its handle. Handles start at 1 (0 is the null handle) and are
/// never reused, so a destroyed handle can never reach a newer object.
pub struct Registry {
    slots: Vec<Option<Object>>,
}

/// Whether `d` is stamped with the marker and known by `h`.
pub open spec fn dispatched_as<T>(d: Dispatched<T>, h: int) -> bool {
    d.spec_magic() == ICD_LOADER_MAGIC && d.spec_handle() == h
}

/// The handle that a dispatchable object carries inside it; `None` for the
/// objects that carry none (an adapter's slot, a swapchain).
pub open spec fn handle_of(o: Object) -> Option<usize> {
    match o {
        Object::Instance(d) => Some(d.spec_handle()),
        Object::PhysicalDevice { .. } => None,
        Object::Device(d) => Some(d.spec_handle()),
        Object::Queue(d) => Some(d.spec_handle()),
        Object::CommandBuffer(d) => Some(d.spec_handle()),
        Object::Swapchain(_) => None,
    }
}

/// Whether `o` may stand under handle `h`: a dispatchable object carries `h`
/// itself, and an instance knows its adapter by the handle after its own.
pub open spec fn fits(o: Object, h: int) -> bool {
    &&& handle_of(o) matches Some(k) ==> k == h
    &&& o matches Object::Instance(d) ==> d.spec_data().spec_physical_device() == h + 1
}

impl Registry {
    /// The table is well formed: no handle from `next_handle()` on is live,
    /// and every live object fits the handle it stands under.
    pub open spec fn wf(&self) -> bool {
        &&& forall|h: int| h >= self.next_handle() ==> #[trigger] self.object(h) is None
        &&& forall|h: int| #[trigger] self.object(h) matches Some(o) ==> fits(o, h)
    }

    /// The object known by handle `h`, if it is live.
    pub closed spec fn object(&self, h: int) -> Option<Object> {
        if 1 <= h <= self.slots@.len() {
            self.slots@[h - 1]
        } else {
            None
        }
    }

    /// The handle that the next created object receives.
    pub closed spec fn next_handle(&self) -> int {
        (self.slots@.len() + 1) as int
    }

    /// Whether `n` more objects can still be given handles.
    pub open spec fn has_room(&self, n: int) -> bool {
        self.next_handle() - 1 + n <= usize::MAX
    }

    /// Whether `new` holds the same objects as `old` under every handle
    /// outside `changed`.
    pub open spec fn same_except(old: Registry, new: Registry, changed: Set<int>) -> bool {
        forall|h: int| !changed.contains(h) ==> #[trigger] new.object(h) == old.object(h)
    }

    pub open spec fn is_instance(&self, h: int) -> bool {
        self.object(h) matches Some(Object::Instance(_))
    }

    pub open spec fn is_device(&self, h: int) -> bool {
        self.object(h) matches Some(Object::Device(_))
    }

    pub open spec fn is_swapchain(&self, h: int) -> bool {
        self.object(h) matches Some(Object::Swapchain(_))
    }

    /// Whether `h` is the handle of an adapter whose instance is live.
    pub open spec fn is_physical_device(&self, h: int) -> bool {
        &&& self.object(h) matches Some(Object::PhysicalDevice { instance })
        &&& self.is_instance(instance as int)
    }

    /// The handle of the adapter owned by the instance under `h`.
    pub open spec fn adapter_of(&self, h: int) -> usize {
        match self.object(h) {
            Some(Object::Instance(d)) => d.spec_data().spec_physical_device(),
            _ => 0,
        }
    }

    /// An empty table.
    pub fn new() -> (r: Registry)
        ensures
            forall|h: int| #[trigger] r.object(h) is None,
            r.next_handle() == 1,
            r.wf(),
    {
        Registry { slots: Vec::new() }
    }

    /// How many more objects can be given handles.
    pub fn room(&self) -> (r: usize)
        ensures
            r == usize::MAX - (self.next_handle() - 1),
    {
        usize::MAX - self.slots.len()
    }

    fn push(&mut self, o: Object) -> (h: usize)
        requires
            old(self).wf(),
            old(self).has_room(1),
            fits(o, old(self).next_handle()),
        ensures
            final(self).wf(),
            old(self).object(h as int) is None,
            h == old(self).next_handle(),
            final(self).next_handle() == h + 1,
            final(self).object(h as int) == Some(o),
            Registry::same_except(*old(self), *final(self), set![h as int]),
    {
        self.slots.push(Some(o));
        let h = self.slots.len();
        proof {
            assert forall|k: int| #[trigger] self.object(k) is Some implies fits(self.object(k).unwrap(), k) by {
                if k != h {
                    assert(self.object(k) == old(self).object(k));
                }
            }
        }
        h
    }

    fn release(&mut self, h: usize)
        requires
            old(self).wf(),
            old(self).object(h as int) is Some,
        ensures
            final(self).wf(),
            final(self).next_handle() == old(self).next_handle(),
            final(self).object(h as int) is None,
            Registry::same_except(*old(self), *final(self), set![h as int]),
    {
        self.slots.set(h - 1, None);
        proof {
            assert forall|k: int| #[trigger] self.object(k) is Some implies fits(self.object(k).unwrap(), k) by {
                assert(self.object(k) == old(self).object(k));
            }
        }
    }

    /// Whether every name in `extensions` is on the instance allowlist.
    pub open spec fn all_supported(extensions: Seq<Vec<u8>>) -> bool {
        forall|k: int| 0 <= k < extensions.len() ==> is_instance_extension(#[trigger] extensions[k]@)
    }

    /// Creates an instance and its adapter, after checking every requested
    /// extension against the allowlist. On success the instance receives the
    /// next handle and its adapter the one after; when an extension is not
    /// supported nothing is created.
    pub fn create_instance(&mut self, extensions: &[Vec<u8>]) -> (r: Result<usize, VkResult>)
        requires
            old(self).wf(),
            old(self).has_room(2),
        ensures
            final(self).wf(),
            r is Ok <==> Registry::all_supported(extensions@),
            r matches Err(e) ==> e == VkResult::ErrorExtensionNotPresent && *final(self) == *old(
                self,
            ),
            r matches Ok(h) ==> {
                &&& h == old(self).next_handle()
                &&& old(self).object(h as int) is None
                &&& old(self).object(h + 1) is None
                &&& final(self).next_handle() == h + 2
                &&& final(self).object(h as int) matches Some(Object::Instance(d)) && dispatched_as(
                    d,
                    h as int,
                ) && d.spec_data().spec_physical_device() == h + 1
                &&& final(self).object(h + 1) == Some(Object::PhysicalDevice { instance: h })
                &&& final(self).is_physical_device(h + 1)
                &&& final(self).adapter_of(h as int) == h + 1
                &&& Registry::same_except(*old(self), *final(self), set![h as int, h + 1])
            },
    {
        let mut k: usize = 0;
        while k < extensions.len()
            invariant
                k <= extensions@.len(),
                old(self).wf(),
                forall|j: int| 0 <= j < k ==> is_instance_extension(#[trigger] extensions@[j]@),
            decreases extensions@.len() - k,
        {
            if !supports_instance_extension(extensions[k].as_slice()) {
                return Err(VkResult::ErrorExtensionNotPresent);
            }
            k = k + 1;
        }
        let h = self.slots.len() + 1;
        let instance = Dispatched::new(Instance::new(h + 1), h);
        self.push(Object::Instance(instance));
        let ghost mid = *self;
        let pd = self.push(Object::PhysicalDevice { instance: h });
        assert(self.object(h as int) == mid.object(h as int)) by {
            assert(!set![pd as int].contains(h as int));
        }
        assert forall|j: int| !set![h as int, h + 1].contains(j) implies #[trigger] self.object(j)
            == old(self).object(j) by {
            assert(!set![pd as int].contains(j));
            assert(!set![h as int].contains(j));
            assert(mid.object(j) == old(self).object(j));
        }
        Ok(h)
    }

    /// Destroys the instance under `h` together with its adapter; does
    /// nothing when `h` is not a live instance.
    pub fn destroy_instance(&mut self, h: usize)
        requires
            old(self).wf(),
        ensures
            final(self).wf(),
            final(self).next_handle() == old(self).next_handle(),
            old(self).is_instance(h as int) ==> {
                &&& final(self).object(h as int) is None
                &&& final(self).object(old(self).adapter_of(h as int) as int) is None
                &&& Registry::same_except(
                    *old(self),
                    *final(self),
                    set![h as int, old(self).adapter_of(h as int) as int],
                )
            },
            !old(self).is_instance(h as int) ==> *final(self) == *old(self),
    {
        if h >= 1 && h <= self.slots.len() {
            if let Some(Object::Instance(d)) = &self.slots[h - 1] {
                let pd = d.data().physical_device().handle();
                self.release(h);
                if pd >= 1 && pd <= self.slots.len() && self.slots[pd - 1].is_some() {
                    self.release(pd);
                }
                proof {
                    assert forall|k: int|
                        !set![h as int, pd as int].contains(k) implies #[trigger] self.object(k)
                        == old(self).object(k) by {
                        assert(!set![h as int].contains(k));
                    }
                }
            }
        }
    }

    /// The object known by `h`: how a caller's handle is turned back into the
    /// object it names. `None` when `h` is not live.
    pub fn lookup(&self, h: usize) -> (r: Option<&Object>)
        ensures
            r is None <==> self.object(h as int) is None,
            r matches Some(o) ==> self.object(h as int) == Some(*o),
    {
        if h >= 1 && h <= self.slots.len() {
            match &self.slots[h - 1] {
                Some(o) => Some(o),
                None => None,
            }
        } else {
            None
        }
    }

    /// Whether `h` is a live instance.
    pub fn holds_instance(&self, h: usize) -> (r: bool)
        ensures
            r == self.is_instance(h as int),
    {
        h >= 1 && h <= self.slots.len() && matches!(self.slots[h - 1], Some(Object::Instance(_)))
    }

    /// Whether `h` is a live device.
    pub fn holds_device(&self, h: usize) -> (r: bool)
        ensures
            r == self.is_device(h as int),
    {
        h >= 1 && h <= self.slots.len() && matches!(self.slots[h - 1], Some(Object::Device(_)))
    }

    /// The adapter known by `h`, recovered through the instance that owns it.
    pub fn adapter(&self, h: usize) -> (r: Option<&Dispatched<PhysicalDevice>>)
        ensures
            r is Some <==> self.is_physical_device(h as int),
            r matches Some(d) ==> d.spec_magic() == ICD_LOADER_MAGIC,
    {
        if h >= 1 && h <= self.slots.len() {
            if let Some(Object::PhysicalDevice { instance }) = &self.slots[h - 1] {
                let i = *instance;
                if i >= 1 && i <= self.slots.len() {
                    if let Some(Object::Instance(d)) = &self.slots[i - 1] {
                        return Some(d.data().physical_device());
                    }
                }
            }
        }
        None
    }

    /// The two-phase listing of the adapters of the instance under `h`: its
    /// one adapter. `None` when `h` is not a live instance.
    pub fn enumerate_physical_devices(&self, h: usize, capacity: Option<u32>) -> (r: Option<
        Listing<usize>,
    >)
        ensures
            r is Some <==> self.is_instance(h as int),
            r matches Some(l) ==> is_listing(seq![self.adapter_of(h as int)], capacity, l),
    {
        if h >= 1 && h <= self.slots.len() {
            if let Some(Object::Instance(d)) = &self.slots[h - 1] {
                let list = d.data().physical_devices();
                let l = do_list(list.as_slice(), capacity);
                return Some(l);
            }
        }
        None
    }

    /// The two-phase listing of the queue families of the adapter under `h`.
    /// `None` when `h` is not a live adapter.
    pub fn queue_family_properties(&self, h: usize, capacity: Option<u32>) -> (r: Option<
        Listing<QueueFamilyProperties>,
    >)
        ensures
            r is Some <==> self.is_physical_device(h as int),
            r matches Some(l) ==> is_listing(seq![graphics_family()], capacity, l),
    {
        match self.adapter(h) {
            Some(pd) => {
                let families = pd.data().queue_families();
                Some(do_list(families.as_slice(), capacity))
            },
            None => None,
        }
    }

    /// Creates a device from the adapter under `pd`; `None` when `pd` is not
    /// a live adapter.
    pub fn create_device(&mut self, pd: usize) -> (r: Option<usize>)
        requires
            old(self).wf(),
            old(self).has_room(1),
        ensures
            final(self).wf(),
            r is Some <==> old(self).is_physical_device(pd as int),
            r is None ==> *final(self) == *old(self),
            r matches Some(h) ==> {
                &&& h == old(self).next_handle()
                &&& old(self).object(h as int) is None
                &&& final(self).next_handle() == h + 1
                &&& final(self).object(h as int) matches Some(Object::Device(d)) && dispatched_as(
                    d,
                    h as int,
                ) && d.spec_data() == Device
                &&& Registry::same_except(*old(self), *final(self), set![h as int])
            },
    {
        let h = self.slots.len() + 1;
        let device = match self.adapter(pd) {
            Some(adapter) => adapter.data().create_device(h),
            None => {
                return None;
            },
        };
        self.push(Object::Device(device));
        Some(h)
    }

    /// Destroys the device under `h`; does nothing when `h` is not a live
    /// device.
    pub fn destroy_device(&mut self, h: usize)
        requires
            old(self).wf(),
        ensures
            final(self).wf(),
            final(self).next_handle() == old(self).next_handle(),
            old(self).is_device(h as int) ==> final(self).object(h as int) is None
                && Registry::same_except(*old(self), *final(self), set![h as int]),
            !old(self).is_device(h as int) ==> *final(self) == *old(self),
    {
        if self.holds_device(h) {
            self.release(h);
        }
    }

    /// A fresh queue wrapper for slot `(family, id)` of the device under
    /// `dev`; `None` when `dev` is not a live device or the slot is not
    /// declared.
    pub fn get_device_queue(&mut self, dev: usize, family: u32, id: u32) -> (r: Option<usize>)
        requires
            old(self).wf(),
            old(self).has_room(1),
        ensures
            final(self).wf(),
            r is Some <==> old(self).is_device(dev as int) && Device::is_queue_slot(family, id),
            r is None ==> *final(self) == *old(self),
            r matches Some(h) ==> {
                &&& h == old(self).next_handle()
                &&& old(self).object(h as int) is None
                &&& final(self).next_handle() == h + 1
                &&& final(self).object(h as int) matches Some(Object::Queue(q)) && dispatched_as(
                    q,
                    h as int,
                ) && q.spec_data() == Queue
                &&& Registry::same_except(*old(self), *final(self), set![h as int])
            },
    {
        let h = self.slots.len() + 1;
        let queue = if dev >= 1 && dev <= self.slots.len() {
            match &self.slots[dev - 1] {
                Some(Object::Device(d)) => d.data().create_queue(family, id, h),
                _ => None,
            }
        } else {
            None
        };
        match queue {
            Some(q) => {
                self.push(Object::Queue(q));
                Some(h)
            },
            None => None,
        }
    }

    /// Creates a swapchain on the device under `dev`; `None` when `dev` is
    /// not a live device.
    pub fn create_swapchain(&mut self, dev: usize) -> (r: Option<usize>)
        requires
            old(self).wf(),
            old(self).has_room(1),
        ensures
            final(self).wf(),
            r is Some <==> old(self).is_device(dev as int),
            r is None ==> *final(self) == *old(self),
            r matches Some(h) ==> {
                &&& h == old(self).next_handle()
                &&& old(self).object(h as int) is None
                &&& final(self).next_handle() == h + 1
                &&& final(self).object(h as int) == Some(Object::Swapchain(Swapchain))
                &&& Registry::same_except(*old(self), *final(self), set![h as int])
            },
    {
        if dev >= 1 && dev <= self.slots.len() {
            if let Some(Object::Device(d)) = &self.slots[dev - 1] {
                let swapchain = d.data().create_swapchain();
                return Some(self.push(Object::Swapchain(swapchain)));
            }
        }
        None
    }

    /// Destroys the swapchain under `h`; does nothing when `h` is not a live
    /// swapchain.
    pub fn destroy_swapchain(&mut self, h: usize)
        requires
            old(self).wf(),
        ensures
            final(self).wf(),
            final(self).next_handle() == old(self).next_handle(),
            old(self).is_swapchain(h as int) ==> final(self).object(h as int) is None
                && Registry::same_except(*old(self), *final(self), set![h as int]),
            !old(self).is_swapchain(h as int) ==> *final(self) == *old(self),
    {
        if h >= 1 && h <= self.slots.len() && matches!(self.slots[h - 1], Some(Object::Swapchain(_))) {
            self.release(h);
        }
    }

    /// Allocates `count` command buffers on the device under `dev`, under
    /// consecutive fresh handles; `None` when `dev` is not a live device.
    pub fn allocate_command_buffers(&mut self, dev: usize, count: u32) -> (r: Option<Vec<usize>>)
        requires
            old(self).wf(),
            old(self).has_room(count as int),
        ensures
            final(self).wf(),
            r is Some <==> old(self).is_device(dev as int),
            r is None ==> *final(self) == *old(self),
            r matches Some(hs) ==> {
                &&& hs@.len() == count
                &&& forall|k: int| 0 <= k < count ==> old(self).object(#[trigger] hs@[k] as int) is None
                &&& final(self).next_handle() == old(self).next_handle() + count
                &&& forall|k: int|
                    0 <= k < count ==> #[trigger] hs@[k] == old(self).next_handle() + k
                        && (final(self).object(hs@[k] as int) matches Some(Object::CommandBuffer(b))
                        && dispatched_as(b, hs@[k] as int) && b.spec_data() == CommandBuffer)
                &&& forall|h: int|
                    h < old(self).next_handle() ==> #[trigger] final(self).object(h) == old(
                        self,
                    ).object(h)
            },
    {
        if !self.holds_device(dev) {
            return None;
        }
        let mut hs: Vec<usize> = Vec::new();
        let mut i: u32 = 0;
        while i < count
            invariant
                old(self).has_room(count as int),
                old(self).is_device(dev as int),
                self.wf(),
                i <= count,
                hs@.len() == i,
                self.next_handle() == old(self).next_handle() + i,
                forall|k: int|
                    0 <= k < i ==> #[trigger] hs@[k] == old(self).next_handle() + k && (self.object(
                        hs@[k] as int,
                    ) matches Some(Object::CommandBuffer(b)) && dispatched_as(b, hs@[k] as int)
                        && b.spec_data() == CommandBuffer),
                forall|h: int| h < old(self).next_handle() ==> #[trigger] self.object(h) == old(
                    self,
                ).object(h),
            decreases count - i,
        {
            let h = self.slots.len() + 1;
            assert(self.object(dev as int) == old(self).object(dev as int));
            let buffer = if let Some(Object::Device(d)) = &self.slots[dev - 1] {
                d.data().create_command_buffer(h)
            } else {
                Dispatched::new(CommandBuffer, h)
            };
            let ghost before = *self;
            self.push(Object::CommandBuffer(buffer));
            assert forall|k: int| 0 <= k < i implies self.object(hs@[k] as int) == before.object(
                hs@[k] as int,
            ) by {
                assert(!set![h as int].contains(hs@[k] as int));
            }
            assert forall|j: int| j < old(self).next_handle() implies self.object(j) == before.object(
                j,
            ) by {
                assert(!set![h as int].contains(j));
            }
            hs.push(h);
            i = i + 1;
        }
        Some(hs)
    }
}

/// Creating an object and then destroying it leaves every handle of the table
/// as it was: the destroy releases exactly what the create added.
pub proof fn lemma_create_destroy_round_trip(r0: Registry, r1: Registry, r2: Registry, h: int)
    requires
        h == r0.next_handle(),
        Registry::same_except(r0, r1, set![h]),
        r2.object(h) is None,
        Registry::same_except(r1, r2, set![h]),
    ensures
        forall|k: int| #[trigger] r2.object(k) == r0.object(k),
{
    assert forall|k: int| #[trigger] r2.object(k) == r0.object(k) by {
        if k != h {
            assert(!set![h].contains(k));
            assert(r1.object(k) == r0.object(k));
        }
    }
}

/// Creating an instance and then destroying it leaves every handle of the
/// table as it was: the destroy releases the instance and its adapter, and
/// nothing else.
pub proof fn lemma_instance_round_trip(r0: Registry, r1: Registry, r2: Registry, h: int)
    requires
        h == r0.next_handle(),
        r1.adapter_of(h) == h + 1,
        Registry::same_except(r0, r1, set![h, h + 1]),
        r2.object(h) is None,
        r2.object(r1.adapter_of(h) as int) is None,
        Registry::same_except(r1, r2, set![h, r1.adapter_of(h) as int]),
    ensures
        forall|k: int| #[trigger] r2.object(k) == r0.object(k),
{
    assert forall|k: int| #[trigger] r2.object(k) == r0.object(k) by {
        if k != h && k != h + 1 {
            assert(!set![h, h + 1].contains(k));
            assert(!set![h, r1.adapter_of(h) as int].contains(k));
            assert(r1.object(k) == r0.object(k));
        }
    }
}

/// In a well-formed table every live dispatchable object carries the handle it
/// stands under, so two live objects under different handles never carry the
/// same one: destroying the object behind one handle cannot free another.
pub proof fn lemma_distinct_handles(r: Registry, h1: int, h2: int)
    requires
        r.wf(),
        h1 != h2,
        r.object(h1) matches Some(a) && handle_of(a) is Some,
        r.object(h2) matches Some(b) && handle_of(b) is Some,
    ensures
        handle_of(r.object(h1).unwrap()) == Some(h1 as usize),
        handle_of(r.object(h2).unwrap()) == Some(h2 as usize),
        handle_of(r.object(h1).unwrap()) != handle_of(r.object(h2).unwrap()),
{
    assert(fits(r.object(h1).unwrap(), h1));
    assert(fits(r.object(h2).unwrap(), h2));
}

} // verus!
