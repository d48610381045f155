use vstd::prelude::*;
use crate::lifecycle::{
    enabled, lemma_live_count_bound, lemma_live_count_positive, lemma_live_count_push,
    lemma_live_count_update, live_count, next, teardowns, DeviceView, Op, ResourceKind, Slot,
    Teardown,
};
use crate::status::{classify, code_of, status_of, Status};

verus! {

/// A native call that the ledger decides on and its caller performs.
#[derive(Clone, Copy, Debug, PartialEq, Eq, Structural)]
pub enum NativeCall {
    DestroyBuffer { device: u64, id: u64 },
    DestroyImage { device: u64, id: u64 },
    DestroyImageView { device: u64, id: u64 },
    DestroySampler { device: u64, id: u64 },
    DestroyDevice { device: u64 },
}

/// The destroy primitive that matches a resource of kind `kind`.
pub open spec fn destroy_call_of(kind: ResourceKind, device: u64, id: u64) -> NativeCall {
    match kind {
        ResourceKind::Buffer => NativeCall::DestroyBuffer { device, id },
        ResourceKind::Image => NativeCall::DestroyImage { device, id },
        ResourceKind::ImageView => NativeCall::DestroyImageView { device, id },
        ResourceKind::Sampler => NativeCall::DestroySampler { device, id },
    }
}

/// The native call that carries out teardown `t` in state `m`.
pub open spec fn native_call(m: DeviceView, t: Teardown) -> NativeCall {
    match t {
        Teardown::Resource(s) => destroy_call_of(m.slots[s as int].kind, m.handle, m.slots[s as int].id),
        Teardown::Device => NativeCall::DestroyDevice { device: m.handle },
    }
}

/// The native calls that `op` requires in state `m`, in order.
pub open spec fn native_calls(m: DeviceView, op: Op) -> Seq<NativeCall> {
    teardowns(m, op).map_values(|t: Teardown| native_call(m, t))
}

fn destroy_call(kind: ResourceKind, device: u64, id: u64) -> (r: NativeCall)
    ensures
        r == destroy_call_of(kind, device, id),
{
    match kind {
        ResourceKind::Buffer => NativeCall::DestroyBuffer { device, id },
        ResourceKind::Image => NativeCall::DestroyImage { device, id },
        ResourceKind::ImageView => NativeCall::DestroyImageView { device, id },
        ResourceKind::Sampler => NativeCall::DestroySampler { device, id },
    }
}

/// What a resource handle refers to: a slot of its device and a native id.
pub struct HandleView {
    pub slot: nat,
    pub id: u64,
}

/// One reference to a buffer of a device.
pub struct Buffer {
    slot: usize,
    id: u64,
}

/// One reference to an image of a device.
pub struct Image {
    slot: usize,
    id: u64,
}

/// One reference to an image view of a device.
pub struct ImageView {
    slot: usize,
    id: u64,
}

/// One reference to a sampler of a device.
pub struct Sampler {
    slot: usize,
    id: u64,
}

impl View for Buffer {
    type V = HandleView;

    closed spec fn view(&self) -> HandleView {
        HandleView { slot: self.slot as nat, id: self.id }
    }
}

impl View for Image {
    type V = HandleView;

    closed spec fn view(&self) -> HandleView {
        HandleView { slot: self.slot as nat, id: self.id }
    }
}

impl View for ImageView {
    type V = HandleView;

    closed spec fn view(&self) -> HandleView {
        HandleView { slot: self.slot as nat, id: self.id }
    }
}

impl View for Sampler {
    type V = HandleView;

    closed spec fn view(&self) -> HandleView {
        HandleView { slot: self.slot as nat, id: self.id }
    }
}

impl Buffer {
    /// The native id of the buffer.
    pub fn id(&self) -> (r: u64)
        ensures
            r == self@.id,
    {
        self.id
    }

    /// The slot of the buffer in its device.
    pub fn slot(&self) -> (r: usize)
        ensures
            r as nat == self@.slot,
    {
        self.slot
    }
}

impl Image {
    /// The native id of the image.
    pub fn id(&self) -> (r: u64)
        ensures
            r == self@.id,
    {
        self.id
    }

    /// The slot of the image in its device.
    pub fn slot(&self) -> (r: usize)
        ensures
            r as nat == self@.slot,
    {
        self.slot
    }
}

impl ImageView {
    /// The native id of the image view.
    pub fn id(&self) -> (r: u64)
        ensures
            r == self@.id,
    {
        self.id
    }

    /// The slot of the image view in its device.
    pub fn slot(&self) -> (r: usize)
        ensures
            r as nat == self@.slot,
    {
        self.slot
    }
}

impl Sampler {
    /// The native id of the sampler.
    pub fn id(&self) -> (r: u64)
        ensures
            r == self@.id,
    {
        self.id
    }

    /// The slot of the sampler in its device.
    pub fn slot(&self) -> (r: usize)
        ensures
            r as nat == self@.slot,
    {
        self.slot
    }
}

impl PartialEq for Buffer {
    /// Handles are equal when their native ids are.
    fn eq(&self, other: &Buffer) -> (r: bool) {
        self.id == other.id
    }
}

impl vstd::std_specs::cmp::PartialEqSpecImpl for Buffer {
    open spec fn obeys_eq_spec() -> bool {
        true
    }

    open spec fn eq_spec(&self, other: &Buffer) -> bool {
        self@.id == other@.id
    }
}

impl PartialEq for Image {
    /// Handles are equal when their native ids are.
    fn eq(&self, other: &Image) -> (r: bool) {
        self.id == other.id
    }
}

impl vstd::std_specs::cmp::PartialEqSpecImpl for Image {
    open spec fn obeys_eq_spec() -> bool {
        true
    }

    open spec fn eq_spec(&self, other: &Image) -> bool {
        self@.id == other@.id
    }
}

impl PartialEq for ImageView {
    /// Handles are equal when their native ids are.
    fn eq(&self, other: &ImageView) -> (r: bool) {
        self.id == other.id
    }
}

impl vstd::std_specs::cmp::PartialEqSpecImpl for ImageView {
    open spec fn obeys_eq_spec() -> bool {
        true
    }

    open spec fn eq_spec(&self, other: &ImageView) -> bool {
        self@.id == other@.id
    }
}

impl PartialEq for Sampler {
    /// Handles are equal when their native ids are.
    fn eq(&self, other: &Sampler) -> (r: bool) {
        self.id == other.id
    }
}

impl vstd::std_specs::cmp::PartialEqSpecImpl for Sampler {
    open spec fn obeys_eq_spec() -> bool {
        true
    }

    open spec fn eq_spec(&self, other: &Sampler) -> bool {
        self@.id == other@.id
    }
}

/// A block of device memory, as the native allocator handed it out.
pub struct MemoryBlock {
    handle: u64,
}

impl MemoryBlock {
    pub closed spec fn spec_handle(&self) -> u64 {
        self.handle
    }

    /// The native handle of the block.
    pub fn handle(&self) -> (r: u64)
        ensures
            r == self.spec_handle(),
    {
        self.handle
    }
}

/// The shared state of one native device: its handle, how many `Device`
/// references its users hold, and every resource created from it with its
/// own reference count. Each live resource holds one reference to the
/// device, so the device is destroyed only once neither kind is left.
pub struct Device {
    handle: u64,
    holders: u64,
    live: usize,
    slots: Vec<Slot>,
    destroyed: bool,
}

impl View for Device {
    type V = DeviceView;

    closed spec fn view(&self) -> DeviceView {
        DeviceView {
            handle: self.handle,
            holders: self.holders as nat,
            slots: self.slots@,
            destroyed: self.destroyed,
        }
    }
}

impl Device {
    /// The ledger's counter of live resources is exact, and the device is
    /// destroyed exactly when no reference to it is left.
    pub closed spec fn wf(&self) -> bool {
        &&& self.live as nat == live_count(self.slots@)
        &&& self@.valid()
    }

    /// The state of a device just created with native handle `handle`:
    /// one reference, held by the caller, and no resource.
    pub open spec fn created(handle: u64) -> DeviceView {
        DeviceView { handle, holders: 1, slots: Seq::empty(), destroyed: false }
    }

    /// Takes ownership of a native device that was created successfully.
    pub fn new(handle: u64) -> (d: Device)
        ensures
            d.wf(),
            d@ == Device::created(handle),
    {
        let d = Device { handle, holders: 1, live: 0, slots: Vec::new(), destroyed: false };
        proof {
            assert(d.slots@ =~= Seq::<Slot>::empty());
        }
        d
    }

    /// The native device handle.
    pub fn handle(&self) -> (r: u64)
        ensures
            r == self@.handle,
    {
        self.handle
    }

    /// How many `Device` references are held.
    pub fn holders(&self) -> (r: u64)
        ensures
            r as nat == self@.holders,
    {
        self.holders
    }

    /// Whether the native device has been destroyed.
    pub fn is_destroyed(&self) -> (r: bool)
        ensures
            r == self@.destroyed,
    {
        self.destroyed
    }

    /// How many resources of the device are live.
    pub fn live_resources(&self) -> (r: usize)
        requires
            self.wf(),
        ensures
            r as nat == live_count(self@.slots),
    {
        self.live
    }

    /// How many references to the resource in slot `slot` are held.
    pub fn refs(&self, slot: usize) -> (r: u64)
        requires
            slot < self@.slots.len(),
        ensures
            r == self@.slots[slot as int].refs,
    {
        self.slots[slot].refs
    }

    /// A well-formed device has a valid state, so the laws over runs of
    /// operations apply to it.
    pub proof fn lemma_valid(&self)
        requires
            self.wf(),
        ensures
            self@.valid(),
    {
    }

    /// Clones a `Device` reference. No native call is made.
    pub fn acquire(&mut self)
        requires
            old(self).wf(),
            enabled(old(self)@, Op::AcquireDevice),
            old(self)@.holders < u64::MAX,
        ensures
            final(self).wf(),
            final(self)@ == next(old(self)@, Op::AcquireDevice),
    {
        self.holders = self.holders + 1;
    }

    /// Drops a `Device` reference. The device is destroyed when this was the
    /// last reference and no live resource holds one.
    pub fn release(&mut self) -> (r: Vec<NativeCall>)
        requires
            old(self).wf(),
            enabled(old(self)@, Op::ReleaseDevice),
        ensures
            final(self).wf(),
            final(self)@ == next(old(self)@, Op::ReleaseDevice),
            r@ == native_calls(old(self)@, Op::ReleaseDevice),
    {
        let ghost before = self@;
        self.holders = self.holders - 1;
        let mut calls: Vec<NativeCall> = Vec::new();
        if self.holders == 0 && self.live == 0 {
            self.destroyed = true;
            calls.push(NativeCall::DestroyDevice { device: self.handle });
        }
        proof {
            assert(calls@ =~= native_calls(before, Op::ReleaseDevice));
        }
        calls
    }

    fn register(&mut self, kind: ResourceKind, id: u64) -> (slot: usize)
        requires
            old(self).wf(),
            old(self)@.holders > 0,
        ensures
            final(self).wf(),
            final(self)@ == old(self)@.with_resource(kind, id),
            slot as nat == old(self)@.slots.len(),
    {
        let slot = self.slots.len();
        let entry = Slot { kind, id, refs: 1 };
        proof {
            lemma_live_count_push(self.slots@, entry);
            lemma_live_count_bound(self.slots@);
        }
        self.slots.push(entry);
        let count = self.slots.len();
        proof {
            assert(self.live < count);
        }
        self.live = self.live + 1;
        slot
    }

    fn retain(&mut self, slot: usize)
        requires
            old(self).wf(),
            enabled(old(self)@, Op::CloneResource(slot as nat)),
        ensures
            final(self).wf(),
            final(self)@ == next(old(self)@, Op::CloneResource(slot as nat)),
    {
        let entry = self.slots[slot];
        let updated = Slot { kind: entry.kind, id: entry.id, refs: entry.refs + 1 };
        proof {
            lemma_live_count_update(self.slots@, slot as int, updated);
            lemma_live_count_positive(self.slots@, slot as int);
        }
        self.slots.set(slot, updated);
    }

    fn release_slot(&mut self, slot: usize) -> (r: Vec<NativeCall>)
        requires
            old(self).wf(),
            enabled(old(self)@, Op::DropResource(slot as nat)),
        ensures
            final(self).wf(),
            final(self)@ == next(old(self)@, Op::DropResource(slot as nat)),
            r@ == native_calls(old(self)@, Op::DropResource(slot as nat)),
    {
        let ghost before = self@;
        let entry = self.slots[slot];
        let updated = Slot { kind: entry.kind, id: entry.id, refs: entry.refs - 1 };
        proof {
            lemma_live_count_update(self.slots@, slot as int, updated);
            lemma_live_count_positive(self.slots@, slot as int);
        }
        self.slots.set(slot, updated);
        let mut calls: Vec<NativeCall> = Vec::new();
        if updated.refs == 0 {
            self.live = self.live - 1;
            calls.push(destroy_call(entry.kind, self.handle, entry.id));
            if self.holders == 0 && self.live == 0 {
                self.destroyed = true;
                calls.push(NativeCall::DestroyDevice { device: self.handle });
            }
        }
        proof {
            assert(calls@ =~= native_calls(before, Op::DropResource(slot as nat)));
        }
        calls
    }

    /// Adopts the outcome of a native creation call: a slot when `code`
    /// reports success, else the classified error and no change.
    fn adopt(&mut self, kind: ResourceKind, code: i32, id: u64) -> (r: Result<usize, Status>)
        requires
            old(self).wf(),
            old(self)@.holders > 0,
            status_of(code as int) is Some,
        ensures
            final(self).wf(),
            r is Ok <==> code as int == code_of(Status::Success),
            r matches Ok(slot) ==> slot as nat == old(self)@.slots.len()
                && final(self)@ == old(self)@.with_resource(kind, id),
            r matches Err(e) ==> Some(e) == status_of(code as int) && final(self)@ == old(self)@,
    {
        let status = classify(code).unwrap();
        proof {
            crate::status::lemma_classify_code(Status::Success);
            crate::status::lemma_code_injective(status, Status::Success);
        }
        if status.is_success() {
            Ok(self.register(kind, id))
        } else {
            Err(status)
        }
    }

    /// Wraps the outcome `(code, id)` of the native buffer creation call. A
    /// buffer, with one reference, comes only when `code` reports success.
    pub fn create_buffer(&mut self, code: i32, id: u64) -> (r: Result<Buffer, Status>)
        requires
            old(self).wf(),
            old(self)@.holders > 0,
            status_of(code as int) is Some,
        ensures
            final(self).wf(),
            r is Ok <==> code as int == code_of(Status::Success),
            r matches Ok(b) ==> b@ == (HandleView { slot: old(self)@.slots.len(), id })
                && final(self)@ == old(self)@.with_resource(ResourceKind::Buffer, id),
            r matches Err(e) ==> Some(e) == status_of(code as int) && final(self)@ == old(self)@,
    {
        match self.adopt(ResourceKind::Buffer, code, id) {
            Ok(slot) => Ok(Buffer { slot, id }),
            Err(e) => Err(e),
        }
    }

    /// Wraps the outcome `(code, id)` of the native image creation call. An
    /// image, with one reference, comes only when `code` reports success.
    pub fn create_image(&mut self, code: i32, id: u64) -> (r: Result<Image, Status>)
        requires
            old(self).wf(),
            old(self)@.holders > 0,
            status_of(code as int) is Some,
        ensures
            final(self).wf(),
            r is Ok <==> code as int == code_of(Status::Success),
            r matches Ok(b) ==> b@ == (HandleView { slot: old(self)@.slots.len(), id })
                && final(self)@ == old(self)@.with_resource(ResourceKind::Image, id),
            r matches Err(e) ==> Some(e) == status_of(code as int) && final(self)@ == old(self)@,
    {
        match self.adopt(ResourceKind::Image, code, id) {
            Ok(slot) => Ok(Image { slot, id }),
            Err(e) => Err(e),
        }
    }

    /// Wraps the outcome `(code, id)` of the native image view creation call.
    /// An image view, with one reference, comes only when `code` reports success.
    pub fn create_image_view(&mut self, code: i32, id: u64) -> (r: Result<ImageView, Status>)
        requires
            old(self).wf(),
            old(self)@.holders > 0,
            status_of(code as int) is Some,
        ensures
            final(self).wf(),
            r is Ok <==> code as int == code_of(Status::Success),
            r matches Ok(b) ==> b@ == (HandleView { slot: old(self)@.slots.len(), id })
                && final(self)@ == old(self)@.with_resource(ResourceKind::ImageView, id),
            r matches Err(e) ==> Some(e) == status_of(code as int) && final(self)@ == old(self)@,
    {
        match self.adopt(ResourceKind::ImageView, code, id) {
            Ok(slot) => Ok(ImageView { slot, id }),
            Err(e) => Err(e),
        }
    }

    /// Wraps the outcome `(code, id)` of the native sampler creation call. A
    /// sampler, with one reference, comes only when `code` reports success.
    pub fn create_sampler(&mut self, code: i32, id: u64) -> (r: Result<Sampler, Status>)
        requires
            old(self).wf(),
            old(self)@.holders > 0,
            status_of(code as int) is Some,
        ensures
            final(self).wf(),
            r is Ok <==> code as int == code_of(Status::Success),
            r matches Ok(b) ==> b@ == (HandleView { slot: old(self)@.slots.len(), id })
                && final(self)@ == old(self)@.with_resource(ResourceKind::Sampler, id),
            r matches Err(e) ==> Some(e) == status_of(code as int) && final(self)@ == old(self)@,
    {
        match self.adopt(ResourceKind::Sampler, code, id) {
            Ok(slot) => Ok(Sampler { slot, id }),
            Err(e) => Err(e),
        }
    }

    /// Wraps the outcome `(code, handle)` of the native allocation call: a
    /// memory block only when `code` reports success.
    pub fn create_memory(&self, code: i32, handle: u64) -> (r: Result<MemoryBlock, Status>)
        requires
            self@.holders > 0,
            status_of(code as int) is Some,
        ensures
            r is Ok <==> code as int == code_of(Status::Success),
            r matches Ok(m) ==> m.spec_handle() == handle,
            r matches Err(e) ==> Some(e) == status_of(code as int),
    {
        let status = classify(code).unwrap();
        proof {
            crate::status::lemma_classify_code(Status::Success);
            crate::status::lemma_code_injective(status, Status::Success);
        }
        if status.is_success() {
            Ok(MemoryBlock { handle })
        } else {
            Err(status)
        }
    }

    /// Clones a buffer reference. No native call is made.
    pub fn clone_buffer(&mut self, b: &Buffer) -> (r: Buffer)
        requires
            old(self).wf(),
            old(self)@.holds(b@.slot, ResourceKind::Buffer, b@.id),
            enabled(old(self)@, Op::CloneResource(b@.slot)),
        ensures
            final(self).wf(),
            final(self)@ == next(old(self)@, Op::CloneResource(b@.slot)),
            r@ == b@,
    {
        self.retain(b.slot);
        Buffer { slot: b.slot, id: b.id }
    }

    /// Clones an image reference. No native call is made.
    pub fn clone_image(&mut self, b: &Image) -> (r: Image)
        requires
            old(self).wf(),
            old(self)@.holds(b@.slot, ResourceKind::Image, b@.id),
            enabled(old(self)@, Op::CloneResource(b@.slot)),
        ensures
            final(self).wf(),
            final(self)@ == next(old(self)@, Op::CloneResource(b@.slot)),
            r@ == b@,
    {
        self.retain(b.slot);
        Image { slot: b.slot, id: b.id }
    }

    /// Clones an image view reference. No native call is made.
    pub fn clone_image_view(&mut self, b: &ImageView) -> (r: ImageView)
        requires
            old(self).wf(),
            old(self)@.holds(b@.slot, ResourceKind::ImageView, b@.id),
            enabled(old(self)@, Op::CloneResource(b@.slot)),
        ensures
            final(self).wf(),
            final(self)@ == next(old(self)@, Op::CloneResource(b@.slot)),
            r@ == b@,
    {
        self.retain(b.slot);
        ImageView { slot: b.slot, id: b.id }
    }

    /// Clones a sampler reference. No native call is made.
    pub fn clone_sampler(&mut self, b: &Sampler) -> (r: Sampler)
        requires
            old(self).wf(),
            old(self)@.holds(b@.slot, ResourceKind::Sampler, b@.id),
            enabled(old(self)@, Op::CloneResource(b@.slot)),
        ensures
            final(self).wf(),
            final(self)@ == next(old(self)@, Op::CloneResource(b@.slot)),
            r@ == b@,
    {
        self.retain(b.slot);
        Sampler { slot: b.slot, id: b.id }
    }

    /// Drops a buffer reference. The last one destroys the buffer, and then
    /// the device too when no other reference to it is left.
    pub fn drop_buffer(&mut self, b: Buffer) -> (r: Vec<NativeCall>)
        requires
            old(self).wf(),
            old(self)@.holds(b@.slot, ResourceKind::Buffer, b@.id),
        ensures
            final(self).wf(),
            final(self)@ == next(old(self)@, Op::DropResource(b@.slot)),
            r@ == native_calls(old(self)@, Op::DropResource(b@.slot)),
    {
        self.release_slot(b.slot)
    }

    /// Drops an image reference. The last one destroys the image, and then
    /// the device too when no other reference to it is left.
    pub fn drop_image(&mut self, b: Image) -> (r: Vec<NativeCall>)
        requires
            old(self).wf(),
            old(self)@.holds(b@.slot, ResourceKind::Image, b@.id),
        ensures
            final(self).wf(),
            final(self)@ == next(old(self)@, Op::DropResource(b@.slot)),
            r@ == native_calls(old(self)@, Op::DropResource(b@.slot)),
    {
        self.release_slot(b.slot)
    }

    /// Drops an image view reference. The last one destroys the image view,
    /// and then the device too when no other reference to it is left.
    pub fn drop_image_view(&mut self, b: ImageView) -> (r: Vec<NativeCall>)
        requires
            old(self).wf(),
            old(self)@.holds(b@.slot, ResourceKind::ImageView, b@.id),
        ensures
            final(self).wf(),
            final(self)@ == next(old(self)@, Op::DropResource(b@.slot)),
            r@ == native_calls(old(self)@, Op::DropResource(b@.slot)),
    {
        self.release_slot(b.slot)
    }

    /// Drops a sampler reference. The last one destroys the sampler, and
    /// then the device too when no other reference to it is left.
    pub fn drop_sampler(&mut self, b: Sampler) -> (r: Vec<NativeCall>)
        requires
            old(self).wf(),
            old(self)@.holds(b@.slot, ResourceKind::Sampler, b@.id),
        ensures
            final(self).wf(),
            final(self)@ == next(old(self)@, Op::DropResource(b@.slot)),
            r@ == native_calls(old(self)@, Op::DropResource(b@.slot)),
    {
        self.release_slot(b.slot)
    }
}

} // verus!
