//! Attaching data to descriptors.
//!
//! A [`Queue`] collects write and copy operations. Applying it to the live descriptor
//! sets records which objects end up bound where, and gives back the
//! `VkWriteDescriptorSet` / `VkCopyDescriptorSet` data to hand to `vkUpdateDescriptorSets`.
//! A set is live while it is among the sets handed to [`Queue::apply`]; a write to a set
//! that is no longer live is skipped.

use vstd::prelude::*;
use crate::descriptor::set::DescriptorSet;
use crate::flags::image_layout::ImageLayout;

verus! {

/// The descriptor that will be updated in a given set.
pub struct Descriptor {
    /// The raw `VkDescriptorSet` handle of the set.
    pub set: u64,
    pub binding_index: u32,
    pub array_element: u32,
}

/// Body for attaching an image view and sampler to a descriptor binding.
pub struct ImageKind {
    pub sampler: u64,
    pub view: u64,
    pub layout: ImageLayout,
}

/// Body for attaching a buffer to a descriptor binding.
pub struct BufferKind {
    pub buffer: u64,
    /// The number of bytes from the start of the buffer that the descriptor should start reading at.
    pub offset: usize,
    /// The number of bytes starting at `offset` that the descriptor can read from.
    pub range: usize,
}

/// The kind of object that can be bound to a descriptor.
pub enum ObjectKind {
    Image(Vec<ImageKind>),
    Buffer(Vec<BufferKind>),
}

/// The body of the [`Write`](Operation::Write) operation.
pub struct WriteOp {
    pub destination: Descriptor,
    /// The raw `VkDescriptorType`.
    pub kind: i32,
    pub object: ObjectKind,
}

/// The body of the [`Copy`](Operation::Copy) operation.
pub struct CopyOp {
    pub source: Descriptor,
    pub destination: Descriptor,
    pub descriptor_count: u32,
}

/// A single operation to perform on a descriptor set.
pub enum Operation {
    /// Writes binding data to a descriptor (`VkWriteDescriptorSet`).
    Write(WriteOp),
    /// Copies binding data from one descriptor to another (`VkCopyDescriptorSet`).
    Copy(CopyOp),
}

/// One `VkDescriptorImageInfo`.
pub struct ImageInfo {
    pub sampler: u64,
    pub image_view: u64,
    /// The raw `VkImageLayout`.
    pub image_layout: i32,
}

/// One `VkDescriptorBufferInfo`.
pub struct BufferInfo {
    pub buffer: u64,
    pub offset: u64,
    pub range: u64,
}

/// The data of one `VkWriteDescriptorSet`.
pub struct DescriptorWrite {
    pub dst_set: u64,
    pub dst_binding: u32,
    pub dst_array_element: u32,
    pub descriptor_type: i32,
    pub image_infos: Vec<ImageInfo>,
    pub buffer_infos: Vec<BufferInfo>,
}

/// The data of one `VkCopyDescriptorSet`.
pub struct DescriptorCopy {
    pub src_set: u64,
    pub src_binding: u32,
    pub src_array_element: u32,
    pub dst_set: u64,
    pub dst_binding: u32,
    pub dst_array_element: u32,
    pub descriptor_count: u32,
}

/// What applying a queue asks of the device: the writes and copies, in order,
/// and the positions in the queue of the writes skipped because their set was gone.
pub struct DescriptorUpdate {
    pub writes: Vec<DescriptorWrite>,
    pub copies: Vec<DescriptorCopy>,
    pub skipped: Vec<usize>,
}

/// A collection of operations to perform on descriptor sets.
pub struct Queue {
    operations: Vec<Operation>,
}

/// The raw handles of a list of sets.
pub open spec fn set_handles(sets: Seq<DescriptorSet>) -> Seq<u64> {
    sets.map_values(|s: DescriptorSet| s.spec_handle())
}

/// `i` is the first position of `h` in `hs`.
pub open spec fn is_first(hs: Seq<u64>, h: u64, i: int) -> bool {
    &&& 0 <= i < hs.len()
    &&& hs[i] == h
    &&& forall|k: int| 0 <= k < i ==> hs[k] != h
}

/// The slot of a descriptor within its set.
pub open spec fn slot_of(d: Descriptor) -> (u32, u32) {
    (d.binding_index, d.array_element)
}

/// The objects a write binds: sampler and view of each image, or each buffer.
pub open spec fn bound_by(object: ObjectKind) -> Seq<u64> {
    match object {
        ObjectKind::Image(infos) => Seq::new(
            2 * infos@.len(),
            |k: int| if k % 2 == 0 { infos@[k / 2].sampler } else { infos@[k / 2].view },
        ),
        ObjectKind::Buffer(infos) => Seq::new(infos@.len(), |k: int| infos@[k].buffer),
    }
}

/// The position of the first set with a descriptor's handle.
pub open spec fn set_index(sets: Seq<DescriptorSet>, d: Descriptor) -> int {
    choose|i: int| is_first(set_handles(sets), d.set, i)
}

/// What the first live set with the source's handle has bound at the source's slot.
pub open spec fn source_objects(sets: Seq<DescriptorSet>, d: Descriptor) -> Seq<u64> {
    sets[set_index(sets, d)].bound_map()[slot_of(d)]
}

/// The table of the `j`-th set after the writes among the first `n` operations.
pub open spec fn after_writes(
    ops: Seq<Operation>,
    n: nat,
    hs: Seq<u64>,
    j: int,
    m: Map<(u32, u32), Seq<u64>>,
) -> Map<(u32, u32), Seq<u64>>
    decreases n,
{
    if n == 0 {
        m
    } else {
        let prev = after_writes(ops, (n - 1) as nat, hs, j, m);
        match ops[n - 1] {
            Operation::Write(w) => if is_first(hs, w.destination.set, j) {
                prev.insert(slot_of(w.destination), bound_by(w.object))
            } else {
                prev
            },
            Operation::Copy(_) => prev,
        }
    }
}

/// The table of the `j`-th set after the copies among the first `n` operations,
/// each copying what its source had bound before the queue was applied.
pub open spec fn after_copies(
    ops: Seq<Operation>,
    n: nat,
    sets: Seq<DescriptorSet>,
    j: int,
    m: Map<(u32, u32), Seq<u64>>,
) -> Map<(u32, u32), Seq<u64>>
    decreases n,
{
    if n == 0 {
        m
    } else {
        let prev = after_copies(ops, (n - 1) as nat, sets, j, m);
        match ops[n - 1] {
            Operation::Copy(c) => if is_first(set_handles(sets), c.destination.set, j) {
                prev.insert(slot_of(c.destination), source_objects(sets, c.source))
            } else {
                prev
            },
            Operation::Write(_) => prev,
        }
    }
}

/// The table of the `j`-th set once a queue has been applied: writes first, then copies.
pub open spec fn applied_table(ops: Seq<Operation>, sets: Seq<DescriptorSet>, j: int) -> Map<(u32, u32), Seq<u64>> {
    after_copies(ops, ops.len(), sets, j, after_writes(ops, ops.len(), set_handles(sets), j, sets[j].bound_map()))
}

/// Every copy has a live source and destination, and its source slot is bound.
pub open spec fn copies_resolvable(ops: Seq<Operation>, sets: Seq<DescriptorSet>) -> bool {
    forall|i: int| 0 <= i < ops.len() ==> match #[trigger] ops[i] {
        Operation::Copy(c) => {
            &&& set_handles(sets).contains(c.destination.set)
            &&& set_handles(sets).contains(c.source.set)
            &&& sets[set_index(sets, c.source)].bound_map().contains_key(slot_of(c.source))
        },
        Operation::Write(_) => true,
    }
}

/// The positions of the writes among the first `n` operations whose set is live (`live`)
/// or not (`!live`).
pub open spec fn write_positions(ops: Seq<Operation>, n: nat, hs: Seq<u64>, live: bool) -> Seq<int>
    decreases n,
{
    if n == 0 {
        Seq::empty()
    } else {
        let prev = write_positions(ops, (n - 1) as nat, hs, live);
        match ops[n - 1] {
            Operation::Write(w) => if hs.contains(w.destination.set) == live {
                prev.push(n - 1)
            } else {
                prev
            },
            Operation::Copy(_) => prev,
        }
    }
}

/// The positions of the copies among the first `n` operations.
pub open spec fn copy_positions(ops: Seq<Operation>, n: nat) -> Seq<int>
    decreases n,
{
    if n == 0 {
        Seq::empty()
    } else {
        let prev = copy_positions(ops, (n - 1) as nat);
        match ops[n - 1] {
            Operation::Copy(_) => prev.push(n - 1),
            Operation::Write(_) => prev,
        }
    }
}

/// Each list of objects is what the copy at the matching position would bind.
pub open spec fn copied_matches(
    copied: Seq<Vec<u64>>,
    ops: Seq<Operation>,
    positions: Seq<int>,
    sets: Seq<DescriptorSet>,
) -> bool {
    forall|k: int| 0 <= k < copied.len() ==> copy_binds(ops[positions[k]], sets, (#[trigger] copied[k])@)
}

/// The operation is a copy that binds these objects.
pub open spec fn copy_binds(op: Operation, sets: Seq<DescriptorSet>, objects: Seq<u64>) -> bool {
    match op {
        Operation::Copy(c) => objects == source_objects(sets, c.source),
        Operation::Write(_) => false,
    }
}

/// A `VkWriteDescriptorSet` carries exactly what a write operation says.
pub open spec fn describes_write(r: DescriptorWrite, op: Operation) -> bool {
    match op {
        Operation::Write(w) => {
            &&& r.dst_set == w.destination.set
            &&& r.dst_binding == w.destination.binding_index
            &&& r.dst_array_element == w.destination.array_element
            &&& r.descriptor_type == w.kind
            &&& match w.object {
                ObjectKind::Image(infos) => {
                    &&& r.buffer_infos@.len() == 0
                    &&& r.image_infos@.len() == infos@.len()
                    &&& forall|k: int| 0 <= k < infos@.len() ==> {
                        &&& (#[trigger] r.image_infos@[k]).sampler == infos@[k].sampler
                        &&& r.image_infos@[k].image_view == infos@[k].view
                        &&& r.image_infos@[k].image_layout == infos@[k].layout.spec_vk()
                    }
                },
                ObjectKind::Buffer(infos) => {
                    &&& r.image_infos@.len() == 0
                    &&& r.buffer_infos@.len() == infos@.len()
                    &&& forall|k: int| 0 <= k < infos@.len() ==> {
                        &&& (#[trigger] r.buffer_infos@[k]).buffer == infos@[k].buffer
                        &&& r.buffer_infos@[k].offset == infos@[k].offset
                        &&& r.buffer_infos@[k].range == infos@[k].range
                    }
                },
            }
        },
        Operation::Copy(_) => false,
    }
}

/// A `VkCopyDescriptorSet` carries exactly what a copy operation says.
pub open spec fn describes_copy(r: DescriptorCopy, op: Operation) -> bool {
    match op {
        Operation::Copy(c) => {
            &&& r.src_set == c.source.set
            &&& r.src_binding == c.source.binding_index
            &&& r.src_array_element == c.source.array_element
            &&& r.dst_set == c.destination.set
            &&& r.dst_binding == c.destination.binding_index
            &&& r.dst_array_element == c.destination.array_element
            &&& r.descriptor_count == c.descriptor_count
        },
        Operation::Write(_) => false,
    }
}


/// The position of the first set with a given handle, if any.
fn find_set(sets: &Vec<DescriptorSet>, h: u64) -> (r: Option<usize>)
    ensures
        r is None ==> !set_handles(sets@).contains(h),
        r matches Some(i) ==> is_first(set_handles(sets@), h, i as int),
{
    let mut i: usize = 0;
    while i < sets.len()
        invariant
            i <= sets@.len(),
            forall|k: int| 0 <= k < i ==> set_handles(sets@)[k] != h,
        decreases sets.len() - i,
    {
        if sets[i].handle() == h {
            return Some(i);
        }
        i = i + 1;
    }
    None
}

proof fn lemma_copy_positions_prefix(ops: Seq<Operation>, a: nat, b: nat)
    requires
        a <= b <= ops.len(),
    ensures
        copy_positions(ops, a).len() <= copy_positions(ops, b).len(),
        forall|k: int| 0 <= k < copy_positions(ops, a).len() ==>
            #[trigger] copy_positions(ops, b)[k] == copy_positions(ops, a)[k],
    decreases b - a,
{
    if a < b {
        lemma_copy_positions_prefix(ops, a, (b - 1) as nat);
    }
}

proof fn lemma_first_unique(hs: Seq<u64>, h: u64, i: int, j: int)
    requires
        is_first(hs, h, i),
        is_first(hs, h, j),
    ensures
        i == j,
{
}

/// The objects a write binds, in order.
fn objects_of(object: &ObjectKind) -> (r: Vec<u64>)
    ensures
        r@ == bound_by(*object),
{
    let mut r: Vec<u64> = Vec::new();
    match object {
        ObjectKind::Image(infos) => {
            let mut i: usize = 0;
            while i < infos.len()
                invariant
                    i <= infos@.len(),
                    r@ =~= Seq::new(
                        2 * i as nat,
                        |k: int| if k % 2 == 0 { infos@[k / 2].sampler } else { infos@[k / 2].view },
                    ),
                decreases infos.len() - i,
            {
                r.push(infos[i].sampler);
                r.push(infos[i].view);
                i = i + 1;
            }
        },
        ObjectKind::Buffer(infos) => {
            let mut i: usize = 0;
            while i < infos.len()
                invariant
                    i <= infos@.len(),
                    r@ =~= Seq::new(i as nat, |k: int| infos@[k].buffer),
                decreases infos.len() - i,
            {
                r.push(infos[i].buffer);
                i = i + 1;
            }
        },
    }
    r
}

/// The `VkWriteDescriptorSet` data of a write.
fn write_record(w: &WriteOp) -> (r: DescriptorWrite)
    ensures
        describes_write(r, Operation::Write(*w)),
{
    let mut image_infos: Vec<ImageInfo> = Vec::new();
    let mut buffer_infos: Vec<BufferInfo> = Vec::new();
    match &w.object {
        ObjectKind::Image(infos) => {
            let mut i: usize = 0;
            while i < infos.len()
                invariant
                    i <= infos@.len(),
                    buffer_infos@.len() == 0,
                    image_infos@.len() == i,
                    forall|k: int| 0 <= k < i ==> {
                        &&& (#[trigger] image_infos@[k]).sampler == infos@[k].sampler
                        &&& image_infos@[k].image_view == infos@[k].view
                        &&& image_infos@[k].image_layout == infos@[k].layout.spec_vk()
                    },
                decreases infos.len() - i,
            {
                image_infos.push(ImageInfo {
                    sampler: infos[i].sampler,
                    image_view: infos[i].view,
                    image_layout: infos[i].layout.to_vk(),
                });
                i = i + 1;
            }
        },
        ObjectKind::Buffer(infos) => {
            let mut i: usize = 0;
            while i < infos.len()
                invariant
                    i <= infos@.len(),
                    image_infos@.len() == 0,
                    buffer_infos@.len() == i,
                    forall|k: int| 0 <= k < i ==> {
                        &&& (#[trigger] buffer_infos@[k]).buffer == infos@[k].buffer
                        &&& buffer_infos@[k].offset == infos@[k].offset
                        &&& buffer_infos@[k].range == infos@[k].range
                    },
                decreases infos.len() - i,
            {
                buffer_infos.push(BufferInfo {
                    buffer: infos[i].buffer,
                    offset: infos[i].offset as u64,
                    range: infos[i].range as u64,
                });
                i = i + 1;
            }
        },
    }
    DescriptorWrite {
        dst_set: w.destination.set,
        dst_binding: w.destination.binding_index,
        dst_array_element: w.destination.array_element,
        descriptor_type: w.kind,
        image_infos,
        buffer_infos,
    }
}

/// The `VkCopyDescriptorSet` data of a copy.
fn copy_record(c: &CopyOp) -> (r: DescriptorCopy)
    ensures
        describes_copy(r, Operation::Copy(*c)),
{
    DescriptorCopy {
        src_set: c.source.set,
        src_binding: c.source.binding_index,
        src_array_element: c.source.array_element,
        dst_set: c.destination.set,
        dst_binding: c.destination.binding_index,
        dst_array_element: c.destination.array_element,
        descriptor_count: c.descriptor_count,
    }
}

impl Default for Queue {
    fn default() -> (r: Queue)
        ensures
            r.spec_operations() == Seq::<Operation>::empty(),
    {
        Queue { operations: Vec::new() }
    }
}

impl Queue {
    /// The enqueued operations, in order.
    pub closed spec fn spec_operations(&self) -> Seq<Operation> {
        self.operations@
    }

    /// Enqueues an operation to the list to be executed when `apply` is called.
    pub fn with(self, operation: Operation) -> (r: Queue)
        ensures
            r.spec_operations() == self.spec_operations().push(operation),
    {
        let mut this = self;
        this.operations.push(operation);
        this
    }

    /// The enqueued operations, in order.
    pub fn operations(&self) -> (r: &Vec<Operation>)
        ensures
            r@ == self.spec_operations(),
    {
        &self.operations
    }

    /// Applies all enqueued operations to the live sets, thereby consuming the queue.
    ///
    /// Every write to a live set binds its objects at its slot (the first live set with
    /// the descriptor's handle); a write to a set that is gone is skipped. Then every copy
    /// binds, at its destination, what its source had bound before the queue was applied.
    /// The result holds the device-side writes and copies, in queue order.
    pub fn apply(self, sets: &mut Vec<DescriptorSet>) -> (r: DescriptorUpdate)
        requires
            forall|j: int| 0 <= j < old(sets)@.len() ==> (#[trigger] old(sets)@[j]).well_formed(),
            copies_resolvable(self.spec_operations(), old(sets)@),
        ensures
            final(sets)@.len() == old(sets)@.len(),
            forall|j: int| 0 <= j < old(sets)@.len() ==> {
                &&& (#[trigger] final(sets)@[j]).well_formed()
                &&& final(sets)@[j].spec_handle() == old(sets)@[j].spec_handle()
                &&& final(sets)@[j].spec_layout() == old(sets)@[j].spec_layout()
                &&& final(sets)@[j].bound_map() == applied_table(self.spec_operations(), old(sets)@, j)
            },
            r.writes@.len() == write_positions(
                self.spec_operations(), self.spec_operations().len(), set_handles(old(sets)@), true).len(),
            forall|k: int| 0 <= k < r.writes@.len() ==> describes_write(
                #[trigger] r.writes@[k],
                self.spec_operations()[write_positions(
                    self.spec_operations(), self.spec_operations().len(), set_handles(old(sets)@), true)[k]],
            ),
            r.copies@.len() == copy_positions(self.spec_operations(), self.spec_operations().len()).len(),
            forall|k: int| 0 <= k < r.copies@.len() ==> describes_copy(
                #[trigger] r.copies@[k],
                self.spec_operations()[copy_positions(self.spec_operations(), self.spec_operations().len())[k]],
            ),
            r.skipped@.map_values(|p: usize| p as int) == write_positions(
                self.spec_operations(), self.spec_operations().len(), set_handles(old(sets)@), false),
    {
        let ghost ops = self.spec_operations();
        let ghost old_sets = sets@;
        let ghost hs = set_handles(old_sets);
        let n = self.operations.len();
        let mut writes: Vec<DescriptorWrite> = Vec::new();
        let mut copies: Vec<DescriptorCopy> = Vec::new();
        let mut skipped: Vec<usize> = Vec::new();
        // What each copy binds, read before anything is bound.
        let mut copied: Vec<Vec<u64>> = Vec::new();
        let mut i: usize = 0;
        while i < n
            invariant
                n == ops.len(),
                ops == self.spec_operations(),
                sets@ == old_sets,
                hs == set_handles(old_sets),
                i <= n,
                forall|j: int| 0 <= j < old_sets.len() ==> (#[trigger] old_sets[j]).well_formed(),
                copies_resolvable(ops, old_sets),
                writes@.len() == write_positions(ops, i as nat, hs, true).len(),
                forall|k: int| 0 <= k < writes@.len() ==>
                    describes_write(#[trigger] writes@[k], ops[write_positions(ops, i as nat, hs, true)[k]]),
                copies@.len() == copy_positions(ops, i as nat).len(),
                copied@.len() == copies@.len(),
                forall|k: int| 0 <= k < copies@.len() ==>
                    describes_copy(#[trigger] copies@[k], ops[copy_positions(ops, i as nat)[k]]),
                copied_matches(copied@, ops, copy_positions(ops, i as nat), old_sets),
                skipped@.map_values(|p: usize| p as int) == write_positions(ops, i as nat, hs, false),
            decreases n - i,
        {
            proof {
                assert(ops[i as int] == self.operations@[i as int]);
            }
            match &self.operations[i] {
                Operation::Write(w) => {
                    match find_set(sets, w.destination.set) {
                        Some(_) => {
                            let record = write_record(w);
                            writes.push(record);
                            proof {
                                assert(write_positions(ops, (i + 1) as nat, hs, true)
                                    == write_positions(ops, i as nat, hs, true).push(i as int));
                                assert(write_positions(ops, (i + 1) as nat, hs, false)
                                    == write_positions(ops, i as nat, hs, false));
                                assert(copy_positions(ops, (i + 1) as nat) == copy_positions(ops, i as nat));
                                assert(copied_matches(copied@, ops, copy_positions(ops, (i + 1) as nat), old_sets));
                            }
                        },
                        None => {
                            skipped.push(i);
                            proof {
                                assert(skipped@.map_values(|p: usize| p as int)
                                    =~= write_positions(ops, i as nat, hs, false).push(i as int));
                                assert(write_positions(ops, (i + 1) as nat, hs, true)
                                    == write_positions(ops, i as nat, hs, true));
                                assert(write_positions(ops, (i + 1) as nat, hs, false)
                                    == write_positions(ops, i as nat, hs, false).push(i as int));
                                assert(copy_positions(ops, (i + 1) as nat) == copy_positions(ops, i as nat));
                            }
                        },
                    }
                },
                Operation::Copy(c) => {
                    proof {
                        assert(match ops[i as int] {
                            Operation::Copy(c) => {
                                &&& hs.contains(c.destination.set)
                                &&& hs.contains(c.source.set)
                                &&& old_sets[set_index(old_sets, c.source)].bound_map().contains_key(slot_of(c.source))
                            },
                            Operation::Write(_) => true,
                        });
                    }
                    copies.push(copy_record(c));
                    match find_set(sets, c.source.set) {
                        Some(src) => {
                            proof {
                                let k = set_index(old_sets, c.source);
                                assert(is_first(hs, c.source.set, src as int));
                                lemma_first_unique(hs, c.source.set, k, src as int);
                            }
                            let objects = sets[src].get_bound((c.source.binding_index, c.source.array_element));
                            let ghost before_copied = copied@;
                            copied.push(objects);
                            proof {
                                let cp = copy_positions(ops, (i + 1) as nat);
                                assert(cp == copy_positions(ops, i as nat).push(i as int));
                                assert(copy_binds(ops[i as int], old_sets, objects@));
                                assert forall|k: int| 0 <= k < copied@.len() implies
                                    copy_binds(ops[cp[k]], old_sets, (#[trigger] copied@[k])@) by {
                                    if k < before_copied.len() {
                                        assert(cp[k] == copy_positions(ops, i as nat)[k]);
                                        assert(copied@[k] == before_copied[k]);
                                    } else {
                                        assert(cp[k] == i as int);
                                    }
                                }
                                assert(copied_matches(copied@, ops, cp, old_sets));
                                assert(write_positions(ops, (i + 1) as nat, hs, true)
                                    == write_positions(ops, i as nat, hs, true));
                                assert(write_positions(ops, (i + 1) as nat, hs, false)
                                    == write_positions(ops, i as nat, hs, false));
                                assert(copy_positions(ops, (i + 1) as nat) == copy_positions(ops, i as nat).push(i as int));
                            }
                        },
                        None => {
                            proof {
                                assert(false);
                            }
                        },
                    }
                },
            }
            i = i + 1;
        }
        let ghost copied_all = copied@;

        // The writes, in order.
        let mut i: usize = 0;
        while i < n
            invariant
                n == ops.len(),
                ops == self.spec_operations(),
                hs == set_handles(old_sets),
                i <= n,
                sets@.len() == old_sets.len(),
                set_handles(sets@) == hs,
                forall|j: int| 0 <= j < old_sets.len() ==> {
                    &&& (#[trigger] sets@[j]).well_formed()
                    &&& sets@[j].spec_handle() == old_sets[j].spec_handle()
                    &&& sets@[j].spec_layout() == old_sets[j].spec_layout()
                    &&& sets@[j].bound_map() == after_writes(ops, i as nat, hs, j, old_sets[j].bound_map())
                },
            decreases n - i,
        {
            proof {
                assert(ops[i as int] == self.operations@[i as int]);
            }
            match &self.operations[i] {
                Operation::Write(w) => {
                    match find_set(sets, w.destination.set) {
                        Some(j) => {
                            let objects = objects_of(&w.object);
                            let ghost before = sets@;
                            sets[j].set_bound((w.destination.binding_index, w.destination.array_element), objects);
                            proof {
                                assert forall|jj: int| 0 <= jj < old_sets.len() implies
                                    (#[trigger] sets@[jj]).bound_map()
                                        == after_writes(ops, (i + 1) as nat, hs, jj, old_sets[jj].bound_map()) by {
                                    if jj != j as int {
                                        assert(sets@[jj] == before[jj]);
                                        if is_first(hs, w.destination.set, jj) {
                                            lemma_first_unique(hs, w.destination.set, j as int, jj);
                                        }
                                    }
                                }
                            }
                        },
                        None => {
                            proof {
                                assert forall|jj: int| 0 <= jj < old_sets.len() implies
                                    !is_first(hs, w.destination.set, jj) by {
                                    if is_first(hs, w.destination.set, jj) {
                                        assert(hs.contains(w.destination.set));
                                    }
                                }
                            }
                        },
                    }
                },
                Operation::Copy(_) => {},
            }
            proof {
                assert(set_handles(sets@) =~= hs);
            }
            i = i + 1;
        }
        let ghost written = sets@;

        // Then the copies, in order.
        let total = copied.len();
        let mut i: usize = 0;
        let mut c_index: usize = 0;
        while i < n
            invariant
                n == ops.len(),
                ops == self.spec_operations(),
                hs == set_handles(old_sets),
                i <= n,
                c_index == copy_positions(ops, i as nat).len(),
                copied@ == copied_all,
                copied_all.len() == copy_positions(ops, n as nat).len(),
                total == copied_all.len(),
                copies_resolvable(ops, old_sets),
                copied_matches(copied_all, ops, copy_positions(ops, n as nat), old_sets),
                sets@.len() == old_sets.len(),
                set_handles(sets@) == hs,
                forall|j: int| 0 <= j < old_sets.len() ==> {
                    &&& (#[trigger] sets@[j]).well_formed()
                    &&& sets@[j].spec_handle() == old_sets[j].spec_handle()
                    &&& sets@[j].spec_layout() == old_sets[j].spec_layout()
                    &&& sets@[j].bound_map() == after_copies(ops, i as nat, old_sets, j, written[j].bound_map())
                },
            decreases n - i,
        {
            proof {
                assert(ops[i as int] == self.operations@[i as int]);
                lemma_copy_positions_prefix(ops, i as nat, n as nat);
                lemma_copy_positions_prefix(ops, i as nat, (i + 1) as nat);
            }
            match &self.operations[i] {
                Operation::Copy(c) => {
                    proof {
                        assert(match ops[i as int] {
                            Operation::Copy(c) => set_handles(old_sets).contains(c.destination.set),
                            Operation::Write(_) => true,
                        });
                        assert(set_handles(sets@) =~= hs);
                        lemma_copy_positions_prefix(ops, (i + 1) as nat, n as nat);
                        assert(copy_positions(ops, (i + 1) as nat) == copy_positions(ops, i as nat).push(i as int));
                    }
                    match find_set(sets, c.destination.set) {
                        Some(j) => {
                            let objects = copied[c_index].clone();
                            let ghost before = sets@;
                            sets[j].set_bound((c.destination.binding_index, c.destination.array_element), objects);
                            proof {
                                assert forall|jj: int| 0 <= jj < old_sets.len() implies
                                    (#[trigger] sets@[jj]).bound_map()
                                        == after_copies(ops, (i + 1) as nat, old_sets, jj, written[jj].bound_map()) by {
                                    if jj != j as int {
                                        assert(sets@[jj] == before[jj]);
                                        if is_first(hs, c.destination.set, jj) {
                                            lemma_first_unique(hs, c.destination.set, j as int, jj);
                                        }
                                    }
                                }
                            }
                        },
                        None => {
                            proof {
                                assert(false);
                            }
                        },
                    }
                    c_index = c_index + 1;
                },
                Operation::Write(_) => {},
            }
            proof {
                assert(set_handles(sets@) =~= hs);
            }
            i = i + 1;
        }
        DescriptorUpdate { writes, copies, skipped }
    }
}

/// The operation writes or copies into the slot `slot` of the `j`-th set.
pub open spec fn targets(op: Operation, hs: Seq<u64>, j: int, slot: (u32, u32)) -> bool {
    match op {
        Operation::Write(w) => is_first(hs, w.destination.set, j) && slot_of(w.destination) == slot,
        Operation::Copy(c) => is_first(hs, c.destination.set, j) && slot_of(c.destination) == slot,
    }
}

proof fn lemma_after_writes_last(
    ops: Seq<Operation>,
    n: nat,
    hs: Seq<u64>,
    j: int,
    m: Map<(u32, u32), Seq<u64>>,
    i: int,
    w: WriteOp,
)
    requires
        0 <= i < n <= ops.len(),
        ops[i] == Operation::Write(w),
        is_first(hs, w.destination.set, j),
        forall|k: int| i < k < n ==> !targets(#[trigger] ops[k], hs, j, slot_of(w.destination)),
    ensures
        after_writes(ops, n, hs, j, m).contains_key(slot_of(w.destination)),
        after_writes(ops, n, hs, j, m)[slot_of(w.destination)] == bound_by(w.object),
    decreases n,
{
    if n - 1 > i {
        lemma_after_writes_last(ops, (n - 1) as nat, hs, j, m, i, w);
        assert(!targets(ops[n - 1], hs, j, slot_of(w.destination)));
    }
}

proof fn lemma_after_copies_untouched(
    ops: Seq<Operation>,
    n: nat,
    sets: Seq<DescriptorSet>,
    j: int,
    m: Map<(u32, u32), Seq<u64>>,
    slot: (u32, u32),
)
    requires
        n <= ops.len(),
        forall|k: int| 0 <= k < n ==> !(#[trigger] ops[k] is Copy && targets(ops[k], set_handles(sets), j, slot)),
    ensures
        after_copies(ops, n, sets, j, m).contains_key(slot) == m.contains_key(slot),
        after_copies(ops, n, sets, j, m)[slot] == m[slot],
    decreases n,
{
    if n > 0 {
        lemma_after_copies_untouched(ops, (n - 1) as nat, sets, j, m, slot);
        assert(!(ops[n - 1] is Copy && targets(ops[n - 1], set_handles(sets), j, slot)));
    }
}

/// A write to a live set is what that slot holds once the queue is applied, when no
/// later write and no copy of the queue goes to the same slot (copies are applied after
/// all writes).
pub proof fn lemma_last_write_is_bound(ops: Seq<Operation>, sets: Seq<DescriptorSet>, i: int, j: int, w: WriteOp)
    requires
        0 <= i < ops.len(),
        ops[i] == Operation::Write(w),
        is_first(set_handles(sets), w.destination.set, j),
        forall|k: int| i < k < ops.len() ==> !targets(#[trigger] ops[k], set_handles(sets), j, slot_of(w.destination)),
        forall|k: int| 0 <= k < ops.len() ==> !(#[trigger] ops[k] is Copy && targets(ops[k], set_handles(sets), j, slot_of(w.destination))),
    ensures
        applied_table(ops, sets, j).contains_key(slot_of(w.destination)),
        applied_table(ops, sets, j)[slot_of(w.destination)] == bound_by(w.object),
{
    let hs = set_handles(sets);
    let slot = slot_of(w.destination);
    let written = after_writes(ops, ops.len(), hs, j, sets[j].bound_map());
    lemma_after_writes_last(ops, ops.len(), hs, j, sets[j].bound_map(), i, w);
    lemma_after_copies_untouched(ops, ops.len(), sets, j, written, slot);
}

/// A write to a set that is not live leaves every set's table as it was.
pub proof fn lemma_write_to_gone_set_changes_nothing(ops: Seq<Operation>, sets: Seq<DescriptorSet>, w: WriteOp, j: int)
    requires
        ops == seq![Operation::Write(w)],
        !set_handles(sets).contains(w.destination.set),
        0 <= j < sets.len(),
    ensures
        applied_table(ops, sets, j) == sets[j].bound_map(),
{
    let hs = set_handles(sets);
    assert(!is_first(hs, w.destination.set, j)) by {
        if is_first(hs, w.destination.set, j) {
            assert(hs[j] == w.destination.set);
            assert(hs.contains(w.destination.set));
        }
    }
    assert(ops[0] == Operation::Write(w));
    let m = sets[j].bound_map();
    assert(after_writes(ops, 0, hs, j, m) == m);
    assert(after_writes(ops, 1, hs, j, m) == m);
    assert(after_copies(ops, 0, sets, j, m) == m);
    assert(after_copies(ops, 1, sets, j, m) == m);
}

} // verus!
