//! Describing frame buffers (`VkFramebuffer`) and rings of them.
//! Image views are referred to by their raw `VkImageView` handles (0 is no view).

use vstd::prelude::*;
use crate::structs::Extent2D;
use crate::text::{decimal, to_decimal};
use vstd::string::StringExecFns;

verus! {

/// Information used to construct a frame buffer.
pub struct SingleBuilder {
    extent: Extent2D,
    layer_count: u32,
    name: String,
}

impl Default for SingleBuilder {
    /// A zero extent, one layer and no name.
    fn default() -> (r: Self)
        ensures
            r.spec_extent() == (Extent2D { width: 0, height: 0 }),
            r.spec_layer_count() == 1,
            r.spec_name() == Seq::<char>::empty(),
    {
        Self { extent: Extent2D { width: 0, height: 0 }, layer_count: 1, name: String::new() }
    }
}

impl SingleBuilder {
    pub closed spec fn spec_extent(&self) -> Extent2D {
        self.extent
    }

    pub closed spec fn spec_layer_count(&self) -> u32 {
        self.layer_count
    }

    pub closed spec fn spec_name(&self) -> Seq<char> {
        self.name@
    }

    /// Sets the resolution of the frame buffer.
    pub fn set_extent(self, extent: Extent2D) -> (r: Self)
        ensures
            r.spec_extent() == extent,
            r.spec_layer_count() == self.spec_layer_count(),
            r.spec_name() == self.spec_name(),
    {
        let mut this = self;
        this.extent = extent;
        this
    }

    /// Sets the name of the frame buffer.
    pub fn with_name(self, name: String) -> (r: Self)
        ensures
            r.spec_extent() == self.spec_extent(),
            r.spec_layer_count() == self.spec_layer_count(),
            r.spec_name() == name@,
    {
        let mut this = self;
        this.name = name;
        this
    }

    pub fn extent(&self) -> (r: Extent2D)
        ensures
            r == self.spec_extent(),
    {
        self.extent
    }

    pub fn layer_count(&self) -> (r: u32)
        ensures
            r == self.spec_layer_count(),
    {
        self.layer_count
    }

    pub fn name(&self) -> (r: &String)
        ensures
            r@ == self.spec_name(),
    {
        &self.name
    }
}

/// An image view which is attached to a frame buffer at a particular slot.
pub enum AttachedView {
    /// This slot has a different view for each frame.
    PerFrame(Vec<u64>),
    /// This slot has a single view which is shared by each frame.
    Shared(u64),
}

impl AttachedView {
    /// The view attached for a frame.
    pub open spec fn spec_frame(&self, index: int) -> u64 {
        match self {
            AttachedView::PerFrame(frames) => frames@[index],
            AttachedView::Shared(view) => *view,
        }
    }

    /// Does the attachment provide a view for each of `count` frames?
    pub open spec fn spec_has_frames(&self, count: nat) -> bool {
        match self {
            AttachedView::PerFrame(frames) => frames@.len() == count,
            AttachedView::Shared(_) => true,
        }
    }

    /// Returns true if the attachment supports the provided number of frames.
    fn has_frames(&self, count: usize) -> (r: bool)
        ensures
            r == self.spec_has_frames(count as nat),
    {
        match self {
            Self::PerFrame(frames) => frames.len() == count,
            Self::Shared(_) => true,
        }
    }

    /// Returns the view to attach for a specific frame.
    fn get_frame(&self, index: usize) -> (r: u64)
        requires
            self is PerFrame ==> index < self->PerFrame_0@.len(),
        ensures
            r == self.spec_frame(index as int),
    {
        match self {
            Self::PerFrame(frames) => frames[index],
            Self::Shared(view) => *view,
        }
    }
}

/// Information used to construct a ring of frame buffers, one per frame,
/// each with the same number of attachment slots.
pub struct MultiBuilder {
    name: String,
    extent: Extent2D,
    attachments_per_frame: Vec<Vec<u64>>,
}

impl Default for MultiBuilder {
    fn default() -> (r: Self)
        ensures
            r.well_formed(),
            r.spec_frames() == Seq::<Seq<u64>>::empty(),
            r.spec_name() == Seq::<char>::empty(),
            r.spec_extent() == (Extent2D { width: 0, height: 0 }),
    {
        let r = MultiBuilder { name: String::new(), extent: Extent2D { width: 0, height: 0 }, attachments_per_frame: Vec::new() };
        proof {
            assert(r.spec_frames() =~= Seq::<Seq<u64>>::empty());
        }
        r
    }
}

impl MultiBuilder {
    pub closed spec fn spec_name(&self) -> Seq<char> {
        self.name@
    }

    pub closed spec fn spec_extent(&self) -> Extent2D {
        self.extent
    }

    /// The attachment slots of each frame (0 for an empty slot).
    pub closed spec fn spec_frames(&self) -> Seq<Seq<u64>> {
        self.attachments_per_frame@.map_values(|frame: Vec<u64>| frame@)
    }

    /// Every frame has the same number of slots.
    pub open spec fn well_formed(&self) -> bool {
        forall|i: int| 0 <= i < self.spec_frames().len() ==> #[trigger] self.spec_frames()[i].len() == self.spec_frames()[0].len()
    }

    /// Sets the name of the frame buffers (frame `i` is named `"{name}.{i}"`).
    pub fn set_name(&mut self, name: String)
        ensures
            final(self).spec_name() == name@,
            final(self).spec_extent() == old(self).spec_extent(),
            final(self).spec_frames() == old(self).spec_frames(),
    {
        self.name = name;
    }

    pub fn name(&self) -> (r: &String)
        ensures
            r@ == self.spec_name(),
    {
        &self.name
    }

    /// Apply the resolution of the framebuffers.
    pub fn with_extent(self, extent: Extent2D) -> (r: Self)
        ensures
            r.spec_extent() == extent,
            r.spec_name() == self.spec_name(),
            r.spec_frames() == self.spec_frames(),
    {
        let mut this = self;
        this.set_extent(extent);
        this
    }

    /// Set the resolution of the framebuffers.
    pub fn set_extent(&mut self, extent: Extent2D)
        ensures
            final(self).spec_extent() == extent,
            final(self).spec_name() == old(self).spec_name(),
            final(self).spec_frames() == old(self).spec_frames(),
    {
        self.extent = extent;
    }

    pub fn extent(&self) -> (r: Extent2D)
        ensures
            r == self.spec_extent(),
    {
        self.extent
    }

    /// Makes room for `frame_count` frames of `attachment_count` empty slots each.
    /// The slots must not have been sized before.
    pub fn with_sizes(self, frame_count: usize, attachment_count: usize) -> (r: Self)
        requires
            self.spec_frames().len() == 0,
        ensures
            r.well_formed(),
            r.spec_frames() == Seq::new(frame_count as nat, |i: int| Seq::new(attachment_count as nat, |j: int| 0u64)),
            r.spec_name() == self.spec_name(),
            r.spec_extent() == self.spec_extent(),
    {
        let mut this = self;
        let mut frames: Vec<Vec<u64>> = Vec::new();
        let mut i: usize = 0;
        while i < frame_count
            invariant
                i <= frame_count,
                frames@.len() == i,
                forall|k: int| 0 <= k < i ==> #[trigger] frames@[k]@ == Seq::new(attachment_count as nat, |j: int| 0u64),
            decreases frame_count - i,
        {
            let mut frame: Vec<u64> = Vec::new();
            let mut j: usize = 0;
            while j < attachment_count
                invariant
                    j <= attachment_count,
                    frame@ == Seq::new(j as nat, |q: int| 0u64),
                decreases attachment_count - j,
            {
                frame.push(0);
                j = j + 1;
                proof {
                    assert(frame@ =~= Seq::new(j as nat, |q: int| 0u64));
                }
            }
            frames.push(frame);
            i = i + 1;
        }
        this.attachments_per_frame = frames;
        proof {
            assert(this.spec_frames() =~= Seq::new(frame_count as nat, |i: int| Seq::new(attachment_count as nat, |j: int| 0u64)));
        }
        this
    }

    /// Attaches a view (or one view per frame) to a slot of every frame.
    /// There must be at least one frame, the slot must exist, and a per-frame
    /// attachment must have a view for each frame.
    pub fn attach(&mut self, slot: usize, view: AttachedView)
        requires
            old(self).well_formed(),
            old(self).spec_frames().len() > 0,
            slot < old(self).spec_frames()[0].len(),
            view.spec_has_frames(old(self).spec_frames().len()),
        ensures
            final(self).well_formed(),
            final(self).spec_name() == old(self).spec_name(),
            final(self).spec_extent() == old(self).spec_extent(),
            final(self).spec_frames().len() == old(self).spec_frames().len(),
            forall|f: int| 0 <= f < old(self).spec_frames().len() ==>
                #[trigger] final(self).spec_frames()[f] == old(self).spec_frames()[f].update(slot as int, view.spec_frame(f)),
    {
        let ghost before = self.spec_frames();
        assert(before[0].len() == self.attachments_per_frame@[0]@.len());
        let n = self.attachments_per_frame.len();
        let has = view.has_frames(n);
        let mut index: usize = 0;
        while index < n
            invariant
                n == before.len(),
                index <= n,
                self.attachments_per_frame@.len() == n,
                slot < before[0].len(),
                view.spec_has_frames(n as nat),
                forall|i: int| 0 <= i < n ==> #[trigger] before[i].len() == before[0].len(),
                forall|f: int| 0 <= f < index ==>
                    #[trigger] self.attachments_per_frame@[f]@ == before[f].update(slot as int, view.spec_frame(f)),
                forall|f: int| index <= f < n ==> #[trigger] self.attachments_per_frame@[f]@ == before[f],
                self.name@ == old(self).name@,
                self.extent == old(self).extent,
            decreases n - index,
        {
            let frame_view = view.get_frame(index);
            let mut frame = self.attachments_per_frame[index].clone();
            assert(frame@ == before[index as int]);
            frame.set(slot, frame_view);
            self.attachments_per_frame.set(index, frame);
            index = index + 1;
        }
        proof {
            assert forall|f: int| 0 <= f < n implies #[trigger] self.spec_frames()[f] == before[f].update(slot as int, view.spec_frame(f)) by {
                assert(self.spec_frames()[f] == self.attachments_per_frame@[f]@);
            }
        }
    }

    /// The view handles attached to each frame, frame by frame.
    pub fn frames(&self) -> (r: &Vec<Vec<u64>>)
        ensures
            r@.map_values(|frame: Vec<u64>| frame@) == self.spec_frames(),
    {
        &self.attachments_per_frame
    }

    /// The frame buffers to create, one per frame: frame `i` is named `"{name}.{i}"`,
    /// has the builder's extent and one layer, and the views attached to its slots.
    /// Every slot must have a view.
    pub fn build(self) -> (r: Vec<(SingleBuilder, Vec<u64>)>)
        requires
            forall|f: int, k: int| 0 <= f < self.spec_frames().len() && 0 <= k < self.spec_frames()[f].len()
                ==> #[trigger] self.spec_frames()[f][k] != 0,
        ensures
            r@.len() == self.spec_frames().len(),
            forall|i: int| 0 <= i < r@.len() ==> {
                &&& (#[trigger] r@[i]).0.spec_name() == spec_frame_buffer_name(self.spec_name(), i as nat)
                &&& r@[i].0.spec_extent() == self.spec_extent()
                &&& r@[i].0.spec_layer_count() == 1
                &&& r@[i].1@ == self.spec_frames()[i]
            },
    {
        proof {
            reveal_strlit(".");
        }
        let mut buffers: Vec<(SingleBuilder, Vec<u64>)> = Vec::new();
        let mut i: usize = 0;
        while i < self.attachments_per_frame.len()
            invariant
                i <= self.attachments_per_frame@.len(),
                buffers@.len() == i,
                "."@ =~= seq!['.'],
                forall|k: int| 0 <= k < i ==> {
                    &&& (#[trigger] buffers@[k]).0.spec_name() == spec_frame_buffer_name(self.spec_name(), k as nat)
                    &&& buffers@[k].0.spec_extent() == self.spec_extent()
                    &&& buffers@[k].0.spec_layer_count() == 1
                    &&& buffers@[k].1@ == self.spec_frames()[k]
                },
            decreases self.attachments_per_frame.len() - i,
        {
            let mut name = self.name.clone();
            name.append(".");
            let number = to_decimal(i as u64);
            name.append(number.as_str());
            let builder = SingleBuilder::default().with_name(name).set_extent(self.extent);
            let attachments = self.attachments_per_frame[i].clone();
            proof {
                assert(attachments@ == self.spec_frames()[i as int]);
            }
            buffers.push((builder, attachments));
            i = i + 1;
        }
        buffers
    }
}

/// The name of frame `i` of a ring named `name`: `"{name}.{i}"`.
pub open spec fn spec_frame_buffer_name(name: Seq<char>, i: nat) -> Seq<char> {
    name + seq!['.'] + decimal(i)
}

} // verus!
