use vstd::prelude::*;

verus! {

/// The contents of a drop list, each kind in the order it was retired.
pub struct DropListView<M, D> {
    pub images: Seq<u64>,
    pub buffers: Seq<u64>,
    pub memory: Seq<M>,
    pub descriptors: Seq<D>,
}

impl<M, D> DropListView<M, D> {
    pub open spec fn empty() -> Self {
        DropListView {
            images: Seq::empty(),
            buffers: Seq::empty(),
            memory: Seq::empty(),
            descriptors: Seq::empty(),
        }
    }

    pub open spec fn is_empty(self) -> bool {
        &&& self.images.len() == 0
        &&& self.buffers.len() == 0
        &&& self.memory.len() == 0
        &&& self.descriptors.len() == 0
    }

    /// `self` followed by `other`, kind by kind.
    pub open spec fn concat(self, other: Self) -> Self {
        DropListView {
            images: self.images + other.images,
            buffers: self.buffers + other.buffers,
            memory: self.memory + other.memory,
            descriptors: self.descriptors + other.descriptors,
        }
    }

    /// Number of entries of every kind together.
    pub open spec fn len(self) -> nat {
        self.images.len() + self.buffers.len() + self.memory.len() + self.descriptors.len()
    }
}

/// An unordered bag of GPU objects awaiting destruction: image and buffer
/// handles, memory blocks of type `M` and descriptor sets of type `D`.
///
/// Entries are only appended while the list is in use; `cleanup` hands all
/// of them out at once, so that each is destroyed exactly once.
pub struct DropList<M, D> {
    images: Vec<u64>,
    buffers: Vec<u64>,
    memory: Vec<M>,
    descriptors: Vec<D>,
}

impl<M, D> View for DropList<M, D> {
    type V = DropListView<M, D>;

    closed spec fn view(&self) -> DropListView<M, D> {
        DropListView {
            images: self.images@,
            buffers: self.buffers@,
            memory: self.memory@,
            descriptors: self.descriptors@,
        }
    }
}

impl<M, D> DropList<M, D> {
    pub fn new() -> (r: Self)
        ensures
            r@ == DropListView::<M, D>::empty(),
    {
        let r = DropList {
            images: Vec::new(),
            buffers: Vec::new(),
            memory: Vec::new(),
            descriptors: Vec::new(),
        };
        assert(r@ =~= DropListView::<M, D>::empty());
        r
    }

    pub fn drop_image(&mut self, image: u64)
        ensures
            final(self)@ == (DropListView { images: old(self)@.images.push(image), ..old(self)@ }),
    {
        self.images.push(image);
    }

    pub fn drop_buffer(&mut self, buffer: u64)
        ensures
            final(self)@ == (DropListView { buffers: old(self)@.buffers.push(buffer), ..old(self)@ }),
    {
        self.buffers.push(buffer);
    }

    pub fn drop_descriptor_set(&mut self, ds: D)
        ensures
            final(self)@ == (DropListView { descriptors: old(self)@.descriptors.push(ds), ..old(self)@ }),
    {
        self.descriptors.push(ds);
    }

    pub fn drop_memory(&mut self, memory: M)
        ensures
            final(self)@ == (DropListView { memory: old(self)@.memory.push(memory), ..old(self)@ }),
    {
        self.memory.push(memory);
    }

    pub fn is_empty(&self) -> (r: bool)
        ensures
            r == self@.is_empty(),
    {
        self.images.len() == 0 && self.buffers.len() == 0 && self.memory.len() == 0
            && self.descriptors.len() == 0
    }

    /// Drains the list: everything it held is returned, to be destroyed by
    /// the caller, and the list is left empty. On an empty list nothing is
    /// handed out and nothing changes.
    pub fn cleanup(&mut self) -> (r: DropList<M, D>)
        ensures
            r@ == old(self)@,
            final(self)@ == DropListView::<M, D>::empty(),
            old(self)@.is_empty() ==> r@.is_empty() && final(self)@ == old(self)@,
    {
        let mut r = DropList::new();
        std::mem::swap(self, &mut r);
        proof {
            if old(self)@.is_empty() {
                assert(old(self)@.images =~= Seq::<u64>::empty());
                assert(old(self)@.buffers =~= Seq::<u64>::empty());
                assert(old(self)@.memory =~= Seq::<M>::empty());
                assert(old(self)@.descriptors =~= Seq::<D>::empty());
            }
        }
        r
    }

    /// Takes the list apart into its images, buffers, memory blocks and
    /// descriptor sets.
    pub fn into_parts(self) -> (r: (Vec<u64>, Vec<u64>, Vec<M>, Vec<D>))
        ensures
            r.0@ == self@.images,
            r.1@ == self@.buffers,
            r.2@ == self@.memory,
            r.3@ == self@.descriptors,
    {
        (self.images, self.buffers, self.memory, self.descriptors)
    }
}

} // verus!
