use vstd::prelude::*;
use crate::droplist::{DropList, DropListView};
use crate::error::BackendError;
use crate::sampler::{SamplerCache, SamplerDesc, desc_index};

verus! {

/// Raw handles of a primary command buffer and of the fence that signals
/// the completion of its last submission.
#[derive(Debug, Clone, Copy, PartialEq, Eq, Structural)]
pub struct CommandBuffer {
    pub cb: u64,
    pub fence: u64,
}

/// Raw handles of what one frame slot records and synchronises with: a
/// command pool, two command buffers with their fences, and two semaphores.
#[derive(Debug, Clone, Copy, PartialEq, Eq, Structural)]
pub struct FrameResources {
    pub pool: u64,
    pub swapchain_acquired: u64,
    pub rendering_finished: u64,
    pub main_cb: CommandBuffer,
    pub presentation_cb: CommandBuffer,
}

impl FrameResources {
    /// The handles that are destroyed when the slot is freed: the pool, the
    /// two fences and the two semaphores.
    pub open spec fn owned_handles(self) -> Seq<u64> {
        seq![
            self.pool,
            self.main_cb.fence,
            self.presentation_cb.fence,
            self.rendering_finished,
            self.swapchain_acquired,
        ]
    }
}

/// A device queue and the family it belongs to.
#[derive(Debug, Clone, Copy, PartialEq, Eq, Structural)]
pub struct Queue {
    pub raw: u64,
    pub queue_family_index: u32,
}

/// One frame slot: its resources, which physical slot it is, the objects
/// retired while it was being prepared, whether both of its fences are known
/// to be signaled, and whether a frame holds it.
pub struct SlotView<M, D> {
    pub resources: FrameResources,
    pub slot: nat,
    pub drop_list: DropListView<M, D>,
    pub fences_signaled: bool,
    pub owned: bool,
}

/// The device state: the slot the next frame acquires, the slot of the
/// previous frame, the objects retired since the last frame began, the main
/// queue and the samplers.
pub struct DeviceView<M, D> {
    pub main_queue: Queue,
    pub next: SlotView<M, D>,
    pub previous: SlotView<M, D>,
    pub current: DropListView<M, D>,
    pub samplers: Seq<u64>,
}

impl<M, D> DeviceView<M, D> {
    /// The state right after construction: both slots idle with signaled
    /// fences and empty drop lists, physical slot 0 addressed first.
    pub open spec fn created(
        main_queue: Queue,
        first: FrameResources,
        second: FrameResources,
        samplers: Seq<u64>,
    ) -> Self {
        DeviceView {
            main_queue,
            next: SlotView {
                resources: first,
                slot: 0,
                drop_list: DropListView::empty(),
                fences_signaled: true,
                owned: false,
            },
            previous: SlotView {
                resources: second,
                slot: 1,
                drop_list: DropListView::empty(),
                fences_signaled: true,
                owned: false,
            },
            current: DropListView::empty(),
            samplers,
        }
    }

    /// Every handle the device would destroy at teardown: the retired
    /// images and buffers, each slot's pool, fences and semaphores, and the
    /// samplers.
    pub open spec fn owned_handles(self) -> Seq<u64> {
        self.current.images + self.current.buffers + self.next.resources.owned_handles()
            + self.next.drop_list.images + self.next.drop_list.buffers
            + self.previous.resources.owned_handles() + self.previous.drop_list.images
            + self.previous.drop_list.buffers + self.samplers
    }

    pub open spec fn wf(self) -> bool {
        &&& self.next.slot + self.previous.slot == 1
        &&& !self.previous.owned
    }

    pub open spec fn frame_open(self) -> bool {
        self.next.owned
    }

    /// The state after `extra` has been retired.
    pub open spec fn retired(self, extra: DropListView<M, D>) -> Self {
        DeviceView { current: self.current.concat(extra), ..self }
    }

    /// The state after a frame began: the next slot, its fences waited on,
    /// is held by the frame and takes over the objects retired since the
    /// last frame began; its own earlier list has been handed out.
    pub open spec fn begun(self) -> Self {
        DeviceView {
            next: SlotView {
                drop_list: self.current,
                fences_signaled: true,
                owned: true,
                ..self.next
            },
            current: DropListView::empty(),
            ..self
        }
    }

    /// The state after the open frame ended: the slots swap places, and the
    /// slot just used may have GPU work in flight.
    pub open spec fn ended(self) -> Self {
        DeviceView {
            next: self.previous,
            previous: SlotView { fences_signaled: false, owned: false, ..self.next },
            ..self
        }
    }
}

/// One frame slot.
pub struct DeviceFrame<M, D> {
    resources: FrameResources,
    slot: usize,
    drop_list: DropList<M, D>,
    fences_signaled: bool,
    owned: bool,
}

impl<M, D> View for DeviceFrame<M, D> {
    type V = SlotView<M, D>;

    closed spec fn view(&self) -> SlotView<M, D> {
        SlotView {
            resources: self.resources,
            slot: self.slot as nat,
            drop_list: self.drop_list@,
            fences_signaled: self.fences_signaled,
            owned: self.owned,
        }
    }
}

impl<M, D> DeviceFrame<M, D> {
    fn new(resources: FrameResources, slot: usize) -> (r: Self)
        ensures
            r@ == (SlotView {
                resources,
                slot: slot as nat,
                drop_list: DropListView::<M, D>::empty(),
                fences_signaled: true,
                owned: false,
            }),
    {
        DeviceFrame { resources, slot, drop_list: DropList::new(), fences_signaled: true, owned: false }
    }
}

/// A frame in progress: the slot it holds, with copies of that slot's
/// handles and of the main queue. It is consumed when the frame ends.
pub struct Frame {
    slot: usize,
    queue: Queue,
    resources: FrameResources,
}

/// The slot a frame holds, its handles and the main queue.
pub struct FrameView {
    pub slot: nat,
    pub queue: Queue,
    pub resources: FrameResources,
}

impl View for Frame {
    type V = FrameView;

    closed spec fn view(&self) -> FrameView {
        FrameView { slot: self.slot as nat, queue: self.queue, resources: self.resources }
    }
}

/// What one queue submission carries, as raw handles and stage masks.
#[derive(Debug, Clone, Copy, PartialEq, Eq, Structural)]
pub struct SubmitInfo {
    pub queue: u64,
    pub command_buffer: u64,
    pub fence: u64,
    pub signal: u64,
    pub signal_stage: u64,
    pub wait: u64,
    pub wait_stage: u64,
}

impl Frame {
    pub fn queue(&self) -> (r: Queue)
        ensures
            r == self@.queue,
    {
        self.queue
    }

    pub fn resources(&self) -> (r: FrameResources)
        ensures
            r == self@.resources,
    {
        self.resources
    }

    /// What submitting `cb` on this frame's queue sends: wait on `wait` at
    /// `wait_stage`, signal `signal` at `signal_stage`, and signal the
    /// command buffer's own fence on completion.
    pub fn submit_info(
        &self,
        cb: CommandBuffer,
        signal: u64,
        signal_stage: u64,
        wait: u64,
        wait_stage: u64,
    ) -> (r: SubmitInfo)
        ensures
            r == (SubmitInfo {
                queue: self@.queue.raw,
                command_buffer: cb.cb,
                fence: cb.fence,
                signal,
                signal_stage,
                wait,
                wait_stage,
            }),
    {
        SubmitInfo {
            queue: self.queue.raw,
            command_buffer: cb.cb,
            fence: cb.fence,
            signal,
            signal_stage,
            wait,
            wait_stage,
        }
    }

    /// Ends this frame on `device`.
    pub fn end<M, D>(self, device: &mut Device<M, D>)
        requires
            old(device)@.frame_open(),
            old(device)@.next.slot == self@.slot,
        ensures
            final(device)@ == old(device)@.ended(),
    {
        device.end_frame(self);
    }
}

/// What remains to destroy of one frame slot at teardown.
pub struct FrameRelease<M, D> {
    pub resources: FrameResources,
    pub drop_list: DropList<M, D>,
}

/// Everything a device owns, handed out for destruction in this order: the
/// objects retired since the last frame began, the two slots, the samplers.
pub struct Teardown<M, D> {
    pub current: DropList<M, D>,
    pub first: FrameRelease<M, D>,
    pub second: FrameRelease<M, D>,
    pub samplers: Vec<u64>,
}

/// The device-level frame state machine with its deferred destruction.
///
/// Objects retired by the application go to the current drop list. When a
/// frame begins, the slot it acquires hands out its own list (filled two
/// frames earlier, and whose GPU work has been waited on) and takes the
/// current list over. When the frame ends the two slots swap places.
pub struct Device<M, D> {
    main_queue: Queue,
    next: DeviceFrame<M, D>,
    previous: DeviceFrame<M, D>,
    current_drop_list: DropList<M, D>,
    samplers: SamplerCache,
}

impl<M, D> View for Device<M, D> {
    type V = DeviceView<M, D>;

    closed spec fn view(&self) -> DeviceView<M, D> {
        DeviceView {
            main_queue: self.main_queue,
            next: self.next@,
            previous: self.previous@,
            current: self.current_drop_list@,
            samplers: self.samplers@,
        }
    }
}

impl<M, D> Device<M, D> {
    pub fn new(
        main_queue: Queue,
        first: FrameResources,
        second: FrameResources,
        samplers: SamplerCache,
    ) -> (r: Self)
        ensures
            r@ == DeviceView::<M, D>::created(main_queue, first, second, samplers@),
            r@.wf(),
    {
        Device {
            main_queue,
            next: DeviceFrame::new(first, 0),
            previous: DeviceFrame::new(second, 1),
            current_drop_list: DropList::new(),
            samplers,
        }
    }

    pub fn main_queue(&self) -> (r: Queue)
        ensures
            r == self@.main_queue,
    {
        self.main_queue
    }

    pub fn is_frame_open(&self) -> (r: bool)
        ensures
            r == self@.frame_open(),
    {
        self.next.owned
    }

    /// Whether `frame` is the open frame of this device, which `end_frame`
    /// asks for.
    pub fn holds(&self, frame: &Frame) -> (r: bool)
        ensures
            r == (self@.frame_open() && self@.next.slot == frame@.slot),
    {
        self.next.owned && self.next.slot == frame.slot
    }

    /// The slot the next frame acquires: the caller waits on both of its
    /// fences and resets its pool before `begin_frame`.
    pub fn next_frame_resources(&self) -> (r: FrameResources)
        ensures
            r == self@.next.resources,
    {
        self.next.resources
    }

    pub fn drop_image(&mut self, image: u64)
        ensures
            final(self)@ == old(self)@.retired(
                DropListView { images: seq![image], ..DropListView::empty() },
            ),
    {
        self.current_drop_list.drop_image(image);
        assert(self.current_drop_list@.images =~= old(self)@.current.images + seq![image]);
        assert(self.current_drop_list@.buffers =~= old(self)@.current.buffers + Seq::empty());
        assert(self.current_drop_list@.memory =~= old(self)@.current.memory + Seq::empty());
        assert(self.current_drop_list@.descriptors =~= old(self)@.current.descriptors
            + Seq::empty());
    }

    pub fn drop_buffer(&mut self, buffer: u64)
        ensures
            final(self)@ == old(self)@.retired(
                DropListView { buffers: seq![buffer], ..DropListView::empty() },
            ),
    {
        self.current_drop_list.drop_buffer(buffer);
        assert(self.current_drop_list@.images =~= old(self)@.current.images + Seq::empty());
        assert(self.current_drop_list@.buffers =~= old(self)@.current.buffers + seq![buffer]);
        assert(self.current_drop_list@.memory =~= old(self)@.current.memory + Seq::empty());
        assert(self.current_drop_list@.descriptors =~= old(self)@.current.descriptors
            + Seq::empty());
    }

    pub fn drop_memory(&mut self, memory: M)
        ensures
            final(self)@ == old(self)@.retired(
                DropListView { memory: seq![memory], ..DropListView::empty() },
            ),
    {
        self.current_drop_list.drop_memory(memory);
        assert(self.current_drop_list@.images =~= old(self)@.current.images + Seq::empty());
        assert(self.current_drop_list@.buffers =~= old(self)@.current.buffers + Seq::empty());
        assert(self.current_drop_list@.memory =~= old(self)@.current.memory + seq![memory]);
        assert(self.current_drop_list@.descriptors =~= old(self)@.current.descriptors
            + Seq::empty());
    }

    pub fn drop_descriptor_set(&mut self, ds: D)
        ensures
            final(self)@ == old(self)@.retired(
                DropListView { descriptors: seq![ds], ..DropListView::empty() },
            ),
    {
        self.current_drop_list.drop_descriptor_set(ds);
        assert(self.current_drop_list@.images =~= old(self)@.current.images + Seq::empty());
        assert(self.current_drop_list@.buffers =~= old(self)@.current.buffers + Seq::empty());
        assert(self.current_drop_list@.memory =~= old(self)@.current.memory + Seq::empty());
        assert(self.current_drop_list@.descriptors =~= old(self)@.current.descriptors
            + seq![ds]);
    }

    /// Begins a frame on the next slot. `prepared` is the outcome of waiting,
    /// without timeout, on both fences of `next_frame_resources()` and of
    /// resetting its command pool.
    ///
    /// On success the frame holds the slot, and the objects retired into the
    /// slot two frames ago come back for destruction; the objects retired
    /// since the last frame began now belong to the slot. A failed wait or
    /// reset is reported with its status code and changes nothing.
    pub fn begin_frame(&mut self, prepared: Result<(), i32>) -> (r: Result<
        (Frame, DropList<M, D>),
        BackendError,
    >)
        requires
            !old(self)@.frame_open(),
        ensures
            r is Ok <==> prepared is Ok,
            prepared is Err ==> r == Err::<(Frame, DropList<M, D>), BackendError>(
                BackendError::VulkanError(prepared->Err_0),
            ) && final(self)@ == old(self)@,
            prepared is Ok ==> {
                &&& final(self)@ == old(self)@.begun()
                &&& r->Ok_0.1@ == old(self)@.next.drop_list
                &&& r->Ok_0.0@.slot == old(self)@.next.slot
                &&& r->Ok_0.0@.resources == old(self)@.next.resources
                &&& r->Ok_0.0@.queue == old(self)@.main_queue
            },
            old(self)@.wf() ==> final(self)@.wf(),
    {
        match prepared {
            Err(code) => Err(BackendError::VulkanError(code)),
            Ok(()) => {
                self.next.fences_signaled = true;
                let reclaimed = self.next.drop_list.cleanup();
                std::mem::swap(&mut self.next.drop_list, &mut self.current_drop_list);
                self.next.owned = true;
                let frame = Frame {
                    slot: self.next.slot,
                    queue: self.main_queue,
                    resources: self.next.resources,
                };
                Ok((frame, reclaimed))
            },
        }
    }

    /// Ends the open frame: the slot it held becomes the previous one, and
    /// the previous slot becomes the next to acquire.
    pub fn end_frame(&mut self, frame: Frame)
        requires
            old(self)@.frame_open(),
            old(self)@.next.slot == frame@.slot,
        ensures
            final(self)@ == old(self)@.ended(),
            old(self)@.wf() ==> final(self)@.wf(),
    {
        self.next.owned = false;
        self.next.fences_signaled = false;
        std::mem::swap(&mut self.next, &mut self.previous);
    }

    /// The sampler built for `desc`, or `None` for a configuration outside
    /// the precomputed set.
    pub fn get_sampler(&self, desc: SamplerDesc) -> (r: Option<u64>)
        ensures
            r == (match desc_index(desc) {
                Some(i) => Some(self@.samplers[i]),
                None => None,
            }),
    {
        self.samplers.get(desc)
    }

    /// Takes the device apart for destruction, once the GPU is idle: every
    /// object it still owns is handed out once.
    pub fn teardown(self) -> (r: Teardown<M, D>)
        ensures
            r.current@ == self@.current,
            r.first.resources == self@.next.resources,
            r.first.drop_list@ == self@.next.drop_list,
            r.second.resources == self@.previous.resources,
            r.second.drop_list@ == self@.previous.drop_list,
            r.samplers@ == self@.samplers,
    {
        Teardown {
            current: self.current_drop_list,
            first: FrameRelease { resources: self.next.resources, drop_list: self.next.drop_list },
            second: FrameRelease {
                resources: self.previous.resources,
                drop_list: self.previous.drop_list,
            },
            samplers: self.samplers.into_handles(),
        }
    }
}

/// Deferred destruction is two frames deep. What is retired before a frame
/// begins is handed out neither when that frame begins nor when the frame
/// after it begins, whatever is retired in between (`a`, `b`, `c`, `d`);
/// it is handed out, all of it, when the third frame begins, from the slot
/// of the first of those frames, whose fences have just been waited on.
pub proof fn lemma_two_frame_deferral<M, D>(
    s: DeviceView<M, D>,
    a: DropListView<M, D>,
    b: DropListView<M, D>,
    c: DropListView<M, D>,
    d: DropListView<M, D>,
)
    requires
        s.wf(),
        !s.frame_open(),
    ensures
        ({
            let t1 = s.begun().retired(a).ended().retired(b);
            let t2 = t1.begun().retired(c).ended().retired(d);
            &&& t1.wf() && !t1.frame_open()
            &&& t1.next.drop_list == s.previous.drop_list
            &&& t2.wf() && !t2.frame_open()
            &&& t2.next.drop_list == s.current
            &&& t2.next.slot == s.next.slot
            &&& t2.begun().next.fences_signaled
            &&& t2.next.drop_list.len() == s.current.len()
        }),
{
}

/// Ending a frame swaps the two slots: the previous one becomes the next to
/// acquire and the other way round; after two full frames each slot is back
/// in its place, with the same resources.
pub proof fn lemma_rotation_round_trip<M, D>(s: DeviceView<M, D>)
    requires
        s.wf(),
        !s.frame_open(),
    ensures
        s.begun().ended().next.slot == s.previous.slot,
        s.begun().ended().previous.slot == s.next.slot,
        s.begun().ended().next.resources == s.previous.resources,
        s.begun().ended().previous.resources == s.next.resources,
        s.begun().ended().wf(),
        s.begun().ended().begun().ended().next.slot == s.next.slot,
        s.begun().ended().begun().ended().previous.slot == s.previous.slot,
        s.begun().ended().begun().ended().next.resources == s.next.resources,
        s.begun().ended().begun().ended().previous.resources == s.previous.resources,
{
}

/// A device that never began a frame owns exactly what it was created with:
/// no retired object, and each slot's pool, fences and semaphores and each
/// sampler once, so teardown destroys each of them once.
pub proof fn lemma_fresh_teardown<M, D>(
    main_queue: Queue,
    first: FrameResources,
    second: FrameResources,
    samplers: Seq<u64>,
)
    ensures
        ({
            let s = DeviceView::<M, D>::created(main_queue, first, second, samplers);
            &&& s.current.is_empty()
            &&& s.next.drop_list.is_empty()
            &&& s.previous.drop_list.is_empty()
            &&& s.owned_handles() == first.owned_handles() + second.owned_handles() + samplers
        }),
{
    let s = DeviceView::<M, D>::created(main_queue, first, second, samplers);
    let e = Seq::<u64>::empty();
    assert(s.owned_handles() =~= first.owned_handles() + second.owned_handles() + samplers) by {
        assert(e + e + first.owned_handles() =~= first.owned_handles());
        assert(first.owned_handles() + e + e + second.owned_handles() + e + e
            =~= first.owned_handles() + second.owned_handles());
    }
}

} // verus!
