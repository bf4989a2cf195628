//! The ring of frame slots and the per-frame state machine.
//!
//! A frame is rendered by alternating decisions taken here with work done on
//! the device by the caller: `Frames::step` takes what the device reported
//! for the previous request and answers with the next request.

use vstd::prelude::*;
use crate::device::{ObjectKind, Teardown};
use crate::vk;

verus! {

/// What the host knows of one frame slot.
#[derive(Clone, Copy, Debug, PartialEq, Eq, Structural)]
pub enum SlotState {
    /// The fence is signaled; nothing of this slot is in use by the device.
    Idle,
    /// The fence is unsignaled and no work of this slot has been handed to
    /// the device: waiting on the fence would never return.
    Armed,
    /// The host is recording the slot's command buffer.
    Recording,
    /// The slot's work has been submitted; its fence signals on completion.
    Submitted,
}

/// The request that is outstanding on the device, if any.
#[derive(Clone, Copy, Debug, PartialEq, Eq, Structural)]
pub enum FrameStage {
    /// Between two frames.
    Ready,
    AwaitFence,
    AwaitReset,
    AwaitImage,
    AwaitRecord { image_index: u32 },
    AwaitSubmit { image_index: u32 },
    AwaitPresent,
    AwaitResize,
    /// A fatal error was reported; no further frame is rendered.
    Halted,
}

/// What the caller reports back to the state machine.
#[derive(Clone, Copy, Debug, PartialEq, Eq, Structural)]
pub enum FrameEvent {
    /// A new frame is due.
    Start,
    /// The last request succeeded.
    Completed,
    /// The image acquisition succeeded with this swapchain image.
    Acquired { image_index: u32 },
    /// Acquisition or presentation found the swapchain out of date.
    OutOfDate,
    /// The last request failed for any other reason.
    Failed,
}

impl FrameEvent {
    /// What a result code of the image acquisition means. A suboptimal
    /// swapchain still gave an image, which is rendered to.
    pub open spec fn spec_of_acquire(code: i32, image_index: u32) -> FrameEvent {
        if code == vk::SUCCESS || code == vk::SUBOPTIMAL_KHR {
            FrameEvent::Acquired { image_index }
        } else if code == vk::ERROR_OUT_OF_DATE_KHR {
            FrameEvent::OutOfDate
        } else {
            FrameEvent::Failed
        }
    }

    /// What a result code of the presentation means. A suboptimal
    /// swapchain still showed the image.
    pub open spec fn spec_of_present(code: i32) -> FrameEvent {
        if code == vk::SUCCESS || code == vk::SUBOPTIMAL_KHR {
            FrameEvent::Completed
        } else if code == vk::ERROR_OUT_OF_DATE_KHR {
            FrameEvent::OutOfDate
        } else {
            FrameEvent::Failed
        }
    }

    /// What the result code of any other request means.
    pub open spec fn spec_of_result(code: i32) -> FrameEvent {
        if code == vk::SUCCESS {
            FrameEvent::Completed
        } else {
            FrameEvent::Failed
        }
    }

    /// The event for the result code of an image acquisition that named
    /// the image `image_index`.
    pub fn of_acquire(code: i32, image_index: u32) -> (r: FrameEvent)
        ensures
            r == Self::spec_of_acquire(code, image_index),
    {
        if code == vk::SUCCESS || code == vk::SUBOPTIMAL_KHR {
            FrameEvent::Acquired { image_index }
        } else if code == vk::ERROR_OUT_OF_DATE_KHR {
            FrameEvent::OutOfDate
        } else {
            FrameEvent::Failed
        }
    }

    /// The event for the result code of a presentation.
    pub fn of_present(code: i32) -> (r: FrameEvent)
        ensures
            r == Self::spec_of_present(code),
    {
        if code == vk::SUCCESS || code == vk::SUBOPTIMAL_KHR {
            FrameEvent::Completed
        } else if code == vk::ERROR_OUT_OF_DATE_KHR {
            FrameEvent::OutOfDate
        } else {
            FrameEvent::Failed
        }
    }

    /// The event for the result code of any other request.
    pub fn of_result(code: i32) -> (r: FrameEvent)
        ensures
            r == Self::spec_of_result(code),
    {
        if code == vk::SUCCESS {
            FrameEvent::Completed
        } else {
            FrameEvent::Failed
        }
    }
}

/// How a frame ended.
#[derive(Clone, Copy, Debug, PartialEq, Eq, Structural)]
pub enum FrameOutcome {
    /// The frame was submitted and its image handed to the presentation engine.
    Presented,
    /// The swapchain was stale and has been rebuilt; nothing was shown.
    Skipped,
    /// A device error that is not recovered from.
    Fatal,
}

/// What the state machine asks of the caller next.
#[derive(Clone, Copy, Debug, PartialEq, Eq, Structural)]
pub enum FrameStep {
    /// Block until the fence of `slot` signals.
    WaitFence { slot: usize },
    /// Reset the fence of `slot` to unsignaled.
    ResetFence { slot: usize },
    /// Acquire the next swapchain image, signaling the image-available
    /// semaphore of `slot`.
    Acquire { slot: usize },
    /// Reset and record the command buffer of `slot` for `image_index`.
    Record { slot: usize, image_index: u32 },
    /// Submit the command buffer of `slot`, signaling its fence on completion.
    Submit { slot: usize },
    /// Present `image_index`, waiting on the render-complete semaphore of `slot`.
    Present { slot: usize, image_index: u32 },
    /// Rebuild swapchain, render target and pipeline.
    Resize,
    /// The frame is over.
    Finished(FrameOutcome),
}

/// The mathematical state of a ring: its cursor, one state per slot, and
/// the outstanding request.
pub struct RingModel {
    pub cursor: int,
    pub slots: Seq<SlotState>,
    pub stage: FrameStage,
}

impl RingModel {
    /// The ring as created: cursor at slot 0, every slot idle when the
    /// fences were created signaled, armed when they were not.
    pub open spec fn init(n: nat, signaled: bool) -> RingModel {
        RingModel {
            cursor: 0,
            slots: Seq::new(
                n,
                |i: int|
                    if signaled {
                        SlotState::Idle
                    } else {
                        SlotState::Armed
                    },
            ),
            stage: FrameStage::Ready,
        }
    }

    /// The state of the slot under the cursor.
    pub open spec fn current(self) -> SlotState {
        self.slots[self.cursor]
    }

    /// The state that the active slot must have at each stage.
    pub open spec fn stage_fits(self) -> bool {
        match self.stage {
            FrameStage::Ready => self.current() != SlotState::Recording,
            FrameStage::AwaitFence => self.current() == SlotState::Idle || self.current()
                == SlotState::Submitted,
            FrameStage::AwaitReset => self.current() == SlotState::Idle,
            FrameStage::AwaitImage => self.current() == SlotState::Armed,
            FrameStage::AwaitRecord { .. } => self.current() == SlotState::Recording,
            FrameStage::AwaitSubmit { .. } => self.current() == SlotState::Recording,
            FrameStage::AwaitPresent => self.current() == SlotState::Submitted,
            FrameStage::AwaitResize => self.current() != SlotState::Recording,
            FrameStage::Halted => true,
        }
    }

    /// Well-formedness of a ring of `n` slots: the cursor names a slot, only
    /// the active slot may be recording, and its state fits the stage.
    pub open spec fn wf(self, n: nat) -> bool {
        &&& self.slots.len() == n
        &&& 0 <= self.cursor < n
        &&& forall|i: int|
            0 <= i < n && i != self.cursor ==> #[trigger] self.slots[i] != SlotState::Recording
        &&& self.stage_fits()
    }

    /// The slot after the cursor, wrapping round.
    pub open spec fn next_cursor(self) -> int {
        (self.cursor + 1) % (self.slots.len() as int)
    }

    /// The ring with the active slot in state `s` and the stage `stage`.
    pub open spec fn moved(self, s: SlotState, stage: FrameStage) -> RingModel {
        RingModel { cursor: self.cursor, slots: self.slots.update(self.cursor, s), stage }
    }

    /// The ring with the stage `stage` and nothing else changed.
    pub open spec fn staged(self, stage: FrameStage) -> RingModel {
        RingModel { stage, ..self }
    }

    /// The ring with the cursor advanced by one slot and the stage `stage`.
    pub open spec fn advanced(self, stage: FrameStage) -> RingModel {
        RingModel { cursor: self.next_cursor(), slots: self.slots, stage }
    }

    /// The ring halted on a fatal error.
    pub open spec fn halted(self) -> (RingModel, FrameStep) {
        (self.staged(FrameStage::Halted), FrameStep::Finished(FrameOutcome::Fatal))
    }

    /// The transition function: the ring after `event`, and the next request.
    ///
    /// A frame runs: wait for the slot's fence, reset it, acquire an image,
    /// record, submit, present, advance the cursor. An armed slot skips the
    /// wait and the reset, since its fence would never signal. A stale
    /// swapchain at acquisition or presentation leads to a resize and ends
    /// the frame without an error; any other failure, and any event that
    /// does not answer the outstanding request, halts the ring.
    pub open spec fn step(self, event: FrameEvent) -> (RingModel, FrameStep) {
        let slot = self.cursor as usize;
        match (self.stage, event) {
            (FrameStage::Ready, FrameEvent::Start) => {
                if self.current() == SlotState::Armed {
                    (self.staged(FrameStage::AwaitImage), FrameStep::Acquire { slot })
                } else {
                    (self.staged(FrameStage::AwaitFence), FrameStep::WaitFence { slot })
                }
            },
            (FrameStage::AwaitFence, FrameEvent::Completed) => (
                self.moved(SlotState::Idle, FrameStage::AwaitReset),
                FrameStep::ResetFence { slot },
            ),
            (FrameStage::AwaitReset, FrameEvent::Completed) => (
                self.moved(SlotState::Armed, FrameStage::AwaitImage),
                FrameStep::Acquire { slot },
            ),
            (FrameStage::AwaitImage, FrameEvent::Acquired { image_index }) => (
                self.moved(SlotState::Recording, FrameStage::AwaitRecord { image_index }),
                FrameStep::Record { slot, image_index },
            ),
            (FrameStage::AwaitImage, FrameEvent::OutOfDate) => (
                self.staged(FrameStage::AwaitResize),
                FrameStep::Resize,
            ),
            (FrameStage::AwaitRecord { image_index }, FrameEvent::Completed) => (
                self.staged(FrameStage::AwaitSubmit { image_index }),
                FrameStep::Submit { slot },
            ),
            (FrameStage::AwaitSubmit { image_index }, FrameEvent::Completed) => (
                self.moved(SlotState::Submitted, FrameStage::AwaitPresent),
                FrameStep::Present { slot, image_index },
            ),
            (FrameStage::AwaitPresent, FrameEvent::Completed) => (
                self.advanced(FrameStage::Ready),
                FrameStep::Finished(FrameOutcome::Presented),
            ),
            (FrameStage::AwaitPresent, FrameEvent::OutOfDate) => (
                self.advanced(FrameStage::AwaitResize),
                FrameStep::Resize,
            ),
            (FrameStage::AwaitPresent, _) => (
                self.advanced(FrameStage::Halted),
                FrameStep::Finished(FrameOutcome::Fatal),
            ),
            (FrameStage::AwaitResize, FrameEvent::Completed) => (
                self.staged(FrameStage::Ready),
                FrameStep::Finished(FrameOutcome::Skipped),
            ),
            _ => self.halted(),
        }
    }

    /// The number of slots whose work is with the device.
    pub open spec fn submitted_count(self) -> nat {
        self.slots.filter(|s: SlotState| s == SlotState::Submitted).len()
    }
}

/// The ring as it is created is well-formed.
pub proof fn lemma_init_wf(n: nat, signaled: bool)
    requires
        n >= 1,
    ensures
        RingModel::init(n, signaled).wf(n),
{
}

/// Every transition keeps a ring well-formed, whatever the event.
pub proof fn lemma_step_wf(ring: RingModel, n: nat, event: FrameEvent)
    requires
        ring.wf(n),
    ensures
        ring.step(event).0.wf(n),
{
    let next = ring.step(event).0;
    assert(0 <= ring.next_cursor() < n) by (nonlinear_arith)
        requires
            0 <= ring.cursor < n,
            ring.slots.len() == n,
    ;
    assert(next.slots.len() == n);
    assert(forall|i: int|
        0 <= i < n && i != next.cursor ==> #[trigger] next.slots[i] != SlotState::Recording);
}

/// At most as many slots are submitted as the ring has slots.
pub proof fn lemma_submitted_bounded(ring: RingModel, n: nat)
    requires
        ring.wf(n),
    ensures
        ring.submitted_count() <= n,
{
    ring.slots.lemma_filter_len(|s: SlotState| s == SlotState::Submitted);
}

/// A slot leaves the submitted state only when its fence was waited for
/// and reported signaled; no other transition touches a submitted slot.
pub proof fn lemma_submitted_leaves_by_fence(ring: RingModel, n: nat, event: FrameEvent, i: int)
    requires
        ring.wf(n),
        0 <= i < n,
        ring.slots[i] == SlotState::Submitted,
        ring.step(event).0.slots[i] != SlotState::Submitted,
    ensures
        i == ring.cursor,
        ring.stage == FrameStage::AwaitFence,
        event == FrameEvent::Completed,
        ring.step(event).0.slots[i] == SlotState::Idle,
        ring.step(event).1 == (FrameStep::ResetFence { slot: i as usize }),
{
}

/// Recording starts only on a slot whose fence was reset after it had been
/// seen signaled, or that never had work submitted: never on a submitted one.
pub proof fn lemma_recording_starts_armed(ring: RingModel, n: nat, event: FrameEvent, i: int)
    requires
        ring.wf(n),
        0 <= i < n,
        ring.slots[i] != SlotState::Recording,
        ring.step(event).0.slots[i] == SlotState::Recording,
    ensures
        i == ring.cursor,
        ring.slots[i] == SlotState::Armed,
        ring.stage == FrameStage::AwaitImage,
        event is Acquired,
{
}

/// The cursor moves only when a presentation was answered, and by exactly
/// one slot, wrapping round.
pub proof fn lemma_cursor_advances_once(ring: RingModel, n: nat, event: FrameEvent)
    requires
        ring.wf(n),
    ensures
        ring.stage == FrameStage::AwaitPresent ==> ring.step(event).0.cursor == (ring.cursor + 1)
            % (n as int),
        ring.stage != FrameStage::AwaitPresent ==> ring.step(event).0.cursor == ring.cursor,
{
}

/// The mathematical state of a `Frames`: the ring, and the handles of
/// each slot.
pub struct FramesModel {
    pub ring: RingModel,
    pub cmd_bufs: Seq<u64>,
    pub render_semaphores: Seq<u64>,
    pub present_semaphores: Seq<u64>,
    pub frame_fences: Seq<u64>,
}

impl FramesModel {
    /// Well-formedness for `n` slots: the ring's, and four handles per
    /// slot.
    pub open spec fn wf(self, n: nat) -> bool {
        &&& self.ring.wf(n)
        &&& self.cmd_bufs.len() == n
        &&& self.render_semaphores.len() == n
        &&& self.present_semaphores.len() == n
        &&& self.frame_fences.len() == n
    }

    /// The state after `event`, and the next request: the ring moves as
    /// `RingModel::step` says, the handles stay.
    pub open spec fn step(self, event: FrameEvent) -> (FramesModel, FrameStep) {
        (FramesModel { ring: self.ring.step(event).0, ..self }, self.ring.step(event).1)
    }

    /// The state with the ring `ring` and the same handles.
    pub open spec fn with_ring(self, ring: RingModel) -> FramesModel {
        FramesModel { ring, ..self }
    }
}

/// A ring of `N` frame slots: per slot a command buffer, a render-complete
/// semaphore, an image-available semaphore and a frame fence, with the
/// cursor that names the active slot.
pub struct Frames<const N: usize> {
    current_frame: usize,
    states: [SlotState; N],
    stage: FrameStage,
    cmd_bufs: [u64; N],
    render_semaphores: [u64; N],
    present_semaphores: [u64; N],
    frame_fences: [u64; N],
}

impl<const N: usize> View for Frames<N> {
    type V = FramesModel;

    closed spec fn view(&self) -> FramesModel {
        FramesModel {
            ring: RingModel {
                cursor: self.current_frame as int,
                slots: self.states@,
                stage: self.stage,
            },
            cmd_bufs: self.cmd_bufs@,
            render_semaphores: self.render_semaphores@,
            present_semaphores: self.present_semaphores@,
            frame_fences: self.frame_fences@,
        }
    }
}

impl<const N: usize> Frames<N> {
    /// The ring's invariant: its model is well-formed.
    pub open spec fn wf(&self) -> bool {
        self@.wf(N as nat)
    }

    /// The command buffers, by slot.
    pub open spec fn spec_cmd_bufs(&self) -> Seq<u64> {
        self@.cmd_bufs
    }

    /// The render-complete semaphores, by slot.
    pub open spec fn spec_render_semaphores(&self) -> Seq<u64> {
        self@.render_semaphores
    }

    /// The image-available semaphores, by slot.
    pub open spec fn spec_present_semaphores(&self) -> Seq<u64> {
        self@.present_semaphores
    }

    /// The frame fences, by slot.
    pub open spec fn spec_frame_fences(&self) -> Seq<u64> {
        self@.frame_fences
    }

    /// Whether two rings hold the same handles.
    pub open spec fn same_handles(&self, other: &Self) -> bool {
        &&& self.spec_cmd_bufs() == other.spec_cmd_bufs()
        &&& self.spec_render_semaphores() == other.spec_render_semaphores()
        &&& self.spec_present_semaphores() == other.spec_present_semaphores()
        &&& self.spec_frame_fences() == other.spec_frame_fences()
    }

    /// What `destroy` asks for: per slot, in slot order, the render-complete
    /// semaphore, the image-available semaphore and the fence. The command
    /// buffers are freed with their pool.
    pub open spec fn spec_destroy(&self) -> Seq<Teardown> {
        Seq::new(
            3 * (N as nat),
            |k: int|
                if k % 3 == 0 {
                    Teardown {
                        kind: ObjectKind::Semaphore,
                        handle: self.spec_render_semaphores()[k / 3],
                    }
                } else if k % 3 == 1 {
                    Teardown {
                        kind: ObjectKind::Semaphore,
                        handle: self.spec_present_semaphores()[k / 3],
                    }
                } else {
                    Teardown { kind: ObjectKind::Fence, handle: self.spec_frame_fences()[k / 3] }
                },
        )
    }

    /// A ring over the given handles. `signaled` says whether the fences
    /// were created in the signaled state.
    pub fn create(
        cmd_bufs: [u64; N],
        render_semaphores: [u64; N],
        present_semaphores: [u64; N],
        frame_fences: [u64; N],
        signaled: bool,
    ) -> (r: Self)
        ensures
            r@.ring == RingModel::init(N as nat, signaled),
            N >= 1 ==> r.wf(),
            r.spec_cmd_bufs() == cmd_bufs@,
            r.spec_render_semaphores() == render_semaphores@,
            r.spec_present_semaphores() == present_semaphores@,
            r.spec_frame_fences() == frame_fences@,
    {
        let init = if signaled {
            SlotState::Idle
        } else {
            SlotState::Armed
        };
        let states = [init;N];
        assert(states@ =~= RingModel::init(N as nat, signaled).slots);
        Frames {
            current_frame: 0,
            states,
            stage: FrameStage::Ready,
            cmd_bufs,
            render_semaphores,
            present_semaphores,
            frame_fences,
        }
    }

    /// The destruction requests for the ring's semaphores and fences.
    pub fn destroy(&self) -> (r: Vec<Teardown>)
        requires
            3 * N <= usize::MAX,
        ensures
            r@ == self.spec_destroy(),
    {
        let mut out: Vec<Teardown> = Vec::new();
        let mut i: usize = 0;
        while i < N
            invariant
                i <= N,
                3 * N <= usize::MAX,
                out@.len() == 3 * i,
                forall|k: int| 0 <= k < 3 * i ==> out@[k] == #[trigger] self.spec_destroy()[k],
            decreases N - i,
        {
            out.push(Teardown { kind: ObjectKind::Semaphore, handle: self.render_semaphores[i] });
            out.push(Teardown { kind: ObjectKind::Semaphore, handle: self.present_semaphores[i] });
            out.push(Teardown { kind: ObjectKind::Fence, handle: self.frame_fences[i] });
            i = i + 1;
        }
        assert(out@ =~= self.spec_destroy());
        out
    }

    /// The index of the active slot.
    pub fn get_current_frame(&self) -> (r: usize)
        ensures
            r == self@.ring.cursor,
    {
        self.current_frame
    }

    /// The outstanding request.
    pub fn stage(&self) -> (r: FrameStage)
        ensures
            r == self@.ring.stage,
    {
        self.stage
    }

    /// The state of slot `i`.
    pub fn slot_state(&self, i: usize) -> (r: SlotState)
        requires
            i < N,
        ensures
            r == self@.ring.slots[i as int],
    {
        self.states[i]
    }

    /// The command buffer of slot `i`.
    pub fn cmd_buf(&self, i: usize) -> (r: u64)
        requires
            i < N,
        ensures
            r == self.spec_cmd_bufs()[i as int],
    {
        self.cmd_bufs[i]
    }

    /// The render-complete semaphore of slot `i`.
    pub fn render_semaphore(&self, i: usize) -> (r: u64)
        requires
            i < N,
        ensures
            r == self.spec_render_semaphores()[i as int],
    {
        self.render_semaphores[i]
    }

    /// The image-available semaphore of slot `i`.
    pub fn present_semaphore(&self, i: usize) -> (r: u64)
        requires
            i < N,
        ensures
            r == self.spec_present_semaphores()[i as int],
    {
        self.present_semaphores[i]
    }

    /// The fence of slot `i`.
    pub fn frame_fence(&self, i: usize) -> (r: u64)
        requires
            i < N,
        ensures
            r == self.spec_frame_fences()[i as int],
    {
        self.frame_fences[i]
    }

    /// The slot after the cursor, wrapping round.
    fn next_index(&self) -> (r: usize)
        requires
            N >= 1,
            self.wf(),
        ensures
            r == self@.ring.next_cursor(),
            r < N,
    {
        let next: usize = if self.current_frame + 1 == N {
            0
        } else {
            self.current_frame + 1
        };
        proof {
            let c = self.current_frame as int;
            let n = N as int;
            assert((c + 1) % n == next as int) by (nonlinear_arith)
                requires
                    0 <= c < n,
                    next as int == if c + 1 == n {
                        0
                    } else {
                        c + 1
                    },
            ;
        }
        next
    }

    /// Moves the cursor to the next slot, wrapping round. Between frames
    /// only: within a frame `step` moves it.
    pub fn advance(&mut self)
        requires
            N >= 1,
            old(self).wf(),
            old(self)@.ring.stage == FrameStage::Ready,
        ensures
            final(self)@ == old(self)@.with_ring(old(self)@.ring.advanced(FrameStage::Ready)),
            final(self).wf(),
            final(self).same_handles(old(self)),
    {
        self.current_frame = self.next_index();
    }

    /// Takes `event` and answers with the next request, as `RingModel::step`
    /// defines it.
    pub fn step(&mut self, event: FrameEvent) -> (r: FrameStep)
        requires
            N >= 1,
            old(self).wf(),
        ensures
            (final(self)@, r) == old(self)@.step(event),
            final(self).wf(),
            final(self).same_handles(old(self)),
    {
        proof {
            lemma_step_wf(self@.ring, N as nat, event);
        }
        let slot: usize = self.current_frame;
        match (self.stage, event) {
            (FrameStage::Ready, FrameEvent::Start) => {
                if self.states[slot] == SlotState::Armed {
                    self.stage = FrameStage::AwaitImage;
                    FrameStep::Acquire { slot }
                } else {
                    self.stage = FrameStage::AwaitFence;
                    FrameStep::WaitFence { slot }
                }
            },
            (FrameStage::AwaitFence, FrameEvent::Completed) => {
                self.states[slot] = SlotState::Idle;
                self.stage = FrameStage::AwaitReset;
                FrameStep::ResetFence { slot }
            },
            (FrameStage::AwaitReset, FrameEvent::Completed) => {
                self.states[slot] = SlotState::Armed;
                self.stage = FrameStage::AwaitImage;
                FrameStep::Acquire { slot }
            },
            (FrameStage::AwaitImage, FrameEvent::Acquired { image_index }) => {
                self.states[slot] = SlotState::Recording;
                self.stage = FrameStage::AwaitRecord { image_index };
                FrameStep::Record { slot, image_index }
            },
            (FrameStage::AwaitImage, FrameEvent::OutOfDate) => {
                self.stage = FrameStage::AwaitResize;
                FrameStep::Resize
            },
            (FrameStage::AwaitRecord { image_index }, FrameEvent::Completed) => {
                self.stage = FrameStage::AwaitSubmit { image_index };
                FrameStep::Submit { slot }
            },
            (FrameStage::AwaitSubmit { image_index }, FrameEvent::Completed) => {
                self.states[slot] = SlotState::Submitted;
                self.stage = FrameStage::AwaitPresent;
                FrameStep::Present { slot, image_index }
            },
            (FrameStage::AwaitPresent, FrameEvent::Completed) => {
                self.current_frame = self.next_index();
                self.stage = FrameStage::Ready;
                FrameStep::Finished(FrameOutcome::Presented)
            },
            (FrameStage::AwaitPresent, FrameEvent::OutOfDate) => {
                self.current_frame = self.next_index();
                self.stage = FrameStage::AwaitResize;
                FrameStep::Resize
            },
            (FrameStage::AwaitPresent, _) => {
                self.current_frame = self.next_index();
                self.stage = FrameStage::Halted;
                FrameStep::Finished(FrameOutcome::Fatal)
            },
            (FrameStage::AwaitResize, FrameEvent::Completed) => {
                self.stage = FrameStage::Ready;
                FrameStep::Finished(FrameOutcome::Skipped)
            },
            _ => {
                self.stage = FrameStage::Halted;
                FrameStep::Finished(FrameOutcome::Fatal)
            },
        }
    }
}

} // verus!
