//! Host and device together: why the fence wait is enough.
//!
//! The ring of `frame` is the host's side. This module sets a model of the
//! device beside it, in which work completes only when the device says so,
//! and proves that the host never records into a slot, nor writes its
//! uniform buffer, while the device is still executing the slot's previous
//! work.

use vstd::prelude::*;
use crate::bytes::spec_written;
use crate::frame::{FrameEvent, FrameStage, RingModel, SlotState};

verus! {

/// The device's side of the frame slots.
pub struct DeviceModel {
    /// Per slot: the device is executing the slot's command buffer.
    pub executing: Seq<bool>,
    /// Per slot: the slot's fence is signaled.
    pub signaled: Seq<bool>,
    /// Per slot: the bytes of the slot's uniform buffer.
    pub uniforms: Seq<Seq<u8>>,
}

/// Host and device.
pub struct SystemModel {
    pub ring: RingModel,
    pub device: DeviceModel,
}

/// One step of the whole system.
pub enum Label {
    /// The host is told `event` and takes its next decision.
    Host(FrameEvent),
    /// The host, recording a frame, writes `data` to the start of the
    /// uniform buffer of the active slot.
    HostWrites(Seq<u8>),
    /// The device finishes the work of a slot and signals its fence.
    DeviceCompletes(int),
}

impl DeviceModel {
    /// The device with `slot` executing or not.
    pub open spec fn with_executing(self, slot: int, value: bool) -> DeviceModel {
        DeviceModel { executing: self.executing.update(slot, value), ..self }
    }

    /// The device with the fence of `slot` signaled or not.
    pub open spec fn with_signaled(self, slot: int, value: bool) -> DeviceModel {
        DeviceModel { signaled: self.signaled.update(slot, value), ..self }
    }

    /// The device with `data` written to the start of the uniform buffer
    /// of `slot`.
    pub open spec fn with_written(self, slot: int, data: Seq<u8>) -> DeviceModel {
        DeviceModel {
            uniforms: self.uniforms.update(slot, spec_written(self.uniforms[slot], data)),
            ..self
        }
    }

    /// The number of command buffers that the device is executing.
    pub open spec fn executing_count(self) -> nat {
        self.executing.filter(|b: bool| b).len()
    }
}

impl SystemModel {
    /// A fresh system over a device that executes nothing, with one frame
    /// slot per uniform buffer.
    pub open spec fn init(uniforms: Seq<Seq<u8>>, signaled: bool) -> SystemModel {
        SystemModel {
            ring: RingModel::init(uniforms.len(), signaled),
            device: DeviceModel {
                executing: Seq::new(uniforms.len(), |i: int| false),
                signaled: Seq::new(uniforms.len(), |i: int| signaled),
                uniforms,
            },
        }
    }

    /// What host and device agree on, slot by slot: an idle slot has a
    /// signaled fence; an armed or recording slot has an unsignaled fence;
    /// none of the three has work on the device; a submitted slot is either
    /// still executing or has signaled its fence.
    pub open spec fn slot_agrees(self, i: int) -> bool {
        match self.ring.slots[i] {
            SlotState::Idle => self.device.signaled[i] && !self.device.executing[i],
            SlotState::Armed => !self.device.signaled[i] && !self.device.executing[i],
            SlotState::Recording => !self.device.signaled[i] && !self.device.executing[i],
            SlotState::Submitted => self.device.executing[i] != self.device.signaled[i],
        }
    }

    /// The invariant of the whole system.
    pub open spec fn safe(self, n: nat) -> bool {
        &&& self.ring.wf(n)
        &&& self.device.executing.len() == n
        &&& self.device.signaled.len() == n
        &&& self.device.uniforms.len() == n
        &&& forall|i: int| 0 <= i < n ==> #[trigger] self.slot_agrees(i)
    }

    /// Whether the step `label` can happen. A fence wait returns
    /// successfully only on a signaled fence; the host writes a uniform
    /// buffer only while it records the frame of the active slot, and only
    /// what fits; and only executing work can complete.
    pub open spec fn enabled(self, label: Label) -> bool {
        match label {
            Label::Host(event) => self.ring.stage == FrameStage::AwaitFence && event
                == FrameEvent::Completed ==> self.device.signaled[self.ring.cursor],
            Label::HostWrites(data) => self.ring.stage is AwaitRecord && data.len()
                <= self.device.uniforms[self.ring.cursor].len(),
            Label::DeviceCompletes(i) => 0 <= i < self.device.executing.len()
                && self.device.executing[i],
        }
    }

    /// The system after `label`. A completed fence reset unsignals the
    /// fence; a completed submission starts execution; a completion on the
    /// device ends execution and signals the fence. Neither touches a
    /// uniform buffer: only the host's write does.
    pub open spec fn next(self, label: Label) -> SystemModel {
        match label {
            Label::Host(event) => {
                let ring = self.ring.step(event).0;
                let device = match (self.ring.stage, event) {
                    (FrameStage::AwaitReset, FrameEvent::Completed) => self.device.with_signaled(
                        self.ring.cursor,
                        false,
                    ),
                    (
                        FrameStage::AwaitSubmit { .. },
                        FrameEvent::Completed,
                    ) => self.device.with_executing(self.ring.cursor, true),
                    _ => self.device,
                };
                SystemModel { ring, device }
            },
            Label::HostWrites(data) => SystemModel {
                ring: self.ring,
                device: self.device.with_written(self.ring.cursor, data),
            },
            Label::DeviceCompletes(i) => SystemModel {
                ring: self.ring,
                device: self.device.with_executing(i, false).with_signaled(i, true),
            },
        }
    }

    /// Whether each of `labels` is enabled when its turn comes.
    pub open spec fn admits(self, labels: Seq<Label>) -> bool
        decreases labels.len(),
    {
        labels.len() > 0 ==> self.enabled(labels[0]) && self.next(labels[0]).admits(
            labels.subrange(1, labels.len() as int),
        )
    }

    /// The system after `labels`, taken in order.
    pub open spec fn run(self, labels: Seq<Label>) -> SystemModel
        decreases labels.len(),
    {
        if labels.len() == 0 {
            self
        } else {
            self.next(labels[0]).run(labels.subrange(1, labels.len() as int))
        }
    }

    /// Whether `label` is a write of the host to the uniform buffer of
    /// `slot`.
    pub open spec fn writes_to(self, label: Label, slot: int) -> bool {
        label is HostWrites && self.ring.cursor == slot
    }

    /// Whether none of `labels`, when its turn comes, is a write of the
    /// host to the uniform buffer of `slot`.
    pub open spec fn leaves_alone(self, labels: Seq<Label>, slot: int) -> bool
        decreases labels.len(),
    {
        labels.len() > 0 ==> !self.writes_to(labels[0], slot) && self.next(
            labels[0],
        ).leaves_alone(labels.subrange(1, labels.len() as int), slot)
    }
}

/// A fresh system is safe.
pub proof fn lemma_init_safe(uniforms: Seq<Seq<u8>>, signaled: bool)
    requires
        uniforms.len() >= 1,
    ensures
        SystemModel::init(uniforms, signaled).safe(uniforms.len()),
{
    let sys = SystemModel::init(uniforms, signaled);
    assert forall|i: int| 0 <= i < uniforms.len() implies #[trigger] sys.slot_agrees(i) by {}
}

/// Every enabled step keeps the system safe.
pub proof fn lemma_next_safe(sys: SystemModel, n: nat, label: Label)
    requires
        sys.safe(n),
        sys.enabled(label),
    ensures
        sys.next(label).safe(n),
{
    let after = sys.next(label);
    match label {
        Label::Host(event) => {
            crate::frame::lemma_step_wf(sys.ring, n, event);
            assert forall|i: int| 0 <= i < n implies #[trigger] after.slot_agrees(i) by {
                assert(sys.slot_agrees(i));
                assert(sys.slot_agrees(sys.ring.cursor));
            }
        },
        Label::HostWrites(data) => {
            assert forall|i: int| 0 <= i < n implies #[trigger] after.slot_agrees(i) by {
                assert(sys.slot_agrees(i));
            }
        },
        Label::DeviceCompletes(k) => {
            assert(sys.slot_agrees(k));
            assert forall|i: int| 0 <= i < n implies #[trigger] after.slot_agrees(i) by {
                assert(sys.slot_agrees(i));
            }
        },
    }
}

/// Whatever host and device do, in whatever order, the system stays safe.
pub proof fn lemma_run_safe(sys: SystemModel, n: nat, labels: Seq<Label>)
    requires
        sys.safe(n),
        sys.admits(labels),
    ensures
        sys.run(labels).safe(n),
    decreases labels.len(),
{
    if labels.len() > 0 {
        lemma_next_safe(sys, n, labels[0]);
        lemma_run_safe(sys.next(labels[0]), n, labels.subrange(1, labels.len() as int));
    }
}

/// In a safe system the device executes no slot that the host holds idle,
/// armed or recording: what the host writes, the device is not reading.
pub proof fn lemma_no_hazard(sys: SystemModel, n: nat, i: int)
    requires
        sys.safe(n),
        0 <= i < n,
        sys.ring.slots[i] != SlotState::Submitted,
    ensures
        !sys.device.executing[i],
{
    assert(sys.slot_agrees(i));
}

/// The host asks to record a slot, and to submit it, only when the device
/// has retired the slot's previous work: no slot has two submissions in
/// flight.
pub proof fn lemma_record_after_retire(sys: SystemModel, n: nat, event: FrameEvent)
    requires
        sys.safe(n),
        sys.enabled(Label::Host(event)),
        sys.ring.step(event).1 is Record || sys.ring.step(event).1 is Submit,
    ensures
        sys.ring.step(event).1 matches crate::frame::FrameStep::Record { slot, .. } ==> slot
            == sys.ring.cursor as usize,
        sys.ring.step(event).1 matches crate::frame::FrameStep::Submit { slot } ==> slot
            == sys.ring.cursor as usize,
        !sys.device.executing[sys.ring.cursor],
{
    assert(sys.slot_agrees(sys.ring.cursor));
}

/// The host writes a uniform buffer only while the device executes
/// nothing of that slot: each slot's buffer is touched by one frame at a
/// time.
pub proof fn lemma_write_after_retire(sys: SystemModel, n: nat, data: Seq<u8>)
    requires
        sys.safe(n),
        sys.enabled(Label::HostWrites(data)),
    ensures
        sys.ring.current() == SlotState::Recording,
        !sys.device.executing[sys.ring.cursor],
{
    assert(sys.slot_agrees(sys.ring.cursor));
}

/// The host never waits in vain: whenever it waits for a fence, the fence
/// is signaled already or the device is executing the work that signals
/// it. A slot whose fence nothing would signal is armed, and an armed slot
/// is not waited for.
pub proof fn lemma_wait_ends(sys: SystemModel, n: nat)
    requires
        sys.safe(n),
        sys.ring.stage == FrameStage::AwaitFence,
    ensures
        sys.device.signaled[sys.ring.cursor] || sys.device.executing[sys.ring.cursor],
        sys.device.executing[sys.ring.cursor] ==> sys.next(
            Label::DeviceCompletes(sys.ring.cursor),
        ).enabled(Label::Host(FrameEvent::Completed)),
{
    assert(sys.slot_agrees(sys.ring.cursor));
}

/// At no time does the device execute more command buffers of the ring
/// than the ring has slots, and every one of them is a submitted slot's.
pub proof fn lemma_in_flight_bounded(sys: SystemModel, n: nat)
    requires
        sys.safe(n),
    ensures
        sys.device.executing_count() <= n,
        sys.ring.submitted_count() <= n,
        forall|i: int|
            0 <= i < n && sys.device.executing[i] ==> sys.ring.slots[i] == SlotState::Submitted,
{
    sys.device.executing.lemma_filter_len(|b: bool| b);
    crate::frame::lemma_submitted_bounded(sys.ring, n);
    assert forall|i: int| 0 <= i < n && sys.device.executing[i] implies sys.ring.slots[i]
        == SlotState::Submitted by {
        assert(sys.slot_agrees(i));
    }
}

/// What the host wrote to the uniform buffer of a slot is there to be
/// read back, byte for byte, after the frame was submitted, executed and
/// its fence has signaled, and for as long as the host does not write to
/// that buffer again.
pub proof fn lemma_payload_survives(sys: SystemModel, n: nat, data: Seq<u8>, labels: Seq<Label>)
    requires
        sys.safe(n),
        sys.enabled(Label::HostWrites(data)),
        sys.next(Label::HostWrites(data)).admits(labels),
        sys.next(Label::HostWrites(data)).leaves_alone(labels, sys.ring.cursor),
    ensures
        ({
            let slot = sys.ring.cursor;
            let memory = sys.next(Label::HostWrites(data)).run(labels).device.uniforms[slot];
            &&& memory == spec_written(sys.device.uniforms[slot], data)
            &&& memory.len() == sys.device.uniforms[slot].len()
            &&& memory.subrange(0, data.len() as int) == data
        }),
{
    let written = sys.next(Label::HostWrites(data));
    lemma_next_safe(sys, n, Label::HostWrites(data));
    lemma_untouched(written, n, labels, sys.ring.cursor);
    crate::bytes::lemma_written_reads_back(sys.device.uniforms[sys.ring.cursor], data);
}

/// Steps that are no write of the host to the uniform buffer of a slot
/// leave that buffer as it is.
pub proof fn lemma_untouched(sys: SystemModel, n: nat, labels: Seq<Label>, slot: int)
    requires
        sys.safe(n),
        0 <= slot < n,
        sys.admits(labels),
        sys.leaves_alone(labels, slot),
    ensures
        sys.run(labels).device.uniforms[slot] == sys.device.uniforms[slot],
    decreases labels.len(),
{
    if labels.len() > 0 {
        lemma_next_safe(sys, n, labels[0]);
        lemma_untouched(sys.next(labels[0]), n, labels.subrange(1, labels.len() as int), slot);
    }
}

} // verus!
