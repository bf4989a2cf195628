use vulkan_playground::device::{ObjectKind, Teardown};
use vulkan_playground::frame::{
    FrameEvent, FrameOutcome, FrameStage, FrameStep, Frames, SlotState,
};

fn ring(signaled: bool) -> Frames<2> {
    Frames::create([10, 11], [20, 21], [30, 31], [40, 41], signaled)
}

/// A device that finishes submitted work only when told to.
struct SimulatedGpu {
    executing: Vec<bool>,
    signaled: Vec<bool>,
    recorded_while_executing: bool,
}

fn gpu(slots: usize, signaled: bool) -> SimulatedGpu {
    SimulatedGpu {
        executing: vec![false; slots],
        signaled: vec![signaled; slots],
        recorded_while_executing: false,
    }
}

fn complete(gpu: &mut SimulatedGpu, slot: usize) {
    if gpu.executing[slot] {
        gpu.executing[slot] = false;
        gpu.signaled[slot] = true;
    }
}

/// Carries one request out on the simulated device. `None` means that the
/// host is blocked on a fence that has not signaled.
fn perform(gpu: &mut SimulatedGpu, step: FrameStep, image: u32) -> Option<FrameEvent> {
    match step {
        FrameStep::WaitFence { slot } => {
            if gpu.signaled[slot] {
                Some(FrameEvent::Completed)
            } else {
                None
            }
        }
        FrameStep::ResetFence { slot } => {
            gpu.signaled[slot] = false;
            Some(FrameEvent::Completed)
        }
        FrameStep::Acquire { .. } => Some(FrameEvent::Acquired { image_index: image }),
        FrameStep::Record { slot, .. } => {
            if gpu.executing[slot] {
                gpu.recorded_while_executing = true;
            }
            Some(FrameEvent::Completed)
        }
        FrameStep::Submit { slot } => {
            gpu.executing[slot] = true;
            Some(FrameEvent::Completed)
        }
        FrameStep::Present { .. } => Some(FrameEvent::Completed),
        FrameStep::Resize => Some(FrameEvent::Completed),
        FrameStep::Finished(_) => Some(FrameEvent::Start),
    }
}

/// Runs frames until the host blocks or `frames` frames are over. Returns
/// the number of frames presented and the request that the host is
/// blocked on, if it is.
fn run<const N: usize>(
    ring: &mut Frames<N>,
    gpu: &mut SimulatedGpu,
    pending: Option<FrameStep>,
    frames: usize,
) -> (usize, Option<FrameStep>) {
    let mut presented = 0;
    let mut step = match pending {
        Some(step) => step,
        None => ring.step(FrameEvent::Start),
    };
    loop {
        if let FrameStep::Finished(outcome) = step {
            assert_eq!(outcome, FrameOutcome::Presented);
            presented += 1;
            if presented == frames {
                return (presented, None);
            }
        }
        match perform(gpu, step, 0) {
            Some(event) => step = ring.step(event),
            None => return (presented, Some(step)),
        }
    }
}

#[test]
fn first_frame_on_signaled_fences_waits() {
    let mut frames = ring(true);
    assert_eq!(frames.get_current_frame(), 0);
    assert_eq!(frames.stage(), FrameStage::Ready);
    assert_eq!(frames.slot_state(0), SlotState::Idle);
    assert_eq!(frames.slot_state(1), SlotState::Idle);
    assert_eq!(frames.step(FrameEvent::Start), FrameStep::WaitFence { slot: 0 });
    assert_eq!(frames.step(FrameEvent::Completed), FrameStep::ResetFence { slot: 0 });
    assert_eq!(frames.step(FrameEvent::Completed), FrameStep::Acquire { slot: 0 });
    assert_eq!(frames.slot_state(0), SlotState::Armed);
    assert_eq!(
        frames.step(FrameEvent::Acquired { image_index: 1 }),
        FrameStep::Record { slot: 0, image_index: 1 }
    );
    assert_eq!(frames.slot_state(0), SlotState::Recording);
    assert_eq!(frames.stage(), FrameStage::AwaitRecord { image_index: 1 });
    assert_eq!(frames.step(FrameEvent::Completed), FrameStep::Submit { slot: 0 });
    assert_eq!(
        frames.step(FrameEvent::Completed),
        FrameStep::Present { slot: 0, image_index: 1 }
    );
    assert_eq!(frames.slot_state(0), SlotState::Submitted);
    assert_eq!(frames.get_current_frame(), 0);
    assert_eq!(
        frames.step(FrameEvent::Completed),
        FrameStep::Finished(FrameOutcome::Presented)
    );
    assert_eq!(frames.get_current_frame(), 1);
    assert_eq!(frames.stage(), FrameStage::Ready);
}

#[test]
fn first_frame_on_unsignaled_fences_skips_the_wait() {
    let mut frames = ring(false);
    assert_eq!(frames.slot_state(0), SlotState::Armed);
    assert_eq!(frames.slot_state(1), SlotState::Armed);
    assert_eq!(frames.step(FrameEvent::Start), FrameStep::Acquire { slot: 0 });
    assert_eq!(frames.stage(), FrameStage::AwaitImage);
}

#[test]
fn cursor_wraps_round_after_the_last_slot() {
    let mut frames = ring(false);
    let mut device = gpu(2, false);
    let (presented, blocked) = run(&mut frames, &mut device, None, 2);
    assert_eq!(presented, 2);
    assert_eq!(blocked, None);
    assert_eq!(frames.get_current_frame(), 0);
    assert_eq!(frames.slot_state(0), SlotState::Submitted);
    assert_eq!(frames.slot_state(1), SlotState::Submitted);
}

#[test]
fn advance_moves_the_cursor_by_one_modulo_the_slot_count() {
    let mut frames: Frames<3> =
        Frames::create([1, 2, 3], [4, 5, 6], [7, 8, 9], [10, 11, 12], true);
    assert_eq!(frames.get_current_frame(), 0);
    frames.advance();
    assert_eq!(frames.get_current_frame(), 1);
    frames.advance();
    assert_eq!(frames.get_current_frame(), 2);
    frames.advance();
    assert_eq!(frames.get_current_frame(), 0);
}

#[test]
fn single_slot_ring_stays_on_its_slot() {
    let mut frames: Frames<1> = Frames::create([1], [2], [3], [4], true);
    let mut device = gpu(1, true);
    let (presented, blocked) = run(&mut frames, &mut device, None, 1);
    assert_eq!((presented, blocked), (1, None));
    assert_eq!(frames.get_current_frame(), 0);
    assert_eq!(frames.step(FrameEvent::Start), FrameStep::WaitFence { slot: 0 });
}

#[test]
fn host_blocks_until_the_device_completes_the_slot() {
    let mut frames = ring(true);
    let mut device = gpu(2, true);
    // Two frames go through; the third needs slot 0 again.
    let (presented, blocked) = run(&mut frames, &mut device, None, 10);
    assert_eq!(presented, 2);
    assert_eq!(blocked, Some(FrameStep::WaitFence { slot: 0 }));
    assert_eq!(device.executing, vec![true, true]);
    assert_eq!(frames.slot_state(0), SlotState::Submitted);

    // Completing the other slot does not help.
    complete(&mut device, 1);
    let (presented, blocked) = run(&mut frames, &mut device, blocked, 10);
    assert_eq!(presented, 0);
    assert_eq!(blocked, Some(FrameStep::WaitFence { slot: 0 }));

    // Completing slot 0 lets two more frames through: slot 0, then slot 1,
    // which was completed above.
    complete(&mut device, 0);
    let (presented, blocked) = run(&mut frames, &mut device, blocked, 10);
    assert_eq!(presented, 2);
    assert_eq!(blocked, Some(FrameStep::WaitFence { slot: 0 }));
    assert!(!device.recorded_while_executing);
}

#[test]
fn at_most_n_submissions_are_in_flight() {
    let mut frames: Frames<3> =
        Frames::create([1, 2, 3], [4, 5, 6], [7, 8, 9], [10, 11, 12], false);
    let mut device = gpu(3, false);
    let mut pending = None;
    let mut total = 0;
    for round in 0..20 {
        let (presented, blocked) = run(&mut frames, &mut device, pending, 100);
        total += presented;
        pending = blocked;
        let in_flight = device.executing.iter().filter(|e| **e).count();
        assert!(in_flight <= 3);
        let submitted = (0..3)
            .filter(|i| frames.slot_state(*i) == SlotState::Submitted)
            .count();
        assert!(submitted <= 3);
        assert!(in_flight <= submitted);
        assert!(!device.recorded_while_executing);
        complete(&mut device, round % 3);
    }
    assert_eq!(total, 3 + 19);
}

#[test]
fn stale_swapchain_at_acquire_resizes_and_skips_the_frame() {
    let mut frames = ring(true);
    assert_eq!(frames.step(FrameEvent::Start), FrameStep::WaitFence { slot: 0 });
    assert_eq!(frames.step(FrameEvent::Completed), FrameStep::ResetFence { slot: 0 });
    assert_eq!(frames.step(FrameEvent::Completed), FrameStep::Acquire { slot: 0 });
    assert_eq!(frames.step(FrameEvent::OutOfDate), FrameStep::Resize);
    assert_eq!(frames.stage(), FrameStage::AwaitResize);
    assert_eq!(
        frames.step(FrameEvent::Completed),
        FrameStep::Finished(FrameOutcome::Skipped)
    );
    // Nothing was submitted and the cursor has not moved.
    assert_eq!(frames.get_current_frame(), 0);
    assert_eq!(frames.slot_state(0), SlotState::Armed);
    // The slot's fence was reset and nothing will signal it: the next
    // frame goes straight to the acquisition.
    assert_eq!(frames.step(FrameEvent::Start), FrameStep::Acquire { slot: 0 });
}

#[test]
fn stale_swapchain_at_present_resizes_after_advancing() {
    let mut frames = ring(false);
    assert_eq!(frames.step(FrameEvent::Start), FrameStep::Acquire { slot: 0 });
    frames.step(FrameEvent::Acquired { image_index: 0 });
    frames.step(FrameEvent::Completed);
    assert_eq!(
        frames.step(FrameEvent::Completed),
        FrameStep::Present { slot: 0, image_index: 0 }
    );
    assert_eq!(frames.step(FrameEvent::OutOfDate), FrameStep::Resize);
    assert_eq!(frames.get_current_frame(), 1);
    assert_eq!(frames.slot_state(0), SlotState::Submitted);
    assert_eq!(
        frames.step(FrameEvent::Completed),
        FrameStep::Finished(FrameOutcome::Skipped)
    );
    assert_eq!(frames.stage(), FrameStage::Ready);
}

#[test]
fn failed_resize_is_fatal() {
    let mut frames = ring(false);
    frames.step(FrameEvent::Start);
    assert_eq!(frames.step(FrameEvent::OutOfDate), FrameStep::Resize);
    assert_eq!(frames.step(FrameEvent::Failed), FrameStep::Finished(FrameOutcome::Fatal));
    assert_eq!(frames.stage(), FrameStage::Halted);
}

#[test]
fn any_other_failure_halts_the_ring() {
    // Fence wait.
    let mut frames = ring(true);
    frames.step(FrameEvent::Start);
    assert_eq!(frames.step(FrameEvent::Failed), FrameStep::Finished(FrameOutcome::Fatal));
    assert_eq!(frames.stage(), FrameStage::Halted);
    // Acquisition.
    let mut frames = ring(false);
    frames.step(FrameEvent::Start);
    assert_eq!(frames.step(FrameEvent::Failed), FrameStep::Finished(FrameOutcome::Fatal));
    // Recording.
    let mut frames = ring(false);
    frames.step(FrameEvent::Start);
    frames.step(FrameEvent::Acquired { image_index: 0 });
    assert_eq!(frames.step(FrameEvent::Failed), FrameStep::Finished(FrameOutcome::Fatal));
    // Submission.
    let mut frames = ring(false);
    frames.step(FrameEvent::Start);
    frames.step(FrameEvent::Acquired { image_index: 0 });
    frames.step(FrameEvent::Completed);
    assert_eq!(frames.step(FrameEvent::Failed), FrameStep::Finished(FrameOutcome::Fatal));
    assert_eq!(frames.get_current_frame(), 0);
    // Once halted, always halted.
    assert_eq!(frames.step(FrameEvent::Start), FrameStep::Finished(FrameOutcome::Fatal));
    assert_eq!(frames.step(FrameEvent::Completed), FrameStep::Finished(FrameOutcome::Fatal));
    assert_eq!(frames.stage(), FrameStage::Halted);
}

#[test]
fn failed_present_is_fatal_and_still_advances() {
    let mut frames = ring(false);
    frames.step(FrameEvent::Start);
    frames.step(FrameEvent::Acquired { image_index: 0 });
    frames.step(FrameEvent::Completed);
    frames.step(FrameEvent::Completed);
    assert_eq!(frames.step(FrameEvent::Failed), FrameStep::Finished(FrameOutcome::Fatal));
    assert_eq!(frames.get_current_frame(), 1);
    assert_eq!(frames.stage(), FrameStage::Halted);
}

#[test]
fn event_that_answers_no_request_halts_the_ring() {
    let mut frames = ring(true);
    assert_eq!(frames.step(FrameEvent::Completed), FrameStep::Finished(FrameOutcome::Fatal));
    assert_eq!(frames.stage(), FrameStage::Halted);
    let mut frames = ring(true);
    frames.step(FrameEvent::Start);
    assert_eq!(frames.step(FrameEvent::Start), FrameStep::Finished(FrameOutcome::Fatal));
    let mut frames = ring(true);
    frames.step(FrameEvent::Start);
    assert_eq!(
        frames.step(FrameEvent::Acquired { image_index: 0 }),
        FrameStep::Finished(FrameOutcome::Fatal)
    );
}

#[test]
fn ring_keeps_its_handles_by_slot() {
    let frames = ring(true);
    assert_eq!((frames.cmd_buf(0), frames.cmd_buf(1)), (10, 11));
    assert_eq!((frames.render_semaphore(0), frames.render_semaphore(1)), (20, 21));
    assert_eq!((frames.present_semaphore(0), frames.present_semaphore(1)), (30, 31));
    assert_eq!((frames.frame_fence(0), frames.frame_fence(1)), (40, 41));
}

#[test]
fn ring_destroys_semaphores_and_fences_slot_by_slot() {
    let frames = ring(true);
    assert_eq!(
        frames.destroy(),
        vec![
            Teardown { kind: ObjectKind::Semaphore, handle: 20 },
            Teardown { kind: ObjectKind::Semaphore, handle: 30 },
            Teardown { kind: ObjectKind::Fence, handle: 40 },
            Teardown { kind: ObjectKind::Semaphore, handle: 21 },
            Teardown { kind: ObjectKind::Semaphore, handle: 31 },
            Teardown { kind: ObjectKind::Fence, handle: 41 },
        ]
    );
}

#[test]
fn acquisition_results_are_classified() {
    assert_eq!(FrameEvent::of_acquire(0, 2), FrameEvent::Acquired { image_index: 2 });
    assert_eq!(FrameEvent::of_acquire(1000001003, 1), FrameEvent::Acquired { image_index: 1 });
    assert_eq!(FrameEvent::of_acquire(-1000001004, 0), FrameEvent::OutOfDate);
    // Not ready, timeout, device lost, surface lost.
    assert_eq!(FrameEvent::of_acquire(1, 0), FrameEvent::Failed);
    assert_eq!(FrameEvent::of_acquire(2, 0), FrameEvent::Failed);
    assert_eq!(FrameEvent::of_acquire(-4, 0), FrameEvent::Failed);
    assert_eq!(FrameEvent::of_acquire(-1000000000, 0), FrameEvent::Failed);
}

#[test]
fn presentation_results_are_classified() {
    assert_eq!(FrameEvent::of_present(0), FrameEvent::Completed);
    assert_eq!(FrameEvent::of_present(1000001003), FrameEvent::Completed);
    assert_eq!(FrameEvent::of_present(-1000001004), FrameEvent::OutOfDate);
    assert_eq!(FrameEvent::of_present(-4), FrameEvent::Failed);
    assert_eq!(FrameEvent::of_present(-1000000000), FrameEvent::Failed);
}

#[test]
fn other_results_succeed_or_fail() {
    assert_eq!(FrameEvent::of_result(0), FrameEvent::Completed);
    assert_eq!(FrameEvent::of_result(-1), FrameEvent::Failed);
    assert_eq!(FrameEvent::of_result(2), FrameEvent::Failed);
    assert_eq!(FrameEvent::of_result(-1000001004), FrameEvent::Failed);
    assert_eq!(FrameEvent::of_result(1000001003), FrameEvent::Failed);
}
