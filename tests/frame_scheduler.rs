use cubulous::frame::{FrameAction, FrameError, FrameEvent, FrameScheduler, Phase, MAX_FRAMES_IN_FLIGHT};

fn run_tick(s: &mut FrameScheduler, image: u32) -> (usize, Option<u64>, usize) {
    let (slot, awaited) = match s.step(FrameEvent::BeginFrame) {
        FrameAction::WaitForFence { slot, submitted_at } => (slot, submitted_at),
        other => panic!("unexpected {:?}", other),
    };
    assert_eq!(s.step(FrameEvent::FenceSignaled), FrameAction::AcquireImage { slot });
    assert_eq!(s.step(FrameEvent::ImageAcquired(image)), FrameAction::Record { slot, image_index: image });
    assert_eq!(s.step(FrameEvent::Recorded), FrameAction::Submit { slot, image_index: image });
    assert_eq!(s.step(FrameEvent::SubmitDone), FrameAction::Present { slot, image_index: image });
    assert!(s.frames_in_flight() <= s.max_frames());
    let next = match s.step(FrameEvent::Presented) {
        FrameAction::FrameDone { next_slot } => next_slot,
        other => panic!("unexpected {:?}", other),
    };
    (slot, awaited, next)
}

#[test]
fn five_frames_cycle_two_slots() {
    let mut s = FrameScheduler::new(MAX_FRAMES_IN_FLIGHT);
    let mut slots = Vec::new();
    let mut awaited = Vec::new();
    for tick in 0..5u32 {
        let (slot, waited_for, next) = run_tick(&mut s, tick % 3);
        slots.push(slot);
        awaited.push(waited_for);
        assert_eq!(next, (slot + 1) % 2);
    }
    assert_eq!(slots, vec![0, 1, 0, 1, 0]);
    // The third tick waits on the fence of slot 0's first use (tick 1).
    assert_eq!(awaited, vec![None, None, Some(1), Some(2), Some(3)]);
}

#[test]
fn frames_in_flight_never_exceed_slots() {
    let mut s = FrameScheduler::new(2);
    assert_eq!(s.frames_in_flight(), 0);
    run_tick(&mut s, 0);
    assert_eq!(s.frames_in_flight(), 1);
    run_tick(&mut s, 1);
    assert_eq!(s.frames_in_flight(), 2);
    s.step(FrameEvent::BeginFrame);
    s.step(FrameEvent::FenceSignaled);
    assert_eq!(s.frames_in_flight(), 1);
    s.step(FrameEvent::ImageAcquired(2));
    s.step(FrameEvent::Recorded);
    s.step(FrameEvent::SubmitDone);
    assert_eq!(s.frames_in_flight(), 2);
}

#[test]
fn stale_acquire_recreates_and_still_advances() {
    let mut s = FrameScheduler::new(2);
    assert_eq!(s.step(FrameEvent::BeginFrame), FrameAction::WaitForFence { slot: 0, submitted_at: None });
    assert_eq!(s.step(FrameEvent::FenceSignaled), FrameAction::AcquireImage { slot: 0 });
    assert_eq!(s.step(FrameEvent::AcquireOutOfDate), FrameAction::Recreate);
    assert_eq!(s.phase(), Phase::Recreating);
    assert_eq!(s.step(FrameEvent::Recreated), FrameAction::FrameDone { next_slot: 1 });
    assert_eq!(s.current_frame(), 1);
    assert_eq!(s.frames_in_flight(), 0);
}

#[test]
fn stale_present_recreates_after_presenting() {
    let mut s = FrameScheduler::new(3);
    s.step(FrameEvent::BeginFrame);
    s.step(FrameEvent::FenceSignaled);
    s.step(FrameEvent::ImageAcquired(0));
    s.step(FrameEvent::Recorded);
    s.step(FrameEvent::SubmitDone);
    assert_eq!(s.step(FrameEvent::PresentStale), FrameAction::Recreate);
    assert_eq!(s.frames_in_flight(), 1);
    assert_eq!(s.step(FrameEvent::Recreated), FrameAction::FrameDone { next_slot: 1 });
}

#[test]
fn out_of_order_events_are_rejected() {
    let mut s = FrameScheduler::new(2);
    assert_eq!(s.step(FrameEvent::Recorded), FrameAction::Rejected);
    assert_eq!(s.phase(), Phase::Idle);
    s.step(FrameEvent::BeginFrame);
    assert_eq!(s.step(FrameEvent::ImageAcquired(0)), FrameAction::Rejected);
    assert_eq!(s.step(FrameEvent::BeginFrame), FrameAction::Rejected);
}

#[test]
fn device_errors_are_fatal() {
    let mut s = FrameScheduler::new(2);
    s.step(FrameEvent::BeginFrame);
    s.step(FrameEvent::FenceSignaled);
    assert_eq!(s.step(FrameEvent::AcquireFailed), FrameAction::Fail(FrameError::Acquire));
    assert_eq!(s.phase(), Phase::Failed);
    assert_eq!(s.step(FrameEvent::BeginFrame), FrameAction::Rejected);

    let mut s = FrameScheduler::new(2);
    s.step(FrameEvent::BeginFrame);
    s.step(FrameEvent::FenceSignaled);
    s.step(FrameEvent::ImageAcquired(1));
    s.step(FrameEvent::Recorded);
    assert_eq!(s.step(FrameEvent::SubmitFailed), FrameAction::Fail(FrameError::Submit));

    let mut s = FrameScheduler::new(2);
    s.step(FrameEvent::BeginFrame);
    s.step(FrameEvent::FenceSignaled);
    s.step(FrameEvent::ImageAcquired(1));
    s.step(FrameEvent::Recorded);
    s.step(FrameEvent::SubmitDone);
    assert_eq!(s.step(FrameEvent::PresentFailed), FrameAction::Fail(FrameError::Present));
}

#[test]
fn single_slot_waits_on_previous_tick() {
    let mut s = FrameScheduler::new(1);
    run_tick(&mut s, 0);
    assert_eq!(s.step(FrameEvent::BeginFrame), FrameAction::WaitForFence { slot: 0, submitted_at: Some(1) });
}
