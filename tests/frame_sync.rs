use vk_renderer::frame_sync::{
    classify, FrameAction, FrameError, FrameEvent, FrameSync, Stage, VkStatus, VK_ERROR_OUT_OF_DATE,
    VK_SUBOPTIMAL, VK_SUCCESS, VK_TIMEOUT,
};
use vk_renderer::swapchain::Extent2D;

const WINDOW: Extent2D = Extent2D { width: 1024, height: 768 };

/// What one frame did, as seen by a simulated window loop.
#[derive(Default)]
struct FrameLog {
    fence_waits: Vec<usize>,
    submits: Vec<(usize, usize)>,
    presents: usize,
    recreations: usize,
    failure: Option<FrameError>,
}

/// Runs one frame, answering acquire with `acquire_result` and `image`, and
/// recreating with `new_image_count` images when asked to.
fn run_frame(
    sync: &mut FrameSync,
    acquire_result: i32,
    image: u32,
    present_result: i32,
    new_image_count: usize,
) -> FrameLog {
    let mut log = FrameLog::default();
    let mut action = sync.step(FrameEvent::RedrawRequested);
    loop {
        action = match action {
            FrameAction::Nothing => break,
            FrameAction::WaitFence { slot } => {
                log.fence_waits.push(slot);
                sync.step(FrameEvent::FenceWaited { result: VK_SUCCESS })
            }
            FrameAction::Acquire { .. } => {
                sync.step(FrameEvent::Acquired { result: acquire_result, image })
            }
            FrameAction::Submit { image, slot } => {
                assert!(sync.fence_known_signaled(slot), "submitting over an unsignalled fence");
                log.submits.push((image, slot));
                sync.step(FrameEvent::Submitted { result: VK_SUCCESS })
            }
            FrameAction::Present { .. } => {
                log.presents += 1;
                sync.step(FrameEvent::Presented { result: present_result })
            }
            FrameAction::Recreate => {
                log.recreations += 1;
                sync.step(FrameEvent::Recreated { image_count: new_image_count })
            }
            FrameAction::Fail { error } => {
                log.failure = Some(error);
                break;
            }
        };
    }
    log
}

#[test]
fn ten_frames_two_in_flight_three_images() {
    let mut sync = FrameSync::new(2, 3, WINDOW);
    let mut presents = 0;
    let mut slots = Vec::new();
    for i in 0..10u32 {
        slots.push(sync.frame());
        let log = run_frame(&mut sync, VK_SUCCESS, i % 3, VK_SUCCESS, 3);
        assert!(log.failure.is_none());
        assert_eq!(log.recreations, 0);
        presents += log.presents;
        if i >= 2 {
            for image in 0..3 {
                assert!(sync.image_in_flight(image).is_some());
            }
        }
    }
    assert_eq!(presents, 10);
    assert_eq!(slots, vec![0, 1, 0, 1, 0, 1, 0, 1, 0, 1]);
    assert_eq!(sync.frame(), 0);
}

#[test]
fn out_of_date_acquire_recreates_once() {
    let mut sync = FrameSync::new(2, 3, WINDOW);
    let mut recreations = 0;
    for i in 1..=10u32 {
        let acquire = if i == 5 { VK_ERROR_OUT_OF_DATE } else { VK_SUCCESS };
        let log = run_frame(&mut sync, acquire, i % 3, VK_SUCCESS, 3);
        assert!(log.failure.is_none());
        recreations += log.recreations;
        if i == 5 {
            assert!(log.submits.is_empty());
            assert_eq!(log.presents, 0);
            assert_eq!(log.recreations, 1);
            for image in 0..3 {
                assert_eq!(sync.image_in_flight(image), None);
            }
        } else {
            assert_eq!(log.submits.len(), 1);
            assert_eq!(log.presents, 1);
            assert_eq!(log.recreations, 0);
        }
        if i == 6 {
            assert_eq!(log.fence_waits, Vec::<usize>::new());
            assert_eq!(sync.image_in_flight(0), Some(0));
        }
    }
    assert_eq!(recreations, 1);
}

#[test]
fn out_of_date_acquire_keeps_the_slot() {
    let mut sync = FrameSync::new(2, 3, WINDOW);
    run_frame(&mut sync, VK_SUCCESS, 0, VK_SUCCESS, 3);
    assert_eq!(sync.frame(), 1);
    let log = run_frame(&mut sync, VK_ERROR_OUT_OF_DATE, 0, VK_SUCCESS, 4);
    assert_eq!(log.recreations, 1);
    assert_eq!(sync.frame(), 1);
    assert_eq!(sync.image_count(), 4);
    assert!(sync.fence_known_signaled(0));
    assert!(sync.fence_known_signaled(1));
}

#[test]
fn no_slot_is_resubmitted_before_its_fence_signals() {
    for max_frames in 1..4usize {
        let mut sync = FrameSync::new(max_frames, 3, WINDOW);
        let mut last_wait: Vec<Option<usize>> = vec![None; max_frames];
        let mut submitted_at: Vec<Option<usize>> = vec![None; max_frames];
        for i in 0..12usize {
            let log = run_frame(&mut sync, VK_SUCCESS, (i % 3) as u32, VK_SUCCESS, 3);
            for slot in &log.fence_waits {
                last_wait[*slot] = Some(i);
            }
            for (_, slot) in &log.submits {
                if let Some(before) = submitted_at[*slot] {
                    let waited = last_wait[*slot].expect("a fence wait");
                    assert!(waited > before);
                }
                submitted_at[*slot] = Some(i);
            }
        }
    }
}

#[test]
fn first_frames_do_not_wait_on_fresh_fences() {
    let mut sync = FrameSync::new(2, 3, WINDOW);
    assert_eq!(sync.step(FrameEvent::RedrawRequested), FrameAction::Acquire { slot: 0 });
    assert_eq!(sync.stage(), Stage::Acquiring);
}

#[test]
fn image_fence_is_waited_before_reuse() {
    let mut sync = FrameSync::new(2, 3, WINDOW);
    run_frame(&mut sync, VK_SUCCESS, 0, VK_SUCCESS, 3);
    assert_eq!(sync.step(FrameEvent::RedrawRequested), FrameAction::Acquire { slot: 1 });
    assert_eq!(
        sync.step(FrameEvent::Acquired { result: VK_SUCCESS, image: 0 }),
        FrameAction::WaitFence { slot: 0 }
    );
    assert_eq!(
        sync.step(FrameEvent::FenceWaited { result: VK_SUCCESS }),
        FrameAction::Submit { image: 0, slot: 1 }
    );
    assert_eq!(sync.image_in_flight(0), Some(1));
    assert!(sync.fence_known_signaled(0));
}

#[test]
fn suboptimal_acquire_renders_then_recreates() {
    let mut sync = FrameSync::new(2, 3, WINDOW);
    let log = run_frame(&mut sync, VK_SUBOPTIMAL, 1, VK_SUCCESS, 3);
    assert_eq!(log.submits, vec![(1, 0)]);
    assert_eq!(log.presents, 1);
    assert_eq!(log.recreations, 1);
    assert_eq!(sync.frame(), 1);
}

#[test]
fn suboptimal_present_recreates() {
    let mut sync = FrameSync::new(2, 3, WINDOW);
    let log = run_frame(&mut sync, VK_SUCCESS, 1, VK_SUBOPTIMAL, 3);
    assert_eq!(log.presents, 1);
    assert_eq!(log.recreations, 1);
}

#[test]
fn out_of_date_present_recreates_and_advances() {
    let mut sync = FrameSync::new(2, 3, WINDOW);
    let log = run_frame(&mut sync, VK_SUCCESS, 2, VK_ERROR_OUT_OF_DATE, 3);
    assert_eq!(log.recreations, 1);
    assert_eq!(sync.frame(), 1);
    assert_eq!(sync.stage(), Stage::Idle);
}

#[test]
fn resize_recreates_after_present() {
    let mut sync = FrameSync::new(2, 3, WINDOW);
    assert_eq!(sync.step(FrameEvent::Resized { width: 640, height: 480 }), FrameAction::Nothing);
    assert!(sync.resize_pending());
    let log = run_frame(&mut sync, VK_SUCCESS, 0, VK_SUCCESS, 2);
    assert_eq!(log.presents, 1);
    assert_eq!(log.recreations, 1);
    assert!(!sync.resize_pending());
    assert_eq!(sync.image_count(), 2);
    assert_eq!(sync.window(), Extent2D { width: 640, height: 480 });
}

#[test]
fn minimized_window_suspends_rendering() {
    let mut sync = FrameSync::new(2, 3, WINDOW);
    run_frame(&mut sync, VK_SUCCESS, 0, VK_SUCCESS, 3);
    sync.step(FrameEvent::Resized { width: 0, height: 768 });
    assert!(sync.is_suspended());
    for _ in 0..5 {
        let log = run_frame(&mut sync, VK_SUCCESS, 1, VK_SUCCESS, 3);
        assert!(log.submits.is_empty());
        assert_eq!(log.presents, 0);
        assert_eq!(log.recreations, 0);
        assert!(log.fence_waits.is_empty());
    }
    sync.step(FrameEvent::Resized { width: 1024, height: 0 });
    assert_eq!(sync.step(FrameEvent::RedrawRequested), FrameAction::Nothing);
    sync.step(FrameEvent::Resized { width: 800, height: 600 });
    assert!(!sync.is_suspended());
    let log = run_frame(&mut sync, VK_SUCCESS, 1, VK_SUCCESS, 3);
    assert_eq!(log.presents, 1);
    assert_eq!(log.recreations, 1);
}

#[test]
fn resize_churn_ends_in_the_same_state() {
    let mut a = FrameSync::new(2, 3, WINDOW);
    let mut b = FrameSync::new(2, 3, WINDOW);
    for (w, h) in [(10, 10), (0, 0), (3000, 20), (640, 480)] {
        a.step(FrameEvent::Resized { width: w, height: h });
    }
    b.step(FrameEvent::Resized { width: 640, height: 480 });
    assert_eq!(a.window(), b.window());
    assert_eq!(a.resize_pending(), b.resize_pending());
    assert_eq!(a.stage(), b.stage());
    assert_eq!(a.frame(), b.frame());
}

#[test]
fn acquire_error_is_fatal() {
    let mut sync = FrameSync::new(2, 3, WINDOW);
    let log = run_frame(&mut sync, -4, 0, VK_SUCCESS, 3);
    assert_eq!(log.failure, Some(FrameError::Device { code: -4 }));
    assert_eq!(sync.stage(), Stage::Idle);
}

#[test]
fn fence_timeout_is_fatal() {
    let mut sync = FrameSync::new(2, 3, WINDOW);
    run_frame(&mut sync, VK_SUCCESS, 0, VK_SUCCESS, 3);
    run_frame(&mut sync, VK_SUCCESS, 1, VK_SUCCESS, 3);
    assert_eq!(sync.step(FrameEvent::RedrawRequested), FrameAction::WaitFence { slot: 0 });
    assert_eq!(
        sync.step(FrameEvent::FenceWaited { result: VK_TIMEOUT }),
        FrameAction::Fail { error: FrameError::SynchronizationTimeout }
    );
}

#[test]
fn acquired_image_out_of_range_is_fatal() {
    let mut sync = FrameSync::new(2, 3, WINDOW);
    let log = run_frame(&mut sync, VK_SUCCESS, 3, VK_SUCCESS, 3);
    assert_eq!(log.failure, Some(FrameError::InvalidImageIndex { image: 3 }));
}

#[test]
fn present_error_is_fatal() {
    let mut sync = FrameSync::new(2, 3, WINDOW);
    let log = run_frame(&mut sync, VK_SUCCESS, 0, -3, 3);
    assert_eq!(log.failure, Some(FrameError::Device { code: -3 }));
    assert_eq!(sync.frame(), 0);
}

#[test]
fn submit_error_is_fatal() {
    let mut sync = FrameSync::new(2, 3, WINDOW);
    sync.step(FrameEvent::RedrawRequested);
    sync.step(FrameEvent::Acquired { result: VK_SUCCESS, image: 0 });
    assert_eq!(
        sync.step(FrameEvent::Submitted { result: -2 }),
        FrameAction::Fail { error: FrameError::Device { code: -2 } }
    );
    assert!(!sync.fence_known_signaled(0));
}

#[test]
fn unexpected_event_is_refused() {
    let mut sync = FrameSync::new(2, 3, WINDOW);
    assert_eq!(
        sync.step(FrameEvent::Presented { result: VK_SUCCESS }),
        FrameAction::Fail { error: FrameError::UnexpectedEvent }
    );
    sync.step(FrameEvent::RedrawRequested);
    assert_eq!(
        sync.step(FrameEvent::RedrawRequested),
        FrameAction::Fail { error: FrameError::UnexpectedEvent }
    );
    assert_eq!(sync.stage(), Stage::Acquiring);
    assert_eq!(
        sync.step(FrameEvent::Recreated { image_count: 3 }),
        FrameAction::Fail { error: FrameError::UnexpectedEvent }
    );
}

#[test]
fn result_codes_are_classified() {
    assert_eq!(classify(0), VkStatus::Success);
    assert_eq!(classify(1000001003), VkStatus::Suboptimal);
    assert_eq!(classify(-1000001004), VkStatus::OutOfDate);
    assert_eq!(classify(2), VkStatus::Timeout);
    assert_eq!(classify(1), VkStatus::Error);
    assert_eq!(classify(-1), VkStatus::Error);
}

#[test]
fn new_synchroniser_starts_idle() {
    let sync = FrameSync::new(3, 4, WINDOW);
    assert_eq!(sync.max_frames(), 3);
    assert_eq!(sync.image_count(), 4);
    assert_eq!(sync.frame(), 0);
    assert_eq!(sync.image_in_flight(0), None);
    assert_eq!(sync.image_in_flight(9), None);
    assert!(sync.fence_known_signaled(2));
    assert!(!sync.fence_known_signaled(3));
    assert!(!sync.is_suspended());
    assert!(!sync.resize_pending());
}
