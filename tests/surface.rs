use sphere_tracer::surface::{AcquireAction, FrameAction, ResizeAction, SurfaceTracker};

#[test]
fn same_size_twice_reconfigures_once() {
    let mut s = SurfaceTracker::new(800, 450);
    let mut reconfigurations = 0;
    for _ in 0..2 {
        if s.resize(1024, 768) == ResizeAction::Reconfigure {
            reconfigurations += 1;
        }
    }
    assert_eq!(reconfigurations, 1);
    assert_eq!(s.resize(1024, 768), ResizeAction::Unchanged);
}

#[test]
fn resize_to_initial_size_is_unchanged() {
    let mut s = SurfaceTracker::new(800, 450);
    assert_eq!(s.resize(800, 450), ResizeAction::Unchanged);
}

#[test]
fn zero_width_suspends_until_nonzero_resize() {
    let mut s = SurfaceTracker::new(800, 450);
    assert_eq!(s.begin_frame(), FrameAction::Draw);
    assert_eq!(s.resize(0, 450), ResizeAction::Suspend);
    assert!(!s.is_presentable());
    assert_eq!(s.begin_frame(), FrameAction::Skip);
    assert_eq!(s.begin_frame(), FrameAction::Skip);
    assert_eq!(s.resize(0, 300), ResizeAction::Suspend);
    assert_eq!(s.begin_frame(), FrameAction::Skip);
    assert_eq!(s.resize(640, 300), ResizeAction::Reconfigure);
    assert_eq!(s.begin_frame(), FrameAction::Draw);
}

#[test]
fn zero_height_suspends() {
    let mut s = SurfaceTracker::new(800, 450);
    assert_eq!(s.resize(800, 0), ResizeAction::Suspend);
    assert_eq!(s.begin_frame(), FrameAction::Skip);
    assert_eq!(s.resize(800, 450), ResizeAction::Reconfigure);
    assert_eq!(s.begin_frame(), FrameAction::Draw);
}

#[test]
fn acquisition_is_retried_once() {
    let mut s = SurfaceTracker::new(800, 450);
    assert_eq!(s.acquire_failed(), AcquireAction::RetryAfterReconfigure);
    assert_eq!(s.acquire_failed(), AcquireAction::Fatal);
    s.acquire_succeeded();
    assert_eq!(s.acquire_failed(), AcquireAction::RetryAfterReconfigure);
    s.acquire_succeeded();
    assert!(!s.retried);
    assert_eq!((s.width, s.height), (800, 450));
}
