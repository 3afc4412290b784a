use kubgrupp::window::{
    choose_extent, choose_image_count, choose_present_mode, choose_sharing,
    choose_surface_format, FrameAction, FrameError, FrameEvent, ImageSharing, Phase, Submission,
    SurfaceExtents, SurfaceFormat, WindowData, MAX_FRAMES_IN_FLIGHT,
};

/// A device that does what it is told and keeps a record of it, and that
/// counts each acquire whose fence was not waited for.
struct MockDevice {
    calls: Vec<FrameAction>,
    violations: u32,
    fence_waited: Option<usize>,
    stale_acquires: u32,
    suboptimal_presents: u32,
    image_count: u32,
    next_image: u32,
}

impl MockDevice {
    fn new(image_count: u32) -> Self {
        MockDevice {
            calls: Vec::new(),
            violations: 0,
            fence_waited: None,
            stale_acquires: 0,
            suboptimal_presents: 0,
            image_count,
            next_image: 0,
        }
    }

    fn perform(&mut self, action: FrameAction) -> Option<FrameEvent> {
        self.calls.push(action);
        match action {
            FrameAction::WaitFence { slot } => {
                self.fence_waited = Some(slot);
                Some(FrameEvent::FenceReady)
            }
            FrameAction::Acquire { slot } => {
                if self.fence_waited != Some(slot) {
                    self.violations += 1;
                }
                if self.stale_acquires > 0 {
                    self.stale_acquires -= 1;
                    Some(FrameEvent::OutOfDate)
                } else {
                    let image = self.next_image % self.image_count;
                    self.next_image += 1;
                    Some(FrameEvent::ImageAcquired(image))
                }
            }
            FrameAction::RebuildSurface => Some(FrameEvent::SurfaceRebuilt {
                image_count: self.image_count,
                width: 640,
                height: 480,
            }),
            FrameAction::ReplaceRenderSemaphores { count } => {
                assert_eq!(count, self.image_count);
                Some(FrameEvent::SemaphoresReplaced)
            }
            FrameAction::Render { .. } => Some(FrameEvent::Submitted),
            FrameAction::Present { .. } => {
                self.fence_waited = None;
                if self.suboptimal_presents > 0 {
                    self.suboptimal_presents -= 1;
                    Some(FrameEvent::Presented { suboptimal: true })
                } else {
                    Some(FrameEvent::Presented { suboptimal: false })
                }
            }
            FrameAction::FrameDone | FrameAction::Abort(_) => None,
        }
    }
}

fn run_frame(window: &mut WindowData, device: &mut MockDevice) -> FrameAction {
    let mut event = FrameEvent::Begin;
    loop {
        let action = window.step(event);
        match device.perform(action) {
            Some(next) => event = next,
            None => return action,
        }
    }
}

#[test]
fn plain_frames_wait_acquire_render_present() {
    let mut window = WindowData::new(3, 800, 600);
    let mut device = MockDevice::new(3);
    for frame in 0..5u32 {
        device.calls.clear();
        let slot = (frame as usize) % MAX_FRAMES_IN_FLIGHT;
        assert_eq!(window.get_current_flight_fence(), slot);
        assert_eq!(run_frame(&mut window, &mut device), FrameAction::FrameDone);
        let image = frame % 3;
        assert_eq!(
            device.calls,
            vec![
                FrameAction::WaitFence { slot },
                FrameAction::Acquire { slot },
                FrameAction::Render { image, slot },
                FrameAction::Present { image },
                FrameAction::FrameDone,
            ]
        );
        assert_eq!(window.phase(), Phase::Idle);
    }
}

#[test]
fn fence_wait_precedes_every_acquire() {
    let mut window = WindowData::new(2, 800, 600);
    let mut device = MockDevice::new(2);
    for frame in 0..20u32 {
        if frame % 3 == 0 {
            device.stale_acquires = 1;
        }
        if frame % 4 == 1 {
            device.suboptimal_presents = 1;
        }
        if frame == 7 {
            device.image_count = 3;
            device.stale_acquires = 1;
        }
        assert_eq!(run_frame(&mut window, &mut device), FrameAction::FrameDone);
    }
    assert_eq!(device.violations, 0);
    let mut waited: Option<usize> = None;
    let mut acquires = 0;
    for call in &device.calls {
        match call {
            FrameAction::WaitFence { slot } => waited = Some(*slot),
            FrameAction::Acquire { slot } => {
                assert_eq!(waited, Some(*slot));
                acquires += 1;
            }
            FrameAction::Present { .. } | FrameAction::FrameDone => waited = None,
            _ => {}
        }
    }
    assert!(acquires >= 20);
}

#[test]
fn mock_device_detects_acquire_before_wait() {
    let mut device = MockDevice::new(2);
    device.perform(FrameAction::Acquire { slot: 0 });
    assert_eq!(device.violations, 1);
    device.perform(FrameAction::WaitFence { slot: 1 });
    device.perform(FrameAction::Acquire { slot: 0 });
    assert_eq!(device.violations, 2);
    device.perform(FrameAction::WaitFence { slot: 0 });
    device.perform(FrameAction::Acquire { slot: 0 });
    assert_eq!(device.violations, 2);
}

#[test]
fn stale_surface_on_acquire_is_rebuilt_and_acquired_once_more() {
    let mut window = WindowData::new(2, 800, 600);
    let mut device = MockDevice::new(2);
    device.stale_acquires = 1;
    assert_eq!(run_frame(&mut window, &mut device), FrameAction::FrameDone);
    assert_eq!(
        device.calls,
        vec![
            FrameAction::WaitFence { slot: 0 },
            FrameAction::Acquire { slot: 0 },
            FrameAction::RebuildSurface,
            FrameAction::Acquire { slot: 0 },
            FrameAction::Render { image: 0, slot: 0 },
            FrameAction::Present { image: 0 },
            FrameAction::FrameDone,
        ]
    );
    assert_eq!(window.get_size(), (640, 480));
}

#[test]
fn stale_surface_twice_is_fatal() {
    let mut window = WindowData::new(2, 800, 600);
    let mut device = MockDevice::new(2);
    device.stale_acquires = 2;
    assert_eq!(
        run_frame(&mut window, &mut device),
        FrameAction::Abort(FrameError::SurfaceLost)
    );
    assert_eq!(window.phase(), Phase::Failed);
    assert_eq!(
        window.step(FrameEvent::Begin),
        FrameAction::Abort(FrameError::Failed)
    );
}

#[test]
fn changed_image_count_replaces_the_render_semaphores() {
    let mut window = WindowData::new(2, 800, 600);
    let mut device = MockDevice::new(4);
    device.stale_acquires = 1;
    assert_eq!(run_frame(&mut window, &mut device), FrameAction::FrameDone);
    assert_eq!(device.calls[2], FrameAction::RebuildSurface);
    assert_eq!(
        device.calls[3],
        FrameAction::ReplaceRenderSemaphores { count: 4 }
    );
    assert_eq!(device.calls[4], FrameAction::Acquire { slot: 0 });
    assert_eq!(window.image_count(), 4);
}

#[test]
fn suboptimal_present_rebuilds_after_presenting() {
    let mut window = WindowData::new(2, 800, 600);
    let mut device = MockDevice::new(2);
    device.suboptimal_presents = 1;
    assert_eq!(run_frame(&mut window, &mut device), FrameAction::FrameDone);
    assert_eq!(
        device.calls,
        vec![
            FrameAction::WaitFence { slot: 0 },
            FrameAction::Acquire { slot: 0 },
            FrameAction::Render { image: 0, slot: 0 },
            FrameAction::Present { image: 0 },
            FrameAction::RebuildSurface,
            FrameAction::FrameDone,
        ]
    );
    assert_eq!(window.get_current_flight_fence(), 1);
}

#[test]
fn stale_present_advances_the_slot_before_the_rebuild() {
    let mut window = WindowData::new(2, 800, 600);
    assert_eq!(window.step(FrameEvent::Begin), FrameAction::WaitFence { slot: 0 });
    assert_eq!(window.step(FrameEvent::FenceReady), FrameAction::Acquire { slot: 0 });
    assert_eq!(
        window.step(FrameEvent::ImageAcquired(1)),
        FrameAction::Render { image: 1, slot: 0 }
    );
    assert_eq!(window.get_current_semaphores(), (0, 1));
    assert_eq!(
        window.submission(),
        Some(Submission { wait_semaphore: 0, signal_semaphore: 1, fence: 0 })
    );
    assert_eq!(window.step(FrameEvent::Submitted), FrameAction::Present { image: 1 });
    assert_eq!(window.submission(), None);
    assert_eq!(window.step(FrameEvent::OutOfDate), FrameAction::RebuildSurface);
    assert_eq!(window.get_current_flight_fence(), 1);
    assert_eq!(window.phase(), Phase::RebuildingAfterPresent);
    assert_eq!(
        window.step(FrameEvent::DeviceError),
        FrameAction::Abort(FrameError::Device)
    );
    assert_eq!(window.get_current_flight_fence(), 1);
}

#[test]
fn image_index_out_of_range_and_protocol_faults() {
    let mut window = WindowData::new(2, 800, 600);
    window.step(FrameEvent::Begin);
    window.step(FrameEvent::FenceReady);
    assert_eq!(
        window.step(FrameEvent::ImageAcquired(2)),
        FrameAction::Abort(FrameError::ImageIndex)
    );
    let mut window = WindowData::new(2, 800, 600);
    assert_eq!(
        window.step(FrameEvent::Submitted),
        FrameAction::Abort(FrameError::Protocol)
    );
}

#[test]
fn surface_format_choice() {
    let srgb = SurfaceFormat { format: 50, color_space: 0 };
    let other = SurfaceFormat { format: 44, color_space: 0 };
    let near = SurfaceFormat { format: 50, color_space: 7 };
    assert_eq!(choose_surface_format(&[], srgb), None);
    assert_eq!(choose_surface_format(&[other, near, srgb], srgb), Some(srgb));
    assert_eq!(choose_surface_format(&[other, near], srgb), Some(other));
}

#[test]
fn present_mode_choice() {
    assert_eq!(choose_present_mode(&[0, 2, 1], 1, 2), 1);
    assert_eq!(choose_present_mode(&[0, 2], 1, 2), 2);
    assert_eq!(choose_present_mode(&[], 1, 2), 2);
}

#[test]
fn extent_choice() {
    let fixed = SurfaceExtents { current: (800, 600), min: (1, 1), max: (4096, 4096) };
    assert_eq!(choose_extent(fixed, (10, 10)), Some((800, 600)));
    let free = SurfaceExtents { current: (u32::MAX, u32::MAX), min: (100, 200), max: (1000, 900) };
    assert_eq!(choose_extent(free, (10, 10_000)), Some((100, 900)));
    assert_eq!(choose_extent(free, (500, 500)), Some((500, 500)));
    let void = SurfaceExtents { current: (u32::MAX, 0), min: (10, 10), max: (5, 50) };
    assert_eq!(choose_extent(void, (7, 7)), None);
}

#[test]
fn image_count_choice() {
    assert_eq!(choose_image_count(2, 0), Some(3));
    assert_eq!(choose_image_count(2, 8), Some(3));
    assert_eq!(choose_image_count(2, 2), Some(2));
    assert_eq!(choose_image_count(2, 3), Some(3));
    assert_eq!(choose_image_count(u32::MAX, 0), None);
}

#[test]
fn sharing_choice_and_suitability() {
    assert_eq!(choose_sharing(1, 1), ImageSharing::Exclusive);
    assert_eq!(
        choose_sharing(1, 2),
        ImageSharing::Concurrent { compute: 1, present: 2 }
    );
    assert!(WindowData::is_device_suitable(1, 1));
    assert!(!WindowData::is_device_suitable(0, 1));
    assert!(!WindowData::is_device_suitable(1, 0));
    assert_eq!(WindowData::DEFAULT_WIDTH, 1000);
    assert_eq!(WindowData::DEFAULT_HEIGHT, 1000);
}
