use ember::render::{
    attachments_need_resize, device_type_score, select_physical_device, AcquireDecision, AcquireOutcome,
    DeviceCandidate, FlushOutcome, PhysicalDeviceType, QueueFamilyInfo, RecreateOutcome, SwapchainStatus,
};

fn family(graphics: bool, present: bool) -> QueueFamilyInfo {
    QueueFamilyInfo { graphics, present }
}

#[test]
fn device_scores() {
    assert_eq!(device_type_score(PhysicalDeviceType::DiscreteGpu), 0);
    assert_eq!(device_type_score(PhysicalDeviceType::IntegratedGpu), 1);
    assert_eq!(device_type_score(PhysicalDeviceType::VirtualGpu), 2);
    assert_eq!(device_type_score(PhysicalDeviceType::Cpu), 3);
    assert_eq!(device_type_score(PhysicalDeviceType::Other), 4);
}

#[test]
fn the_first_best_eligible_device_wins() {
    let devices = vec![
        DeviceCandidate { device_type: PhysicalDeviceType::Cpu, supports_extensions: true, queue_families: vec![family(true, true)] },
        DeviceCandidate { device_type: PhysicalDeviceType::DiscreteGpu, supports_extensions: false, queue_families: vec![family(true, true)] },
        DeviceCandidate { device_type: PhysicalDeviceType::IntegratedGpu, supports_extensions: true, queue_families: vec![family(true, false), family(false, true), family(true, true)] },
        DeviceCandidate { device_type: PhysicalDeviceType::IntegratedGpu, supports_extensions: true, queue_families: vec![family(true, true)] },
        DeviceCandidate { device_type: PhysicalDeviceType::DiscreteGpu, supports_extensions: true, queue_families: vec![family(false, true)] },
    ];
    assert_eq!(select_physical_device(&devices), Some((2, 2)));
}

#[test]
fn no_eligible_device() {
    let devices = vec![DeviceCandidate { device_type: PhysicalDeviceType::DiscreteGpu, supports_extensions: true, queue_families: vec![family(true, false)] }];
    assert_eq!(select_physical_device(&devices), None);
    assert_eq!(select_physical_device(&vec![]), None);
}

#[test]
fn swapchain_status_follows_acquire_and_flush() {
    let mut s = SwapchainStatus::new();
    assert!(!s.recreate_swapchain);
    assert_eq!(s.after_acquire(AcquireOutcome::Acquired { suboptimal: false }), AcquireDecision::Draw);
    assert!(!s.recreate_swapchain);
    assert_eq!(s.after_acquire(AcquireOutcome::Acquired { suboptimal: true }), AcquireDecision::Draw);
    assert!(s.recreate_swapchain);
    s.after_recreate(RecreateOutcome::ExtentNotSupported);
    assert!(s.recreate_swapchain);
    s.after_recreate(RecreateOutcome::Recreated);
    assert!(!s.recreate_swapchain);
    assert_eq!(s.after_acquire(AcquireOutcome::OutOfDate), AcquireDecision::RecreateAndRetry);
    assert_eq!(s.after_acquire(AcquireOutcome::Failed), AcquireDecision::SkipFrame);
    s.after_flush(FlushOutcome::Failed);
    assert!(!s.recreate_swapchain);
    s.after_flush(FlushOutcome::OutOfDate);
    assert!(s.recreate_swapchain);
}

#[test]
fn attachments_resize_only_when_sizes_differ() {
    assert!(!attachments_need_resize([800, 600], [800, 600]));
    assert!(attachments_need_resize([1, 1], [800, 600]));
    assert!(attachments_need_resize([800, 600], [800, 601]));
}
