use vkbase::error::SwapchainSyncError;
use vkbase::error::VkError;
use vkbase::error::VkErrorKind;

#[test]
fn error_constructors_carry_class_and_subject() {
    let e = VkError::create("Semaphore");
    assert_eq!(e.kind(), VkErrorKind::Create);
    assert_eq!(e.subject(), "Semaphore");

    let e = VkError::device("Queue Submit");
    assert_eq!(e.kind(), VkErrorKind::Device);
    assert_eq!(e.subject(), "Queue Submit");

    let e = VkError::path("shaders/quad.vert");
    assert_eq!(e.kind(), VkErrorKind::Path);
    assert_eq!(e.subject(), "shaders/quad.vert");

    let e = VkError::other("Swapchain presentation");
    assert_eq!(e.kind(), VkErrorKind::Other);
    assert_eq!(e.subject(), "Swapchain presentation");
}

#[test]
fn only_stale_surface_conditions_are_recoverable() {
    assert!(SwapchainSyncError::SurfaceOutDate.is_recoverable());
    assert!(SwapchainSyncError::SubOptimal.is_recoverable());
    assert!(!SwapchainSyncError::TimeOut.is_recoverable());
    assert!(!SwapchainSyncError::Unknown.is_recoverable());
}
