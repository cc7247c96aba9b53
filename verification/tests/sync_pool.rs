use vkbase::sync::FencePhase;
use vkbase::sync::SyncResource;

#[test]
fn pool_initial_state_single_slot() {
    let pool = SyncResource::new(1);
    assert_eq!(pool.frame_count, 1);
    assert_eq!(pool.sync_fences.len(), 1);
    assert_eq!(pool.fence_for(0), FencePhase::Ready);
    assert!(!pool.await_present);
}

#[test]
fn pool_initial_state_all_fences_signaled() {
    let pool = SyncResource::new(3);
    assert_eq!(pool.frame_count, 3);
    assert_eq!(pool.sync_fences.len(), 3);
    for slot in 0..3 {
        assert_eq!(pool.fence_for(slot), FencePhase::Ready);
    }
    assert!(!pool.await_present);
}

#[test]
fn pool_reset_restores_initial_state() {
    let mut pool = SyncResource::new(2);
    pool.reset();
    assert_eq!(pool.frame_count, 2);
    assert_eq!(pool.fence_for(0), FencePhase::Ready);
    assert_eq!(pool.fence_for(1), FencePhase::Ready);
    assert!(!pool.await_present);
}

#[test]
fn pool_discard_releases_fences() {
    let mut pool = SyncResource::new(2);
    pool.discard();
    assert_eq!(pool.sync_fences.len(), 0);
    assert!(!pool.await_present);
}
