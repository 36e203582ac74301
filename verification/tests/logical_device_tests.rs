use vulkan_bootstrap::logical_device::{build, QueueCreateRequest, QueueSlot};
use vulkan_bootstrap::queue_family::QueueFamilyIndices;

fn indices(graphics: u32, present: u32) -> QueueFamilyIndices {
    QueueFamilyIndices { graphics_family: Some(graphics), present_family: Some(present) }
}

#[test]
fn build_dedups_coinciding_indices() {
    // graphics == present: exactly one queue-create request is produced.
    let config = build(indices(2, 2), &Vec::new());
    assert_eq!(
        config.queue_requests,
        vec![QueueCreateRequest { family_index: 2, queue_count: 1 }]
    );
}

#[test]
fn build_shares_queue_slot_for_coinciding_indices() {
    // Both returned queue handles reference the same underlying queue slot.
    let config = build(indices(2, 2), &Vec::new());
    assert_eq!(config.graphics_slot, QueueSlot { family_index: 2, queue_index: 0 });
    assert_eq!(config.present_slot, config.graphics_slot);
}

#[test]
fn build_requests_each_distinct_family_once() {
    // graphics != present: exactly two requests, one per family, in order.
    let config = build(indices(0, 3), &Vec::new());
    assert_eq!(
        config.queue_requests,
        vec![
            QueueCreateRequest { family_index: 0, queue_count: 1 },
            QueueCreateRequest { family_index: 3, queue_count: 1 },
        ]
    );
    assert_eq!(config.graphics_slot, QueueSlot { family_index: 0, queue_index: 0 });
    assert_eq!(config.present_slot, QueueSlot { family_index: 3, queue_index: 0 });
}

#[test]
fn build_requests_one_queue_per_family() {
    let config = build(indices(1, 4), &Vec::new());
    assert!(config.queue_requests.iter().all(|request| request.queue_count == 1));
}

#[test]
fn build_enables_required_extensions_unchanged() {
    let required = vec![b"VK_KHR_swapchain".to_vec()];
    let config = build(indices(0, 1), &required);
    assert_eq!(config.extensions, required);
}
