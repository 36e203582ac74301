use vulkan_bootstrap::queue_family::{find_queue_families, QueueFamilyIndices, QueueFamilyProps};

fn props(graphics: bool, present: bool) -> QueueFamilyProps {
    QueueFamilyProps { graphics, present }
}

#[test]
fn complete_iff_both_set() {
    let both = QueueFamilyIndices { graphics_family: Some(0), present_family: Some(1) };
    assert!(both.is_complete());
    let only_graphics = QueueFamilyIndices { graphics_family: Some(0), present_family: None };
    assert!(!only_graphics.is_complete());
    let only_present = QueueFamilyIndices { graphics_family: None, present_family: Some(2) };
    assert!(!only_present.is_complete());
    let neither = QueueFamilyIndices { graphics_family: None, present_family: None };
    assert!(!neither.is_complete());
}

#[test]
fn scan_finds_first_graphics_and_first_present() {
    let families = vec![props(false, true), props(true, false)];
    let indices = find_queue_families(&families);
    assert_eq!(indices.graphics_family, Some(1));
    assert_eq!(indices.present_family, Some(0));
    assert!(indices.is_complete());
}

#[test]
fn scan_records_first_match_not_last() {
    let families = vec![props(true, false), props(true, true)];
    let indices = find_queue_families(&families);
    assert_eq!(indices.graphics_family, Some(0));
    assert_eq!(indices.present_family, Some(1));
}

#[test]
fn scan_single_family_serves_both() {
    let families = vec![props(true, true)];
    let indices = find_queue_families(&families);
    assert_eq!(indices.graphics_family, Some(0));
    assert_eq!(indices.present_family, Some(0));
    assert!(indices.is_complete());
}

#[test]
fn scan_empty_list_resolves_nothing() {
    let families: Vec<QueueFamilyProps> = Vec::new();
    let indices = find_queue_families(&families);
    assert_eq!(indices.graphics_family, None);
    assert_eq!(indices.present_family, None);
    assert!(!indices.is_complete());
}

#[test]
fn scan_without_present_support_is_incomplete() {
    let families = vec![props(true, false), props(true, false)];
    let indices = find_queue_families(&families);
    assert_eq!(indices.graphics_family, Some(0));
    assert_eq!(indices.present_family, None);
    assert!(!indices.is_complete());
}

#[test]
fn scan_completes_whenever_capable_families_exist() {
    // Any list with at least one graphics-capable and at least one
    // present-capable family scans to a complete result.
    let lists = vec![
        vec![props(true, true)],
        vec![props(true, false), props(false, true)],
        vec![props(false, false), props(false, true), props(true, false)],
        vec![props(false, true), props(false, false), props(true, true)],
    ];
    for families in lists {
        let indices = find_queue_families(&families);
        assert!(indices.is_complete());
    }
}
