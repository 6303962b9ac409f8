use heph_gl::graphics_device::Feature;
use heph_gl::renderers::vulkan::queue::{
    contains_feature, plan_queues, role_families_have_queues, QueueAssignment, QueueFamily,
    QueueFlags, QueueRequest,
};

fn flags(graphics: bool, compute: bool, transfer: bool) -> QueueFlags {
    QueueFlags {
        graphics,
        compute,
        transfer,
        video_decode: false,
        video_encode: false,
        optical_flow: false,
    }
}

fn family(index: u32, queue_count: u32, queue_flags: QueueFlags, present: bool) -> QueueFamily {
    QueueFamily {
        index,
        queue_count,
        queue_flags,
        present_supported: present,
    }
}

#[test]
fn graphics_only_device() {
    let families = vec![family(0, 16, flags(true, true, true), true)];
    let plan = plan_queues(&families, &vec![]).unwrap();
    assert_eq!(plan.graphics_family, 0);
    assert_eq!(plan.transfer_family, None);
    assert_eq!(plan.compute_family, None);
    assert_eq!(
        plan.graphics_queue,
        QueueAssignment {
            family_index: 0,
            queue_index: 0
        }
    );
    assert_eq!(
        plan.requests,
        vec![QueueRequest {
            family_index: 0,
            queue_count: 1
        }]
    );
}

#[test]
fn dedicated_families_are_preferred() {
    let families = vec![
        family(0, 16, flags(true, true, true), true),
        family(1, 2, flags(false, true, true), false),
        family(2, 1, flags(false, false, true), false),
    ];
    let features = vec![Feature::AsyncTransfer, Feature::ComputeShaders];
    let plan = plan_queues(&families, &features).unwrap();
    assert_eq!(plan.graphics_family, 0);
    assert_eq!(plan.transfer_family, Some(2));
    assert_eq!(plan.compute_family, Some(1));
    assert_eq!(
        plan.transfer_queue,
        Some(QueueAssignment {
            family_index: 2,
            queue_index: 0
        })
    );
    assert_eq!(
        plan.compute_queue,
        Some(QueueAssignment {
            family_index: 1,
            queue_index: 0
        })
    );
    assert_eq!(plan.requests.len(), 3);
    for r in &plan.requests {
        assert_eq!(r.queue_count, 1);
    }
}

#[test]
fn roles_share_the_graphics_family_and_wrap_its_queues() {
    // One family with two queues serves graphics, transfer and compute.
    let families = vec![
        family(0, 1, flags(false, false, false), false),
        family(1, 2, flags(true, true, true), true),
    ];
    let features = vec![Feature::ComputeShaders, Feature::AsyncTransfer];
    let plan = plan_queues(&families, &features).unwrap();
    assert_eq!(plan.graphics_family, 1);
    assert_eq!(plan.transfer_family, Some(1));
    assert_eq!(plan.compute_family, Some(1));
    assert_eq!(plan.graphics_queue.queue_index, 0);
    assert_eq!(plan.transfer_queue.unwrap().queue_index, 1);
    // The third role wraps around the two queues of the family.
    assert_eq!(plan.compute_queue.unwrap().queue_index, 0);
    assert_eq!(
        plan.requests,
        vec![QueueRequest {
            family_index: 1,
            queue_count: 2
        }]
    );
}

#[test]
fn transfer_falls_back_to_a_compute_capable_family() {
    let families = vec![
        family(0, 4, flags(true, true, true), true),
        family(1, 4, flags(false, true, true), false),
    ];
    let plan = plan_queues(&families, &vec![Feature::AsyncTransfer]).unwrap();
    assert_eq!(plan.transfer_family, Some(1));
    assert_eq!(plan.compute_family, None);
}

#[test]
fn no_presenting_graphics_family_is_an_error() {
    let families = vec![
        family(0, 4, flags(true, true, true), false),
        family(1, 4, flags(false, true, true), true),
    ];
    let err = plan_queues(&families, &vec![]).unwrap_err();
    assert_eq!(
        err.to_string(),
        "Invalid operation: No queue family supports both graphics and presentation."
    );
    assert!(plan_queues(&vec![], &vec![]).is_err());
}

#[test]
fn feature_lookup() {
    let features = vec![Feature::WideLines, Feature::RayTracing];
    assert!(contains_feature(&features, Feature::RayTracing));
    assert!(!contains_feature(&features, Feature::ComputeShaders));
}

#[test]
fn only_used_families_need_queues() {
    let families = vec![
        family(0, 16, flags(true, true, true), true),
        family(1, 0, flags(false, true, true), false),
        family(2, 0, flags(false, false, true), false),
    ];
    // Neither empty family serves a role without the features.
    assert!(role_families_have_queues(&families, &vec![]));
    // The dedicated transfer family is used, and it has no queue.
    assert!(!role_families_have_queues(&families, &vec![Feature::AsyncTransfer]));
    assert!(!role_families_have_queues(&families, &vec![Feature::ComputeShaders]));
    // Without a graphics family, planning fails before any queue is taken.
    let no_graphics = vec![family(0, 0, flags(false, true, true), false)];
    assert!(role_families_have_queues(&no_graphics, &vec![Feature::ComputeShaders]));
    assert!(plan_queues(&no_graphics, &vec![]).is_err());
}
