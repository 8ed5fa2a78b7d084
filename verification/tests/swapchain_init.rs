//! Swapchain planning and start-up selection logic on concrete surfaces and
//! devices.

use rendering::init::{
    bytes_eq, device_supports, pick_device, select_depth_format, select_queue_families,
    select_surface_format, unique_queue_families, worker_thread_count, CandidateDevice,
    DepthCandidate, InitError, QueueFamily, SurfaceFormat, Tiling,
};
use rendering::engine::{Engine, GraphicsSettings};
use rendering::swapchain::{
    plan_swapchain, Extent2D, PresentMode, SharingMode, SurfaceCaps, SwapchainPlan,
    UNDEFINED_EXTENT,
};

fn caps(min: u32, max: u32, w: u32, h: u32) -> SurfaceCaps {
    SurfaceCaps { min_image_count: min, max_image_count: max, current_width: w, current_height: h }
}

#[test]
fn plan_uses_surface_extent_when_defined() {
    let plan = plan_swapchain(&caps(2, 8, 1024, 768), 800, 600, 0, 0, 36, &vec![]);
    assert_eq!(plan.extent, Extent2D { width: 1024, height: 768 });
    assert_eq!(plan.format, 36);
}

#[test]
fn plan_falls_back_to_configured_resolution() {
    let plan = plan_swapchain(
        &caps(2, 8, 555, UNDEFINED_EXTENT),
        800,
        600,
        0,
        0,
        36,
        &vec![],
    );
    assert_eq!(plan.extent, Extent2D { width: 800, height: 600 });
}

#[test]
fn plan_image_count_is_min_plus_one() {
    let plan = plan_swapchain(&caps(2, 8, 100, 100), 800, 600, 0, 0, 36, &vec![]);
    assert_eq!(plan.image_count, 3);
}

#[test]
fn plan_image_count_capped_by_maximum() {
    let plan = plan_swapchain(&caps(3, 3, 100, 100), 800, 600, 0, 0, 36, &vec![]);
    assert_eq!(plan.image_count, 3);
}

#[test]
fn plan_image_count_unbounded_when_max_is_zero() {
    let plan = plan_swapchain(&caps(4, 0, 100, 100), 800, 600, 0, 0, 36, &vec![]);
    assert_eq!(plan.image_count, 5);
}

#[test]
fn plan_sharing_mode_follows_queue_families() {
    let same = plan_swapchain(&caps(2, 0, 100, 100), 800, 600, 1, 1, 36, &vec![]);
    assert_eq!(same.sharing, SharingMode::Exclusive);
    let split = plan_swapchain(&caps(2, 0, 100, 100), 800, 600, 0, 2, 36, &vec![]);
    assert_eq!(split.sharing, SharingMode::Concurrent);
}

#[test]
fn plan_prefers_mailbox_over_fifo() {
    let offered = vec![PresentMode::Fifo, PresentMode::Mailbox];
    let plan = plan_swapchain(&caps(2, 0, 100, 100), 800, 600, 0, 0, 36, &offered);
    assert_eq!(plan.present_mode, PresentMode::Mailbox);
    let fifo_only = plan_swapchain(&caps(2, 0, 100, 100), 800, 600, 0, 0, 36, &vec![
        PresentMode::Fifo,
    ]);
    assert_eq!(fifo_only.present_mode, PresentMode::Fifo);
}

#[test]
fn recreation_with_unchanged_surface_matches() {
    let c = caps(2, 6, 640, 480);
    let first = plan_swapchain(&c, 800, 600, 0, 1, 36, &vec![PresentMode::Mailbox]);
    let second = plan_swapchain(&c, 800, 600, 0, 1, 36, &vec![PresentMode::Mailbox]);
    assert_eq!(first.image_count, second.image_count);
    assert_eq!(first.format, second.format);
    assert_eq!(first.extent, second.extent);
}

#[test]
fn queue_families_found_separately() {
    let families = vec![
        QueueFamily { graphics: true, present: false },
        QueueFamily { graphics: false, present: true },
    ];
    assert_eq!(select_queue_families(&families), Ok((0, 1)));
}

#[test]
fn queue_families_stop_once_both_found() {
    let families = vec![
        QueueFamily { graphics: true, present: true },
        QueueFamily { graphics: true, present: true },
    ];
    assert_eq!(select_queue_families(&families), Ok((0, 0)));
}

#[test]
fn queue_families_missing_graphics() {
    let families = vec![QueueFamily { graphics: false, present: true }];
    assert_eq!(select_queue_families(&families), Err(InitError::NoGraphicsQueue));
}

#[test]
fn queue_families_missing_present() {
    let families = vec![QueueFamily { graphics: true, present: false }];
    assert_eq!(select_queue_families(&families), Err(InitError::NoPresentQueue));
}

#[test]
fn device_prefers_first_eligible_discrete() {
    let devices = vec![
        CandidateDevice { eligible: true, discrete: false },
        CandidateDevice { eligible: false, discrete: true },
        CandidateDevice { eligible: true, discrete: true },
    ];
    assert_eq!(pick_device(&devices), Ok(2));
}

#[test]
fn device_falls_back_to_first_eligible() {
    let devices = vec![
        CandidateDevice { eligible: false, discrete: false },
        CandidateDevice { eligible: true, discrete: false },
    ];
    assert_eq!(pick_device(&devices), Ok(1));
}

#[test]
fn device_none_eligible() {
    let devices = vec![CandidateDevice { eligible: false, discrete: true }];
    assert_eq!(pick_device(&devices), Err(InitError::NoSuitableDevice));
}

#[test]
fn surface_format_prefers_srgb() {
    let formats = vec![
        SurfaceFormat { format: 44, color_space: 0 },
        SurfaceFormat { format: 36, color_space: 0 },
    ];
    assert_eq!(
        select_surface_format(&formats),
        Ok(SurfaceFormat { format: 36, color_space: 0 })
    );
}

#[test]
fn surface_format_falls_back_to_first() {
    let formats = vec![
        SurfaceFormat { format: 44, color_space: 0 },
        SurfaceFormat { format: 50, color_space: 0 },
    ];
    assert_eq!(
        select_surface_format(&formats),
        Ok(SurfaceFormat { format: 44, color_space: 0 })
    );
}

#[test]
fn surface_format_empty_is_an_error() {
    assert_eq!(select_surface_format(&vec![]), Err(InitError::NoSurfaceFormat));
}

#[test]
fn depth_format_takes_first_usable_for_tiling() {
    let candidates = vec![
        DepthCandidate { format: 126, linear_attach: false, optimal_attach: false },
        DepthCandidate { format: 130, linear_attach: true, optimal_attach: true },
        DepthCandidate { format: 129, linear_attach: true, optimal_attach: true },
    ];
    assert_eq!(select_depth_format(&candidates, Tiling::Optimal), Ok(130));
    let linear_only = vec![DepthCandidate {
        format: 126,
        linear_attach: true,
        optimal_attach: false,
    }];
    assert_eq!(select_depth_format(&linear_only, Tiling::Optimal), Err(InitError::NoDepthFormat));
    assert_eq!(select_depth_format(&linear_only, Tiling::Linear), Ok(126));
}

#[test]
fn worker_count_is_half_the_cores_but_at_least_one() {
    assert_eq!(worker_thread_count(0), 1);
    assert_eq!(worker_thread_count(1), 1);
    assert_eq!(worker_thread_count(2), 1);
    assert_eq!(worker_thread_count(8), 4);
    assert_eq!(worker_thread_count(9), 4);
}

#[test]
fn queue_family_list_deduplicated_and_sorted() {
    assert_eq!(unique_queue_families(3, 3), vec![3]);
    assert_eq!(unique_queue_families(1, 4), vec![1, 4]);
    assert_eq!(unique_queue_families(4, 1), vec![1, 4]);
}

#[test]
fn extension_check_needs_every_required_name() {
    let avail = vec![b"VK_KHR_swapchain".to_vec(), b"VK_KHR_dynamic_rendering".to_vec()];
    let required = vec![b"VK_KHR_swapchain".to_vec()];
    assert!(device_supports(true, &avail, &required));
    assert!(!device_supports(false, &avail, &required));
    let missing = vec![b"VK_EXT_memory_budget".to_vec()];
    assert!(!device_supports(true, &avail, &missing));
    assert!(bytes_eq(&b"abc".to_vec(), &b"abc".to_vec()));
    assert!(!bytes_eq(&b"abc".to_vec(), &b"abd".to_vec()));
    assert!(!bytes_eq(&b"abc".to_vec(), &b"ab".to_vec()));
}

#[test]
fn engine_construction_reports_the_first_missing_selection() {
    let settings = GraphicsSettings { resolution_width: 800, resolution_height: 600, vsync: true };
    let plan = SwapchainPlan {
        format: 36,
        extent: Extent2D { width: 800, height: 600 },
        image_count: 3,
        sharing: SharingMode::Exclusive,
        present_mode: PresentMode::Fifo,
    };
    let good_families = vec![QueueFamily { graphics: true, present: true }];
    let good_formats = vec![SurfaceFormat { format: 36, color_space: 0 }];
    let good_depths =
        vec![DepthCandidate { format: 126, linear_attach: false, optimal_attach: true }];
    let images = vec![1u64];
    let views = vec![2u64];

    let no_graphics = vec![QueueFamily { graphics: false, present: true }];
    assert!(matches!(
        Engine::new(&settings, &no_graphics, &good_formats, &good_depths, 4, 0, plan,
            images.clone(), views.clone(), None),
        Err(InitError::NoGraphicsQueue)
    ));
    assert!(matches!(
        Engine::new(&settings, &good_families, &vec![], &good_depths, 4, 0, plan,
            images.clone(), views.clone(), None),
        Err(InitError::NoSurfaceFormat)
    ));
    let no_depth =
        vec![DepthCandidate { format: 126, linear_attach: true, optimal_attach: false }];
    assert!(matches!(
        Engine::new(&settings, &good_families, &good_formats, &no_depth, 4, 0, plan,
            images.clone(), views.clone(), None),
        Err(InitError::NoDepthFormat)
    ));
    let engine = Engine::new(&settings, &good_families, &good_formats, &good_depths, 4, 0, plan,
        images, views, None)
        .expect("every selection succeeds");
    assert_eq!(engine.surface_format, 36);
    assert_eq!(engine.depth_format, 126);
    assert_eq!(engine.num_workers, 2);
}
