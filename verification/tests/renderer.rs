use bengine::renderer::buffer::find_memory_type;
use bengine::renderer::device::{
    choose_sample_count, feature_subset, find_queue_families, max_usable_sample_count,
    pick_physical_device, DeviceReport, FeatureLists, QueueFamily,
};
use bengine::renderer::frame::{AcquireOutcome, FrameState, ImageIndex, PresentOutcome};
use bengine::renderer::image::{
    find_supported_format, mip_levels, mip_range, next_mip_size, transition_masks, upload_commands,
    FormatCandidate, UploadCommand,
    TransitionMasks, LAYOUT_GENERAL, LAYOUT_SHADER_READ_ONLY_OPTIMAL, LAYOUT_TRANSFER_DST_OPTIMAL,
    LAYOUT_TRANSFER_SRC_OPTIMAL, LAYOUT_UNDEFINED, TILING_LINEAR, TILING_OPTIMAL,
};
use bengine::renderer::swapchain::{
    choose_present_mode, choose_pre_transform, choose_swap_surface_format, clamp_extent,
    depth_format_candidates, desired_image_count, find_depth_format, has_stencil_component,
    Extent2D, SurfaceFormat,
};

#[test]
fn memory_type_is_first_allowed_with_all_properties() {
    // HOST_VISIBLE = 2, HOST_COHERENT = 4, DEVICE_LOCAL = 1
    let types = [1, 6, 7, 6];
    assert_eq!(find_memory_type(&types, 0b1111, 6), Some(1));
    assert_eq!(find_memory_type(&types, 0b1101, 6), Some(2));
    assert_eq!(find_memory_type(&types, 0b1000, 6), Some(3));
    assert_eq!(find_memory_type(&types, 0b0001, 6), None);
    assert_eq!(find_memory_type(&types, 0b1111, 8), None);
    assert_eq!(find_memory_type(&[], 0xffff_ffff, 0), None);
}

#[test]
fn memory_type_filter_reaches_bit_31() {
    let mut types = [0u32; 32];
    types[31] = 1;
    assert_eq!(find_memory_type(&types, 1 << 31, 1), Some(31));
}

#[test]
fn surface_format_prefers_bgra_srgb() {
    let other = SurfaceFormat { format: 44, color_space: 0 };
    let preferred = SurfaceFormat { format: 50, color_space: 0 };
    let wrong_space = SurfaceFormat { format: 50, color_space: 1000104001 };
    assert_eq!(choose_swap_surface_format(&[other, wrong_space, preferred]), Some(preferred));
    assert_eq!(choose_swap_surface_format(&[wrong_space, other]), Some(wrong_space));
    assert_eq!(choose_swap_surface_format(&[]), None);
}

#[test]
fn image_count_is_one_above_minimum_within_maximum() {
    assert_eq!(desired_image_count(2, 8), 3);
    assert_eq!(desired_image_count(3, 3), 3);
    assert_eq!(desired_image_count(2, 0), 3);
}

#[test]
fn extent_is_clamped_per_side() {
    let min = Extent2D { width: 100, height: 100 };
    let max = Extent2D { width: 1000, height: 500 };
    assert_eq!(
        clamp_extent(Extent2D { width: 800, height: 600 }, min, max),
        Extent2D { width: 800, height: 500 }
    );
    assert_eq!(
        clamp_extent(Extent2D { width: 10, height: 200 }, min, max),
        Extent2D { width: 100, height: 200 }
    );
}

#[test]
fn pre_transform_and_present_mode() {
    assert_eq!(choose_pre_transform(0b11, 2), 1);
    assert_eq!(choose_pre_transform(0b10, 2), 2);
    assert_eq!(choose_present_mode(&[0, 1, 2, 3]), 3);
    assert_eq!(choose_present_mode(&[0, 2]), 2);
    assert_eq!(choose_present_mode(&[]), 2);
}

#[test]
fn depth_formats() {
    assert_eq!(depth_format_candidates(), [126, 130]);
    assert!(has_stencil_component(130));
    assert!(has_stencil_component(129));
    assert!(!has_stencil_component(126));
    let candidates = [
        FormatCandidate { format: 126, linear_tiling_features: 0x200, optimal_tiling_features: 0 },
        FormatCandidate { format: 130, linear_tiling_features: 0, optimal_tiling_features: 0x201 },
    ];
    assert_eq!(find_depth_format(&candidates), Some(130));
    assert_eq!(find_supported_format(&candidates, TILING_LINEAR, 0x200), Some(126));
    assert_eq!(find_supported_format(&candidates, TILING_OPTIMAL, 0x400), None);
}

#[test]
fn layout_transitions() {
    assert_eq!(
        transition_masks(LAYOUT_UNDEFINED, LAYOUT_TRANSFER_DST_OPTIMAL),
        Some(TransitionMasks {
            src_access_mask: 0,
            dst_access_mask: 0x1000,
            src_stage_mask: 0x1,
            dst_stage_mask: 0x1000
        })
    );
    assert_eq!(
        transition_masks(LAYOUT_TRANSFER_DST_OPTIMAL, LAYOUT_TRANSFER_SRC_OPTIMAL),
        Some(TransitionMasks {
            src_access_mask: 0x1000,
            dst_access_mask: 0x800,
            src_stage_mask: 0x1000,
            dst_stage_mask: 0x1000
        })
    );
    assert_eq!(
        transition_masks(LAYOUT_GENERAL, LAYOUT_SHADER_READ_ONLY_OPTIMAL),
        Some(TransitionMasks {
            src_access_mask: 0x40,
            dst_access_mask: 0x20,
            src_stage_mask: 0x800,
            dst_stage_mask: 0x80
        })
    );
    assert_eq!(transition_masks(LAYOUT_SHADER_READ_ONLY_OPTIMAL, LAYOUT_UNDEFINED), None);
    assert_eq!(mip_range(Some(3), 10), (3, 1));
    assert_eq!(mip_range(None, 10), (0, 10));
}

#[test]
fn mip_chain() {
    assert_eq!(mip_levels(1024, 512, true), 11);
    assert_eq!(mip_levels(1000, 1, true), 10);
    assert_eq!(mip_levels(1, 1, true), 1);
    assert_eq!(mip_levels(u32::MAX, 0, true), 32);
    assert_eq!(mip_levels(1024, 512, false), 1);
    assert_eq!(next_mip_size(1024), 512);
    assert_eq!(next_mip_size(3), 1);
    assert_eq!(next_mip_size(1), 1);
}

#[test]
fn sample_counts() {
    assert_eq!(max_usable_sample_count(0b111_1111), 64);
    assert_eq!(max_usable_sample_count(0b0101), 4);
    assert_eq!(max_usable_sample_count(0), 1);
    assert_eq!(choose_sample_count(0b111_1111, 0b111_1111), 8);
    assert_eq!(choose_sample_count(0b1111, 0b0111), 4);
}

#[test]
fn features_are_compared_pairwise() {
    assert!(feature_subset(&[1, 0, 1], &[1, 1, 1]));
    assert!(!feature_subset(&[1, 0, 1], &[1, 1, 0]));
    assert!(feature_subset(&[0, 0], &[0, 0]));
    assert!(feature_subset(&[1, 1, 1], &[1]));
}

#[test]
fn queue_families() {
    let g = QueueFamily { graphics: true, present: false };
    let p = QueueFamily { graphics: false, present: true };
    let both = QueueFamily { graphics: true, present: true };
    let none = QueueFamily { graphics: false, present: false };
    assert_eq!(find_queue_families(&[none, both, p]), Some((1, 1)));
    assert_eq!(find_queue_families(&[p, none, g, both]), Some((2, 0)));
    assert_eq!(find_queue_families(&[g, g]), None);
    assert_eq!(find_queue_families(&[]), None);
}

#[test]
fn frame_cycle() {
    let mut frame = FrameState::new(800, 600);
    assert_eq!(frame.image_index, ImageIndex::Acquiring);
    let mut resized = true;
    assert!(frame.acquired(AcquireOutcome::OutOfDate, &mut resized));
    assert!(!resized);
    assert!(!frame.acquired(AcquireOutcome::Acquired { image_index: 2, suboptimal: false }, &mut resized));
    assert_eq!(frame.image_index, ImageIndex::Recording(2));
    assert!(!frame.recreate_swapchain);
    assert_eq!(frame.draw(), (2, 0));
    assert_eq!(frame.current_frame, 1);
    assert_eq!(frame.present(), 2);
    assert!(!frame.presented(PresentOutcome::Presented));
    let mut resized = true;
    assert!(!frame.acquired(AcquireOutcome::Acquired { image_index: 0, suboptimal: false }, &mut resized));
    assert!(resized);
    assert!(frame.recreate_swapchain);
    assert_eq!(frame.draw(), (0, 1));
    assert_eq!(frame.current_frame, 0);
    assert_eq!(frame.present(), 0);
    assert!(frame.presented(PresentOutcome::Presented));
    assert!(!frame.acquired(AcquireOutcome::Acquired { image_index: 1, suboptimal: false }, &mut false));
    frame.draw();
    frame.present();
    assert!(frame.presented(PresentOutcome::OutOfDate));
    frame.update_window_size((1, 700));
    assert_eq!(frame.window_size, (800, 600));
    frame.update_window_size((1920, 1080));
    assert_eq!(frame.window_size, (1920, 1080));
}

fn features(core: Vec<u32>, vulkan12: Vec<u32>) -> FeatureLists {
    FeatureLists { core, vulkan11: vec![], vulkan12, vulkan13: vec![] }
}

#[test]
fn first_suitable_device_is_picked() {
    let requested = features(vec![1, 0, 1], vec![1]);
    let families = vec![
        QueueFamily { graphics: false, present: true },
        QueueFamily { graphics: true, present: false },
    ];
    let missing_feature = DeviceReport {
        features: features(vec![1, 1, 0], vec![1]),
        color_sample_counts: 127,
        depth_sample_counts: 127,
        queue_families: families.clone(),
    };
    let no_graphics = DeviceReport {
        features: features(vec![1, 1, 1], vec![1]),
        color_sample_counts: 127,
        depth_sample_counts: 127,
        queue_families: vec![QueueFamily { graphics: false, present: true }],
    };
    let suitable = DeviceReport {
        features: features(vec![1, 0, 1], vec![1, 0]),
        color_sample_counts: 127,
        depth_sample_counts: 15,
        queue_families: families,
    };
    assert_eq!(
        pick_physical_device(&requested, &[missing_feature.clone(), no_graphics.clone(), suitable]),
        Some((2, (1, 0), 8))
    );
    assert_eq!(pick_physical_device(&requested, &[missing_feature, no_graphics]), None);
    assert_eq!(pick_physical_device(&requested, &[]), None);
}

#[test]
fn upload_blits_each_mip_level_from_the_one_before() {
    let dst = |level| UploadCommand::Transition {
        mip_level: Some(level),
        old_layout: LAYOUT_TRANSFER_DST_OPTIMAL,
        new_layout: LAYOUT_TRANSFER_SRC_OPTIMAL,
    };
    assert_eq!(
        upload_commands(8, 2, true, 4),
        vec![
            UploadCommand::Transition {
                mip_level: None,
                old_layout: LAYOUT_UNDEFINED,
                new_layout: LAYOUT_TRANSFER_DST_OPTIMAL,
            },
            UploadCommand::CopyBufferToImage,
            dst(0),
            UploadCommand::Blit { src_level: 0, src_size: (8, 2), dst_level: 1, dst_size: (4, 1) },
            dst(1),
            UploadCommand::Blit { src_level: 1, src_size: (4, 1), dst_level: 2, dst_size: (2, 1) },
            dst(2),
            UploadCommand::Blit { src_level: 2, src_size: (2, 1), dst_level: 3, dst_size: (1, 1) },
            dst(3),
            UploadCommand::Transition {
                mip_level: None,
                old_layout: LAYOUT_TRANSFER_SRC_OPTIMAL,
                new_layout: LAYOUT_SHADER_READ_ONLY_OPTIMAL,
            },
        ]
    );
    assert_eq!(
        upload_commands(8, 2, false, 1),
        vec![
            UploadCommand::Transition {
                mip_level: None,
                old_layout: LAYOUT_UNDEFINED,
                new_layout: LAYOUT_TRANSFER_DST_OPTIMAL,
            },
            UploadCommand::CopyBufferToImage,
            UploadCommand::Transition {
                mip_level: None,
                old_layout: LAYOUT_TRANSFER_DST_OPTIMAL,
                new_layout: LAYOUT_SHADER_READ_ONLY_OPTIMAL,
            },
        ]
    );
}
