use krysalis_native::adapter::{
    find_queue_families, is_device_suitable, pick_physical_device, AdapterInfo, QueueFamilyCaps,
    QueueFamilyIndices,
};
use krysalis_native::device::{build_device_config, unique_queue_families};
use krysalis_native::error::VulkanError;
use krysalis_native::instance::{
    build_instance_config, check_validation_layer_support, debug_messenger_config,
    make_api_version, validation_layer_name,
};
use krysalis_native::swapchain::{
    choose_present_mode, choose_surface_format, choose_swap_extent, compute_image_count,
    create_image_view_configs, negotiate_swapchain, Extent2D, SharingMode, SurfaceCapabilities,
    SurfaceFormat, SurfaceSupport, COLOR_SPACE_SRGB_NONLINEAR, EXTENT_UNDEFINED,
    FORMAT_B8G8R8A8_SRGB, PRESENT_MODE_FIFO, PRESENT_MODE_MAILBOX,
};

fn family(graphics: bool, present: bool) -> QueueFamilyCaps {
    QueueFamilyCaps { supports_graphics: graphics, supports_present: present }
}

fn caps(min: u32, max: u32, current: (u32, u32)) -> SurfaceCapabilities {
    SurfaceCapabilities {
        min_image_count: min,
        max_image_count: max,
        current_extent: Extent2D { width: current.0, height: current.1 },
        min_image_extent: Extent2D { width: 100, height: 100 },
        max_image_extent: Extent2D { width: 2000, height: 2000 },
        current_transform: 1,
    }
}

#[test]
fn empty_selection_is_incomplete() {
    let indices = QueueFamilyIndices::new();
    assert!(indices.graphics_family.is_none());
    assert!(indices.present_family.is_none());
    assert!(!indices.is_complete());
}

#[test]
fn find_queue_families_needs_both_capabilities() {
    let graphics_only = vec![family(true, false), family(true, false)];
    let found = find_queue_families(&graphics_only);
    assert!(found.graphics_family.is_some());
    assert_eq!(found.present_family, None);
    assert!(!found.is_complete());

    let split = vec![family(true, false), family(false, true)];
    let found = find_queue_families(&split);
    assert_eq!(found.graphics_family, Some(0));
    assert_eq!(found.present_family, Some(1));
    assert!(found.is_complete());

    let shared = vec![family(true, true)];
    let found = find_queue_families(&shared);
    assert_eq!(found.graphics_family, Some(0));
    assert_eq!(found.present_family, Some(0));
    assert!(found.is_complete());
}

#[test]
fn adapters_lacking_either_capability_are_rejected() {
    assert!(!is_device_suitable(&AdapterInfo { queue_families: vec![family(true, false)] }));
    assert!(!is_device_suitable(&AdapterInfo { queue_families: vec![family(false, true)] }));
    assert!(!is_device_suitable(&AdapterInfo { queue_families: vec![] }));
    assert!(is_device_suitable(&AdapterInfo {
        queue_families: vec![family(true, false), family(false, true)],
    }));
}

#[test]
fn first_qualifying_adapter_is_selected() {
    let adapters = vec![
        AdapterInfo { queue_families: vec![family(true, false)] },
        AdapterInfo { queue_families: vec![family(true, true)] },
        AdapterInfo { queue_families: vec![family(true, true)] },
    ];
    assert_eq!(pick_physical_device(&adapters), Ok(1));
}

#[test]
fn no_qualifying_adapter_is_an_error() {
    let adapters = vec![
        AdapterInfo { queue_families: vec![family(true, false)] },
        AdapterInfo { queue_families: vec![family(false, true)] },
    ];
    assert_eq!(pick_physical_device(&adapters), Err(VulkanError::NoSuitableAdapter));
    assert_eq!(pick_physical_device(&vec![]), Err(VulkanError::NoSuitableAdapter));
}

#[test]
fn distinct_families_are_both_requested() {
    assert_eq!(unique_queue_families(0, 1), vec![0, 1]);
    assert_eq!(unique_queue_families(2, 2), vec![2]);
}

#[test]
fn device_config_deduplicates_families() {
    let indices = QueueFamilyIndices { graphics_family: Some(3), present_family: Some(3) };
    let config = build_device_config(&indices, true);
    assert_eq!(config.queue_families, vec![3]);
    assert!(config.enable_swapchain_extension);
    assert!(config.enable_validation_layer);
    assert_eq!(config.queue_priority_bits, 1.0f32.to_bits());

    let indices = QueueFamilyIndices { graphics_family: Some(0), present_family: Some(2) };
    let config = build_device_config(&indices, false);
    assert_eq!(config.queue_families, vec![0, 2]);
    assert!(!config.enable_validation_layer);
}

#[test]
fn preferred_format_is_used_when_supported() {
    let other = SurfaceFormat { format: 44, color_space: 0 };
    let preferred = SurfaceFormat {
        format: FORMAT_B8G8R8A8_SRGB,
        color_space: COLOR_SPACE_SRGB_NONLINEAR,
    };
    let chosen = choose_surface_format(&vec![other, preferred]);
    assert_eq!(chosen, preferred);
}

#[test]
fn first_format_is_used_when_preferred_is_absent() {
    let first = SurfaceFormat { format: 44, color_space: 0 };
    let second = SurfaceFormat { format: 37, color_space: 0 };
    let wrong_space = SurfaceFormat { format: FORMAT_B8G8R8A8_SRGB, color_space: 7 };
    let chosen = choose_surface_format(&vec![first, second, wrong_space]);
    assert_eq!(chosen, first);
}

#[test]
fn mailbox_present_mode_is_preferred() {
    assert_eq!(
        choose_present_mode(&vec![PRESENT_MODE_FIFO, PRESENT_MODE_MAILBOX]),
        PRESENT_MODE_MAILBOX
    );
    assert_eq!(choose_present_mode(&vec![PRESENT_MODE_FIFO]), PRESENT_MODE_FIFO);
    assert_eq!(choose_present_mode(&vec![]), PRESENT_MODE_FIFO);
}

#[test]
fn image_count_is_min_plus_one() {
    assert_eq!(compute_image_count(&caps(2, 8, (800, 600))), 3);
    // An unbounded surface reports zero as its maximum.
    assert_eq!(compute_image_count(&caps(4, 0, (800, 600))), 5);
}

#[test]
fn image_count_is_clamped_to_the_maximum() {
    assert_eq!(compute_image_count(&caps(3, 3, (800, 600))), 3);
    assert_eq!(compute_image_count(&caps(2, 2, (800, 600))), 2);
}

#[test]
fn defined_current_extent_is_used_as_is() {
    let extent = choose_swap_extent(&caps(2, 8, (1024, 768)), Extent2D { width: 5, height: 5 });
    assert_eq!(extent, Extent2D { width: 1024, height: 768 });
}

#[test]
fn undefined_extent_falls_back_to_clamped_window_size() {
    let surface = caps(2, 8, (EXTENT_UNDEFINED, 600));
    let inside = choose_swap_extent(&surface, Extent2D { width: 800, height: 600 });
    assert_eq!(inside, Extent2D { width: 800, height: 600 });
    let small = choose_swap_extent(&surface, Extent2D { width: 10, height: 10 });
    assert_eq!(small, Extent2D { width: 100, height: 100 });
    let large = choose_swap_extent(&surface, Extent2D { width: 9000, height: 9000 });
    assert_eq!(large, Extent2D { width: 2000, height: 2000 });
}

#[test]
fn negotiation_uses_concurrent_sharing_for_distinct_families() {
    let support = SurfaceSupport {
        capabilities: caps(2, 8, (800, 600)),
        formats: vec![SurfaceFormat {
            format: FORMAT_B8G8R8A8_SRGB,
            color_space: COLOR_SPACE_SRGB_NONLINEAR,
        }],
        present_modes: vec![PRESENT_MODE_FIFO],
    };
    let config = negotiate_swapchain(&support, Extent2D { width: 800, height: 600 }, 0, 1);
    assert_eq!(config.sharing_mode, SharingMode::Concurrent);
    assert_eq!(config.queue_family_indices, vec![0, 1]);
    assert_eq!(config.image_count, 3);
    assert_eq!(config.format.format, FORMAT_B8G8R8A8_SRGB);
    assert_eq!(config.present_mode, PRESENT_MODE_FIFO);
    assert_eq!(config.extent, Extent2D { width: 800, height: 600 });
    assert_eq!(config.image_array_layers, 1);
    assert_eq!(config.pre_transform, 1);
    assert!(config.clipped);
}

#[test]
fn negotiation_uses_exclusive_sharing_for_one_family() {
    let support = SurfaceSupport {
        capabilities: caps(2, 8, (800, 600)),
        formats: vec![SurfaceFormat { format: 44, color_space: 0 }],
        present_modes: vec![PRESENT_MODE_MAILBOX],
    };
    let config = negotiate_swapchain(&support, Extent2D { width: 800, height: 600 }, 2, 2);
    assert_eq!(config.sharing_mode, SharingMode::Exclusive);
    assert_eq!(config.queue_family_indices, Vec::<u32>::new());
    assert_eq!(config.present_mode, PRESENT_MODE_MAILBOX);
    assert_eq!(config.format, SurfaceFormat { format: 44, color_space: 0 });
}

#[test]
fn image_views_cover_every_image_with_the_swapchain_format() {
    let views = create_image_view_configs(3, FORMAT_B8G8R8A8_SRGB);
    assert_eq!(views.len(), 3);
    for (i, view) in views.iter().enumerate() {
        assert_eq!(view.image_index, i);
        assert!(view.view_type_2d);
        assert_eq!(view.format, FORMAT_B8G8R8A8_SRGB);
        assert!(view.swizzle_identity);
        assert!(view.aspect_color);
        assert_eq!(view.base_mip_level, 0);
        assert_eq!(view.level_count, 1);
        assert_eq!(view.base_array_layer, 0);
        assert_eq!(view.layer_count, 1);
    }
}

#[test]
fn api_version_packs_fields() {
    assert_eq!(make_api_version(1, 0, 0), 1 << 22);
    assert_eq!(make_api_version(1, 2, 3), (1 << 22) | (2 << 12) | 3);
}

#[test]
fn validation_layer_is_found_by_name() {
    let layers = vec!["VK_LAYER_other".to_string(), validation_layer_name().to_string()];
    assert!(check_validation_layer_support(&layers));
    assert!(!check_validation_layer_support(&vec!["VK_LAYER_other".to_string()]));
    assert!(!check_validation_layer_support(&vec![]));
}

#[test]
fn instance_config_requires_the_validation_layer() {
    let result = build_instance_config(vec!["VK_KHR_surface".to_string()], true, &vec![]);
    assert_eq!(result.unwrap_err(), VulkanError::ValidationLayerUnavailable);
}

#[test]
fn instance_config_adds_diagnostics_when_enabled() {
    let layers = vec![validation_layer_name().to_string()];
    let config =
        build_instance_config(vec!["VK_KHR_surface".to_string()], true, &layers).unwrap();
    assert_eq!(config.extensions, vec!["VK_KHR_surface", "VK_EXT_debug_utils"]);
    assert_eq!(config.layers, vec!["VK_LAYER_KHRONOS_validation"]);
    assert_eq!(config.api_version, 1 << 22);
    assert_eq!(config.application_name, "Hello Triangle");
    assert_eq!(config.engine_name, "No Engine");
    assert!(config.enable_validation);
}

#[test]
fn instance_config_is_bare_without_diagnostics() {
    let config = build_instance_config(vec!["VK_KHR_surface".to_string()], false, &vec![]).unwrap();
    assert_eq!(config.extensions, vec!["VK_KHR_surface"]);
    assert!(config.layers.is_empty());
    assert!(!config.enable_validation);
}

#[test]
fn debug_messenger_listens_at_all_severities() {
    let config = debug_messenger_config();
    assert_eq!(config.message_severity, 0x1 | 0x100 | 0x1000);
    assert_eq!(config.message_type, 0x1 | 0x2 | 0x4);
}

#[test]
fn error_messages_name_the_failing_stage() {
    assert_eq!(VulkanError::NoSuitableAdapter.message(), "no suitable adapter found");
    assert_eq!(VulkanError::DeviceCreationError.message(), "failed to create logical device");
    assert_eq!(VulkanError::InstanceCreationError.message(), "failed to create instance");
    assert_eq!(
        VulkanError::PipelineCreationError.message(),
        "failed to create graphics pipeline"
    );
    assert_eq!(
        VulkanError::ShaderModuleCreationError.message(),
        "failed to create shader module"
    );
    assert_eq!(VulkanError::BufferCreationError.message(), "failed to create vertex buffer");
    assert_eq!(VulkanError::MemoryTypeNotFound.message(), "failed to find suitable memory type");
    assert_eq!(VulkanError::AcquireError.message(), "failed to acquire next image");
    assert_eq!(VulkanError::PresentError.message(), "failed to present queue");
    assert_eq!(VulkanError::FenceWaitError.message(), "failed to wait for fence");
    assert_eq!(
        VulkanError::ValidationLayerUnavailable.message(),
        "validation layers requested, but not available"
    );
}
