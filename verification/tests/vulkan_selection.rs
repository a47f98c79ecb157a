use foxy::vulkan::creation::{creation_step, CreationAction, CreationStage};
use foxy::vulkan::builder::{HasWindow, MissingWindow, ValidationStatus, VulkanBuilder};
use foxy::vulkan::device::{
    device_extensions, device_extensions_supported, device_features_supported, device_score,
    find_memory_type, find_queue_families, find_supported_format, is_suitable, pick_physical_device,
    unique_queue_families, DeviceCandidate, DeviceFeatures, ExtendedFeatures, FormatCandidate,
    MemoryType, PresentSupport, QueueFamilyIndices, QueueFamilyInfo, SuitabilityReport,
    SwapchainSupportCounts, FORMAT_B8G8R8_UNORM, IMAGE_TILING_LINEAR, IMAGE_TILING_OPTIMAL,
    PHYSICAL_DEVICE_TYPE_CPU, PHYSICAL_DEVICE_TYPE_DISCRETE_GPU, PHYSICAL_DEVICE_TYPE_INTEGRATED_GPU,
    PHYSICAL_DEVICE_TYPE_OTHER, PHYSICAL_DEVICE_TYPE_VIRTUAL_GPU,
};
use foxy::vulkan::device_builder::DeviceBuilder;
use foxy::vulkan::device_builder::ValidationStatus as DeviceValidation;
use foxy::vulkan::error::{DeviceFeature, Unsupported, VulkanError};
use foxy::vulkan::instance::{instance_extensions, request_layers_and_extensions, validation_layers};
use foxy::vulkan::names::{contains_name, missing_names};

fn names(xs: &[&str]) -> Vec<String> {
    xs.iter().map(|s| s.to_string()).collect()
}

fn family(queue_count: u32, supports_graphics: bool, present_support: PresentSupport) -> QueueFamilyInfo {
    QueueFamilyInfo { queue_count, supports_graphics, present_support }
}

#[test]
fn missing_names_keeps_required_order() {
    let required = names(&["a", "b", "c", "d"]);
    let supported = names(&["d", "b"]);
    assert_eq!(missing_names(&required, &supported), names(&["a", "c"]));
    assert!(missing_names(&required, &required).is_empty());
    assert!(contains_name(&supported, &"b".to_string()));
    assert!(!contains_name(&supported, &"c".to_string()));
}

#[test]
fn own_layer_and_extension_lists() {
    assert_eq!(validation_layers(true), names(&["VK_LAYER_KHRONOS_validation"]));
    assert!(validation_layers(false).is_empty());
    assert_eq!(instance_extensions(true), names(&["VK_KHR_surface", "VK_EXT_debug_utils"]));
    assert_eq!(instance_extensions(false), names(&["VK_KHR_surface"]));
    assert_eq!(device_extensions(), names(&["VK_KHR_swapchain"]));
}

#[test]
fn request_with_validation_enabled() {
    let layers = names(&["VK_LAYER_KHRONOS_validation", "other"]);
    let exts = names(&["VK_KHR_win32_surface", "VK_KHR_surface", "VK_EXT_debug_utils"]);
    let window = names(&["VK_KHR_win32_surface"]);
    let (l, e) = request_layers_and_extensions(&layers, &exts, &window, ValidationStatus::Enabled, true).unwrap();
    assert_eq!(l, names(&["VK_LAYER_KHRONOS_validation"]));
    assert_eq!(e, names(&["VK_KHR_win32_surface", "VK_KHR_surface", "VK_EXT_debug_utils"]));
}

#[test]
fn request_with_validation_disabled_asks_for_no_layer() {
    let layers = names(&["VK_LAYER_KHRONOS_validation"]);
    let exts = names(&["VK_KHR_xlib_surface", "VK_KHR_surface", "VK_EXT_debug_utils"]);
    let window = names(&["VK_KHR_xlib_surface"]);
    let (l, e) = request_layers_and_extensions(&layers, &exts, &window, ValidationStatus::Disabled, true).unwrap();
    assert!(l.is_empty());
    assert_eq!(e.len(), 3);
}

#[test]
fn request_in_release_build() {
    let (l, e) = request_layers_and_extensions(&vec![], &names(&["VK_KHR_surface"]), &vec![], ValidationStatus::Enabled, false)
        .unwrap();
    assert!(l.is_empty());
    assert_eq!(e, names(&["VK_KHR_surface"]));
}

#[test]
fn request_fails_on_missing_layer_even_when_disabled() {
    let exts = names(&["VK_KHR_surface", "VK_EXT_debug_utils"]);
    match request_layers_and_extensions(&vec![], &exts, &vec![], ValidationStatus::Disabled, true) {
        Err(VulkanError::Unsupported(Unsupported::MissingLayers(m))) => {
            assert_eq!(m, names(&["VK_LAYER_KHRONOS_validation"]))
        }
        other => panic!("unexpected {:?}", other),
    }
}

#[test]
fn request_fails_on_missing_extensions() {
    let layers = names(&["VK_LAYER_KHRONOS_validation"]);
    let exts = names(&["VK_KHR_surface"]);
    let window = names(&["VK_KHR_wayland_surface"]);
    match request_layers_and_extensions(&layers, &exts, &window, ValidationStatus::Enabled, true) {
        Err(VulkanError::Unsupported(Unsupported::MissingInstanceExtensions(m))) => {
            assert_eq!(m, names(&["VK_KHR_wayland_surface", "VK_EXT_debug_utils"]))
        }
        other => panic!("unexpected {:?}", other),
    }
}

#[test]
fn queue_family_shared_by_graphics_and_present() {
    let families = vec![family(1, true, PresentSupport::Supported)];
    assert_eq!(
        find_queue_families(&families).unwrap(),
        QueueFamilyIndices { graphics_family: 0, present_family: 0 }
    );
}

#[test]
fn queue_families_found_at_first_complete_index() {
    let families = vec![
        family(1, true, PresentSupport::Unsupported),
        family(1, true, PresentSupport::Unsupported),
        family(2, false, PresentSupport::Supported),
        family(1, true, PresentSupport::Supported),
    ];
    assert_eq!(
        find_queue_families(&families).unwrap(),
        QueueFamilyIndices { graphics_family: 1, present_family: 2 }
    );
}

#[test]
fn queue_families_without_queues_are_skipped() {
    let families = vec![
        family(0, true, PresentSupport::Supported),
        family(3, false, PresentSupport::Supported),
        family(3, true, PresentSupport::Unsupported),
    ];
    assert_eq!(
        find_queue_families(&families).unwrap(),
        QueueFamilyIndices { graphics_family: 2, present_family: 1 }
    );
}

#[test]
fn queue_family_query_failure_is_reported() {
    let families = vec![family(1, true, PresentSupport::Unsupported), family(1, true, PresentSupport::Failed(-3))];
    match find_queue_families(&families) {
        Err(VulkanError::Vulkan(code)) => assert_eq!(code, -3),
        other => panic!("unexpected {:?}", other),
    }
}

#[test]
fn no_queue_families() {
    let families = vec![family(1, true, PresentSupport::Unsupported), family(1, false, PresentSupport::Unsupported)];
    assert!(matches!(
        find_queue_families(&families),
        Err(VulkanError::Unsupported(Unsupported::NoQueueFamilies))
    ));
    assert!(matches!(find_queue_families(&vec![]), Err(VulkanError::Unsupported(Unsupported::NoQueueFamilies))));
}

#[test]
fn device_scores() {
    assert_eq!(device_score(PHYSICAL_DEVICE_TYPE_DISCRETE_GPU), 0);
    assert_eq!(device_score(PHYSICAL_DEVICE_TYPE_INTEGRATED_GPU), 1);
    assert_eq!(device_score(PHYSICAL_DEVICE_TYPE_VIRTUAL_GPU), 2);
    assert_eq!(device_score(PHYSICAL_DEVICE_TYPE_CPU), 3);
    assert_eq!(device_score(PHYSICAL_DEVICE_TYPE_OTHER), 4);
    assert_eq!(device_score(42), 5);
}

#[test]
fn pick_prefers_discrete_gpu() {
    let devices = vec![
        DeviceCandidate { suitable: true, device_type: PHYSICAL_DEVICE_TYPE_INTEGRATED_GPU },
        DeviceCandidate { suitable: true, device_type: PHYSICAL_DEVICE_TYPE_DISCRETE_GPU },
        DeviceCandidate { suitable: true, device_type: PHYSICAL_DEVICE_TYPE_DISCRETE_GPU },
    ];
    assert_eq!(pick_physical_device(&devices).unwrap(), 1);
}

#[test]
fn pick_skips_unsuitable_devices() {
    let devices = vec![
        DeviceCandidate { suitable: false, device_type: PHYSICAL_DEVICE_TYPE_DISCRETE_GPU },
        DeviceCandidate { suitable: true, device_type: PHYSICAL_DEVICE_TYPE_CPU },
        DeviceCandidate { suitable: true, device_type: PHYSICAL_DEVICE_TYPE_OTHER },
    ];
    assert_eq!(pick_physical_device(&devices).unwrap(), 1);
}

#[test]
fn pick_fails_without_suitable_device() {
    let devices = vec![DeviceCandidate { suitable: false, device_type: PHYSICAL_DEVICE_TYPE_DISCRETE_GPU }];
    assert!(matches!(
        pick_physical_device(&devices),
        Err(VulkanError::Unsupported(Unsupported::NoSuitableDevice))
    ));
    assert!(pick_physical_device(&vec![]).is_err());
}

#[test]
fn suitability() {
    let good = SuitabilityReport {
        queue_families_found: true,
        extensions_supported: true,
        swapchain_support: Some(SwapchainSupportCounts { formats: 2, present_modes: 1 }),
        features_supported: true,
    };
    assert!(is_suitable(good));
    assert!(!is_suitable(SuitabilityReport { queue_families_found: false, ..good }));
    assert!(!is_suitable(SuitabilityReport { extensions_supported: false, ..good }));
    assert!(!is_suitable(SuitabilityReport { swapchain_support: None, ..good }));
    assert!(!is_suitable(SuitabilityReport {
        swapchain_support: Some(SwapchainSupportCounts { formats: 0, present_modes: 1 }),
        ..good
    }));
    assert!(!is_suitable(SuitabilityReport {
        swapchain_support: Some(SwapchainSupportCounts { formats: 1, present_modes: 0 }),
        ..good
    }));
    assert!(!is_suitable(SuitabilityReport { features_supported: false, ..good }));
}

#[test]
fn device_extension_check() {
    assert!(device_extensions_supported(&names(&["VK_KHR_swapchain", "x"])).is_ok());
    match device_extensions_supported(&names(&["x"])) {
        Err(VulkanError::Unsupported(Unsupported::MissingDeviceExtensions(m))) => {
            assert_eq!(m, names(&["VK_KHR_swapchain"]))
        }
        other => panic!("unexpected {:?}", other),
    }
}

fn missing_feature(f: DeviceFeatures) -> Option<DeviceFeature> {
    match device_features_supported(f) {
        Ok(()) => None,
        Err(VulkanError::Unsupported(Unsupported::MissingFeature(g))) => Some(g),
        Err(e) => panic!("unexpected {:?}", e),
    }
}

#[test]
fn device_feature_check() {
    let all = ExtendedFeatures {
        buffer_device_address: true,
        descriptor_indexing: true,
        dynamic_rendering: true,
        synchronization2: true,
    };
    assert_eq!(missing_feature(DeviceFeatures { sampler_anisotropy: true, extended: None }), None);
    assert_eq!(missing_feature(DeviceFeatures { sampler_anisotropy: true, extended: Some(all) }), None);
    assert_eq!(
        missing_feature(DeviceFeatures { sampler_anisotropy: false, extended: Some(all) }),
        Some(DeviceFeature::SamplerAnisotropy)
    );
    assert_eq!(
        missing_feature(DeviceFeatures {
            sampler_anisotropy: true,
            extended: Some(ExtendedFeatures { buffer_device_address: false, descriptor_indexing: false, ..all })
        }),
        Some(DeviceFeature::BufferDeviceAddress)
    );
    assert_eq!(
        missing_feature(DeviceFeatures {
            sampler_anisotropy: true,
            extended: Some(ExtendedFeatures { descriptor_indexing: false, ..all })
        }),
        Some(DeviceFeature::DescriptorIndexing)
    );
    assert_eq!(
        missing_feature(DeviceFeatures {
            sampler_anisotropy: true,
            extended: Some(ExtendedFeatures { dynamic_rendering: false, ..all })
        }),
        Some(DeviceFeature::DynamicRendering)
    );
    assert_eq!(
        missing_feature(DeviceFeatures {
            sampler_anisotropy: true,
            extended: Some(ExtendedFeatures { synchronization2: false, ..all })
        }),
        Some(DeviceFeature::Synchronization2)
    );
}

#[test]
fn memory_type_selection() {
    let types = vec![
        MemoryType { property_flags: 0b0001, heap_index: 0 },
        MemoryType { property_flags: 0b0110, heap_index: 1 },
        MemoryType { property_flags: 0b0111, heap_index: 2 },
    ];
    assert_eq!(find_memory_type(0b111, 0b0110, &types), MemoryType { property_flags: 0b0110, heap_index: 1 });
    assert_eq!(find_memory_type(0b101, 0b0110, &types), MemoryType { property_flags: 0b0111, heap_index: 2 });
    assert_eq!(find_memory_type(0b001, 0b0110, &types), MemoryType::default());
    assert_eq!(find_memory_type(0b001, 0, &types), types[0]);
}

#[test]
fn format_selection() {
    let candidates = vec![
        FormatCandidate { format: 126, linear_tiling_features: 0, optimal_tiling_features: 0x200 },
        FormatCandidate { format: 129, linear_tiling_features: 0x200, optimal_tiling_features: 0x200 },
    ];
    assert_eq!(find_supported_format(&candidates, IMAGE_TILING_OPTIMAL, 0x200), 126);
    assert_eq!(find_supported_format(&candidates, IMAGE_TILING_LINEAR, 0x200), 129);
    assert_eq!(find_supported_format(&candidates, IMAGE_TILING_LINEAR, 0x400), FORMAT_B8G8R8_UNORM);
    assert_eq!(find_supported_format(&candidates, 7, 0), FORMAT_B8G8R8_UNORM);
    assert_eq!(FORMAT_B8G8R8_UNORM, 30);
}

#[test]
fn unique_families() {
    assert_eq!(unique_queue_families(QueueFamilyIndices { graphics_family: 2, present_family: 2 }), vec![2]);
    assert_eq!(unique_queue_families(QueueFamilyIndices { graphics_family: 0, present_family: 3 }), vec![0, 3]);
    assert_eq!(QueueFamilyIndices::default(), QueueFamilyIndices { graphics_family: 0, present_family: 0 });
}

#[test]
fn vulkan_builder_collects_window_and_validation() {
    let b: VulkanBuilder<MissingWindow> = VulkanBuilder::default();
    let info = b.with_validation(ValidationStatus::Enabled).with_window(7u8).into_create_info();
    assert_eq!(info.window, 7u8);
    assert!(info.validation_status == ValidationStatus::Enabled);
    let info = VulkanBuilder::new().with_window("w").into_create_info();
    assert!(info.validation_status == ValidationStatus::Disabled);
    let HasWindow(w) = HasWindow(3);
    assert_eq!(w, 3);
}

#[test]
fn device_builder_collects_window_and_validation() {
    let info = DeviceBuilder::new().with_window(5i32).with_validation(DeviceValidation::Enabled).into_create_info();
    assert_eq!(info.window, 5);
    assert!(info.validation_status == DeviceValidation::Enabled);
    let info = DeviceBuilder::default().with_window(()).into_create_info();
    assert!(info.validation_status == DeviceValidation::default());
}

#[test]
fn resource_creation_undoes_what_was_made() {
    assert_eq!(
        creation_step(CreationStage::CreateHandle, true, true),
        (CreationStage::AllocateMemory, CreationAction::AllocateMemory)
    );
    assert_eq!(
        creation_step(CreationStage::CreateHandle, true, false),
        (CreationStage::Failed, CreationAction::Fail { destroy_handle: false, free_memory: false })
    );
    assert_eq!(
        creation_step(CreationStage::AllocateMemory, true, true),
        (CreationStage::BindMemory, CreationAction::BindMemory)
    );
    assert_eq!(creation_step(CreationStage::AllocateMemory, false, true), (CreationStage::Done, CreationAction::Finish));
    assert_eq!(
        creation_step(CreationStage::AllocateMemory, false, false),
        (CreationStage::Failed, CreationAction::Fail { destroy_handle: true, free_memory: false })
    );
    assert_eq!(
        creation_step(CreationStage::BindMemory, true, false),
        (CreationStage::Failed, CreationAction::Fail { destroy_handle: true, free_memory: true })
    );
    assert_eq!(creation_step(CreationStage::BindMemory, true, true), (CreationStage::Done, CreationAction::Finish));
    assert_eq!(creation_step(CreationStage::Done, true, false), (CreationStage::Done, CreationAction::Finish));
}
