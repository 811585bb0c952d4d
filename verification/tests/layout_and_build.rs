//! Tests of the C-layout calculator against the native struct layouts,
//! and of the build-orchestration decisions.

use fsr2_sys::backend::vk::{
    VkBuffer, VkCommandBuffer, VkDevice, VkImage, VkImageView, VkInstance,
    VkPhysicalDevice, VK_MAX_MEMORY_HEAPS, VK_MAX_MEMORY_TYPES,
};
use fsr2_sys::build_plan::{
    build_phases, check_phase_output, core_library_name, linked_libraries, select_backend,
    Backend, BackendSelectError, BuildPhase, PhaseOutput,
};
use fsr2_sys::layout::{
    compute_job_fields, compute_layout, constant_buffer_fields,
    create_resource_description_fields, device_capabilities_fields, dimensions2d_fields,
    float_coords2d_fields, fsr2_context_fields, gpu_job_fields, int_coords2d_fields,
    pipeline_description_fields, pipeline_state_fields, resource_binding_fields,
    resource_description_fields, resource_fields, resource_internal_fields,
    vk_memory_heap_fields, vk_memory_type_fields,
    vk_physical_device_memory_properties_fields, CField,
};

#[test]
fn layout_of_small_structs() {
    let (offsets, size) = compute_layout(&dimensions2d_fields());
    assert_eq!(offsets, vec![0, 4]);
    assert_eq!(size, 8);
    let (offsets, size) = compute_layout(&int_coords2d_fields());
    assert_eq!(offsets, vec![0, 4]);
    assert_eq!(size, 8);
    let (offsets, size) = compute_layout(&float_coords2d_fields());
    assert_eq!(offsets, vec![0, 4]);
    assert_eq!(size, 8);
    let (offsets, size) = compute_layout(&resource_internal_fields());
    assert_eq!(offsets, vec![0]);
    assert_eq!(size, 4);
}

#[test]
fn layout_of_resource_structs() {
    let (offsets, size) = compute_layout(&resource_description_fields());
    assert_eq!(offsets, vec![0, 4, 8, 12, 16, 20, 24]);
    assert_eq!(size, 28);
    let (offsets, size) = compute_layout(&resource_fields());
    assert_eq!(offsets, vec![0, 8, 264, 292, 296, 304]);
    assert_eq!(size, 312);
    let (offsets, size) = compute_layout(&resource_binding_fields());
    assert_eq!(offsets, vec![0, 4, 8]);
    assert_eq!(size, 264);
    let (offsets, size) = compute_layout(&create_resource_description_fields());
    assert_eq!(offsets, vec![0, 4, 32, 36, 40, 48, 56, 60]);
    assert_eq!(size, 64);
}

#[test]
fn layout_of_pipeline_structs() {
    let (offsets, size) = compute_layout(&pipeline_state_fields());
    assert_eq!(offsets, vec![0, 8, 16, 20, 24, 28, 2140, 6364]);
    assert_eq!(size, 6896);
    let (offsets, size) = compute_layout(&pipeline_description_fields());
    assert_eq!(offsets, vec![0, 8, 16, 24, 32]);
    assert_eq!(size, 40);
    let (offsets, size) = compute_layout(&constant_buffer_fields());
    assert_eq!(offsets, vec![0, 4]);
    assert_eq!(size, 260);
}

#[test]
fn layout_of_job_structs() {
    let (offsets, size) = compute_layout(&compute_job_fields());
    assert_eq!(
        offsets,
        vec![0, 8, 20, 84, 4180, 4212, 4244, 6292, 6812, 7324]
    );
    assert_eq!(size, 7336);
    let (offsets, size) = compute_layout(&gpu_job_fields());
    assert_eq!(offsets, vec![0, 8]);
    assert_eq!(size, 7344);
}

#[test]
fn layout_of_context_and_capabilities() {
    let (offsets, size) = compute_layout(&fsr2_context_fields());
    assert_eq!(offsets, vec![0]);
    assert_eq!(size, 66144);
    let (offsets, size) = compute_layout(&device_capabilities_fields());
    assert_eq!(offsets, vec![0, 4, 8, 12, 13]);
    assert_eq!(size, 16);
}

#[test]
fn layout_of_vk_structs() {
    assert_eq!(VK_MAX_MEMORY_TYPES, 32);
    assert_eq!(VK_MAX_MEMORY_HEAPS, 32);
    let (offsets, size) = compute_layout(&vk_memory_type_fields());
    assert_eq!(offsets, vec![0, 4]);
    assert_eq!(size, 8);
    let (offsets, size) = compute_layout(&vk_memory_heap_fields());
    assert_eq!(offsets, vec![0, 8]);
    assert_eq!(size, 16);
    let (offsets, size) = compute_layout(&vk_physical_device_memory_properties_fields());
    assert_eq!(offsets, vec![0, 4, 260, 264]);
    assert_eq!(size, 776);
}

#[test]
fn layout_calculator_pads_tail() {
    // A two-byte field after an eight-byte one leaves a padded tail.
    let fields = vec![
        CField { size: 8, align: 8 },
        CField { size: 2, align: 2 },
    ];
    let (offsets, size) = compute_layout(&fields);
    assert_eq!(offsets, vec![0, 8]);
    assert_eq!(size, 16);
}

#[test]
fn vk_handles_round_trip() {
    assert_eq!(VkPhysicalDevice::from_raw(7).as_raw(), 7);
    assert_eq!(VkInstance::from_raw(11).as_raw(), 11);
    assert_eq!(VkDevice::from_raw(13).as_raw(), 13);
    assert_eq!(VkCommandBuffer::from_raw(17).as_raw(), 17);
    assert_eq!(VkImage::from_raw(19).as_raw(), 19);
    assert_eq!(VkImageView::from_raw(23).as_raw(), 23);
    assert_eq!(VkBuffer::from_raw(0).as_raw(), 0);
}

#[test]
fn backend_selection() {
    assert_eq!(select_backend(true, false), Ok(Backend::Vulkan));
    assert_eq!(select_backend(false, true), Ok(Backend::Dx12));
    assert_eq!(select_backend(true, true), Err(BackendSelectError::BothSelected));
    assert_eq!(select_backend(false, false), Err(BackendSelectError::NoneSelected));
}

#[test]
fn backend_names_and_libraries() {
    assert_eq!(Backend::Vulkan.api_name(), "VK");
    assert_eq!(Backend::Dx12.api_name(), "DX12");
    assert_eq!(core_library_name(), "ffx_fsr2_api_x64");
    assert_eq!(
        linked_libraries(Backend::Vulkan),
        vec!["ffx_fsr2_api_x64", "ffx_fsr2_api_vk_x64"]
    );
    assert_eq!(
        linked_libraries(Backend::Dx12),
        vec!["ffx_fsr2_api_x64", "ffx_fsr2_api_dx12_x64"]
    );
}

#[test]
fn build_phase_order() {
    assert_eq!(
        build_phases(),
        vec![
            BuildPhase::SyncSources,
            BuildPhase::Configure,
            BuildPhase::Compile,
            BuildPhase::RelocateArtifacts,
            BuildPhase::EmitLinkDirectives,
        ]
    );
}

#[test]
fn failed_phase_aborts_with_diagnostics() {
    let ok = check_phase_output(PhaseOutput {
        success: true,
        stdout: String::from("configured"),
        stderr: String::new(),
    });
    assert_eq!(ok, Ok(()));

    let failed = check_phase_output(PhaseOutput {
        success: false,
        stdout: String::from("partial output"),
        stderr: String::from("build tool not found"),
    });
    assert_eq!(failed, Err(String::from("build tool not found")));
}
