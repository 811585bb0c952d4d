//! Tests of the ABI model: enum codes, flag bits, quality-mode queries
//! and the null-resource sentinel.

use fsr2_sys::error::FfxErrorCode;
use fsr2_sys::interface::{FfxFsr2MsgType, FfxFsr2Pass};
use fsr2_sys::types::{
    FfxDimensions2D, FfxFilterType, FfxHeapType, FfxJobType, FfxResource,
    FfxResourceDimension, FfxResourceFlags, FfxResourceState, FfxResourceType,
    FfxResourceUsage, FfxResourceViewType, FfxShaderModel, FfxSurfaceFormat,
    resource_is_null, FFX_MAX_CONST_SIZE, FFX_MAX_NUM_CONST_BUFFERS, FFX_MAX_NUM_SRVS,
    FFX_MAX_NUM_UAVS, FFX_RESOURCE_STATE_COMPUTE_READ, FFX_RESOURCE_STATE_COPY_DEST,
    FFX_RESOURCE_STATE_COPY_SRC, FFX_RESOURCE_STATE_GENERIC_READ,
    FFX_RESOURCE_STATE_UNORDERED_ACCESS,
};
use fsr2_sys::{
    jitter_phase_count, render_resolution_from_quality_mode, FfxFsr2Context,
    FfxFsr2InitializationFlagBits, FfxFsr2QualityMode, FFX_FSR2_CONTEXT_SIZE,
    FFX_FSR2_ENABLE_AUTO_EXPOSURE, FFX_FSR2_ENABLE_DEBUG_CHECKING,
    FFX_FSR2_ENABLE_DEPTH_INFINITE, FFX_FSR2_ENABLE_DEPTH_INVERTED,
    FFX_FSR2_ENABLE_DISPLAY_RESOLUTION_MOTION_VECTORS,
    FFX_FSR2_ENABLE_DYNAMIC_RESOLUTION, FFX_FSR2_ENABLE_HIGH_DYNAMIC_RANGE,
    FFX_FSR2_ENABLE_MOTION_VECTORS_JITTER_CANCELLATION, FFX_FSR2_ENABLE_TEXTURE1D_USAGE,
    FFX_FSR2_VERSION_MAJOR, FFX_FSR2_VERSION_MINOR, FFX_FSR2_VERSION_PATCH,
};

#[test]
pub fn test_linkage() {
    let permille = FfxFsr2QualityMode::Balanced.upscale_ratio_permille();
    let ratio = permille as f32 / 1000.0;
    println!("ratio: {ratio}");
}

#[test]
fn version_constants() {
    assert_eq!(FFX_FSR2_VERSION_MAJOR, 2);
    assert_eq!(FFX_FSR2_VERSION_MINOR, 2);
    assert_eq!(FFX_FSR2_VERSION_PATCH, 0);
    assert_eq!(FFX_FSR2_CONTEXT_SIZE, 16536);
}

#[test]
fn quality_mode_codes() {
    assert_eq!(FfxFsr2QualityMode::Quality.code(), 1);
    assert_eq!(FfxFsr2QualityMode::Balanced.code(), 2);
    assert_eq!(FfxFsr2QualityMode::Performance.code(), 3);
    assert_eq!(FfxFsr2QualityMode::UltraPerformance.code(), 4);
    for code in 1..=4 {
        let mode = FfxFsr2QualityMode::from_code(code).unwrap();
        assert_eq!(mode.code(), code);
    }
    assert!(FfxFsr2QualityMode::from_code(0).is_none());
    assert!(FfxFsr2QualityMode::from_code(5).is_none());
    assert!(FfxFsr2QualityMode::from_code(-1).is_none());
}

#[test]
fn upscale_ratios_exact_and_monotonic() {
    assert_eq!(FfxFsr2QualityMode::Quality.upscale_ratio_permille(), 1500);
    assert_eq!(FfxFsr2QualityMode::Balanced.upscale_ratio_permille(), 1700);
    assert_eq!(FfxFsr2QualityMode::Performance.upscale_ratio_permille(), 2000);
    assert_eq!(FfxFsr2QualityMode::UltraPerformance.upscale_ratio_permille(), 3000);
    let modes = [
        FfxFsr2QualityMode::Quality,
        FfxFsr2QualityMode::Balanced,
        FfxFsr2QualityMode::Performance,
        FfxFsr2QualityMode::UltraPerformance,
    ];
    for pair in modes.windows(2) {
        assert!(pair[0].upscale_ratio_permille() < pair[1].upscale_ratio_permille());
    }
    for mode in modes {
        let ratio = mode.upscale_ratio_permille() as f32 / 1000.0;
        assert!(ratio.is_finite());
        assert!((1.0..=3.0).contains(&ratio));
    }
}

#[test]
fn render_resolution_values() {
    let display = FfxDimensions2D { width: 3840, height: 2160 };
    let q = render_resolution_from_quality_mode(display, FfxFsr2QualityMode::Quality);
    assert_eq!((q.width, q.height), (2560, 1440));
    let b = render_resolution_from_quality_mode(display, FfxFsr2QualityMode::Balanced);
    assert_eq!((b.width, b.height), (2258, 1270));
    let p = render_resolution_from_quality_mode(display, FfxFsr2QualityMode::Performance);
    assert_eq!((p.width, p.height), (1920, 1080));
    let u = render_resolution_from_quality_mode(display, FfxFsr2QualityMode::UltraPerformance);
    assert_eq!((u.width, u.height), (1280, 720));
}

#[test]
fn jitter_phase_count_values() {
    assert_eq!(jitter_phase_count(1920, 3840), 32);
    assert_eq!(jitter_phase_count(1080, 1080), 8);
    assert_eq!(jitter_phase_count(720, 1080), 18);
}

#[test]
fn error_code_values() {
    assert_eq!(FfxErrorCode::Success.code(), 0);
    assert_eq!(FfxErrorCode::InvalidPointer.code(), 0x80000000);
    assert_eq!(FfxErrorCode::InvalidAlignment.code(), 0x80000001);
    assert_eq!(FfxErrorCode::InvalidSize.code(), 0x80000002);
    assert_eq!(FfxErrorCode::Eof.code(), 0x80000003);
    assert_eq!(FfxErrorCode::InvalidPath.code(), 0x80000004);
    assert_eq!(FfxErrorCode::ErrorEof.code(), 0x80000005);
    assert_eq!(FfxErrorCode::MalformedData.code(), 0x80000006);
    assert_eq!(FfxErrorCode::OutOfMemory.code(), 0x80000007);
    assert_eq!(FfxErrorCode::IncompleteInterface.code(), 0x80000008);
    assert_eq!(FfxErrorCode::InvalidEnum.code(), 0x80000009);
    assert_eq!(FfxErrorCode::InvalidArgument.code(), 0x8000000a);
    assert_eq!(FfxErrorCode::OutOfRange.code(), 0x8000000b);
    assert_eq!(FfxErrorCode::NullDevice.code(), 0x8000000c);
    assert_eq!(FfxErrorCode::BackendApiError.code(), 0x8000000d);
    assert_eq!(FfxErrorCode::InsufficientMemory.code(), 0x8000000e);
}

#[test]
fn error_code_round_trip_and_high_bit() {
    for value in (0x80000000u32..=0x8000000e).chain([0]) {
        let code = FfxErrorCode::from_code(value).unwrap();
        assert_eq!(code.code(), value);
        if value == 0 {
            assert!(code.is_ok());
            assert_eq!(value & 0x80000000, 0);
        } else {
            assert!(!code.is_ok());
            assert_eq!(value & 0x80000000, 0x80000000);
        }
    }
    assert!(FfxErrorCode::from_code(1).is_none());
    assert!(FfxErrorCode::from_code(0x8000000f).is_none());
    assert!(FfxErrorCode::from_code(0x7fffffff).is_none());
}

#[test]
fn surface_format_codes() {
    assert_eq!(FfxSurfaceFormat::Unknown.code(), 0);
    assert_eq!(FfxSurfaceFormat::RGBA32Typeless.code(), 1);
    assert_eq!(FfxSurfaceFormat::RGBA32Float.code(), 2);
    assert_eq!(FfxSurfaceFormat::RGBA16Float.code(), 3);
    assert_eq!(FfxSurfaceFormat::RGBA16Unorm.code(), 4);
    assert_eq!(FfxSurfaceFormat::RG32Float.code(), 5);
    assert_eq!(FfxSurfaceFormat::R32Uint.code(), 6);
    assert_eq!(FfxSurfaceFormat::RGBA8Typeless.code(), 7);
    assert_eq!(FfxSurfaceFormat::RGBA8Unorm.code(), 8);
    assert_eq!(FfxSurfaceFormat::R11G11B11Float.code(), 9);
    assert_eq!(FfxSurfaceFormat::RG16Float.code(), 10);
    assert_eq!(FfxSurfaceFormat::RG16Uint.code(), 11);
    assert_eq!(FfxSurfaceFormat::R16Float.code(), 12);
    assert_eq!(FfxSurfaceFormat::R16Uint.code(), 13);
    assert_eq!(FfxSurfaceFormat::R16Unorm.code(), 14);
    assert_eq!(FfxSurfaceFormat::R16Snorm.code(), 15);
    assert_eq!(FfxSurfaceFormat::R8Unorm.code(), 16);
    assert_eq!(FfxSurfaceFormat::R8Uint.code(), 17);
    assert_eq!(FfxSurfaceFormat::RG8Unorm.code(), 18);
    assert_eq!(FfxSurfaceFormat::R32Float.code(), 19);
}

#[test]
fn small_enum_codes() {
    assert_eq!(FfxResourceDimension::Texture1D.code(), 0);
    assert_eq!(FfxResourceDimension::Texture2D.code(), 1);
    assert_eq!(FfxResourceViewType::UnorderedAccess.code(), 0);
    assert_eq!(FfxResourceViewType::ShaderRead.code(), 1);
    assert_eq!(FfxFilterType::Point.code(), 0);
    assert_eq!(FfxFilterType::Linear.code(), 1);
    assert_eq!(FfxResourceType::Buffer.code(), 0);
    assert_eq!(FfxResourceType::Texture1D.code(), 1);
    assert_eq!(FfxResourceType::Texture2D.code(), 2);
    assert_eq!(FfxResourceType::Texture3D.code(), 3);
    assert_eq!(FfxHeapType::Default.code(), 0);
    assert_eq!(FfxHeapType::Upload.code(), 1);
    assert_eq!(FfxJobType::ClearFloat.code(), 0);
    assert_eq!(FfxJobType::Copy.code(), 1);
    assert_eq!(FfxJobType::Compute.code(), 2);
}

#[test]
fn shader_model_codes() {
    assert_eq!(FfxShaderModel::ShaderModel5_1.code(), 0);
    assert_eq!(FfxShaderModel::ShaderModel6_0.code(), 1);
    assert_eq!(FfxShaderModel::ShaderModel6_1.code(), 2);
    assert_eq!(FfxShaderModel::ShaderModel6_2.code(), 3);
    assert_eq!(FfxShaderModel::ShaderModel6_3.code(), 4);
    assert_eq!(FfxShaderModel::ShaderModel6_4.code(), 5);
    assert_eq!(FfxShaderModel::ShaderModel6_5.code(), 6);
    assert_eq!(FfxShaderModel::ShaderModel6_6.code(), 7);
    assert_eq!(FfxShaderModel::ShaderModel6_7.code(), 8);
}

#[test]
fn pass_and_msg_codes() {
    assert_eq!(FfxFsr2Pass::DepthClip.code(), 0);
    assert_eq!(FfxFsr2Pass::ReconstructPreviousDepth.code(), 1);
    assert_eq!(FfxFsr2Pass::Lock.code(), 2);
    assert_eq!(FfxFsr2Pass::Accumulate.code(), 3);
    assert_eq!(FfxFsr2Pass::AccumulateSharpen.code(), 4);
    assert_eq!(FfxFsr2Pass::Rcas.code(), 5);
    assert_eq!(FfxFsr2Pass::ComputeLuminancePyramid.code(), 6);
    assert_eq!(FfxFsr2Pass::GenerateReactive.code(), 7);
    assert_eq!(FfxFsr2Pass::TcrAutogenerate.code(), 8);
    assert_eq!(FfxFsr2Pass::COUNT, 9);
    assert_eq!(FfxFsr2MsgType::Error.code(), 0);
    assert_eq!(FfxFsr2MsgType::Warning.code(), 1);
    assert_eq!(FfxFsr2MsgType::COUNT, 2);
}

#[test]
fn resource_state_flags() {
    assert_eq!(FFX_RESOURCE_STATE_UNORDERED_ACCESS, 1);
    assert_eq!(FFX_RESOURCE_STATE_COMPUTE_READ, 2);
    assert_eq!(FFX_RESOURCE_STATE_COPY_SRC, 4);
    assert_eq!(FFX_RESOURCE_STATE_COPY_DEST, 8);
    assert_eq!(
        FFX_RESOURCE_STATE_GENERIC_READ,
        FFX_RESOURCE_STATE_COPY_SRC | FFX_RESOURCE_STATE_COMPUTE_READ
    );
    let generic = FfxResourceState::generic_read();
    assert_eq!(
        generic,
        FfxResourceState::copy_src().union(FfxResourceState::compute_read())
    );
    assert!(generic.contains(FfxResourceState::copy_src()));
    assert!(generic.contains(FfxResourceState::compute_read()));
    assert!(!generic.contains(FfxResourceState::copy_dest()));
    assert!(!generic.contains(FfxResourceState::unordered_access()));
    assert_eq!(FfxResourceState::from_bits_retain(6), generic);
}

#[test]
fn resource_usage_and_flags_bits() {
    assert_eq!(FfxResourceUsage::read_only().bits, 0);
    assert_eq!(FfxResourceUsage::rendertarget().bits, 1);
    assert_eq!(FfxResourceUsage::uav().bits, 2);
    let both = FfxResourceUsage::rendertarget().union(FfxResourceUsage::uav());
    assert_eq!(both.bits, 3);
    assert!(both.contains(FfxResourceUsage::rendertarget()));
    assert_eq!(FfxResourceFlags::none().bits, 0);
    assert_eq!(FfxResourceFlags::aliasable().bits, 1);
    assert!(FfxResourceFlags::aliasable().contains(FfxResourceFlags::none()));
}

#[test]
fn initialization_flag_bits() {
    let bits = [
        FFX_FSR2_ENABLE_HIGH_DYNAMIC_RANGE,
        FFX_FSR2_ENABLE_DISPLAY_RESOLUTION_MOTION_VECTORS,
        FFX_FSR2_ENABLE_MOTION_VECTORS_JITTER_CANCELLATION,
        FFX_FSR2_ENABLE_DEPTH_INVERTED,
        FFX_FSR2_ENABLE_DEPTH_INFINITE,
        FFX_FSR2_ENABLE_AUTO_EXPOSURE,
        FFX_FSR2_ENABLE_DYNAMIC_RESOLUTION,
        FFX_FSR2_ENABLE_TEXTURE1D_USAGE,
        FFX_FSR2_ENABLE_DEBUG_CHECKING,
    ];
    for (i, bit) in bits.iter().enumerate() {
        assert_eq!(*bit, 1 << i);
    }
    let hdr = FfxFsr2InitializationFlagBits::from_bits_retain(
        FFX_FSR2_ENABLE_HIGH_DYNAMIC_RANGE,
    );
    let combined = FfxFsr2InitializationFlagBits::empty().union(hdr);
    assert_eq!(combined.bits, FFX_FSR2_ENABLE_HIGH_DYNAMIC_RANGE);
    assert!(combined.contains(hdr));
}

#[test]
fn null_resource_sentinel() {
    let null = FfxResource::null();
    assert!(resource_is_null(null));
    assert_eq!(null.resource, 0);
    assert!(null.name.iter().all(|&w| w == 0));
    assert_eq!(null.state.bits, 0);
    assert_eq!(null.descriptor_data, 0);
    assert!(!null.is_depth);

    let mut live = FfxResource::null();
    live.resource = 0x1000;
    assert!(!resource_is_null(live));
}

#[test]
fn zeroed_context_block() {
    let context = FfxFsr2Context::zeroed();
    assert_eq!(context.data.len(), FFX_FSR2_CONTEXT_SIZE);
    assert!(context.data.iter().all(|&w| w == 0));
}

#[test]
fn pipeline_slot_capacities() {
    assert_eq!(FFX_MAX_NUM_SRVS, 16);
    assert_eq!(FFX_MAX_NUM_UAVS, 8);
    assert_eq!(FFX_MAX_NUM_CONST_BUFFERS, 2);
    assert_eq!(FFX_MAX_CONST_SIZE, 64);
}
