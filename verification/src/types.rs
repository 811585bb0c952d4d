//! Value shapes shared by every native entry point.
//!
//! The native ABI fixes a numeric code for each enum variant and a bit
//! position for each flag; this module states those numbers and proves
//! the documented relations between them, such as the precomposed
//! generic-read state being exactly the union of the copy-source and
//! compute-read bits. Foreign pointers are carried as raw 64-bit
//! addresses: the model never dereferences them, it only records and
//! compares them, which is all the binding itself ever does.

use vstd::prelude::*;

verus! {

/// Greatest number of shader-resource-view slots a pipeline state names.
pub const FFX_MAX_NUM_SRVS: usize = 16;
/// Greatest number of unordered-access-view slots a pipeline state names.
pub const FFX_MAX_NUM_UAVS: usize = 8;
/// Greatest number of constant-buffer slots a pipeline state names.
pub const FFX_MAX_NUM_CONST_BUFFERS: usize = 2;
/// Number of `u32` words in one inline constant buffer.
pub const FFX_MAX_CONST_SIZE: usize = 64;

/// Surface formats the native library understands.
#[derive(Copy, Clone, Debug, Eq, PartialEq, Hash)]
pub enum FfxSurfaceFormat {
    Unknown,
    RGBA32Typeless,
    RGBA32Float,
    RGBA16Float,
    RGBA16Unorm,
    RG32Float,
    R32Uint,
    RGBA8Typeless,
    RGBA8Unorm,
    R11G11B11Float,
    RG16Float,
    RG16Uint,
    R16Float,
    R16Uint,
    R16Unorm,
    R16Snorm,
    R8Unorm,
    R8Uint,
    RG8Unorm,
    R32Float,
}

impl FfxSurfaceFormat {
    /// Numeric code of the format in the native ABI: the formats are
    /// numbered 0 through 19 in declaration order.
    pub open spec fn spec_code(self) -> i32 {
        match self {
            FfxSurfaceFormat::Unknown => 0,
            FfxSurfaceFormat::RGBA32Typeless => 1,
            FfxSurfaceFormat::RGBA32Float => 2,
            FfxSurfaceFormat::RGBA16Float => 3,
            FfxSurfaceFormat::RGBA16Unorm => 4,
            FfxSurfaceFormat::RG32Float => 5,
            FfxSurfaceFormat::R32Uint => 6,
            FfxSurfaceFormat::RGBA8Typeless => 7,
            FfxSurfaceFormat::RGBA8Unorm => 8,
            FfxSurfaceFormat::R11G11B11Float => 9,
            FfxSurfaceFormat::RG16Float => 10,
            FfxSurfaceFormat::RG16Uint => 11,
            FfxSurfaceFormat::R16Float => 12,
            FfxSurfaceFormat::R16Uint => 13,
            FfxSurfaceFormat::R16Unorm => 14,
            FfxSurfaceFormat::R16Snorm => 15,
            FfxSurfaceFormat::R8Unorm => 16,
            FfxSurfaceFormat::R8Uint => 17,
            FfxSurfaceFormat::RG8Unorm => 18,
            FfxSurfaceFormat::R32Float => 19,
        }
    }

    /// Returns the numeric code of this format in the native ABI.
    pub fn code(self) -> (r: i32)
        ensures
            r == self.spec_code(),
    {
        match self {
            FfxSurfaceFormat::Unknown => 0,
            FfxSurfaceFormat::RGBA32Typeless => 1,
            FfxSurfaceFormat::RGBA32Float => 2,
            FfxSurfaceFormat::RGBA16Float => 3,
            FfxSurfaceFormat::RGBA16Unorm => 4,
            FfxSurfaceFormat::RG32Float => 5,
            FfxSurfaceFormat::R32Uint => 6,
            FfxSurfaceFormat::RGBA8Typeless => 7,
            FfxSurfaceFormat::RGBA8Unorm => 8,
            FfxSurfaceFormat::R11G11B11Float => 9,
            FfxSurfaceFormat::RG16Float => 10,
            FfxSurfaceFormat::RG16Uint => 11,
            FfxSurfaceFormat::R16Float => 12,
            FfxSurfaceFormat::R16Uint => 13,
            FfxSurfaceFormat::R16Unorm => 14,
            FfxSurfaceFormat::R16Snorm => 15,
            FfxSurfaceFormat::R8Unorm => 16,
            FfxSurfaceFormat::R8Uint => 17,
            FfxSurfaceFormat::RG8Unorm => 18,
            FfxSurfaceFormat::R32Float => 19,
        }
    }
}

/// Texture dimensionality of a resource.
#[derive(Copy, Clone, Debug, Eq, PartialEq, Hash)]
pub enum FfxResourceDimension {
    Texture1D,
    Texture2D,
}

impl FfxResourceDimension {
    /// Numeric code in the native ABI: 0 for one-dimensional, 1 for
    /// two-dimensional textures.
    pub open spec fn spec_code(self) -> i32 {
        match self {
            FfxResourceDimension::Texture1D => 0,
            FfxResourceDimension::Texture2D => 1,
        }
    }

    /// Returns the numeric code of this dimensionality.
    pub fn code(self) -> (r: i32)
        ensures
            r == self.spec_code(),
    {
        match self {
            FfxResourceDimension::Texture1D => 0,
            FfxResourceDimension::Texture2D => 1,
        }
    }
}

/// How a view exposes a resource to a shader.
#[derive(Copy, Clone, Debug, Eq, PartialEq, Hash)]
pub enum FfxResourceViewType {
    UnorderedAccess,
    ShaderRead,
}

impl FfxResourceViewType {
    /// Numeric code in the native ABI: 0 for unordered access, 1 for
    /// shader read.
    pub open spec fn spec_code(self) -> i32 {
        match self {
            FfxResourceViewType::UnorderedAccess => 0,
            FfxResourceViewType::ShaderRead => 1,
        }
    }

    /// Returns the numeric code of this view type.
    pub fn code(self) -> (r: i32)
        ensures
            r == self.spec_code(),
    {
        match self {
            FfxResourceViewType::UnorderedAccess => 0,
            FfxResourceViewType::ShaderRead => 1,
        }
    }
}

/// Sampler filtering mode.
#[derive(Copy, Clone, Debug, Eq, PartialEq, Hash)]
pub enum FfxFilterType {
    Point,
    Linear,
}

impl FfxFilterType {
    /// Numeric code in the native ABI: 0 for point, 1 for linear
    /// filtering.
    pub open spec fn spec_code(self) -> i32 {
        match self {
            FfxFilterType::Point => 0,
            FfxFilterType::Linear => 1,
        }
    }

    /// Returns the numeric code of this filter.
    pub fn code(self) -> (r: i32)
        ensures
            r == self.spec_code(),
    {
        match self {
            FfxFilterType::Point => 0,
            FfxFilterType::Linear => 1,
        }
    }
}

/// Shader models a device may support, oldest first.
#[derive(Copy, Clone, Debug, Eq, PartialEq, Hash)]
pub enum FfxShaderModel {
    ShaderModel5_1,
    ShaderModel6_0,
    ShaderModel6_1,
    ShaderModel6_2,
    ShaderModel6_3,
    ShaderModel6_4,
    ShaderModel6_5,
    ShaderModel6_6,
    ShaderModel6_7,
}

impl FfxShaderModel {
    /// Numeric code in the native ABI: the models are numbered 0 through
    /// 8 from 5.1 up to 6.7.
    pub open spec fn spec_code(self) -> i32 {
        match self {
            FfxShaderModel::ShaderModel5_1 => 0,
            FfxShaderModel::ShaderModel6_0 => 1,
            FfxShaderModel::ShaderModel6_1 => 2,
            FfxShaderModel::ShaderModel6_2 => 3,
            FfxShaderModel::ShaderModel6_3 => 4,
            FfxShaderModel::ShaderModel6_4 => 5,
            FfxShaderModel::ShaderModel6_5 => 6,
            FfxShaderModel::ShaderModel6_6 => 7,
            FfxShaderModel::ShaderModel6_7 => 8,
        }
    }

    /// Returns the numeric code of this shader model.
    pub fn code(self) -> (r: i32)
        ensures
            r == self.spec_code(),
    {
        match self {
            FfxShaderModel::ShaderModel5_1 => 0,
            FfxShaderModel::ShaderModel6_0 => 1,
            FfxShaderModel::ShaderModel6_1 => 2,
            FfxShaderModel::ShaderModel6_2 => 3,
            FfxShaderModel::ShaderModel6_3 => 4,
            FfxShaderModel::ShaderModel6_4 => 5,
            FfxShaderModel::ShaderModel6_5 => 6,
            FfxShaderModel::ShaderModel6_6 => 7,
            FfxShaderModel::ShaderModel6_7 => 8,
        }
    }
}

/// Kind of a GPU resource.
#[derive(Copy, Clone, Debug, Eq, PartialEq, Hash)]
pub enum FfxResourceType {
    Buffer,
    Texture1D,
    Texture2D,
    Texture3D,
}

impl FfxResourceType {
    /// Numeric code in the native ABI: buffer 0, then textures by
    /// dimensionality 1 through 3.
    pub open spec fn spec_code(self) -> i32 {
        match self {
            FfxResourceType::Buffer => 0,
            FfxResourceType::Texture1D => 1,
            FfxResourceType::Texture2D => 2,
            FfxResourceType::Texture3D => 3,
        }
    }

    /// Returns the numeric code of this resource kind.
    pub fn code(self) -> (r: i32)
        ensures
            r == self.spec_code(),
    {
        match self {
            FfxResourceType::Buffer => 0,
            FfxResourceType::Texture1D => 1,
            FfxResourceType::Texture2D => 2,
            FfxResourceType::Texture3D => 3,
        }
    }
}

/// Memory heap a resource is created in.
#[derive(Copy, Clone, Debug, Eq, PartialEq, Hash)]
pub enum FfxHeapType {
    Default,
    Upload,
}

impl FfxHeapType {
    /// Numeric code in the native ABI: 0 for the default heap, 1 for the
    /// upload heap.
    pub open spec fn spec_code(self) -> i32 {
        match self {
            FfxHeapType::Default => 0,
            FfxHeapType::Upload => 1,
        }
    }

    /// Returns the numeric code of this heap type.
    pub fn code(self) -> (r: i32)
        ensures
            r == self.spec_code(),
    {
        match self {
            FfxHeapType::Default => 0,
            FfxHeapType::Upload => 1,
        }
    }
}

/// Kind of a GPU job the native library schedules through the backend.
#[derive(Copy, Clone, Debug, Eq, PartialEq, Hash)]
pub enum FfxJobType {
    ClearFloat,
    Copy,
    Compute,
}

impl FfxJobType {
    /// Numeric code in the native ABI: clear 0, copy 1, compute 2.
    pub open spec fn spec_code(self) -> i32 {
        match self {
            FfxJobType::ClearFloat => 0,
            FfxJobType::Copy => 1,
            FfxJobType::Compute => 2,
        }
    }

    /// Returns the numeric code of this job kind.
    pub fn code(self) -> (r: i32)
        ensures
            r == self.spec_code(),
    {
        match self {
            FfxJobType::ClearFloat => 0,
            FfxJobType::Copy => 1,
            FfxJobType::Compute => 2,
        }
    }
}

/// How a created resource may be used. The bits compose by bitwise or.
#[derive(Copy, Clone, Debug, Eq, PartialEq, Hash, Structural)]
pub struct FfxResourceUsage {
    /// Raw bit pattern as the native ABI carries it.
    pub bits: i32,
}

/// Bit pattern of the read-only usage: no bit set.
pub const FFX_RESOURCE_USAGE_READ_ONLY: i32 = 0;
/// Bit of the render-target usage.
pub const FFX_RESOURCE_USAGE_RENDERTARGET: i32 = 1;
/// Bit of the unordered-access usage.
pub const FFX_RESOURCE_USAGE_UAV: i32 = 2;

impl FfxResourceUsage {
    /// Wraps a raw bit pattern without masking, as the native ABI does.
    pub fn from_bits_retain(bits: i32) -> (r: Self)
        ensures
            r.bits == bits,
    {
        FfxResourceUsage { bits }
    }

    /// The read-only usage: no bit set.
    pub fn read_only() -> (r: Self)
        ensures
            r.bits == FFX_RESOURCE_USAGE_READ_ONLY,
    {
        FfxResourceUsage { bits: FFX_RESOURCE_USAGE_READ_ONLY }
    }

    /// The render-target usage bit.
    pub fn rendertarget() -> (r: Self)
        ensures
            r.bits == FFX_RESOURCE_USAGE_RENDERTARGET,
    {
        FfxResourceUsage { bits: FFX_RESOURCE_USAGE_RENDERTARGET }
    }

    /// The unordered-access usage bit.
    pub fn uav() -> (r: Self)
        ensures
            r.bits == FFX_RESOURCE_USAGE_UAV,
    {
        FfxResourceUsage { bits: FFX_RESOURCE_USAGE_UAV }
    }

    /// Combines two usages by bitwise or.
    pub fn union(self, other: Self) -> (r: Self)
        ensures
            r.bits == self.bits | other.bits,
    {
        FfxResourceUsage { bits: self.bits | other.bits }
    }

    /// Whether every bit of `other` is set in `self`.
    pub fn contains(self, other: Self) -> (r: bool)
        ensures
            r == (self.bits & other.bits == other.bits),
    {
        self.bits & other.bits == other.bits
    }
}

/// State a resource is in when a dispatch reads or writes it. The bits
/// compose by bitwise or; one precomposed combination is part of the ABI.
#[derive(Copy, Clone, Debug, Eq, PartialEq, Hash, Structural)]
pub struct FfxResourceState {
    /// Raw bit pattern as the native ABI carries it.
    pub bits: i32,
}

/// Bit of the unordered-access state.
pub const FFX_RESOURCE_STATE_UNORDERED_ACCESS: i32 = 1;
/// Bit of the compute-read state.
pub const FFX_RESOURCE_STATE_COMPUTE_READ: i32 = 2;
/// Bit of the copy-source state.
pub const FFX_RESOURCE_STATE_COPY_SRC: i32 = 4;
/// Bit of the copy-destination state.
pub const FFX_RESOURCE_STATE_COPY_DEST: i32 = 8;
/// Precomposed generic-read state: copy-source and compute-read.
pub const FFX_RESOURCE_STATE_GENERIC_READ: i32 = 6;

impl FfxResourceState {
    /// Wraps a raw bit pattern without masking, as the native ABI does.
    pub fn from_bits_retain(bits: i32) -> (r: Self)
        ensures
            r.bits == bits,
    {
        FfxResourceState { bits }
    }

    /// The unordered-access state bit.
    pub fn unordered_access() -> (r: Self)
        ensures
            r.bits == FFX_RESOURCE_STATE_UNORDERED_ACCESS,
    {
        FfxResourceState { bits: FFX_RESOURCE_STATE_UNORDERED_ACCESS }
    }

    /// The compute-read state bit.
    pub fn compute_read() -> (r: Self)
        ensures
            r.bits == FFX_RESOURCE_STATE_COMPUTE_READ,
    {
        FfxResourceState { bits: FFX_RESOURCE_STATE_COMPUTE_READ }
    }

    /// The copy-source state bit.
    pub fn copy_src() -> (r: Self)
        ensures
            r.bits == FFX_RESOURCE_STATE_COPY_SRC,
    {
        FfxResourceState { bits: FFX_RESOURCE_STATE_COPY_SRC }
    }

    /// The copy-destination state bit.
    pub fn copy_dest() -> (r: Self)
        ensures
            r.bits == FFX_RESOURCE_STATE_COPY_DEST,
    {
        FfxResourceState { bits: FFX_RESOURCE_STATE_COPY_DEST }
    }

    /// The precomposed generic-read state.
    pub fn generic_read() -> (r: Self)
        ensures
            r.bits == FFX_RESOURCE_STATE_GENERIC_READ,
    {
        FfxResourceState { bits: FFX_RESOURCE_STATE_GENERIC_READ }
    }

    /// Combines two states by bitwise or.
    pub fn union(self, other: Self) -> (r: Self)
        ensures
            r.bits == self.bits | other.bits,
    {
        FfxResourceState { bits: self.bits | other.bits }
    }

    /// Whether every bit of `other` is set in `self`.
    pub fn contains(self, other: Self) -> (r: bool)
        ensures
            r == (self.bits & other.bits == other.bits),
    {
        self.bits & other.bits == other.bits
    }
}

/// The precomposed generic-read state is exactly the union of the
/// copy-source and compute-read bits, as the native header documents.
pub proof fn lemma_generic_read_is_copy_src_or_compute_read()
    ensures
        FFX_RESOURCE_STATE_GENERIC_READ
            == FFX_RESOURCE_STATE_COPY_SRC | FFX_RESOURCE_STATE_COMPUTE_READ,
{
    assert(4i32 | 2 == 6) by (bit_vector);
}

/// Creation-time flags of a resource.
#[derive(Copy, Clone, Debug, Eq, PartialEq, Hash, Structural)]
pub struct FfxResourceFlags {
    /// Raw bit pattern as the native ABI carries it.
    pub bits: i32,
}

/// Bit pattern of a resource with no flag set.
pub const FFX_RESOURCE_FLAGS_NONE: i32 = 0;
/// Bit marking a resource whose memory may be aliased.
pub const FFX_RESOURCE_FLAGS_ALIASABLE: i32 = 1;

impl FfxResourceFlags {
    /// Wraps a raw bit pattern without masking, as the native ABI does.
    pub fn from_bits_retain(bits: i32) -> (r: Self)
        ensures
            r.bits == bits,
    {
        FfxResourceFlags { bits }
    }

    /// No flag set.
    pub fn none() -> (r: Self)
        ensures
            r.bits == FFX_RESOURCE_FLAGS_NONE,
    {
        FfxResourceFlags { bits: FFX_RESOURCE_FLAGS_NONE }
    }

    /// The aliasable flag bit.
    pub fn aliasable() -> (r: Self)
        ensures
            r.bits == FFX_RESOURCE_FLAGS_ALIASABLE,
    {
        FfxResourceFlags { bits: FFX_RESOURCE_FLAGS_ALIASABLE }
    }

    /// Combines two flag sets by bitwise or.
    pub fn union(self, other: Self) -> (r: Self)
        ensures
            r.bits == self.bits | other.bits,
    {
        FfxResourceFlags { bits: self.bits | other.bits }
    }

    /// Whether every bit of `other` is set in `self`.
    pub fn contains(self, other: Self) -> (r: bool)
        ensures
            r == (self.bits & other.bits == other.bits),
    {
        self.bits & other.bits == other.bits
    }
}

/// Capabilities the backend reports for a device.
#[derive(Copy, Clone, Debug)]
pub struct FfxDeviceCapabilities {
    /// Oldest shader model every pipeline may rely on.
    pub minimum_supported_shader_model: FfxShaderModel,
    /// Smallest wave width the device schedules.
    pub wave_lane_count_min: u32,
    /// Largest wave width the device schedules.
    pub wave_lane_count_max: u32,
    /// Whether 16-bit floating point is supported in shaders.
    pub fp16_supported: bool,
    /// Whether ray-tracing pipelines are supported.
    pub raytracing_supported: bool,
}

/// Unsigned width and height of a surface, in pixels.
#[derive(Copy, Clone, Debug, Eq, PartialEq, Hash, Structural)]
pub struct FfxDimensions2D {
    /// Width in pixels.
    pub width: u32,
    /// Height in pixels.
    pub height: u32,
}

/// Signed two-dimensional coordinates, in pixels.
#[derive(Copy, Clone, Debug, Eq, PartialEq, Hash, Structural)]
pub struct FfxIntCoords2D {
    /// Horizontal coordinate.
    pub x: i32,
    /// Vertical coordinate.
    pub y: i32,
}

/// Shape of a GPU resource as the native library reads it when the
/// resource is registered for a dispatch.
#[derive(Copy, Clone, Debug)]
pub struct FfxResourceDescription {
    /// Kind of the resource.
    pub ty: FfxResourceType,
    /// Surface format of a texture resource.
    pub surface_format: FfxSurfaceFormat,
    /// Width in pixels, or byte size of a buffer.
    pub width: u32,
    /// Height in pixels.
    pub height: u32,
    /// Depth in pixels.
    pub depth: u32,
    /// Number of mip levels.
    pub mip_count: u32,
    /// Creation-time flags.
    pub flags: FfxResourceFlags,
}

impl FfxResourceDescription {
    /// A zeroed description: an unknown-format buffer of no extent, as
    /// the sentinel null resource carries.
    pub fn zeroed() -> (r: Self)
        ensures
            r.ty == FfxResourceType::Buffer,
            r.surface_format == FfxSurfaceFormat::Unknown,
            r.width == 0,
            r.height == 0,
            r.depth == 0,
            r.mip_count == 0,
            r.flags.bits == FFX_RESOURCE_FLAGS_NONE,
    {
        FfxResourceDescription {
            ty: FfxResourceType::Buffer,
            surface_format: FfxSurfaceFormat::Unknown,
            width: 0,
            height: 0,
            depth: 0,
            mip_count: 0,
            flags: FfxResourceFlags::none(),
        }
    }
}

/// An external GPU resource handed to the native library by value. The
/// native handle is carried as a raw 64-bit address and never
/// dereferenced by the binding; the wide-character name is carried as
/// raw code units.
#[derive(Copy, Clone, Debug)]
pub struct FfxResource {
    /// Address of the backend resource; zero is the null handle.
    pub resource: u64,
    /// Debug name as fixed-width wide code units, zero padded.
    pub name: [u32; 64],
    /// Shape the native library reads when registering the resource.
    pub description: FfxResourceDescription,
    /// State the resource is in when the dispatch begins.
    pub state: FfxResourceState,
    /// Whether the resource is a depth target.
    pub is_depth: bool,
    /// Backend-specific descriptor payload.
    pub descriptor_data: u64,
}

impl FfxResource {
    /// Whether this value is the designated sentinel: a resource whose
    /// handle address is null.
    pub open spec fn spec_is_null(self) -> bool {
        self.resource == 0
    }

    /// The sentinel null resource: null handle, zeroed name and
    /// description, no state bits, no descriptor payload.
    pub fn null() -> (r: Self)
        ensures
            r.spec_is_null(),
            r.resource == 0,
            r.name@ == Seq::<u32>::new(64, |i: int| 0u32),
            r.description.width == 0,
            r.description.height == 0,
            r.state.bits == 0,
            !r.is_depth,
            r.descriptor_data == 0,
    {
        let name: [u32; 64] = [0; 64];
        assert(name@ =~= Seq::<u32>::new(64, |i: int| 0u32));
        FfxResource {
            resource: 0,
            name,
            description: FfxResourceDescription::zeroed(),
            state: FfxResourceState::from_bits_retain(0),
            is_depth: false,
            descriptor_data: 0,
        }
    }
}

/// Tests whether a resource is the null sentinel: true exactly when its
/// handle address is null, whatever the other fields hold.
pub fn resource_is_null(resource: FfxResource) -> (r: bool)
    ensures
        r == resource.spec_is_null(),
{
    resource.resource == 0
}

/// A resource the native library registered, named back to the caller by
/// a small internal index.
#[derive(Copy, Clone, Debug, Eq, PartialEq, Hash, Structural)]
pub struct FfxResourceInternal {
    /// Index of the resource inside the live context.
    pub internal_index: i32,
}

/// One slot of a pipeline's binding table: where a named resource is
/// bound. The wide-character name is carried as raw code units.
#[derive(Copy, Clone, Debug)]
pub struct FfxResourceBinding {
    /// Slot the resource is bound to.
    pub slot_index: u32,
    /// Identifier of the bound resource.
    pub resource_identifier: u32,
    /// Binding name as fixed-width wide code units, zero padded.
    pub name: [u32; 64],
}

/// A pipeline the backend created for one pass, with its fixed binding
/// tables. The backend object handles are carried as raw addresses and
/// never dereferenced by the binding.
#[derive(Copy, Clone, Debug)]
pub struct FfxPipelineState {
    /// Address of the backend root-signature object.
    pub root_signature: u64,
    /// Address of the backend pipeline object.
    pub pipeline: u64,
    /// Number of meaningful unordered-access-view bindings.
    pub uav_count: u32,
    /// Number of meaningful shader-resource-view bindings.
    pub srv_count: u32,
    /// Number of meaningful constant-buffer bindings.
    pub const_count: u32,
    /// Fixed unordered-access-view binding table.
    pub uav_resource_bindings: [FfxResourceBinding; FFX_MAX_NUM_UAVS],
    /// Fixed shader-resource-view binding table.
    pub srv_resource_bindings: [FfxResourceBinding; FFX_MAX_NUM_SRVS],
    /// Fixed constant-buffer binding table.
    pub cv_resource_bindings: [FfxResourceBinding; FFX_MAX_NUM_CONST_BUFFERS],
}

/// What the native library asks of the backend when creating a
/// resource. The initial-data and name tables live in the caller's
/// memory; the model carries their addresses and never reads through
/// them.
#[derive(Copy, Clone, Debug)]
pub struct FfxCreateResourceDescription {
    /// Heap the resource is created in.
    pub heap_type: FfxHeapType,
    /// Shape of the resource to create.
    pub resource_description: FfxResourceDescription,
    /// State the resource starts in.
    pub initial_state: FfxResourceState,
    /// Byte size of the initial data.
    pub init_data_size: u32,
    /// Address of the initial data.
    pub init_data: u64,
    /// Address of the wide-character debug name; zero for none.
    pub name: u64,
    /// How the resource may be used.
    pub usage: FfxResourceUsage,
    /// Identifier the native library tracks the resource under.
    pub id: u32,
}

/// A constant buffer handed to a compute job: a word count and the
/// inline words themselves.
#[derive(Copy, Clone, Debug)]
pub struct FfxConstantBuffer {
    /// Number of `u32` words of `data` that are meaningful.
    pub uint32_size: u32,
    /// Inline constant words.
    pub data: [u32; FFX_MAX_CONST_SIZE],
}

/// A copy job: one registered resource copied into another.
#[derive(Copy, Clone, Debug, Eq, PartialEq, Hash, Structural)]
pub struct FfxCopyJobDescription {
    /// Source of the copy.
    pub src: FfxResourceInternal,
    /// Destination of the copy.
    pub dst: FfxResourceInternal,
}

/// What the native library asks of the backend when creating a pipeline.
/// The sampler and root-constant tables live in the caller's memory; the
/// model carries their addresses and never reads through them.
#[derive(Copy, Clone, Debug)]
pub struct FfxPipelineDescription {
    /// Context flags the pipeline is created under.
    pub context_flags: u32,
    /// Address of the sampler-filter table.
    pub samplers: u64,
    /// Number of entries in the sampler-filter table.
    pub sampler_count: usize,
    /// Address of the root-constant-buffer size table.
    pub root_constant_buffer_size: u64,
    /// Number of entries in the root-constant-buffer size table.
    pub root_constant_buffer_count: u32,
}

} // verus!
