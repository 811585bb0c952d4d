//! Verified model of the FSR2 temporal-upscaler C ABI.
//!
//! The native library is an opaque black box: it owns the upscaling
//! algorithm, the GPU job scheduling and every runtime invariant. What a
//! binding owes its callers is fidelity: enum variants must carry the
//! documented numeric codes, flag bits must sit in the documented
//! positions, struct fields must sit at the documented offsets, and the
//! build orchestration must either produce the native artifacts or fail
//! loudly. This crate states those obligations as contracts and proves
//! them.

use vstd::prelude::*;

pub mod backend;
pub mod build_plan;
pub mod error;
pub mod interface;
pub mod layout;
pub mod types;

use crate::types::FfxDimensions2D;

verus! {

/// Major version of the native library this binding mirrors.
pub const FFX_FSR2_VERSION_MAJOR: u32 = 2;
/// Minor version of the native library this binding mirrors.
pub const FFX_FSR2_VERSION_MINOR: u32 = 2;
/// Patch version of the native library this binding mirrors.
pub const FFX_FSR2_VERSION_PATCH: u32 = 0;

/// Number of `u32` words in the opaque context block.
pub const FFX_FSR2_CONTEXT_SIZE: usize = 16536;

/// Quality presets of the upscaler. The native header fixes their
/// numeric codes to 1 through 4, in this order.
#[derive(Copy, Clone, Debug, Eq, PartialEq, Hash)]
pub enum FfxFsr2QualityMode {
    Quality,
    Balanced,
    Performance,
    UltraPerformance,
}

impl FfxFsr2QualityMode {
    /// Numeric code of the preset in the native ABI.
    pub open spec fn spec_code(self) -> i32 {
        match self {
            FfxFsr2QualityMode::Quality => 1,
            FfxFsr2QualityMode::Balanced => 2,
            FfxFsr2QualityMode::Performance => 3,
            FfxFsr2QualityMode::UltraPerformance => 4,
        }
    }

    /// Returns the numeric code the native ABI assigns to this preset.
    pub fn code(self) -> (r: i32)
        ensures
            r == self.spec_code(),
    {
        match self {
            FfxFsr2QualityMode::Quality => 1,
            FfxFsr2QualityMode::Balanced => 2,
            FfxFsr2QualityMode::Performance => 3,
            FfxFsr2QualityMode::UltraPerformance => 4,
        }
    }

    /// Recovers a preset from its numeric code; codes outside 1..=4 name
    /// no preset.
    pub fn from_code(code: i32) -> (r: Option<FfxFsr2QualityMode>)
        ensures
            match r {
                Some(m) => m.spec_code() == code,
                None => !(1 <= code <= 4),
            },
    {
        match code {
            1 => Some(FfxFsr2QualityMode::Quality),
            2 => Some(FfxFsr2QualityMode::Balanced),
            3 => Some(FfxFsr2QualityMode::Performance),
            4 => Some(FfxFsr2QualityMode::UltraPerformance),
            _ => None,
        }
    }

    /// Upscale ratio of the preset, in thousandths. The native library
    /// documents the ratios 1.5, 1.7, 2.0 and 3.0 for the four presets.
    pub open spec fn spec_upscale_ratio_permille(self) -> u32 {
        match self {
            FfxFsr2QualityMode::Quality => 1500,
            FfxFsr2QualityMode::Balanced => 1700,
            FfxFsr2QualityMode::Performance => 2000,
            FfxFsr2QualityMode::UltraPerformance => 3000,
        }
    }

    /// Returns the upscale ratio of this preset in thousandths. Every
    /// preset's ratio is positive and lies between 1.0 and 3.0.
    pub fn upscale_ratio_permille(self) -> (r: u32)
        ensures
            r == self.spec_upscale_ratio_permille(),
            1000 < r <= 3000,
    {
        match self {
            FfxFsr2QualityMode::Quality => 1500,
            FfxFsr2QualityMode::Balanced => 1700,
            FfxFsr2QualityMode::Performance => 2000,
            FfxFsr2QualityMode::UltraPerformance => 3000,
        }
    }
}

/// Context-creation flags. The bits compose by bitwise or; each bit
/// switches one behaviour of the upscaler on.
#[derive(Copy, Clone, Debug, Eq, PartialEq, Hash, Structural)]
pub struct FfxFsr2InitializationFlagBits {
    /// Raw bit pattern as the native ABI carries it.
    pub bits: i32,
}

/// Bit enabling high-dynamic-range input.
pub const FFX_FSR2_ENABLE_HIGH_DYNAMIC_RANGE: i32 = 1;
/// Bit declaring motion vectors at display resolution.
pub const FFX_FSR2_ENABLE_DISPLAY_RESOLUTION_MOTION_VECTORS: i32 = 2;
/// Bit declaring motion vectors with jitter already cancelled.
pub const FFX_FSR2_ENABLE_MOTION_VECTORS_JITTER_CANCELLATION: i32 = 4;
/// Bit declaring an inverted depth buffer.
pub const FFX_FSR2_ENABLE_DEPTH_INVERTED: i32 = 8;
/// Bit declaring an infinite far plane.
pub const FFX_FSR2_ENABLE_DEPTH_INFINITE: i32 = 16;
/// Bit enabling the built-in exposure computation.
pub const FFX_FSR2_ENABLE_AUTO_EXPOSURE: i32 = 32;
/// Bit enabling dynamic render resolution.
pub const FFX_FSR2_ENABLE_DYNAMIC_RESOLUTION: i32 = 64;
/// Bit enabling one-dimensional texture usage.
pub const FFX_FSR2_ENABLE_TEXTURE1D_USAGE: i32 = 128;
/// Bit enabling the native library's debug checking.
pub const FFX_FSR2_ENABLE_DEBUG_CHECKING: i32 = 256;

impl FfxFsr2InitializationFlagBits {
    /// Wraps a raw bit pattern without masking, as the native ABI does.
    pub fn from_bits_retain(bits: i32) -> (r: Self)
        ensures
            r.bits == bits,
    {
        FfxFsr2InitializationFlagBits { bits }
    }

    /// No flag set.
    pub fn empty() -> (r: Self)
        ensures
            r.bits == 0,
    {
        FfxFsr2InitializationFlagBits { bits: 0 }
    }

    /// Combines two flag sets by bitwise or.
    pub fn union(self, other: Self) -> (r: Self)
        ensures
            r.bits == self.bits | other.bits,
    {
        FfxFsr2InitializationFlagBits { bits: self.bits | other.bits }
    }

    /// Whether every bit of `other` is set in `self`.
    pub fn contains(self, other: Self) -> (r: bool)
        ensures
            r == (self.bits & other.bits == other.bits),
    {
        self.bits & other.bits == other.bits
    }
}

/// The nine context-creation flags occupy nine distinct single bits, in
/// header order from bit zero upward.
pub proof fn lemma_initialization_flags_are_distinct_bits()
    ensures
        FFX_FSR2_ENABLE_HIGH_DYNAMIC_RANGE == 1i32 << 0,
        FFX_FSR2_ENABLE_DISPLAY_RESOLUTION_MOTION_VECTORS == 1i32 << 1,
        FFX_FSR2_ENABLE_MOTION_VECTORS_JITTER_CANCELLATION == 1i32 << 2,
        FFX_FSR2_ENABLE_DEPTH_INVERTED == 1i32 << 3,
        FFX_FSR2_ENABLE_DEPTH_INFINITE == 1i32 << 4,
        FFX_FSR2_ENABLE_AUTO_EXPOSURE == 1i32 << 5,
        FFX_FSR2_ENABLE_DYNAMIC_RESOLUTION == 1i32 << 6,
        FFX_FSR2_ENABLE_TEXTURE1D_USAGE == 1i32 << 7,
        FFX_FSR2_ENABLE_DEBUG_CHECKING == 1i32 << 8,
{
    assert(1i32 << 0 == 1 && 1i32 << 1 == 2 && 1i32 << 2 == 4 && 1i32 << 3 == 8
        && 1i32 << 4 == 16 && 1i32 << 5 == 32 && 1i32 << 6 == 64 && 1i32 << 7 == 128
        && 1i32 << 8 == 256) by (bit_vector);
}

/// The opaque per-session state block of the native library. The caller
/// provides the storage zero-initialized; the native library populates
/// it at creation, reads and writes it on every call, and releases it at
/// destruction. The binding never interprets its contents, so the model
/// carries it only as raw words of the documented fixed size.
#[derive(Copy, Clone, Debug)]
pub struct FfxFsr2Context {
    /// Raw storage of the context, private to the native library.
    pub data: [u32; FFX_FSR2_CONTEXT_SIZE],
}

impl FfxFsr2Context {
    /// A zero-initialized context block, ready to be handed to the
    /// native creation call.
    pub fn zeroed() -> (r: Self)
        ensures
            r.data@ == Seq::<u32>::new(FFX_FSR2_CONTEXT_SIZE as nat, |i: int| 0u32),
    {
        let data: [u32; FFX_FSR2_CONTEXT_SIZE] = [0; FFX_FSR2_CONTEXT_SIZE];
        assert(data@ =~= Seq::<u32>::new(FFX_FSR2_CONTEXT_SIZE as nat, |i: int| 0u32));
        FfxFsr2Context { data }
    }
}

/// One display dimension scaled down by a preset's upscale ratio, in
/// integer arithmetic over thousandths. This is the rendered extent the
/// native resolution query recommends for that preset.
pub fn render_dimension(display: u32, mode: FfxFsr2QualityMode) -> (r: u32)
    ensures
        r == display * 1000 / (mode.spec_upscale_ratio_permille() as int),
        r <= display,
{
    let permille = mode.upscale_ratio_permille();
    let scaled = (display as u64) * 1000 / (permille as u64);
    proof {
        vstd::arithmetic::div_mod::lemma_div_is_ordered_by_denominator(
            display * 1000,
            1000,
            permille as int,
        );
        vstd::arithmetic::div_mod::lemma_div_by_multiple(display as int, 1000);
    }
    scaled as u32
}

/// The render resolution recommended for a display resolution under a
/// quality preset: each display dimension divided by the preset's
/// upscale ratio. The rendered extent never exceeds the display extent.
pub fn render_resolution_from_quality_mode(
    display_size: FfxDimensions2D,
    mode: FfxFsr2QualityMode,
) -> (r: FfxDimensions2D)
    ensures
        r.width == display_size.width * 1000 / (mode.spec_upscale_ratio_permille() as int),
        r.height == display_size.height * 1000 / (mode.spec_upscale_ratio_permille() as int),
        r.width <= display_size.width,
        r.height <= display_size.height,
{
    FfxDimensions2D {
        width: render_dimension(display_size.width, mode),
        height: render_dimension(display_size.height, mode),
    }
}

/// Length of the jitter sequence for a rendered extent upscaled to a
/// display extent: eight times the squared upscale factor, in integer
/// arithmetic. The display extent is bounded so that the count fits the
/// machine word.
pub fn jitter_phase_count(render_width: u32, display_width: u32) -> (r: u64)
    requires
        1 <= render_width,
        display_width < 0x40000000,
    ensures
        r == 8 * (display_width * display_width)
            / (render_width * render_width),
{
    proof {
        assert(display_width < 0x40000000
            ==> (display_width as u64) * (display_width as u64) < 0x1000000000000000)
            by (nonlinear_arith);
        assert(1 <= render_width
            ==> 1 <= (render_width as u64) * (render_width as u64) <= 0xffffffff_fffffffe)
            by (nonlinear_arith);
    }
    let dd = (display_width as u64) * (display_width as u64);
    let num = 8 * dd;
    let den = (render_width as u64) * (render_width as u64);
    num / den
}

/// Round-trip law: every preset is recovered from its own code.
pub proof fn lemma_quality_mode_code_round_trip(m: FfxFsr2QualityMode)
    ensures
        1 <= m.spec_code() <= 4,
        forall|n: FfxFsr2QualityMode| n.spec_code() == m.spec_code() ==> n == m,
{
}

/// The upscale ratio grows strictly with the preset code: the quality
/// preset has the smallest ratio and ultra-performance the largest.
pub proof fn lemma_upscale_ratio_monotonic(a: FfxFsr2QualityMode, b: FfxFsr2QualityMode)
    requires
        a.spec_code() < b.spec_code(),
    ensures
        a.spec_upscale_ratio_permille() < b.spec_upscale_ratio_permille(),
{
}

} // verus!
