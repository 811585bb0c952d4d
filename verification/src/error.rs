//! Error codes of the native ABI.
//!
//! Every native entry point reports failure through a fixed 32-bit code:
//! zero for success, and a closed set of high-bit-set values for the
//! failure kinds. The binding never translates or suppresses these codes;
//! it only fixes their numeric values, which this module states and
//! proves. The native header lists two distinct end-of-file codes; both
//! are kept for fidelity.

use vstd::prelude::*;

verus! {

/// Result code of a native call. Variant order follows the native
/// header; the numeric value of each variant is given by
/// [`FfxErrorCode::spec_code`].
#[derive(Copy, Clone, Debug, Eq, PartialEq, Hash)]
pub enum FfxErrorCode {
    Success,
    InvalidPointer,
    InvalidAlignment,
    InvalidSize,
    Eof,
    InvalidPath,
    ErrorEof,
    MalformedData,
    OutOfMemory,
    IncompleteInterface,
    InvalidEnum,
    InvalidArgument,
    OutOfRange,
    NullDevice,
    BackendApiError,
    InsufficientMemory,
}

impl FfxErrorCode {
    /// The 32-bit value of the code in the native ABI. Success is zero;
    /// every failure kind has the high bit set.
    pub open spec fn spec_code(self) -> u32 {
        match self {
            FfxErrorCode::Success => 0,
            FfxErrorCode::InvalidPointer => 0x80000000,
            FfxErrorCode::InvalidAlignment => 0x80000001,
            FfxErrorCode::InvalidSize => 0x80000002,
            FfxErrorCode::Eof => 0x80000003,
            FfxErrorCode::InvalidPath => 0x80000004,
            FfxErrorCode::ErrorEof => 0x80000005,
            FfxErrorCode::MalformedData => 0x80000006,
            FfxErrorCode::OutOfMemory => 0x80000007,
            FfxErrorCode::IncompleteInterface => 0x80000008,
            FfxErrorCode::InvalidEnum => 0x80000009,
            FfxErrorCode::InvalidArgument => 0x8000000a,
            FfxErrorCode::OutOfRange => 0x8000000b,
            FfxErrorCode::NullDevice => 0x8000000c,
            FfxErrorCode::BackendApiError => 0x8000000d,
            FfxErrorCode::InsufficientMemory => 0x8000000e,
        }
    }

    /// Whether a 32-bit value is one of the codes the native header
    /// defines.
    pub open spec fn spec_is_code(code: u32) -> bool {
        code == 0 || 0x80000000 <= code <= 0x8000000e
    }

    /// Returns the 32-bit value of this code in the native ABI.
    pub fn code(self) -> (r: u32)
        ensures
            r == self.spec_code(),
    {
        match self {
            FfxErrorCode::Success => 0,
            FfxErrorCode::InvalidPointer => 0x80000000,
            FfxErrorCode::InvalidAlignment => 0x80000001,
            FfxErrorCode::InvalidSize => 0x80000002,
            FfxErrorCode::Eof => 0x80000003,
            FfxErrorCode::InvalidPath => 0x80000004,
            FfxErrorCode::ErrorEof => 0x80000005,
            FfxErrorCode::MalformedData => 0x80000006,
            FfxErrorCode::OutOfMemory => 0x80000007,
            FfxErrorCode::IncompleteInterface => 0x80000008,
            FfxErrorCode::InvalidEnum => 0x80000009,
            FfxErrorCode::InvalidArgument => 0x8000000a,
            FfxErrorCode::OutOfRange => 0x8000000b,
            FfxErrorCode::NullDevice => 0x8000000c,
            FfxErrorCode::BackendApiError => 0x8000000d,
            FfxErrorCode::InsufficientMemory => 0x8000000e,
        }
    }

    /// Recovers the code named by a 32-bit value; values the native
    /// header does not define name no code.
    pub fn from_code(code: u32) -> (r: Option<FfxErrorCode>)
        ensures
            match r {
                Some(e) => e.spec_code() == code,
                None => !Self::spec_is_code(code),
            },
    {
        match code {
            0 => Some(FfxErrorCode::Success),
            0x80000000 => Some(FfxErrorCode::InvalidPointer),
            0x80000001 => Some(FfxErrorCode::InvalidAlignment),
            0x80000002 => Some(FfxErrorCode::InvalidSize),
            0x80000003 => Some(FfxErrorCode::Eof),
            0x80000004 => Some(FfxErrorCode::InvalidPath),
            0x80000005 => Some(FfxErrorCode::ErrorEof),
            0x80000006 => Some(FfxErrorCode::MalformedData),
            0x80000007 => Some(FfxErrorCode::OutOfMemory),
            0x80000008 => Some(FfxErrorCode::IncompleteInterface),
            0x80000009 => Some(FfxErrorCode::InvalidEnum),
            0x8000000a => Some(FfxErrorCode::InvalidArgument),
            0x8000000b => Some(FfxErrorCode::OutOfRange),
            0x8000000c => Some(FfxErrorCode::NullDevice),
            0x8000000d => Some(FfxErrorCode::BackendApiError),
            0x8000000e => Some(FfxErrorCode::InsufficientMemory),
            _ => None,
        }
    }

    /// Whether this code reports success.
    pub fn is_ok(self) -> (r: bool)
        ensures
            r == (self == FfxErrorCode::Success),
    {
        match self {
            FfxErrorCode::Success => true,
            _ => false,
        }
    }
}

/// The numeric codes are a faithful key: distinct variants carry distinct
/// values, so each variant is recovered from its own code.
pub proof fn lemma_error_code_injective(a: FfxErrorCode, b: FfxErrorCode)
    requires
        a.spec_code() == b.spec_code(),
    ensures
        a == b,
{
}

/// Every failure code has the high bit of its 32-bit value set, and the
/// success code does not.
pub proof fn lemma_error_code_high_bit(e: FfxErrorCode)
    ensures
        e != FfxErrorCode::Success ==> e.spec_code() & 0x80000000 == 0x80000000,
        e == FfxErrorCode::Success ==> e.spec_code() & 0x80000000 == 0,
{
    let c = e.spec_code();
    if e != FfxErrorCode::Success {
        assert(0x80000000 <= c <= 0x8000000e);
        assert(0x80000000u32 <= c <= 0x8000000e ==> c & 0x80000000 == 0x80000000)
            by (bit_vector);
    } else {
        assert(0u32 & 0x80000000 == 0) by (bit_vector);
    }
}

} // verus!
