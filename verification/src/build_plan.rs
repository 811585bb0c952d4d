//! Decisions of the native-library build orchestration.
//!
//! Making the native library linkable is a fixed pipeline: synchronize
//! the vendored source tree's nested checkouts, configure the native
//! build for exactly one graphics backend into a dedicated output
//! directory, compile there, relocate the produced artifacts to a stable
//! place, and emit linker directives naming them. The processes
//! themselves are external; what is decidable — which backend is built,
//! which phases run in which order, which library files are linked, and
//! when a phase's outcome aborts the build with its diagnostics — is
//! stated and proved here, and the surrounding process runner only
//! carries these decisions out.

use vstd::prelude::*;

verus! {

/// The graphics API the native library is built for. Exactly one
/// backend is selected per build.
#[derive(Copy, Clone, Debug, Eq, PartialEq, Hash)]
pub enum Backend {
    Vulkan,
    Dx12,
}

/// Why a backend selection is rejected.
#[derive(Copy, Clone, Debug, Eq, PartialEq, Hash)]
pub enum BackendSelectError {
    /// No backend was selected.
    NoneSelected,
    /// Both backends were selected; they are mutually exclusive.
    BothSelected,
}

/// Resolves the two backend switches into one backend. Selecting none
/// or both is a hard configuration error, never a silent default.
pub fn select_backend(vk: bool, dx12: bool) -> (r: Result<Backend, BackendSelectError>)
    ensures
        r is Ok <==> vk != dx12,
        vk && !dx12 ==> r == Result::<Backend, BackendSelectError>::Ok(Backend::Vulkan),
        dx12 && !vk ==> r == Result::<Backend, BackendSelectError>::Ok(Backend::Dx12),
        vk && dx12 ==> r == Result::<Backend, BackendSelectError>::Err(
            BackendSelectError::BothSelected,
        ),
        !vk && !dx12 ==> r == Result::<Backend, BackendSelectError>::Err(
            BackendSelectError::NoneSelected,
        ),
{
    match (vk, dx12) {
        (true, false) => Ok(Backend::Vulkan),
        (false, true) => Ok(Backend::Dx12),
        (true, true) => Err(BackendSelectError::BothSelected),
        (false, false) => Err(BackendSelectError::NoneSelected),
    }
}

impl Backend {
    /// The identifier the native build configuration is parameterized
    /// by.
    pub fn api_name(self) -> (r: &'static str)
        ensures
            self == Backend::Vulkan ==> r@ == "VK"@,
            self == Backend::Dx12 ==> r@ == "DX12"@,
    {
        match self {
            Backend::Vulkan => "VK",
            Backend::Dx12 => "DX12",
        }
    }

    /// File stem of the backend-specific library the build produces.
    pub fn backend_library_name(self) -> (r: &'static str)
        ensures
            self == Backend::Vulkan ==> r@ == "ffx_fsr2_api_vk_x64"@,
            self == Backend::Dx12 ==> r@ == "ffx_fsr2_api_dx12_x64"@,
    {
        match self {
            Backend::Vulkan => "ffx_fsr2_api_vk_x64",
            Backend::Dx12 => "ffx_fsr2_api_dx12_x64",
        }
    }
}

/// File stem of the backend-independent core library the build
/// produces.
pub fn core_library_name() -> (r: &'static str)
    ensures
        r@ == "ffx_fsr2_api_x64"@,
{
    "ffx_fsr2_api_x64"
}

/// The library files a successful build links, in link order: the
/// backend-independent core first, then the selected backend's library.
pub fn linked_libraries(backend: Backend) -> (r: Vec<&'static str>)
    ensures
        r@.len() == 2,
        r@[0]@ == "ffx_fsr2_api_x64"@,
        backend == Backend::Vulkan ==> r@[1]@ == "ffx_fsr2_api_vk_x64"@,
        backend == Backend::Dx12 ==> r@[1]@ == "ffx_fsr2_api_dx12_x64"@,
{
    let mut libs: Vec<&'static str> = Vec::new();
    libs.push(core_library_name());
    libs.push(backend.backend_library_name());
    libs
}

/// One phase of the native build pipeline.
#[derive(Copy, Clone, Debug, Eq, PartialEq, Hash)]
pub enum BuildPhase {
    /// Synchronize the vendored source tree's nested checkouts.
    SyncSources,
    /// Configure the native build for the selected backend, scoped to a
    /// dedicated output directory.
    Configure,
    /// Compile the native library in that output directory.
    Compile,
    /// Relocate the produced binaries out of the vendor tree into a
    /// stable location.
    RelocateArtifacts,
    /// Emit the linker search-path and library-name directives.
    EmitLinkDirectives,
}

/// The phases of the native build, in the only order they may run.
pub fn build_phases() -> (r: Vec<BuildPhase>)
    ensures
        r@ == seq![
            BuildPhase::SyncSources,
            BuildPhase::Configure,
            BuildPhase::Compile,
            BuildPhase::RelocateArtifacts,
            BuildPhase::EmitLinkDirectives,
        ],
{
    let mut phases: Vec<BuildPhase> = Vec::new();
    phases.push(BuildPhase::SyncSources);
    phases.push(BuildPhase::Configure);
    phases.push(BuildPhase::Compile);
    phases.push(BuildPhase::RelocateArtifacts);
    phases.push(BuildPhase::EmitLinkDirectives);
    proof {
        assert(phases@ =~= seq![
            BuildPhase::SyncSources,
            BuildPhase::Configure,
            BuildPhase::Compile,
            BuildPhase::RelocateArtifacts,
            BuildPhase::EmitLinkDirectives,
        ]);
    }
    phases
}

/// What an external build process reported: whether it exited
/// successfully, and its captured output streams.
pub struct PhaseOutput {
    /// Whether the process exited with success status.
    pub success: bool,
    /// Captured standard output.
    pub stdout: String,
    /// Captured standard error.
    pub stderr: String,
}

/// Decides a phase's fate from its process output: success passes, and
/// any non-success aborts the build with the captured diagnostic stream
/// surfaced verbatim — never silently.
pub fn check_phase_output(output: PhaseOutput) -> (r: Result<(), String>)
    ensures
        r is Ok <==> output.success,
        r matches Err(diag) ==> diag@ == output.stderr@,
{
    if output.success {
        Ok(())
    } else {
        Err(output.stderr)
    }
}

} // verus!
