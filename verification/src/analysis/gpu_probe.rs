//! Reporting whether this host can run GPU discovery.
//!
//! The probe creates a GPU instance, asks for an adapter and then for a
//! device; the first step that fails gives the reason. A missing GPU is an
//! error on macOS, where Metal should always be there, and an ordinary,
//! graceful disable elsewhere.
use vstd::prelude::*;

use vstd::string::StringExecFns;

verus! {

/// The platform family the probe runs on.
#[derive(Clone, Copy, Debug, PartialEq, Eq, Structural)]
pub enum Platform {
    MacOs,
    Linux,
    Other,
}

/// How far the GPU probe got.
#[derive(Clone, Debug)]
pub enum GpuProbe {
    /// No GPU instance could be created.
    InstanceUnavailable,
    /// The instance found no adapter.
    NoAdapter,
    /// The adapter refused to create a device, with the error's text.
    DeviceFailed(String),
    /// A device was created.
    Ready,
}

/// Whether the host can run GPU discovery, and why not.
#[derive(Clone, Debug)]
pub struct GpuAvailabilityResult {
    /// Whether a GPU is available for use.
    pub available: bool,
    /// Why no GPU is available.
    pub reason: Option<String>,
    /// Whether the absence is an error rather than a graceful disable.
    pub is_error: bool,
}

/// The reason a failed probe gives.
pub open spec fn probe_reason(probe: GpuProbe) -> Seq<char> {
    match probe {
        GpuProbe::InstanceUnavailable => "wgpu instance creation failed (GPU backend unavailable)"@,
        GpuProbe::NoAdapter => "No GPU adapter found"@,
        GpuProbe::DeviceFailed(e) => "GPU device creation failed: "@ + e@,
        GpuProbe::Ready => Seq::empty(),
    }
}

/// The explanation appended to a reason on each platform.
pub open spec fn platform_note(platform: Platform) -> Seq<char> {
    match platform {
        Platform::MacOs => ". On macOS, GPU (Metal) should always be available. This may indicate a system configuration issue."@,
        Platform::Linux => ". Discovery disabled on this machine. This is normal for headless Linux servers without GPU hardware or without proper permissions to access /dev/dri devices."@,
        Platform::Other => ". Discovery disabled on this platform."@,
    }
}

/// The report for a host without a usable GPU, for the given reason.
pub fn no_gpu_result(reason: &str, platform: Platform) -> (r: GpuAvailabilityResult)
    ensures
        !r.available,
        r.is_error == (platform == Platform::MacOs),
        r.reason matches Some(text) && text@ == reason@ + platform_note(platform),
{
    let mut text = String::new();
    text.append(reason);
    match platform {
        Platform::MacOs => text.append(
            ". On macOS, GPU (Metal) should always be available. This may indicate a system configuration issue.",
        ),
        Platform::Linux => text.append(
            ". Discovery disabled on this machine. This is normal for headless Linux servers without GPU hardware or without proper permissions to access /dev/dri devices.",
        ),
        Platform::Other => text.append(". Discovery disabled on this platform."),
    }
    GpuAvailabilityResult {
        available: false,
        reason: Some(text),
        is_error: platform == Platform::MacOs,
    }
}

/// The report for a probe that got as far as `probe`.
pub fn gpu_availability(probe: &GpuProbe, platform: Platform) -> (r: GpuAvailabilityResult)
    ensures
        r.available == (*probe is Ready),
        r.is_error == (!(*probe is Ready) && platform == Platform::MacOs),
        *probe is Ready ==> r.reason is None,
        !(*probe is Ready) ==> (r.reason matches Some(text) && text@ == probe_reason(*probe)
            + platform_note(platform)),
{
    match probe {
        GpuProbe::InstanceUnavailable => no_gpu_result(
            "wgpu instance creation failed (GPU backend unavailable)",
            platform,
        ),
        GpuProbe::NoAdapter => no_gpu_result("No GPU adapter found", platform),
        GpuProbe::DeviceFailed(e) => {
            let mut reason = String::new();
            reason.append("GPU device creation failed: ");
            reason.append(e.as_str());
            no_gpu_result(reason.as_str(), platform)
        },
        GpuProbe::Ready => GpuAvailabilityResult { available: true, reason: None, is_error: false },
    }
}

} // verus!
