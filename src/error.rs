use vstd::prelude::*;

verus! {

/// Failure kinds surfaced by the library.
#[derive(Debug, Clone)]
pub enum VmError {
    InvalidState { name: String, state: String },
    QemuSpawnFailed { cause: String },
    QmpConnectTimeout { path: String },
    QmpProtocol { detail: String },
    IsoWriteFailed { detail: String },
    FormatDetectionFailed { path: String, detail: String },
    OverlayCreationFailed { base: String, detail: String },
    ImageConversionFailed { detail: String },
    ImageDownloadFailed { url: String, detail: String },
    IpDiscoveryTimeout { name: String },
    OciPullFailed { reference: String, detail: String },
    ProvisionFailed { vm: String, step: u64, detail: String },
    Io { detail: String },
}

} // verus!
