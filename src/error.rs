use vstd::prelude::*;

verus! {

/// What can go wrong while running or removing a VM.
#[derive(Debug)]
pub enum VmError {
    /// Every VM id is in use.
    ResourceExhausted,
    /// A VM record, an asset, an image or an interface is missing.
    NotFound { what: String },
    /// The hypervisor could not be spawned or exited with a failure.
    ProcessError { message: String },
    /// A control-channel call answered with a status outside 2xx.
    ApiError { status: u16, body: String },
    /// The configuration command in the guest exited with a non-zero status.
    GuestConfigError { stdout: String, stderr: String },
    /// An interface, address or NAT operation failed.
    NetworkSetupError { message: String },
    /// A resource did not become available within the allowed wait.
    Timeout { what: String },
}

impl VmError {
    /// A short text for the operator.
    pub fn kind_name(&self) -> (r: &'static str) {
        match self {
            VmError::ResourceExhausted => "resource exhausted",
            VmError::NotFound { .. } => "not found",
            VmError::ProcessError { .. } => "process error",
            VmError::ApiError { .. } => "api error",
            VmError::GuestConfigError { .. } => "guest configuration error",
            VmError::NetworkSetupError { .. } => "network setup error",
            VmError::Timeout { .. } => "timeout",
        }
    }
}

} // verus!
