//! The error taxonomy of the render core.
//!
//! Every fallible step returns a typed outcome; the orchestrator is the only
//! place that decides between "retry via swapchain recreation" and "abort the
//! session".  Creation- and device-class failures are fatal and never
//! retried; only swapchain staleness is recoverable.
use vstd::prelude::*;

verus! {

/// The class of a fatal failure.
#[derive(Clone, Copy, Debug, PartialEq, Eq, Structural)]
pub enum VkErrorKind {
    /// A primitive, buffer, memory or pipeline object could not be created.
    Create,
    /// A wait, submit or map operation reported an API-level error.
    Device,
    /// A file path could not be opened or read.
    Path,
    /// Any other fatal condition (timeouts and unknown surface errors).
    Other,
}

/// A fatal error, carrying its class and the subject that failed.
#[derive(Debug)]
pub struct VkError {
    pub kind: VkErrorKind,
    pub subject: String,
}

pub type VkResult<T> = Result<T, VkError>;

impl VkError {
    /// A creation-class error: `object` names what failed to be created.
    pub fn create(object: &str) -> (r: VkError)
        ensures
            r.kind == VkErrorKind::Create,
            r.subject@ == object@,
    {
        VkError { kind: VkErrorKind::Create, subject: object.to_owned() }
    }

    /// A device-class error: `ops` names the operation that failed.
    pub fn device(ops: &str) -> (r: VkError)
        ensures
            r.kind == VkErrorKind::Device,
            r.subject@ == ops@,
    {
        VkError { kind: VkErrorKind::Device, subject: ops.to_owned() }
    }

    /// A path-class error: `path` is the path that could not be used.
    pub fn path(path: &str) -> (r: VkError)
        ensures
            r.kind == VkErrorKind::Path,
            r.subject@ == path@,
    {
        VkError { kind: VkErrorKind::Path, subject: path.to_owned() }
    }

    /// An error of any other fatal class.
    pub fn other(description: &str) -> (r: VkError)
        ensures
            r.kind == VkErrorKind::Other,
            r.subject@ == description@,
    {
        VkError { kind: VkErrorKind::Other, subject: description.to_owned() }
    }

    /// The class of this error.
    pub fn kind(&self) -> (r: VkErrorKind)
        ensures
            r == self.kind,
    {
        self.kind
    }

    /// The subject this error reports on.
    pub fn subject(&self) -> (r: &str)
        ensures
            r@ == self.subject@,
    {
        self.subject.as_str()
    }
}

/// Outcome of the per-frame swapchain interactions (image acquisition and
/// presentation).  The first two variants are the only recoverable surface
/// conditions; the last two are fatal.
#[derive(Clone, Copy, Debug, PartialEq, Eq, Structural)]
pub enum SwapchainSyncError {
    /// The surface no longer matches the swapchain and must be rebuilt.
    SurfaceOutDate,
    /// The swapchain still works but no longer matches the surface optimally.
    SubOptimal,
    /// An image acquisition wait timed out.
    TimeOut,
    /// Any other acquisition or presentation error.
    Unknown,
}

impl SwapchainSyncError {
    /// Whether this surface condition is absorbed into swapchain recreation
    /// rather than aborting the session.
    pub open spec fn spec_is_recoverable(&self) -> bool {
        *self == SwapchainSyncError::SurfaceOutDate || *self == SwapchainSyncError::SubOptimal
    }

    /// Whether this surface condition is absorbed into swapchain recreation
    /// rather than aborting the session.
    pub fn is_recoverable(&self) -> (r: bool)
        ensures
            r == self.spec_is_recoverable(),
    {
        match self {
            SwapchainSyncError::SurfaceOutDate => true,
            SwapchainSyncError::SubOptimal => true,
            SwapchainSyncError::TimeOut => false,
            SwapchainSyncError::Unknown => false,
        }
    }
}

} // verus!
