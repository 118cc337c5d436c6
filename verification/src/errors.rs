//! Typed failures of the acquisition and resolution engine.
//!
//! Every engine-level failure is reported to the caller as one of these
//! values; the engine itself never aborts.

use vstd::prelude::*;

verus! {

/// Why a resolution or verification step failed.
#[derive(Clone, Copy, Debug, PartialEq, Eq, Structural)]
pub enum ResolveError {
    /// Network failure, non-success status or malformed registry payload.
    RegistryError,
    /// A downloaded package's digest did not match its integrity tag.
    VerificationError,
    /// The integrity tag names an algorithm the engine does not support.
    UnsupportedAlgorithm,
    /// Strict matching was requested and the registry's canonical version
    /// differs from the requested one.
    VersionMismatch,
    /// Every resolution strategy was exhausted without a result.
    ToolNotFound,
    /// Unknown archive type, or the extraction step failed.
    ExtractionError,
    /// A cache directory could not be created or read.
    CacheIOError,
}

impl ResolveError {
    /// A short stable label for the failure, for callers that print it.
    pub fn label(&self) -> (r: &'static str)
        ensures
            r@ == self.spec_label(),
    {
        match self {
            ResolveError::RegistryError => "registry error",
            ResolveError::VerificationError => "integrity verification failed",
            ResolveError::UnsupportedAlgorithm => "unsupported digest algorithm",
            ResolveError::VersionMismatch => "version mismatch",
            ResolveError::ToolNotFound => "tool not found",
            ResolveError::ExtractionError => "extraction failed",
            ResolveError::CacheIOError => "cache directory failure",
        }
    }

    /// What `label` returns for each variant.
    pub open spec fn spec_label(self) -> Seq<char> {
        match self {
            ResolveError::RegistryError => "registry error"@,
            ResolveError::VerificationError => "integrity verification failed"@,
            ResolveError::UnsupportedAlgorithm => "unsupported digest algorithm"@,
            ResolveError::VersionMismatch => "version mismatch"@,
            ResolveError::ToolNotFound => "tool not found"@,
            ResolveError::ExtractionError => "extraction failed"@,
            ResolveError::CacheIOError => "cache directory failure"@,
        }
    }
}

} // verus!
