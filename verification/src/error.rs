//! The kinds of failure of a denoise call.

use vstd::prelude::*;

verus! {

/// Why a call could not be carried out. Every kind is terminal: nothing is
/// retried and no partial result is handed out.
#[derive(Debug, Clone, Copy, PartialEq, Eq, Structural)]
pub enum DenoiseError {
    /// The pixel buffer's shape or channel count is outside the format registry's domain.
    UnsupportedInput,
    /// No kernel was generated for the requested (format, stage, hsv, algorithm) tuple.
    UnsupportedVariant,
    /// The accelerator reported a failure while a job was in flight.
    DeviceFailure,
    /// The caller's arguments are malformed.
    InvalidArgument,
}

} // verus!
