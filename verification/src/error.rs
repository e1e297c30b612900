use vstd::prelude::*;

verus! {

/// The one error type of the decoding pipeline.
///
/// Every decoder is fail-fast: the first error anywhere in the pipeline
/// aborts the whole decode and is surfaced to the caller unchanged.
#[derive(Debug, Clone, Copy, PartialEq, Eq, Structural)]
pub enum PeError {
    /// A fixed-width read requested more bytes than remain in the buffer.
    BufferTooSmall,
    /// The COFF header's machine field matched no entry of the closed
    /// machine-type table; carries the offending raw value.
    InvalidMachineType(u16),
    /// The optional-header magic selected the ROM variant or an
    /// unrecognized value: recognized as out of scope, not decoded.
    Unimplemented,
    /// The DOS header's `e_lfanew` offset points before its own end,
    /// so no well-formed header chain can follow.
    MalformedOffset,
}

} // verus!
