use vstd::prelude::*;

verus! {

/// Classification of a failed parse or validation step.
///
/// Every layer-parse operation returns either a parsed view or one of
/// these errors; errors propagate immediately to the caller and abort the
/// remaining pipeline stages.
#[derive(Clone, Copy, Debug, PartialEq, Eq, Structural)]
pub enum ParseError {
    /// A requested slice or field access would exceed the buffer capacity.
    OutOfBounds,
    /// The buffer region is shorter than the data the layer needs.
    TooShort,
    /// A structural invariant of a layer is violated, such as a version
    /// field that is not IPv6 or a declared length too small for the
    /// fixed header.
    MalformedHeader,
    /// The computed checksum disagrees with the wire value.
    ChecksumMismatch,
    /// A downcast was requested for a payload type inconsistent with the
    /// observed message type tag.
    TypeMismatch,
}

} // verus!
