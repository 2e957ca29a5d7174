//! The error taxonomy for decoding failures.

use vstd::prelude::*;

verus! {

/// Why a buffer was rejected. Every decoding failure is reported to the
/// caller through this type; nothing is logged or swallowed inside the
/// library, and no partially decoded value is ever returned beside it.
#[derive(Clone, Copy, Debug, PartialEq, Eq, Structural)]
pub enum DecodeError {
    /// The buffer is smaller than a structurally required region.
    TooShort,
    /// The identification bytes do not match the expected container signature.
    BadMagic,
    /// A recognized format whose declared version field is not handled.
    UnsupportedVersion,
    /// A recognized format whose declared address-width class is not handled.
    UnsupportedClass,
    /// A computed offset plus size exceeds the buffer length.
    OutOfBounds,
    /// A name reference points outside the string-table region.
    BadStringTableIndex,
}

} // verus!
