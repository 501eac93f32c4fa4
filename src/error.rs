//! The failures that resolution, binding, invocation and memory access report.
use vstd::prelude::*;

use crate::signature::Signature;

verus! {

/// No export of this name exists, or it is not of the kind asked for.
#[derive(Clone, Debug)]
pub struct CallableExportNotFound(pub String);

/// An export's declared signature differs from the one a binding asked for:
/// the export's name, its declared signature, and the required one.
#[derive(Clone, Debug)]
pub struct CallableExportNotValidForSig(pub String, pub Signature, pub Signature);

/// Guest code trapped during a call: the function's name and the trap message.
#[derive(Clone, Debug)]
pub struct TrappedInvoke(pub String, pub String);

/// Why a memory view request was refused.
#[derive(Clone, Copy, Debug, PartialEq, Eq, Structural)]
pub enum MemoryAccessError {
    /// `offset + length` does not fit in a machine word.
    Overflow,
    /// The range ends past the memory's current size.
    OutOfBounds,
    /// The offset is not a multiple of the alignment (or the alignment is zero).
    Misaligned,
}

} // verus!
