//! Export resolution and the checks behind callable bindings and late-bound calls.
use vstd::prelude::*;

use crate::error::{CallableExportNotFound, CallableExportNotValidForSig};
use crate::error::{MemoryAccessError, TrappedInvoke};
use crate::memory::{check_memory_access, memory_access, MemoryRegion};
use crate::signature::{same_signature, Signature, SignatureView};

verus! {

/// What an instance exports under a name, as far as binding decisions read it.
#[derive(Clone, Debug)]
pub enum ExportKind {
    /// A function with its declared native signature.
    Function(Signature),
    /// A linear memory with its current size in bytes.
    Memory { size: usize },
    /// A table.
    Table,
    /// A global.
    Global,
}

/// A typed scalar argument or result of a late-bound call. Floating-point
/// values travel as their bit patterns.
#[derive(Clone, Copy, Debug, PartialEq, Eq, Structural)]
pub enum Value {
    I32(i32),
    I64(i64),
    F32(u32),
    F64(u64),
}

/// How a late-bound call ended.
#[derive(Clone, Debug)]
pub enum InvokeOutcome {
    /// The call returned these values.
    Returned(Vec<Value>),
    /// Guest code trapped with this message.
    Trapped(String),
}

/// Why a callable binding could not be made.
#[derive(Clone, Debug)]
pub enum CallableExportError {
    NotFound(CallableExportNotFound),
    NotValidForSig(CallableExportNotValidForSig),
}

/// Why a memory view could not be made.
#[derive(Clone, Debug)]
pub enum MemorySliceError {
    /// No export of that name, or it is not a memory.
    NotFound(CallableExportNotFound),
    /// The range was refused.
    Access(MemoryAccessError),
}

/// The declared signature of a function export, if `export` is one.
pub open spec fn function_signature(export: Option<ExportKind>) -> Option<SignatureView> {
    match export {
        Some(ExportKind::Function(s)) => Some(s@),
        _ => None,
    }
}

/// Whether a looked-up export may be bound to the signature `sig`: it is a
/// function whose declared signature is exactly `sig`.
pub open spec fn binds(export: Option<ExportKind>, sig: SignatureView) -> bool {
    function_signature(export) == Some(sig)
}

/// A binding request whose signature is exactly a function's declared one is
/// granted.
pub proof fn identical_signature_binds(declared: Signature)
    ensures
        binds(Some(ExportKind::Function(declared)), declared@),
{
}

/// A binding request whose signature differs from a function's declared one
/// in a single parameter type is refused: types are never coerced.
pub proof fn altered_parameter_never_binds(declared: Signature, requested: Signature, k: int)
    requires
        requested@.params.len() == declared@.params.len(),
        0 <= k < declared@.params.len(),
        requested@.params[k] != declared@.params[k],
    ensures
        !binds(Some(ExportKind::Function(declared)), requested@),
{
}

/// Whether `e` is the error that a refused binding of the export `name`, as
/// looked up (`export`), to `sig` reports: not found when it is not a
/// function, otherwise a mismatch naming both signatures.
pub open spec fn refusal(
    e: CallableExportError,
    name: Seq<char>,
    export: Option<ExportKind>,
    sig: SignatureView,
) -> bool {
    match function_signature(export) {
        None => e matches CallableExportError::NotFound(n) && n.0@ == name,
        Some(d) => e matches CallableExportError::NotValidForSig(m) && m.0@ == name && m.1@ == d
            && m.2@ == sig,
    }
}

/// Decides whether the export `name`, as looked up (`export`), may be bound to
/// the native signature `sig`: it must be a function, and its declared
/// signature must equal `sig` exactly, with no coercion of any type.
pub fn check_callable_export(name: &str, export: &Option<ExportKind>, sig: &Signature) -> (r:
    Result<(), CallableExportError>)
    ensures
        (r is Ok) == binds(*export, sig@),
        r matches Err(e) ==> refusal(e, name@, *export, sig@),
{
    match export {
        Some(ExportKind::Function(declared)) => {
            if same_signature(declared, sig) {
                Ok(())
            } else {
                Err(
                    CallableExportError::NotValidForSig(
                        CallableExportNotValidForSig(
                            name.to_owned(),
                            declared.duplicate(),
                            sig.duplicate(),
                        ),
                    ),
                )
            }
        },
        _ => Err(CallableExportError::NotFound(CallableExportNotFound(name.to_owned()))),
    }
}

/// The current size of a memory export, if `export` is one.
pub open spec fn memory_size(export: Option<ExportKind>) -> Option<usize> {
    match export {
        Some(ExportKind::Memory { size }) => Some(size),
        _ => None,
    }
}

/// Decides a memory view request on the export `name`, as looked up
/// (`export`): it must be a memory, and the range must pass the overflow,
/// bounds and alignment checks against its current size.
pub fn check_memory_slice(
    name: &str,
    export: &Option<ExportKind>,
    ptr: u32,
    len: usize,
    align: usize,
) -> (r: Result<MemoryRegion, MemorySliceError>)
    ensures
        match memory_size(*export) {
            None => r matches Err(MemorySliceError::NotFound(e)) && e.0@ == name@,
            Some(size) => match memory_access(ptr, len, align, size) {
                Ok(region) => r == Ok::<MemoryRegion, MemorySliceError>(region),
                Err(a) => r matches Err(MemorySliceError::Access(b)) && a == b,
            },
        },
{
    match export {
        Some(ExportKind::Memory { size }) => match check_memory_access(ptr, len, align, *size) {
            Ok(region) => Ok(region),
            Err(a) => Err(MemorySliceError::Access(a)),
        },
        _ => Err(MemorySliceError::NotFound(CallableExportNotFound(name.to_owned()))),
    }
}

/// Decides a request for a view of `count` items of `item_size` bytes each
/// from `ptr`: the byte length `count * item_size` must fit in a machine word,
/// and the byte range must pass `check_memory_slice`.
pub fn check_typed_memory_slice(
    name: &str,
    export: &Option<ExportKind>,
    ptr: u32,
    count: usize,
    item_size: usize,
    align: usize,
) -> (r: Result<MemoryRegion, MemorySliceError>)
    ensures
        count as int * item_size as int > usize::MAX as int ==> match memory_size(*export) {
            None => r matches Err(MemorySliceError::NotFound(e)) && e.0@ == name@,
            Some(_) => r matches Err(MemorySliceError::Access(MemoryAccessError::Overflow)),
        },
        count as int * item_size as int <= usize::MAX as int ==> match memory_size(*export) {
            None => r matches Err(MemorySliceError::NotFound(e)) && e.0@ == name@,
            Some(size) => match memory_access(ptr, (count * item_size) as usize, align, size) {
                Ok(region) => r == Ok::<MemoryRegion, MemorySliceError>(region),
                Err(a) => r matches Err(MemorySliceError::Access(b)) && a == b,
            },
        },
{
    match count.checked_mul(item_size) {
        Some(bytes) => check_memory_slice(name, export, ptr, bytes, align),
        None => match export {
            Some(ExportKind::Memory { .. }) => Err(MemorySliceError::Access(MemoryAccessError::Overflow)),
            _ => Err(MemorySliceError::NotFound(CallableExportNotFound(name.to_owned()))),
        },
    }
}

/// Turns the outcome of a late-bound call of `name` into its result: the
/// returned values, or a trap error carrying the function name and message.
pub fn invoke_result(name: &str, outcome: InvokeOutcome) -> (r: Result<Vec<Value>, TrappedInvoke>)
    ensures
        match outcome {
            InvokeOutcome::Returned(v) => r matches Ok(w) && w@ == v@,
            InvokeOutcome::Trapped(m) => r matches Err(e) && e.0@ == name@ && e.1@ == m@,
        },
{
    match outcome {
        InvokeOutcome::Returned(values) => Ok(values),
        InvokeOutcome::Trapped(message) => Err(TrappedInvoke(name.to_owned(), message)),
    }
}

} // verus!
