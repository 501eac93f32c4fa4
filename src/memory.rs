//! Range, overflow and alignment checks for views into an instance's linear memory.
use vstd::prelude::*;

use crate::error::MemoryAccessError;

verus! {

/// A checked region of linear memory: `len` bytes (or items) from `offset`.
#[derive(Clone, Copy, Debug, PartialEq, Eq, Structural)]
pub struct MemoryRegion {
    pub offset: usize,
    pub len: usize,
}

/// What a view request of `len` from `ptr` with alignment `align` yields
/// against a memory whose current size is `size`.
pub open spec fn memory_access(ptr: u32, len: usize, align: usize, size: usize) -> Result<
    MemoryRegion,
    MemoryAccessError,
> {
    if ptr as int + len as int > usize::MAX as int {
        Err(MemoryAccessError::Overflow)
    } else if ptr as int + len as int > size as int {
        Err(MemoryAccessError::OutOfBounds)
    } else if align == 0 || (ptr as usize) % align != 0 {
        Err(MemoryAccessError::Misaligned)
    } else {
        Ok(MemoryRegion { offset: ptr as usize, len })
    }
}

/// Checks a view request against a memory of current size `size`: the end
/// `ptr + len` must not overflow and must lie within the memory, and `ptr`
/// must be a multiple of a non-zero `align`. Overflow is reported before an
/// out-of-range end, and both before misalignment.
pub fn check_memory_access(ptr: u32, len: usize, align: usize, size: usize) -> (r: Result<
    MemoryRegion,
    MemoryAccessError,
>)
    ensures
        r == memory_access(ptr, len, align, size),
        r is Ok ==> r->Ok_0.offset as int + r->Ok_0.len as int <= size as int,
{
    let offset = ptr as usize;
    let end = match offset.checked_add(len) {
        Some(e) => e,
        None => {
            return Err(MemoryAccessError::Overflow);
        },
    };
    if end > size {
        return Err(MemoryAccessError::OutOfBounds);
    }
    if align == 0 || offset % align != 0 {
        return Err(MemoryAccessError::Misaligned);
    }
    Ok(MemoryRegion { offset, len })
}

/// A request that starts at the last byte of a memory and reaches one byte
/// past its end is refused as out of range (or, where the end does not fit in
/// a machine word, as an overflow).
pub proof fn access_past_end_is_refused(size: usize)
    requires
        1 <= size <= u32::MAX as int + 1,
    ensures
        memory_access((size - 1) as u32, 2, 1, size) matches Err(e) && (e
            == MemoryAccessError::OutOfBounds || e == MemoryAccessError::Overflow),
{
}

/// An in-range request whose offset is not a multiple of the alignment is
/// refused as misaligned.
pub proof fn unaligned_access_is_refused(ptr: u32, len: usize, align: usize, size: usize)
    requires
        ptr as int + len as int <= size as int,
        align > 0,
        ptr as int % align as int != 0,
    ensures
        memory_access(ptr, len, align, size) == Err::<MemoryRegion, MemoryAccessError>(
            MemoryAccessError::Misaligned,
        ),
{
}

/// An in-range, aligned request is granted exactly the requested region.
pub proof fn aligned_access_in_range_is_granted(ptr: u32, len: usize, align: usize, size: usize)
    requires
        ptr as int + len as int <= size as int,
        align > 0,
        ptr as int % align as int == 0,
    ensures
        memory_access(ptr, len, align, size) == Ok::<MemoryRegion, MemoryAccessError>(
            MemoryRegion { offset: ptr as usize, len },
        ),
{
}

} // verus!
