use crate::size::{adjusted_size, calculate_size, fits_word, valid_alignment};
use vstd::prelude::*;

verus! {

/// The fixed line written to standard error when a host entry point is missing.
pub const ALLOCATOR_NOT_AVAILABLE_MESSAGE: &'static str =
    "Critical error: the Redis Allocator isn't available.\n";

/// Which of the host's four allocation entry points are wired up.
#[derive(Clone, Copy, Debug, PartialEq, Eq)]
pub struct HostCapabilities {
    pub alloc: bool,
    pub calloc: bool,
    pub free: bool,
    pub realloc: bool,
}

/// The one step taken for a request: a single call into the host, with the
/// arguments it gets, or the allocation-free abort.
#[derive(Clone, Copy, Debug, PartialEq, Eq, Structural)]
pub enum HostCall {
    /// `alloc(size)`; its pointer, null included, goes back to the caller as is.
    Alloc { size: usize },
    /// `calloc(count, size)`; its pointer goes back as is.
    Calloc { count: usize, size: usize },
    /// `free(ptr)`.
    Free,
    /// `realloc(ptr, size)`; its pointer goes back as is.
    Realloc { size: usize },
    /// Write the fixed diagnostic once and abort the process.
    Abort,
}

/// The global allocator that hands every request to the host's allocator.
#[derive(Clone, Copy, Debug)]
pub struct RedisAlloc;

impl RedisAlloc {
    /// A fresh block of `size` bytes aligned to `align`.
    pub fn allocate(&self, host: &HostCapabilities, size: usize, align: usize) -> (r: HostCall)
        requires
            valid_alignment(align),
            fits_word(size, align),
        ensures
            host.alloc ==> r == (HostCall::Alloc { size: adjusted_size(size as nat, align as nat) as usize }),
            !host.alloc ==> r == HostCall::Abort,
    {
        let adjusted: usize = calculate_size(size, align);
        if host.alloc {
            HostCall::Alloc { size: adjusted }
        } else {
            HostCall::Abort
        }
    }

    /// A zeroed block of `size` bytes aligned to `align`: one unit of the
    /// adjusted size.
    pub fn alloc_zeroed(&self, host: &HostCapabilities, size: usize, align: usize) -> (r: HostCall)
        requires
            valid_alignment(align),
            fits_word(size, align),
        ensures
            host.calloc ==> r == (HostCall::Calloc {
                count: 1,
                size: adjusted_size(size as nat, align as nat) as usize,
            }),
            !host.calloc ==> r == HostCall::Abort,
    {
        let adjusted: usize = calculate_size(size, align);
        if host.calloc {
            HostCall::Calloc { count: 1, size: adjusted }
        } else {
            HostCall::Abort
        }
    }

    /// Release of a block; its size and alignment play no part.
    pub fn dealloc(&self, host: &HostCapabilities, size: usize, align: usize) -> (r: HostCall)
        ensures
            host.free ==> r == HostCall::Free,
            !host.free ==> r == HostCall::Abort,
    {
        if host.free {
            HostCall::Free
        } else {
            HostCall::Abort
        }
    }

    /// Growth or shrinking of a block of `old_size` bytes aligned to
    /// `old_align` to `new_size` bytes: the new size is adjusted to the
    /// original alignment, and the original size plays no part.
    pub fn realloc(
        &self,
        host: &HostCapabilities,
        old_size: usize,
        old_align: usize,
        new_size: usize,
    ) -> (r: HostCall)
        requires
            valid_alignment(old_align),
            fits_word(new_size, old_align),
        ensures
            host.realloc ==> r == (HostCall::Realloc {
                size: adjusted_size(new_size as nat, old_align as nat) as usize,
            }),
            !host.realloc ==> r == HostCall::Abort,
    {
        if host.realloc {
            let adjusted: usize = calculate_size(new_size, old_align);
            HostCall::Realloc { size: adjusted }
        } else {
            HostCall::Abort
        }
    }
}

} // verus!
