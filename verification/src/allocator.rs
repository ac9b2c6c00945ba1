//! How the global allocator serves requests from the firmware's memory pool.

use vstd::prelude::*;

verus! {

/// The alignment that the firmware pool guarantees for every allocation.
pub const POOL_ALIGNMENT: usize = 8;

/// The memory type of the pool allocations: loader data.
pub const LOADER_DATA: u32 = 2;

/// A request to the firmware's memory pool.
#[derive(Clone, Copy, Debug, PartialEq, Eq, Structural)]
pub struct PoolRequest {
    /// The memory type to allocate.
    pub memory_type: u32,
    /// The number of bytes to allocate.
    pub size: usize,
}

/// The global allocator, backed by the boot services memory pool.
pub struct Allocator;

impl Allocator {
    /// The pool request that serves an allocation of `size` bytes aligned to `align`:
    /// `size` bytes of loader data when the pool's alignment suffices, none otherwise
    /// (the allocation then fails with a null pointer).
    pub fn pool_request(&self, size: usize, align: usize) -> (r: Option<PoolRequest>)
        ensures
            r == (if align <= POOL_ALIGNMENT {
                Some(PoolRequest { memory_type: LOADER_DATA, size })
            } else {
                None::<PoolRequest>
            }),
    {
        if align > POOL_ALIGNMENT {
            None
        } else {
            Some(PoolRequest { memory_type: LOADER_DATA, size })
        }
    }
}

} // verus!
