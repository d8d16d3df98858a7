//! An allocator backend that serves every heap request directly from the
//! operating system's anonymous virtual-memory mapping facility, with no
//! user-space free list or arena in between, together with a cached
//! page-size oracle.
//!
//! The backend is stateless: every operation translates into exactly one
//! OS mapping, unmapping or remapping request.  This crate holds that
//! translation — which request each operation issues, how each OS answer
//! is interpreted, and how a resize is emulated where the OS offers no
//! remap primitive — as ordinary functions over plain addresses and
//! lengths.  The raw OS calls themselves are unsafe foreign calls and
//! live with the embedding program, which feeds their outcomes back in.

mod mmap_allocator;
mod page_size;

pub use crate::mmap_allocator::AcquireOutcome;
pub use crate::mmap_allocator::MapOutcome;
pub use crate::mmap_allocator::MapRequest;
pub use crate::mmap_allocator::MmapAllocator;
pub use crate::mmap_allocator::RemapRequest;
pub use crate::mmap_allocator::ResizeFallback;
pub use crate::mmap_allocator::UnmapRequest;
pub use crate::mmap_allocator::check_power_of_two;
pub use crate::mmap_allocator::is_power_of_two;
pub use crate::mmap_allocator::lemma_acquire_zeroed_is_alias;
pub use crate::mmap_allocator::lemma_power_of_two_positive;
pub use crate::mmap_allocator::spec_acquire_finish;
pub use crate::mmap_allocator::spec_acquire_request;
pub use crate::mmap_allocator::spec_acquire_zeroed_request;
pub use crate::mmap_allocator::spec_preserved_len;
pub use crate::page_size::PageSizeCache;
pub use crate::page_size::lemma_page_size_stable;
pub use crate::page_size::spec_record;
