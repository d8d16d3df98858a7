use vstd::prelude::*;

verus! {

/// One mapping request for the OS's anonymous virtual-memory facility,
/// spelled out as plain values.  The embedding program translates the
/// fields into the platform's protection and flag bits and performs the
/// actual (unsafe) mapping call.
#[derive(Clone, Copy, Debug, PartialEq, Eq)]
pub struct MapRequest {
    /// Where the mapping should be placed; zero lets the OS choose.
    pub hint: usize,
    /// Length of the requested mapping in bytes.
    pub length: usize,
    /// The mapping can be read.
    pub readable: bool,
    /// The mapping can be written.
    pub writable: bool,
    /// The mapping can be executed.
    pub executable: bool,
    /// Private (copy-on-write), not shared with other processes.
    pub private: bool,
    /// Anonymous: backed by no file and zero-filled by the OS.
    pub anonymous: bool,
    /// Backing file descriptor; -1 for an anonymous mapping.
    pub file_descriptor: i32,
    /// Offset into the backing file; 0 for an anonymous mapping.
    pub offset: i64,
}

/// The request that `acquire(size, _)` issues: a private anonymous
/// readable and writable mapping of exactly `size` bytes, backed by no
/// file, placed wherever the OS chooses.
pub open spec fn spec_acquire_request(size: usize) -> MapRequest {
    MapRequest {
        hint: 0,
        length: size,
        readable: true,
        writable: true,
        executable: false,
        private: true,
        anonymous: true,
        file_descriptor: -1i32,
        offset: 0i64,
    }
}

/// The request that `acquire_zeroed(size, _)` issues.  Anonymous
/// mappings come pre-zeroed from the OS, so no separate fill pass is
/// needed and the request is, by design, exactly the plain one.
pub open spec fn spec_acquire_zeroed_request(size: usize) -> MapRequest {
    spec_acquire_request(size)
}

/// Law: zero-filled acquisition is a pure alias of plain acquisition —
/// for every size the two operations issue the identical mapping
/// request, and the zero fill is the OS's own guarantee on anonymous
/// mappings.
pub proof fn lemma_acquire_zeroed_is_alias(size: usize)
    ensures
        spec_acquire_zeroed_request(size) == spec_acquire_request(size),
{
}

/// The OS's answer to a mapping or remapping request.  The embedding
/// program folds the raw return value into this: the OS's failure
/// sentinel becomes `Failed`, anything else is a mapped address.
#[derive(Clone, Copy, Debug, PartialEq, Eq)]
pub enum MapOutcome {
    /// The OS established (or moved) a mapping at this address.
    Mapped(usize),
    /// The OS denied the request and set the ambient error code.
    Failed,
}

/// What `acquire` hands its caller once the OS has answered.
#[derive(Clone, Copy, Debug, PartialEq, Eq)]
pub enum AcquireOutcome {
    /// A usable address: the mapping starts here and the address is a
    /// multiple of the requested alignment.
    Address(usize),
    /// The OS denied the request; the caller sees the null address and
    /// reads the cause from the ambient error code.
    OsFailure,
    /// The OS mapped at this address, but the address misses the
    /// requested alignment: the alignment asks for more than a
    /// page-aligned mapping can honor.  This is a contract violation by
    /// the caller, not a runtime condition, and the embedding program
    /// aborts on it rather than return a misaligned address.
    Misaligned(usize),
}

/// `a` is a power of two.
pub open spec fn is_power_of_two(a: nat) -> bool
    decreases a,
{
    if a == 0 {
        false
    } else if a == 1 {
        true
    } else {
        a % 2 == 0 && is_power_of_two(a / 2)
    }
}

/// How `acquire` reads the OS's answer: a denial is passed on, and a
/// mapped address is held against the requested alignment.
pub open spec fn spec_acquire_finish(outcome: MapOutcome, align: usize) -> AcquireOutcome
    recommends
        align > 0,
{
    match outcome {
        MapOutcome::Failed => AcquireOutcome::OsFailure,
        MapOutcome::Mapped(a) => if a % align == 0 {
            AcquireOutcome::Address(a)
        } else {
            AcquireOutcome::Misaligned(a)
        },
    }
}

/// One unmapping request: give `length` bytes starting at `address`
/// back to the OS.
#[derive(Clone, Copy, Debug, PartialEq, Eq)]
pub struct UnmapRequest {
    /// Start of the range to unmap.
    pub address: usize,
    /// Length of the range to unmap, in bytes.
    pub length: usize,
}

/// One remapping request: grow or shrink the mapping at `address` from
/// `old_length` to `new_length` bytes.
#[derive(Clone, Copy, Debug, PartialEq, Eq)]
pub struct RemapRequest {
    /// Start of the existing mapping.
    pub address: usize,
    /// Current length of the mapping, in bytes.
    pub old_length: usize,
    /// Requested length, in bytes.
    pub new_length: usize,
    /// The OS may relocate the mapping to satisfy the new length; the
    /// content up to the shorter of the two lengths moves with it.
    pub may_move: bool,
}

/// How many bytes a resize preserves: the shorter of the old and the
/// new length.
pub open spec fn spec_preserved_len(old_size: usize, new_size: usize) -> usize {
    if old_size <= new_size {
        old_size
    } else {
        new_size
    }
}

/// The rest of an emulated resize, once the replacement mapping has
/// been requested.  Where the OS offers no remap primitive, resize is
/// acquire-new, copy the preserved bytes, release-old — in that order,
/// and only when the acquisition succeeded.
#[derive(Clone, Copy, Debug, PartialEq, Eq)]
pub enum ResizeFallback {
    /// The replacement acquisition failed: report the null address to
    /// the caller and touch nothing — in particular, neither copy from
    /// nor release the original mapping, which stays intact.
    Abandon,
    /// Copy `copy_len` bytes from the old mapping to the new one, then
    /// release the old mapping, and hand `result` to the caller.
    Relocate {
        /// Start of the original mapping, the source of the copy.
        copy_src: usize,
        /// Start of the replacement mapping, the target of the copy.
        copy_dst: usize,
        /// Bytes to copy: the shorter of the old and the new length.
        copy_len: usize,
        /// Start of the original mapping, released after the copy.
        release_address: usize,
        /// Length of the original mapping.
        release_length: usize,
        /// The address the caller sees: the replacement mapping.
        result: usize,
    },
}

/// Stateless allocator backend.  Every operation maps 1:1 to one OS
/// request; the OS is the sole owner of address-space bookkeeping, so
/// the backend itself carries no state at all.
#[derive(Clone, Copy, Debug)]
pub struct MmapAllocator;

impl Default for MmapAllocator {
    fn default() -> (r: Self)
        ensures
            r == MmapAllocator,
    {
        MmapAllocator
    }
}

impl MmapAllocator {
    /// Creates a new instance.
    pub fn new() -> (r: Self)
        ensures
            r == MmapAllocator,
    {
        MmapAllocator
    }

    /// The mapping request that `acquire(size, _)` issues.  The requested
    /// alignment plays no part here: the OS places every mapping on a page
    /// boundary, and the answer is checked against the alignment when it
    /// comes back.
    pub fn acquire_request(&self, size: usize) -> (r: MapRequest)
        ensures
            r == spec_acquire_request(size),
    {
        MapRequest {
            hint: 0,
            length: size,
            readable: true,
            writable: true,
            executable: false,
            private: true,
            anonymous: true,
            file_descriptor: -1,
            offset: 0,
        }
    }

    /// The mapping request that `acquire_zeroed(size, _)` issues.  It is
    /// the same request `acquire` issues: anonymous mappings are
    /// pre-zeroed by the OS, so nothing more is asked for.
    pub fn acquire_zeroed_request(&self, size: usize) -> (r: MapRequest)
        ensures
            r == spec_acquire_zeroed_request(size),
    {
        self.acquire_request(size)
    }

    /// Reads the OS's answer to an acquire request.  A denial becomes
    /// `OsFailure` (the null address, with the ambient error code left
    /// as the OS set it).  A mapped address is checked against the
    /// requested alignment; an address that satisfies it is handed out,
    /// any other is reported as `Misaligned` for the embedding program
    /// to abort on.  The alignment is a power of two by the caller's
    /// contract, so in particular it is not zero.
    pub fn acquire_finish(&self, outcome: MapOutcome, align: usize) -> (r: AcquireOutcome)
        requires
            is_power_of_two(align as nat),
        ensures
            r == spec_acquire_finish(outcome, align),
            r matches AcquireOutcome::Address(a) ==> a % align == 0,
    {
        proof {
            lemma_power_of_two_positive(align as nat);
        }
        match outcome {
            MapOutcome::Failed => AcquireOutcome::OsFailure,
            MapOutcome::Mapped(a) => if a % align == 0 {
                AcquireOutcome::Address(a)
            } else {
                AcquireOutcome::Misaligned(a)
            },
        }
    }

    /// The unmapping request that `release(address, size)` issues:
    /// exactly `size` bytes starting at `address` go back to the OS.
    /// Total on purpose — a pair that was never returned by an
    /// acquisition is passed to the OS as it stands, and the OS's unmap
    /// semantics make that harmless (never a crash at this layer).
    pub fn release_request(&self, address: usize, size: usize) -> (r: UnmapRequest)
        ensures
            r == (UnmapRequest { address, length: size }),
    {
        UnmapRequest { address, length: size }
    }

    /// The remapping request that `resize(address, old_size, new_size)`
    /// issues where the OS exposes a remap primitive.  The OS is always
    /// allowed to move the mapping: the caller gets the new address back
    /// and the old handle is invalid either way.
    pub fn resize_request(&self, address: usize, old_size: usize, new_size: usize) -> (r:
        RemapRequest)
        ensures
            r == (RemapRequest {
                address,
                old_length: old_size,
                new_length: new_size,
                may_move: true,
            }),
    {
        RemapRequest { address, old_length: old_size, new_length: new_size, may_move: true }
    }

    /// Reads the OS's answer to a remap request.  A denial becomes
    /// `None` — the null address to the caller, with the original
    /// mapping left intact by the OS and the ambient error code set.  A
    /// success is the (possibly relocated) address.
    pub fn resize_finish(&self, outcome: MapOutcome) -> (r: Option<usize>)
        ensures
            outcome matches MapOutcome::Mapped(a) ==> r == Some(a),
            outcome is Failed ==> r is None,
    {
        match outcome {
            MapOutcome::Mapped(a) => Some(a),
            MapOutcome::Failed => None,
        }
    }

    /// Decides the rest of an emulated resize, given the outcome of the
    /// fresh acquisition of `new_size` bytes.  A failed acquisition
    /// abandons the resize with the original mapping untouched — the
    /// same contract a failed remap has.  A successful one copies the
    /// preserved bytes (the shorter of the two lengths) from the old
    /// mapping to the new, then releases the old mapping.
    pub fn resize_fallback_plan(
        &self,
        address: usize,
        old_size: usize,
        new_size: usize,
        acquired: MapOutcome,
    ) -> (r: ResizeFallback)
        ensures
            acquired is Failed ==> r is Abandon,
            acquired matches MapOutcome::Mapped(a) ==> r == (ResizeFallback::Relocate {
                copy_src: address,
                copy_dst: a,
                copy_len: spec_preserved_len(old_size, new_size),
                release_address: address,
                release_length: old_size,
                result: a,
            }),
    {
        match acquired {
            MapOutcome::Failed => ResizeFallback::Abandon,
            MapOutcome::Mapped(a) => {
                let copy_len: usize = if old_size <= new_size {
                    old_size
                } else {
                    new_size
                };
                ResizeFallback::Relocate {
                    copy_src: address,
                    copy_dst: a,
                    copy_len,
                    release_address: address,
                    release_length: old_size,
                    result: a,
                }
            },
        }
    }
}

/// Decides whether `a` is a power of two, by halving out the factors
/// of two.  Callers of `acquire_finish` can hold an alignment against
/// its contract before they rely on it.
pub fn check_power_of_two(a: usize) -> (b: bool)
    ensures
        b == is_power_of_two(a as nat),
{
    if a == 0 {
        return false;
    }
    let mut x: usize = a;
    while x > 1 && x % 2 == 0
        invariant
            x > 0,
            is_power_of_two(a as nat) == is_power_of_two(x as nat),
        decreases x,
    {
        x = x / 2;
    }
    x == 1
}

/// A power of two is positive; in particular it is safe to divide by.
pub proof fn lemma_power_of_two_positive(a: nat)
    requires
        is_power_of_two(a),
    ensures
        a > 0,
{
}

} // verus!
