//! Allocation router: picks the engine entry point for every allocate,
//! zero-allocate and resize request, and refuses alignment requests the
//! target's engine cannot take.

use vstd::prelude::*;

use crate::policy::TargetConfig;

verus! {

/// Whether a block is handed back uninitialized or zero-filled.
#[derive(Clone, Copy, PartialEq, Eq, Structural, Debug)]
pub enum FillMode {
    Uninitialized,
    Zeroed,
}

/// The engine entry point one request is dispatched to, with the exact
/// arguments it receives. Addresses stand in for raw pointers; zero is the
/// null address.
#[derive(Clone, Copy, PartialEq, Eq, Structural, Debug)]
pub enum EngineEntry {
    /// Default (fast, unaligned) allocation path.
    Malloc { size: usize },
    /// Default path, zero-filled.
    Zalloc { size: usize },
    /// Explicit-alignment allocation path.
    MallocAligned { size: usize, align: usize },
    /// Explicit-alignment path, zero-filled.
    ZallocAligned { size: usize, align: usize },
    /// Default resize path; carries the existing block's address through.
    Realloc { addr: usize, new_size: usize },
    /// Explicit-alignment resize path.
    ReallocAligned { addr: usize, new_size: usize, align: usize },
}

/// The fast path suffices iff the requested alignment is already guaranteed
/// by the engine's default path and does not exceed the requested size (a
/// block smaller than its alignment cannot be trusted to land on it).
pub open spec fn fast_path_eligible(guaranteed: usize, size: usize, align: usize) -> bool {
    align <= guaranteed && align <= size
}

/// Entry the fast path dispatches an allocation to.
pub open spec fn fast_alloc_entry(fill: FillMode, size: usize) -> EngineEntry {
    match fill {
        FillMode::Uninitialized => EngineEntry::Malloc { size },
        FillMode::Zeroed => EngineEntry::Zalloc { size },
    }
}

/// Entry the aligned path dispatches an allocation to.
pub open spec fn aligned_alloc_entry(fill: FillMode, size: usize, align: usize) -> EngineEntry {
    match fill {
        FillMode::Uninitialized => EngineEntry::MallocAligned { size, align },
        FillMode::Zeroed => EngineEntry::ZallocAligned { size, align },
    }
}

/// The routing decision for an allocation request: the engine entry to call,
/// or `None` where the adapter must return the null sentinel without
/// reaching the engine at all.
pub open spec fn allocation_plan(
    cfg: TargetConfig,
    fill: FillMode,
    size: usize,
    align: usize,
) -> Option<EngineEntry> {
    if fast_path_eligible(cfg.class.min_align(), size, align) {
        Option::Some(fast_alloc_entry(fill, size))
    } else if cfg.ceiling_blocks(align) {
        Option::None
    } else {
        Option::Some(aligned_alloc_entry(fill, size, align))
    }
}

/// The routing decision for a resize request. The same branch structure as
/// allocation, decided on the new size and the alignment carried from the
/// original allocation; the existing address passes through unchanged.
pub open spec fn resize_plan(
    cfg: TargetConfig,
    addr: usize,
    new_size: usize,
    align: usize,
) -> Option<EngineEntry> {
    if fast_path_eligible(cfg.class.min_align(), new_size, align) {
        Option::Some(EngineEntry::Realloc { addr, new_size })
    } else if cfg.ceiling_blocks(align) {
        Option::None
    } else {
        Option::Some(EngineEntry::ReallocAligned { addr, new_size, align })
    }
}

/// Routes one allocate or zero-allocate request. Decided once, with no
/// retries and no fallback between the paths; `None` means the caller gets
/// the null sentinel and the engine is never invoked.
pub fn route_allocation(cfg: &TargetConfig, fill: FillMode, size: usize, align: usize) -> (r:
    Option<EngineEntry>)
    ensures
        r == allocation_plan(*cfg, fill, size, align),
{
    if align <= cfg.class.minimum_guaranteed_alignment() && align <= size {
        match fill {
            FillMode::Uninitialized => Option::Some(EngineEntry::Malloc { size }),
            FillMode::Zeroed => Option::Some(EngineEntry::Zalloc { size }),
        }
    } else if cfg.exceeds_ceiling(align) {
        Option::None
    } else {
        match fill {
            FillMode::Uninitialized => Option::Some(EngineEntry::MallocAligned { size, align }),
            FillMode::Zeroed => Option::Some(EngineEntry::ZallocAligned { size, align }),
        }
    }
}

/// Routes one resize request; `addr` is the existing block's address (zero
/// for a fresh allocation), `align` the alignment carried from the original
/// allocation.
pub fn route_resize(cfg: &TargetConfig, addr: usize, new_size: usize, align: usize) -> (r: Option<
    EngineEntry,
>)
    ensures
        r == resize_plan(*cfg, addr, new_size, align),
{
    if align <= cfg.class.minimum_guaranteed_alignment() && align <= new_size {
        Option::Some(EngineEntry::Realloc { addr, new_size })
    } else if cfg.exceeds_ceiling(align) {
        Option::None
    } else {
        Option::Some(EngineEntry::ReallocAligned { addr, new_size, align })
    }
}

/// Law: fast-path eligibility. For every request whose alignment is at most
/// the target's guaranteed minimum and at most the requested size, the router
/// dispatches the engine's default (unaligned) path — for allocation in
/// either fill mode, and for resize on the new size.
pub proof fn lemma_fast_path_eligibility(
    cfg: TargetConfig,
    fill: FillMode,
    addr: usize,
    size: usize,
    align: usize,
)
    requires
        align <= cfg.class.min_align(),
        align <= size,
    ensures
        allocation_plan(cfg, fill, size, align) == Option::Some(fast_alloc_entry(fill, size)),
        resize_plan(cfg, addr, size, align) == Option::Some(
            (EngineEntry::Realloc { addr, new_size: size }),
        ),
{
}

/// Law: requests that fail fast-path eligibility and stay within the
/// target's alignment ceiling (or face none) reach the engine's
/// explicit-alignment path, never the default one.
pub proof fn lemma_aligned_path(
    cfg: TargetConfig,
    fill: FillMode,
    addr: usize,
    size: usize,
    align: usize,
)
    requires
        !fast_path_eligible(cfg.class.min_align(), size, align),
        !cfg.ceiling_blocks(align),
    ensures
        allocation_plan(cfg, fill, size, align) == Option::Some(
            aligned_alloc_entry(fill, size, align),
        ),
        resize_plan(cfg, addr, size, align) == Option::Some(
            (EngineEntry::ReallocAligned { addr, new_size: size, align }),
        ),
{
}

/// Law: alignment-ceiling guard. On a target whose engine caps explicit
/// alignment requests, a request above the cap that cannot take the fast
/// path is refused before dispatch: the plan is `None` and no engine entry
/// is ever named.
pub proof fn lemma_ceiling_guard(
    cfg: TargetConfig,
    fill: FillMode,
    addr: usize,
    size: usize,
    align: usize,
)
    requires
        !fast_path_eligible(cfg.class.min_align(), size, align),
        cfg.ceiling_blocks(align),
    ensures
        allocation_plan(cfg, fill, size, align).is_none(),
        resize_plan(cfg, addr, size, align).is_none(),
{
}

/// Law: the router never synthesizes allocation parameters. Every entry a
/// plan names carries exactly the caller's size and alignment (and, for
/// resize, the caller's address); in particular the adapter can never hand
/// the engine an alignment the caller did not ask for.
pub proof fn lemma_request_passes_through_unchanged(
    cfg: TargetConfig,
    fill: FillMode,
    addr: usize,
    size: usize,
    align: usize,
)
    ensures
        allocation_plan(cfg, fill, size, align) matches Option::Some(e) ==> e
            == fast_alloc_entry(fill, size) || e == aligned_alloc_entry(fill, size, align),
        resize_plan(cfg, addr, size, align) matches Option::Some(e) ==> e == (
        EngineEntry::Realloc { addr, new_size: size }) || e == (
        EngineEntry::ReallocAligned { addr, new_size: size, align }),
{
}

/// Law: within the ceiling the engine is always invoked — every request
/// whose alignment does not exceed the target's cap gets some engine entry.
pub proof fn lemma_within_ceiling_reaches_engine(
    cfg: TargetConfig,
    fill: FillMode,
    addr: usize,
    size: usize,
    align: usize,
)
    requires
        !cfg.ceiling_blocks(align),
    ensures
        allocation_plan(cfg, fill, size, align).is_some(),
        resize_plan(cfg, addr, size, align).is_some(),
{
}

} // verus!
