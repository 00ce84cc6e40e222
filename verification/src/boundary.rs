//! Ownership-transfer boundary: what the adapter owes the caller around a
//! free or resize call. The safety-critical rule is the resize asymmetry —
//! on failure the original block stays valid and owned by the caller, on
//! success it is consumed and ownership moves to the new block.

use vstd::prelude::*;

verus! {

/// Metadata of one engine block as the adapter hands it to the caller. The
/// address stands in for the raw pointer; zero is the null address and never
/// names a live block.
#[derive(Clone, Copy, PartialEq, Eq, Structural, Debug)]
pub struct BlockDescriptor {
    pub addr: usize,
    pub size: usize,
    pub align: usize,
}

impl BlockDescriptor {
    /// A live block never sits at the null address.
    pub open spec fn wf(self) -> bool {
        self.addr != 0
    }
}

/// What the caller owns once an allocation call settles: nothing when the
/// engine returned the null sentinel, otherwise the fresh block.
pub open spec fn allocation_settlement(ret: usize, size: usize, align: usize) -> Option<
    BlockDescriptor,
> {
    if ret == 0 {
        Option::None
    } else {
        Option::Some(BlockDescriptor { addr: ret, size, align })
    }
}

/// Alignment of the block a resize hands back: carried from the original
/// allocation, or the requested one when the resize started from nothing.
pub open spec fn carried_align(prior: Option<BlockDescriptor>, align: usize) -> usize {
    match prior {
        Option::Some(d) => d.align,
        Option::None => align,
    }
}

/// What the caller owns once a resize call settles. Engine failure (null)
/// leaves the prior ownership exactly as it was; success consumes the
/// original block and transfers the resized one.
pub open spec fn resize_settlement(
    prior: Option<BlockDescriptor>,
    ret: usize,
    new_size: usize,
    align: usize,
) -> Option<BlockDescriptor> {
    if ret == 0 {
        prior
    } else {
        Option::Some(
            BlockDescriptor { addr: ret, size: new_size, align: carried_align(prior, align) },
        )
    }
}

/// Address handed to the engine's free entry when ownership is released: the
/// owned block's address, or the null address when nothing is owned.
pub open spec fn release_address(prior: Option<BlockDescriptor>) -> usize {
    match prior {
        Option::Some(d) => d.addr,
        Option::None => 0,
    }
}

/// The engine's live blocks by address, as a free call transforms them: the
/// null address removes nothing, any other address removes at most its own
/// block. The adapter itself never tracks this map — it only promises to
/// hand the engine addresses consistent with it.
pub open spec fn free_effect(live: Map<usize, BlockDescriptor>, addr: usize) -> Map<
    usize,
    BlockDescriptor,
> {
    if addr == 0 {
        live
    } else {
        live.remove(addr)
    }
}

/// Typed owned-raw-block wrapper: tracks the address, size and alignment of
/// at most one engine block and settles every acquire, resize and release
/// through exact contracts, so the resize asymmetry is enforced by the type
/// rather than by caller discipline.
pub struct OwnedBlock {
    state: Option<BlockDescriptor>,
}

impl View for OwnedBlock {
    type V = Option<BlockDescriptor>;

    closed spec fn view(&self) -> Option<BlockDescriptor> {
        self.state
    }
}

impl OwnedBlock {
    pub open spec fn wf(self) -> bool {
        match self@ {
            Option::Some(d) => d.wf(),
            Option::None => true,
        }
    }

    /// A wrapper that owns nothing yet.
    pub fn empty() -> (r: OwnedBlock)
        ensures
            r@.is_none(),
    {
        OwnedBlock { state: Option::None }
    }

    /// Settles a fresh allocation: `ret` is the address the engine returned,
    /// zero for failure; `size` and `align` are the request the engine was
    /// called with.
    pub fn acquire(ret: usize, size: usize, align: usize) -> (r: OwnedBlock)
        ensures
            r@ == allocation_settlement(ret, size, align),
            r.wf(),
    {
        if ret == 0 {
            OwnedBlock { state: Option::None }
        } else {
            OwnedBlock { state: Option::Some(BlockDescriptor { addr: ret, size, align }) }
        }
    }

    pub fn is_live(&self) -> (r: bool)
        ensures
            r == self@.is_some(),
    {
        self.state.is_some()
    }

    pub fn descriptor(&self) -> (r: Option<BlockDescriptor>)
        ensures
            r == self@,
    {
        self.state
    }

    /// Settles a resize: `ret` is what the engine's resize entry returned
    /// for this block, zero for failure. Failure leaves the ownership
    /// untouched; success replaces it with the resized block, whose
    /// alignment is carried from the original allocation (or is `align`
    /// when the resize started from nothing).
    pub fn settle_resize(&mut self, ret: usize, new_size: usize, align: usize)
        ensures
            final(self)@ == resize_settlement(old(self)@, ret, new_size, align),
            old(self).wf() ==> final(self).wf(),
    {
        if ret != 0 {
            let a: usize = match self.state {
                Option::Some(d) => d.align,
                Option::None => align,
            };
            self.state = Option::Some(BlockDescriptor { addr: ret, size: new_size, align: a });
        }
    }

    /// Gives ownership up and returns the address to hand to the engine's
    /// free entry: the block's address, or the null address when nothing is
    /// owned — the engine documents free of null as a no-op.
    pub fn release(&mut self) -> (r: usize)
        ensures
            r == release_address(old(self)@),
            final(self)@.is_none(),
    {
        let r: usize = match self.state {
            Option::Some(d) => d.addr,
            Option::None => 0,
        };
        self.state = Option::None;
        r
    }
}

/// Law: resize failure preserves the original. When the engine's resize
/// entry returns the null sentinel, the settled ownership is exactly the
/// prior one — the adapter releases nothing.
pub proof fn lemma_resize_failure_preserves_original(
    prior: Option<BlockDescriptor>,
    new_size: usize,
    align: usize,
)
    ensures
        resize_settlement(prior, 0, new_size, align) == prior,
{
}

/// Law: resize success invalidates the original. When the engine returns a
/// block, the settled ownership is that block alone — carrying the original
/// alignment — and a later release hands the engine the new address, never
/// the original one.
pub proof fn lemma_resize_success_transfers_ownership(
    prior: Option<BlockDescriptor>,
    ret: usize,
    new_size: usize,
    align: usize,
)
    requires
        ret != 0,
    ensures
        resize_settlement(prior, ret, new_size, align) == Option::Some(
            (BlockDescriptor { addr: ret, size: new_size, align: carried_align(prior, align) }),
        ),
        release_address(resize_settlement(prior, ret, new_size, align)) == ret,
{
}

/// Law: free of the null address is a pure no-op on the engine's live
/// blocks, however often it is repeated; and releasing an empty wrapper is
/// what hands the engine that null address.
pub proof fn lemma_free_null_is_noop(live: Map<usize, BlockDescriptor>, prior: Option<
    BlockDescriptor,
>)
    requires
        prior.is_none(),
    ensures
        free_effect(live, 0) == live,
        free_effect(free_effect(live, 0), 0) == live,
        release_address(prior) == 0,
{
}

} // verus!
