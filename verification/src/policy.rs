//! Alignment policy: the per-target facts the allocation router consults.

use vstd::prelude::*;

verus! {

/// Pointer-width class of a build target. The engine's default (unaligned)
/// allocation path guarantees a smaller minimum alignment on narrow-pointer
/// targets than on wide-pointer ones; every supported target must be assigned
/// to one of the two classes explicitly.
#[derive(Clone, Copy, PartialEq, Eq, Structural, Debug)]
pub enum TargetClass {
    /// 32-bit-style architectures: the default path guarantees 8 bytes.
    Narrow,
    /// 64-bit architectures: the default path guarantees 16 bytes.
    Wide,
}

impl TargetClass {
    /// Minimum alignment the engine's default allocation path already
    /// guarantees on this class of target.
    pub open spec fn min_align(self) -> usize {
        match self {
            TargetClass::Narrow => 8,
            TargetClass::Wide => 16,
        }
    }

    /// Minimum guaranteed alignment as an executable constant of the target
    /// class; fixed at target selection, never recomputed per call.
    pub fn minimum_guaranteed_alignment(&self) -> (r: usize)
        ensures
            r == self.min_align(),
    {
        match self {
            TargetClass::Narrow => 8,
            TargetClass::Wide => 16,
        }
    }
}

/// Greatest explicit alignment request the engine tolerates on the one
/// restricted operating system (2^31 bytes); anything above it must be
/// refused by the adapter before the engine is reached.
pub const RESTRICTED_ALIGNMENT_CEILING: usize = 0x8000_0000;

/// Per-target allocation policy: the pointer-width class, and the alignment
/// ceiling where the target's operating system imposes one. Resolved once at
/// target selection and passed to every routing decision.
#[derive(Clone, Copy)]
pub struct TargetConfig {
    pub class: TargetClass,
    /// Greatest alignment the engine accepts on its explicit-alignment entry
    /// points; `None` where the target imposes no bound.
    pub alignment_ceiling: Option<usize>,
}

impl TargetConfig {
    /// Whether an explicit alignment request of `align` bytes exceeds what
    /// this target's engine tolerates.
    pub open spec fn ceiling_blocks(self, align: usize) -> bool {
        match self.alignment_ceiling {
            Option::Some(c) => align > c,
            Option::None => false,
        }
    }

    pub fn new(class: TargetClass, alignment_ceiling: Option<usize>) -> (r: TargetConfig)
        ensures
            r.class == class,
            r.alignment_ceiling == alignment_ceiling,
    {
        TargetConfig { class, alignment_ceiling }
    }

    /// Policy for targets whose engine takes any alignment request.
    pub fn permissive(class: TargetClass) -> (r: TargetConfig)
        ensures
            r.class == class,
            r.alignment_ceiling.is_none(),
    {
        TargetConfig { class, alignment_ceiling: Option::None }
    }

    /// Policy for the restricted operating system: explicit alignment
    /// requests above `RESTRICTED_ALIGNMENT_CEILING` are refused up front.
    pub fn restricted(class: TargetClass) -> (r: TargetConfig)
        ensures
            r.class == class,
            r.alignment_ceiling == Option::Some(RESTRICTED_ALIGNMENT_CEILING),
    {
        TargetConfig { class, alignment_ceiling: Option::Some(RESTRICTED_ALIGNMENT_CEILING) }
    }

    /// Executable form of `ceiling_blocks`.
    pub fn exceeds_ceiling(&self, align: usize) -> (r: bool)
        ensures
            r == self.ceiling_blocks(align),
    {
        match self.alignment_ceiling {
            Option::Some(c) => align > c,
            Option::None => false,
        }
    }
}

} // verus!
