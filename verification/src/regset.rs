//! The register set and the minimal allocator over it.
//!
//! Free and used state is a bitmask per register class.  A register is
//! handed out only while free, and freeing a register that is not marked
//! used is rejected, never absorbed.

use vstd::prelude::*;

use crate::reg::{Reg, RegClass};

verus! {

/// Whether bit `i` is set in `mask`.
pub open spec fn bit(mask: u32, i: u32) -> bool {
    (mask >> i) & 1 == 1
}

/// The free mask of either class of a well-formed set is covered by the
/// allocatable mask.
proof fn lemma_wf_masks(s: RegSet, class: RegClass)
    requires
        s.wf(),
    ensures
        s.free_mask(class) & !s.allocatable_mask(class) == 0,
{
    match class {
        RegClass::Int => {
        },
        RegClass::Float => {
        },
    }
}

/// Free/used state of the allocatable registers of both classes.  The
/// allocatable masks are fixed at construction; scratch registers are simply
/// left out of them and so can never be handed out.
pub struct RegSet {
    gpr_allocatable: u32,
    fpr_allocatable: u32,
    gpr_free: u32,
    fpr_free: u32,
}

impl RegSet {
    /// The allocatable mask of `class`.
    pub closed spec fn allocatable_mask(self, class: RegClass) -> u32 {
        match class {
            RegClass::Int => self.gpr_allocatable,
            RegClass::Float => self.fpr_allocatable,
        }
    }

    /// The free mask of `class`.
    pub closed spec fn free_mask(self, class: RegClass) -> u32 {
        match class {
            RegClass::Int => self.gpr_free,
            RegClass::Float => self.fpr_free,
        }
    }

    /// Whether `r` belongs to the pool the allocator manages at all.
    pub open spec fn allocatable(self, r: Reg) -> bool {
        bit(self.allocatable_mask(r.class), r.hw as u32)
    }

    /// Whether `r` is currently free.
    pub open spec fn is_free(self, r: Reg) -> bool {
        bit(self.free_mask(r.class), r.hw as u32)
    }

    /// Whether `r` is currently owned by some holder: allocatable but not
    /// free.
    pub open spec fn is_used(self, r: Reg) -> bool {
        self.allocatable(r) && !self.is_free(r)
    }

    /// Every free register is allocatable.
    pub closed spec fn wf(self) -> bool {
        &&& self.gpr_free & !self.gpr_allocatable == 0
        &&& self.fpr_free & !self.fpr_allocatable == 0
    }

    /// A fresh set in which every allocatable register of either class is
    /// free.
    pub fn new(gpr: u32, fpr: u32) -> (r: RegSet)
        ensures
            r.wf(),
            forall|reg: Reg| r.allocatable_mask(reg.class) == if reg.class == RegClass::Int {
                gpr
            } else {
                fpr
            },
            forall|reg: Reg| #[trigger] r.is_free(reg) == r.allocatable(reg),
    {
        proof {
            assert(gpr & !gpr == 0) by (bit_vector);
            assert(fpr & !fpr == 0) by (bit_vector);
        }
        RegSet { gpr_allocatable: gpr, fpr_allocatable: fpr, gpr_free: gpr, fpr_free: fpr }
    }

    fn class_free_mask(&self, class: RegClass) -> (r: u32)
        ensures
            r == self.free_mask(class),
    {
        match class {
            RegClass::Int => self.gpr_free,
            RegClass::Float => self.fpr_free,
        }
    }

    /// Returns a free register of the requested class, marking it used, or
    /// reports exhaustion.  The register handed out was free beforehand, so
    /// no other holder still owns it, and no other register's state moves.
    pub fn allocate(&mut self, class: RegClass) -> (r: Option<Reg>)
        requires
            old(self).wf(),
        ensures
            final(self).wf(),
            forall|reg: Reg| final(self).allocatable_mask(reg.class) == old(self).allocatable_mask(
                reg.class,
            ),
            match r {
                Some(reg) => {
                    &&& reg.class == class
                    &&& reg.wf()
                    &&& old(self).is_free(reg)
                    &&& !final(self).is_free(reg)
                    &&& final(self).is_used(reg)
                    &&& forall|other: Reg|
                        other.wf() && other != reg ==> #[trigger] final(self).is_free(other) == old(
                            self,
                        ).is_free(other)
                },
                None => {
                    &&& *final(self) == *old(self)
                    &&& old(self).free_mask(class) == 0
                },
            },
    {
        let mask: u32 = self.class_free_mask(class);
        if mask == 0 {
            return None;
        }
        let tz: u32 = mask.trailing_zeros();
        proof {
            vstd::std_specs::bits::axiom_u32_trailing_zeros(mask);
        }
        let hw: u32 = tz;
        let cleared: u32 = mask & !(1u32 << hw);
        let reg = Reg { class, hw: hw as u8 };
        proof {
            let alloc = self.allocatable_mask(class);
            lemma_wf_masks(*self, class);
            assert(cleared & !alloc == 0) by (bit_vector)
                requires
                    cleared == mask & !(1u32 << hw),
                    mask & !alloc == 0u32,
            ;
            assert(bit(alloc, hw)) by (bit_vector)
                requires
                    bit(mask, hw),
                    mask & !alloc == 0u32,
                    hw < 32,
            ;
            assert(!bit(cleared, hw)) by (bit_vector)
                requires
                    cleared == mask & !(1u32 << hw),
                    hw < 32,
            ;
            assert(forall|j: u32| j < 32 && j != hw ==> bit(cleared, j) == bit(mask, j))
                by (bit_vector)
                requires
                    cleared == mask & !(1u32 << hw),
                    hw < 32,
            ;
        }
        match class {
            RegClass::Int => {
                self.gpr_free = cleared;
            },
            RegClass::Float => {
                self.fpr_free = cleared;
            },
        }
        Some(reg)
    }

    /// Returns `r` to the pool.  Freeing a register that is not currently
    /// used — one already free, or one outside the allocatable pool — is
    /// rejected and changes nothing.
    pub fn free(&mut self, r: Reg) -> (ok: bool)
        requires
            old(self).wf(),
            r.wf(),
        ensures
            final(self).wf(),
            forall|reg: Reg| final(self).allocatable_mask(reg.class) == old(self).allocatable_mask(
                reg.class,
            ),
            ok == old(self).is_used(r),
            !ok ==> *final(self) == *old(self),
            ok ==> final(self).is_free(r),
            ok ==> forall|other: Reg|
                other.wf() && other != r ==> #[trigger] final(self).is_free(other) == old(
                    self,
                ).is_free(other),
    {
        let mask: u32 = self.class_free_mask(r.class);
        let alloc: u32 = match r.class {
            RegClass::Int => self.gpr_allocatable,
            RegClass::Float => self.fpr_allocatable,
        };
        let hw: u32 = r.hw as u32;
        let in_pool = (alloc >> hw) & 1 == 1;
        let already_free = (mask >> hw) & 1 == 1;
        if !in_pool || already_free {
            return false;
        }
        proof {
            lemma_wf_masks(*self, r.class);
        }
        let set: u32 = mask | (1u32 << hw);
        proof {
            assert(set & !alloc == 0) by (bit_vector)
                requires
                    set == mask | (1u32 << hw),
                    mask & !alloc == 0u32,
                    bit(alloc, hw),
                    hw < 32,
            ;
            assert(bit(set, hw)) by (bit_vector)
                requires
                    set == mask | (1u32 << hw),
                    hw < 32,
            ;
            assert(forall|j: u32| j < 32 && j != hw ==> bit(set, j) == bit(mask, j))
                by (bit_vector)
                requires
                    set == mask | (1u32 << hw),
                    hw < 32,
            ;
        }
        match r.class {
            RegClass::Int => {
                self.gpr_free = set;
            },
            RegClass::Float => {
                self.fpr_free = set;
            },
        }
        true
    }

    /// Claims the specific register `r` — used when the code generator needs
    /// a designated register, such as the calling convention's result
    /// register, rather than any free one.  Rejected if `r` is not free.
    pub fn mark_used(&mut self, r: Reg) -> (ok: bool)
        requires
            old(self).wf(),
            r.wf(),
        ensures
            final(self).wf(),
            forall|reg: Reg| final(self).allocatable_mask(reg.class) == old(self).allocatable_mask(
                reg.class,
            ),
            ok == old(self).is_free(r),
            !ok ==> *final(self) == *old(self),
            ok ==> final(self).is_used(r),
            ok ==> forall|other: Reg|
                other.wf() && other != r ==> #[trigger] final(self).is_free(other) == old(
                    self,
                ).is_free(other),
    {
        let mask: u32 = self.class_free_mask(r.class);
        let hw: u32 = r.hw as u32;
        if (mask >> hw) & 1 != 1 {
            return false;
        }
        let cleared: u32 = mask & !(1u32 << hw);
        proof {
            let alloc = self.allocatable_mask(r.class);
            lemma_wf_masks(*self, r.class);
            assert(cleared & !alloc == 0) by (bit_vector)
                requires
                    cleared == mask & !(1u32 << hw),
                    mask & !alloc == 0u32,
            ;
            assert(bit(alloc, hw)) by (bit_vector)
                requires
                    bit(mask, hw),
                    mask & !alloc == 0u32,
                    hw < 32,
            ;
            assert(!bit(cleared, hw)) by (bit_vector)
                requires
                    cleared == mask & !(1u32 << hw),
                    hw < 32,
            ;
            assert(forall|j: u32| j < 32 && j != hw ==> bit(cleared, j) == bit(mask, j))
                by (bit_vector)
                requires
                    cleared == mask & !(1u32 << hw),
                    hw < 32,
            ;
        }
        match r.class {
            RegClass::Int => {
                self.gpr_free = cleared;
            },
            RegClass::Float => {
                self.fpr_free = cleared;
            },
        }
        true
    }

    /// Whether `r` is currently free, as an executable query.
    pub fn query_free(&self, r: Reg) -> (b: bool)
        requires
            r.wf(),
        ensures
            b == self.is_free(r),
    {
        let mask: u32 = self.class_free_mask(r.class);
        (mask >> (r.hw as u32)) & 1 == 1
    }
}

/// The allocator the code generator drives: a register set plus the
/// designated scratch register, which stays outside the allocatable pool and
/// is only ever named explicitly by macro-assembler operations.
pub struct RegAlloc {
    pub regset: RegSet,
    pub scratch: Reg,
}

impl RegAlloc {
    /// The scratch register is never part of the allocatable pool.
    pub open spec fn wf(self) -> bool {
        &&& self.regset.wf()
        &&& self.scratch.wf()
        &&& !self.regset.allocatable(self.scratch)
    }

    pub fn new(regset: RegSet, scratch: Reg) -> (r: RegAlloc)
        requires
            regset.wf(),
            scratch.wf(),
            !regset.allocatable(scratch),
        ensures
            r.wf(),
            r.regset == regset,
            r.scratch == scratch,
    {
        RegAlloc { regset, scratch }
    }
}

} // verus!
