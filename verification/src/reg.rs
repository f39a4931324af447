//! Physical registers, identified by class and hardware encoding.

use vstd::prelude::*;

verus! {

/// The two register classes the classifier and the allocator distinguish.
#[derive(Clone, Copy, Debug, PartialEq, Eq, Structural)]
pub enum RegClass {
    /// General-purpose (integer and pointer) registers.
    Int,
    /// Floating-point registers.
    Float,
}

/// One physical register: its class and its hardware encoding within that
/// class.  Encodings run from 0 to 31; each concrete architecture uses the
/// prefix its register file provides.
#[derive(Clone, Copy, Debug, PartialEq, Eq, Structural)]
pub struct Reg {
    pub class: RegClass,
    pub hw: u8,
}

impl Reg {
    /// A register encoding is one of the 32 slots a class can hold.
    pub open spec fn wf(self) -> bool {
        self.hw < 32
    }

    pub fn gpr(hw: u8) -> (r: Reg)
        requires
            hw < 32,
        ensures
            r == (Reg { class: RegClass::Int, hw }),
            r.wf(),
    {
        Reg { class: RegClass::Int, hw }
    }

    pub fn fpr(hw: u8) -> (r: Reg)
        requires
            hw < 32,
        ensures
            r == (Reg { class: RegClass::Float, hw }),
            r.wf(),
    {
        Reg { class: RegClass::Float, hw }
    }
}

} // verus!
