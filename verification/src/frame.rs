//! Per-function frame layout.
//!
//! Every local — the function's arguments followed by its declared locals —
//! is assigned storage: arguments that arrived in registers and declared
//! locals get slots inside the frame, below the frame pointer; arguments
//! that arrived on the stack keep their place in the caller's outgoing
//! argument area, above it.  The frame size is rounded up to the target's
//! call-stack alignment.

use vstd::prelude::*;

use crate::abi::{align_to, ABIArg, ABISig, CallingConv};
use crate::types::ValType;

verus! {

/// The function's declared (non-argument) locals, scanned from the bytecode
/// ahead of full translation.  Declared locals are zero-initialized by the
/// prologue.
#[derive(Clone, Debug, PartialEq, Eq)]
pub struct DefinedLocals {
    pub locals: Vec<ValType>,
}

impl DefinedLocals {
    pub fn new(locals: Vec<ValType>) -> (r: DefinedLocals)
        ensures
            r.locals@ == locals@,
    {
        DefinedLocals { locals }
    }

    /// A function with no declared locals, as a trampoline has.
    pub fn empty() -> (r: DefinedLocals)
        ensures
            r.locals@.len() == 0,
    {
        DefinedLocals { locals: Vec::new() }
    }
}

/// Where one local lives, relative to the frame pointer.
#[derive(Clone, Copy, Debug, PartialEq, Eq, Structural)]
pub enum LocalSlot {
    /// `offset` bytes below the frame pointer, inside this function's frame.
    InFrame { offset: u32 },
    /// `offset` bytes into the caller's outgoing argument area, which begins
    /// `arg_base_offset` bytes above the frame pointer.
    InArgArea { offset: u32 },
}

impl LocalSlot {
    pub open spec fn is_in_frame(self) -> bool {
        self is InFrame
    }

    pub open spec fn spec_offset(self) -> u32 {
        match self {
            LocalSlot::InFrame { offset } => offset,
            LocalSlot::InArgArea { offset } => offset,
        }
    }
}

/// One local: its type and its storage.
#[derive(Clone, Copy, Debug, PartialEq, Eq, Structural)]
pub struct Local {
    pub ty: ValType,
    pub slot: LocalSlot,
}

/// The frame of one function under compilation: the local table, the byte
/// size of the in-frame local area, and how many leading locals are
/// arguments (the rest are declared locals, to be zeroed by the prologue).
#[derive(Clone, Debug, PartialEq, Eq)]
pub struct Frame {
    pub locals: Vec<Local>,
    pub locals_size: u32,
    pub arg_count: usize,
}

impl Frame {
    /// Frame-layout well-formedness: every in-frame slot is pointer-aligned,
    /// lies inside the local area, and no two in-frame slots collide.
    pub open spec fn wf(self) -> bool {
        &&& forall|k: int|
            0 <= k < self.locals@.len() && (#[trigger] self.locals@[k]).slot.is_in_frame() ==> 8
                <= self.locals@[k].slot.spec_offset() && self.locals@[k].slot.spec_offset()
                <= self.locals_size && self.locals@[k].slot.spec_offset() % 8 == 0
        &&& forall|k1: int, k2: int|
            0 <= k1 < k2 < self.locals@.len() && (#[trigger] self.locals@[k1]).slot.is_in_frame()
                && (#[trigger] self.locals@[k2]).slot.is_in_frame() ==> self.locals@[
                k1
            ].slot.spec_offset() != self.locals@[k2].slot.spec_offset()
        &&& self.arg_count <= self.locals@.len()
    }

    /// Lays the frame out for a classified signature and the function's
    /// declared locals.
    ///
    /// The local table holds one entry per argument, in argument order,
    /// followed by one entry per declared local.  Register arguments and
    /// declared locals receive distinct pointer-aligned in-frame slots;
    /// stack arguments keep their classified offset in the caller's
    /// argument area.  The local area's size is a multiple of the
    /// convention's call-stack alignment.
    pub fn new(sig: &ABISig, defined: &DefinedLocals, conv: &CallingConv) -> (r: Frame)
        requires
            conv.wf(),
            sig.params_wf(),
            sig.params@.len() <= 0x10_0000,
            defined.locals@.len() <= 0x10_0000,
        ensures
            r.wf(),
            r.locals@.len() == sig.params@.len() + defined.locals@.len(),
            r.arg_count == sig.params@.len(),
            r.locals_size % conv.stack_align == 0,
            r.locals_size <= 8 * (sig.params@.len() + defined.locals@.len()) + conv.stack_align,
            forall|k: int|
                0 <= k < sig.params@.len() ==> (#[trigger] r.locals@[k]).ty
                    == sig.params@[k].ty(),
            forall|k: int|
                0 <= k < sig.params@.len() && !sig.params@[k].is_reg() ==> (
                #[trigger] r.locals@[k]).slot == (LocalSlot::InArgArea {
                    offset: sig.params@[k].spec_offset(),
                }),
            forall|k: int|
                0 <= k < sig.params@.len() && sig.params@[k].is_reg() ==> (
                #[trigger] r.locals@[k]).slot.is_in_frame(),
            forall|k: int|
                sig.params@.len() <= k < r.locals@.len() ==> (#[trigger] r.locals@[k]).ty
                    == defined.locals@[k - sig.params@.len()] && r.locals@[k].slot.is_in_frame(),
    {
        let mut locals: Vec<Local> = Vec::new();
        let mut cursor: u32 = 0;
        let nparams = sig.params.len();
        let mut i: usize = 0;
        while i < nparams
            invariant
                sig.params_wf(),
                nparams == sig.params@.len(),
                nparams <= 0x10_0000,
                i <= nparams,
                locals@.len() == i,
                cursor % 8 == 0,
                cursor <= 8 * i,
                forall|k: int| 0 <= k < i ==> (#[trigger] locals@[k]).ty == sig.params@[k].ty(),
                forall|k: int|
                    0 <= k < i && !sig.params@[k].is_reg() ==> (#[trigger] locals@[k]).slot == (
                    LocalSlot::InArgArea { offset: sig.params@[k].spec_offset() }),
                forall|k: int|
                    0 <= k < i && sig.params@[k].is_reg() ==> (
                    #[trigger] locals@[k]).slot.is_in_frame(),
                forall|k: int|
                    0 <= k < i && (#[trigger] locals@[k]).slot.is_in_frame() ==> 8 <= locals@[
                        k
                    ].slot.spec_offset() && locals@[k].slot.spec_offset() <= cursor && locals@[
                        k
                    ].slot.spec_offset() % 8 == 0,
                forall|k1: int, k2: int|
                    0 <= k1 < k2 < i && (#[trigger] locals@[k1]).slot.is_in_frame() && (
                    #[trigger] locals@[k2]).slot.is_in_frame() ==> locals@[k1].slot.spec_offset()
                        != locals@[k2].slot.spec_offset(),
            decreases nparams - i,
        {
            let arg = sig.params[i];
            match arg {
                ABIArg::Reg { reg: _, ty } => {
                    cursor = cursor + 8;
                    locals.push(Local { ty, slot: LocalSlot::InFrame { offset: cursor } });
                },
                ABIArg::Stack { offset, ty } => {
                    locals.push(Local { ty, slot: LocalSlot::InArgArea { offset } });
                },
            }
            i = i + 1;
        }
        let ndef = defined.locals.len();
        let mut j: usize = 0;
        while j < ndef
            invariant
                nparams <= 0x10_0000,
                ndef == defined.locals@.len(),
                ndef <= 0x10_0000,
                j <= ndef,
                locals@.len() == nparams + j,
                cursor % 8 == 0,
                cursor <= 8 * (nparams + j),
                forall|k: int|
                    0 <= k < nparams ==> (#[trigger] locals@[k]).ty == sig.params@[k].ty(),
                forall|k: int|
                    0 <= k < nparams && !sig.params@[k].is_reg() ==> (#[trigger] locals@[k]).slot
                        == (LocalSlot::InArgArea { offset: sig.params@[k].spec_offset() }),
                forall|k: int|
                    0 <= k < nparams && sig.params@[k].is_reg() ==> (
                    #[trigger] locals@[k]).slot.is_in_frame(),
                forall|k: int|
                    nparams <= k < locals@.len() ==> (#[trigger] locals@[k]).ty == defined.locals@[
                        k - nparams
                    ] && locals@[k].slot.is_in_frame(),
                forall|k: int|
                    0 <= k < locals@.len() && (#[trigger] locals@[k]).slot.is_in_frame() ==> 8
                        <= locals@[k].slot.spec_offset() && locals@[k].slot.spec_offset() <= cursor
                        && locals@[k].slot.spec_offset() % 8 == 0,
                forall|k1: int, k2: int|
                    0 <= k1 < k2 < locals@.len() && (#[trigger] locals@[k1]).slot.is_in_frame()
                        && (#[trigger] locals@[k2]).slot.is_in_frame() ==> locals@[
                        k1
                    ].slot.spec_offset() != locals@[k2].slot.spec_offset(),
            decreases ndef - j,
        {
            let ty = defined.locals[j];
            cursor = cursor + 8;
            locals.push(Local { ty, slot: LocalSlot::InFrame { offset: cursor } });
            j = j + 1;
        }
        let locals_size = align_to(cursor, conv.stack_align);
        Frame { locals, locals_size, arg_count: nparams }
    }
}

} // verus!
