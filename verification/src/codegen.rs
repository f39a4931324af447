//! The code-generation engine: walks one function's bytecode and emits
//! instructions through the macro assembler, driving the operand stack, the
//! frame, the register allocator and the calling-convention classifier.
//!
//! Type and arity checking is performed inline as translation proceeds; any
//! mismatch aborts the function's compilation with a descriptive fault and
//! no partial code escapes.  The control-flow label stack is an explicit
//! sequence, so native stack depth stays bounded regardless of nesting.

use vstd::prelude::*;

use crate::abi::{
    align_to, calculate_frame_adjustment, spec_val_class, val_class, val_size, ABIArg, ABIResult,
    ABISig, CallingConv,
};
use crate::frame::{Frame, LocalSlot};
use crate::masm::{Address, AluOp, CallKind, Inst, MacroAssembler, OperandSize, RegImm};
use crate::reg::{Reg, RegClass};
use crate::regset::{RegAlloc, RegSet};
use crate::stack::{OperandStack, Val};
use crate::types::{CodegenError, Signature, TrapCode, ValType};

verus! {

/// The declared result shape of a control construct: no value or one.
#[derive(Clone, Copy, Debug, PartialEq, Eq, Structural)]
pub enum BlockArity {
    Empty,
    One(ValType),
}

impl BlockArity {
    /// How many values the construct's merge point carries.
    pub open spec fn count(self) -> int {
        match self {
            BlockArity::Empty => 0,
            BlockArity::One(_) => 1,
        }
    }
}

/// One bytecode operation of the baseline subset.
#[derive(Clone, Copy, Debug, PartialEq, Eq, Structural)]
pub enum Op {
    I32Const(u32),
    I64Const(u64),
    LocalGet(u32),
    LocalSet(u32),
    Drop,
    I32Add,
    I32Sub,
    I32Mul,
    I64Add,
    I64Sub,
    I64Mul,
    Block(BlockArity),
    Loop(BlockArity),
    If(BlockArity),
    Else,
    End,
    Br(u32),
    BrIf(u32),
    Call(u32),
    Unreachable,
}

/// The function environment: the signature of every module-local function,
/// by index, consulted when a call is translated.
#[derive(Clone, Debug, PartialEq, Eq)]
pub struct FuncEnv {
    pub sigs: Vec<Signature>,
}

/// What kind of construct a control frame tracks.
#[derive(Clone, Copy, Debug, PartialEq, Eq, Structural)]
pub enum CtrlKind {
    Block,
    Loop,
    If,
    Else,
}

/// Bookkeeping for one open control construct: its branch-target label,
/// the label of its `else` arm while one may still appear, the
/// operand-stack height recorded at entry, and its declared result arity.
#[derive(Clone, Copy, Debug, PartialEq, Eq, Structural)]
pub struct ControlFrame {
    pub kind: CtrlKind,
    pub label: u32,
    pub else_label: u32,
    pub entry_height: usize,
    pub arity: BlockArity,
}

impl ControlFrame {
    /// The height a branch to this frame's label reconciles the operand
    /// stack to: for a loop the branch goes back to the start, carrying
    /// nothing; for every other construct it goes to the end, carrying the
    /// declared results.
    pub open spec fn target_arity(self) -> int {
        if self.kind == CtrlKind::Loop {
            0
        } else {
            self.arity.count()
        }
    }
}

/// Every register-resident operand is well-formed, marked used by the
/// allocator, and owned by exactly one stack entry.
pub open spec fn stack_regs_wf(stack: Seq<Val>, rs: RegSet) -> bool {
    &&& forall|k: int|
        0 <= k < stack.len() && (#[trigger] stack[k]).is_reg() ==> stack[k].spec_reg().wf()
            && rs.is_used(stack[k].spec_reg())
    &&& forall|k1: int, k2: int|
        0 <= k1 < k2 < stack.len() && stack[k1].is_reg() && stack[k2].is_reg() ==> (
        #[trigger] stack[k1]).spec_reg() != (#[trigger] stack[k2]).spec_reg()
}

/// Whether some entry of `stack` owns register `r`.
pub open spec fn stack_owns(stack: Seq<Val>, r: Reg) -> bool {
    exists|k: int| 0 <= k < stack.len() && (#[trigger] stack[k]).is_reg() && stack[k].spec_reg() == r
}

/// Every register the allocator has handed out is owned by some operand.
pub open spec fn used_covered(stack: Seq<Val>, rs: RegSet) -> bool {
    forall|r: Reg| r.wf() && #[trigger] rs.is_used(r) ==> stack_owns(stack, r)
}

/// Every local reference on the operand stack is inside the local table.
pub open spec fn stack_locals_ok(stack: Seq<Val>, nlocals: int) -> bool {
    forall|k: int|
        0 <= k < stack.len() && ((#[trigger] stack[k]) is Local) ==> stack[k]->Local_index < nlocals
}

/// `b` is `a` with some register-resident entries spilled to memory:
/// lengths and types agree and every entry is unchanged or gone to memory.
pub open spec fn stack_spilled_from(a: Seq<Val>, b: Seq<Val>) -> bool {
    &&& b.len() == a.len()
    &&& forall|k: int|
        0 <= k < a.len() ==> (#[trigger] b[k]).ty() == a[k].ty() && (b[k] == a[k] || (a[
            k
        ].is_reg() && b[k] is Mem))
}

/// Extending an owned prefix by one entry owns exactly what the prefix
/// owned plus that entry's register.
proof fn lemma_owns_grow(s: Seq<Val>, k: int)
    requires
        0 <= k < s.len(),
    ensures
        forall|r: Reg|
            stack_owns(#[trigger] s.subrange(0, k + 1), r) == (stack_owns(s.subrange(0, k), r) || (
            s[k].is_reg() && s[k].spec_reg() == r)),
{
    assert forall|r: Reg|
        stack_owns(#[trigger] s.subrange(0, k + 1), r) == (stack_owns(s.subrange(0, k), r) || (s[
            k
        ].is_reg() && s[k].spec_reg() == r)) by {
        let pre = s.subrange(0, k);
        let ext = s.subrange(0, k + 1);
        if stack_owns(ext, r) {
            let j = choose|j: int| 0 <= j < ext.len() && (#[trigger] ext[j]).is_reg() && ext[
                j
            ].spec_reg() == r;
            if j < k {
                assert(pre[j] == ext[j]);
                assert(stack_owns(pre, r));
            } else {
                assert(ext[j] == s[k]);
            }
        }
        if stack_owns(pre, r) {
            let j = choose|j: int| 0 <= j < pre.len() && (#[trigger] pre[j]).is_reg() && pre[
                j
            ].spec_reg() == r;
            assert(ext[j] == pre[j]);
            assert(stack_owns(ext, r));
        }
        if s[k].is_reg() && s[k].spec_reg() == r {
            assert(ext[k] == s[k]);
            assert(stack_owns(ext, r));
        }
    }
}

/// Prefix-of is transitive.
proof fn lemma_prefix_trans(a: Seq<Inst>, b: Seq<Inst>, c: Seq<Inst>)
    requires
        a.is_prefix_of(b),
        b.is_prefix_of(c),
    ensures
        a.is_prefix_of(c),
{
    assert forall|i: int| 0 <= i < a.len() implies a[i] == c.subrange(0, a.len() as int)[i] by {
        assert(a[i] == b.subrange(0, a.len() as int)[i]);
        assert(b[i] == c.subrange(0, b.len() as int)[i]);
    }
    assert(a =~= c.subrange(0, a.len() as int));
}

/// A sequence is a prefix of itself extended.
proof fn lemma_prefix_append(a: Seq<Inst>, b: Seq<Inst>)
    ensures
        a.is_prefix_of(a + b),
{
    assert(a =~= (a + b).subrange(0, a.len() as int));
}

/// A sequence is a prefix of itself.
proof fn lemma_prefix_refl(a: Seq<Inst>)
    ensures
        a.is_prefix_of(a),
{
    assert(a =~= a.subrange(0, a.len() as int));
}

/// When the stack shrinks but stays at or above the top control frame's
/// entry height, every open frame's entry height still fits under it.
proof fn lemma_ctrl_heights(ctrl: Seq<ControlFrame>, newlen: int)
    requires
        ctrl.len() > 0,
        forall|i: int, j: int|
            0 <= i < j < ctrl.len() ==> ctrl[i].entry_height <= ctrl[j].entry_height,
        ctrl.last().entry_height <= newlen,
    ensures
        forall|i: int| 0 <= i < ctrl.len() ==> (#[trigger] ctrl[i]).entry_height <= newlen,
{
    assert forall|i: int| 0 <= i < ctrl.len() implies (#[trigger] ctrl[i]).entry_height
        <= newlen by {
        if i < ctrl.len() - 1 {
            assert(ctrl[i].entry_height <= ctrl[ctrl.len() - 1].entry_height);
        }
    }
}

/// The per-function compilation context: allocator, operand stack and
/// frame, created fresh for each function and owned exclusively by its
/// compilation.
pub struct CodeGenContext {
    pub regalloc: RegAlloc,
    pub stack: OperandStack,
    pub frame: Frame,
}

impl CodeGenContext {
    /// The context invariant between operations.
    pub open spec fn wf(self) -> bool {
        &&& self.regalloc.wf()
        &&& stack_regs_wf(self.stack@, self.regalloc.regset)
        &&& used_covered(self.stack@, self.regalloc.regset)
        &&& stack_locals_ok(self.stack@, self.frame.locals@.len() as int)
        &&& self.frame.wf()
    }

    /// The weaker invariant that holds while a handler holds popped
    /// operands in registers of its own.
    pub open spec fn wf_weak(self) -> bool {
        &&& self.regalloc.wf()
        &&& stack_regs_wf(self.stack@, self.regalloc.regset)
        &&& stack_locals_ok(self.stack@, self.frame.locals@.len() as int)
        &&& self.frame.wf()
    }

    pub fn new(regalloc: RegAlloc, stack: OperandStack, frame: Frame) -> (r: CodeGenContext)
        requires
            regalloc.wf(),
            stack@.len() == 0,
            forall|reg: Reg|
                reg.wf() ==> #[trigger] regalloc.regset.is_free(reg) == regalloc.regset.allocatable(
                    reg,
                ),
            frame.wf(),
        ensures
            r.wf(),
            r.regalloc == regalloc,
            r.stack == stack,
            r.frame == frame,
            r.stack@.len() == 0,
    {
        CodeGenContext { regalloc, stack, frame }
    }

    /// States what spilling leaves untouched.
    pub open spec fn same_shape(self, prev: CodeGenContext) -> bool {
        &&& self.frame == prev.frame
        &&& self.regalloc.scratch == prev.regalloc.scratch
        &&& forall|reg: Reg|
            self.regalloc.regset.allocatable_mask(reg.class) == prev.regalloc.regset.allocatable_mask(
                reg.class,
            )
    }

    /// Spills every register-resident operand to its frame slot — position
    /// `k` of the stack spills to `spill_base + 8 * (k + 1)` bytes below
    /// the frame pointer — and frees the registers they occupied.  Exactly
    /// the registers the stack owned become free; every other register's
    /// state is untouched.
    pub fn spill_all(&mut self, masm: &mut MacroAssembler, spill_base: u32)
        requires
            old(self).wf_weak(),
            old(self).stack@.len() <= 0x10_0000,
            spill_base <= 0x0100_0000,
            old(masm).insts@.len() + old(self).stack@.len() <= usize::MAX,
        ensures
            final(self).wf_weak(),
            final(self).same_shape(*old(self)),
            stack_spilled_from(old(self).stack@, final(self).stack@),
            forall|k: int|
                0 <= k < final(self).stack@.len() ==> !(#[trigger] final(self).stack@[k]).is_reg(),
            forall|r: Reg|
                r.wf() ==> #[trigger] final(self).regalloc.regset.is_free(r) == (old(self).regalloc.regset.is_free(r) || stack_owns(old(self).stack@, r)),
            final(masm).insts@.len() <= old(masm).insts@.len() + old(self).stack@.len(),
            old(masm).insts@.is_prefix_of(final(masm).insts@),
            final(masm).sp_offset == old(masm).sp_offset,
            final(masm).sp == old(masm).sp,
            final(masm).fp == old(masm).fp,
            final(masm).next_label == old(masm).next_label,
    {
        let n = self.stack.len();
        let ghost orig = self.stack@;
        let mut k: usize = 0;
        while k < n
            invariant
                self.wf_weak(),
                self.same_shape(*old(self)),
                n == self.stack@.len(),
                n == orig.len(),
                n <= 0x10_0000,
                k <= n,
                spill_base <= 0x0100_0000,
                stack_spilled_from(orig, self.stack@),
                forall|j: int| 0 <= j < k ==> !(#[trigger] self.stack@[j]).is_reg(),
                forall|j: int| k <= j < n ==> self.stack@[j] == orig[j],
                forall|r: Reg|
                    r.wf() ==> #[trigger] self.regalloc.regset.is_free(r) == (old(self).regalloc.regset.is_free(r) || stack_owns(orig.subrange(0, k as int), r)),
                masm.insts@.len() <= old(masm).insts@.len() + k,
                old(masm).insts@.len() + n <= usize::MAX,
                old(masm).insts@.is_prefix_of(masm.insts@),
                masm.sp_offset == old(masm).sp_offset,
                masm.sp == old(masm).sp,
                masm.fp == old(masm).fp,
                masm.next_label == old(masm).next_label,
            decreases n - k,
        {
            proof {
                lemma_owns_grow(orig, k as int);
            }
            let entry = match self.stack.get(k) {
                Some(v) => v,
                None => {
                    proof {
                        assert(false);
                    }
                    Val::Imm { bits: 0, ty: ValType::I32 }
                },
            };
            match entry {
                Val::Reg { reg, ty } => {
                    let off: u32 = spill_base + 8 * ((k as u32) + 1);
                    masm.store(RegImm::reg(reg), Address::FpNeg { offset: off }, val_size(ty));
                    let ok = self.regalloc.regset.free(reg);
                    proof {
                        assert(ok);
                    }
                    self.stack.set(k, Val::Mem { offset: off, ty });
                },
                _ => {},
            }
            k = k + 1;
        }
        proof {
            assert(orig.subrange(0, n as int) =~= orig);
        }
    }

    /// A free general-purpose register, spilling the whole operand stack
    /// first if none is free.  The register handed back is owned by no
    /// operand; registers the caller already holds privately stay used.
    pub fn any_gpr(&mut self, masm: &mut MacroAssembler, spill_base: u32) -> (r: Result<
        Reg,
        CodegenError,
    >)
        requires
            old(self).wf_weak(),
            old(self).stack@.len() <= 0x10_0000,
            spill_base <= 0x0100_0000,
            old(masm).insts@.len() + old(self).stack@.len() <= usize::MAX,
        ensures
            final(self).wf_weak(),
            final(self).same_shape(*old(self)),
            stack_spilled_from(old(self).stack@, final(self).stack@),
            final(masm).insts@.len() <= old(masm).insts@.len() + old(self).stack@.len(),
            old(masm).insts@.is_prefix_of(final(masm).insts@),
            final(masm).sp_offset == old(masm).sp_offset,
            final(masm).sp == old(masm).sp,
            final(masm).fp == old(masm).fp,
            final(masm).next_label == old(masm).next_label,
            match r {
                Ok(reg) => {
                    &&& reg.wf()
                    &&& reg.class == RegClass::Int
                    &&& final(self).regalloc.regset.is_used(reg)
                    &&& !stack_owns(final(self).stack@, reg)
                    &&& forall|r2: Reg|
                        r2.wf() && r2 != reg && old(self).regalloc.regset.is_used(r2)
                            && !stack_owns(old(self).stack@, r2) ==> #[trigger] final(self).regalloc.regset.is_used(r2)
                    &&& forall|r2: Reg|
                        r2.wf() && r2 != reg && #[trigger] final(self).regalloc.regset.is_used(r2)
                            ==> old(self).regalloc.regset.is_used(r2)
                    &&& forall|r2: Reg|
                        r2.wf() && old(self).regalloc.regset.is_used(r2) && !stack_owns(
                            old(self).stack@,
                            r2,
                        ) ==> r2 != reg
                },
                Err(e) => e == CodegenError::RegisterExhausted,
            },
    {
        match self.regalloc.regset.allocate(RegClass::Int) {
            Some(reg) => {
                proof {
                    if stack_owns(self.stack@, reg) {
                        let j = choose|j: int|
                            0 <= j < self.stack@.len() && (#[trigger] self.stack@[j]).is_reg()
                                && self.stack@[j].spec_reg() == reg;
                        assert(old(self).regalloc.regset.is_used(reg));
                    }
                }
                Ok(reg)
            },
            None => {
                self.spill_all(masm, spill_base);
                match self.regalloc.regset.allocate(RegClass::Int) {
                    Some(reg) => {
                        proof {
                            if stack_owns(self.stack@, reg) {
                                let j = choose|j: int|
                                    0 <= j < self.stack@.len() && (
                                    #[trigger] self.stack@[j]).is_reg() && self.stack@[
                                        j
                                    ].spec_reg() == reg;
                            }
                        }
                        Ok(reg)
                    },
                    None => Err(CodegenError::RegisterExhausted),
                }
            },
        }
    }

    /// Materializes a popped operand into a register: a register-resident
    /// value is returned as it stands; anything else gets a freshly
    /// allocated register and a move or load.
    pub fn ensure_register(
        &mut self,
        masm: &mut MacroAssembler,
        spill_base: u32,
        v: Val,
    ) -> (r: Result<Reg, CodegenError>)
        requires
            old(self).wf_weak(),
            old(self).stack@.len() <= 0x10_0000,
            spill_base <= 0x0100_0000,
            old(masm).insts@.len() + old(self).stack@.len() + 1 <= usize::MAX,
            v.is_reg() ==> v.spec_reg().wf() && old(self).regalloc.regset.is_used(v.spec_reg())
                && !stack_owns(old(self).stack@, v.spec_reg()),
            v is Local ==> v->Local_index < old(self).frame.locals@.len(),
        ensures
            final(self).wf_weak(),
            final(self).same_shape(*old(self)),
            stack_spilled_from(old(self).stack@, final(self).stack@),
            final(masm).insts@.len() <= old(masm).insts@.len() + old(self).stack@.len() + 1,
            old(masm).insts@.is_prefix_of(final(masm).insts@),
            final(masm).sp_offset == old(masm).sp_offset,
            final(masm).sp == old(masm).sp,
            final(masm).fp == old(masm).fp,
            final(masm).next_label == old(masm).next_label,
            match r {
                Ok(reg) => {
                    &&& reg.wf()
                    &&& final(self).regalloc.regset.is_used(reg)
                    &&& !stack_owns(final(self).stack@, reg)
                    &&& forall|r2: Reg|
                        r2.wf() && r2 != reg && old(self).regalloc.regset.is_used(r2)
                            && !stack_owns(old(self).stack@, r2) ==> #[trigger] final(self).regalloc.regset.is_used(r2)
                    &&& forall|r2: Reg|
                        r2.wf() && r2 != reg && #[trigger] final(self).regalloc.regset.is_used(r2)
                            ==> old(self).regalloc.regset.is_used(r2)
                    &&& (!v.is_reg() ==> forall|r2: Reg|
                        r2.wf() && old(self).regalloc.regset.is_used(r2) && !stack_owns(
                            old(self).stack@,
                            r2,
                        ) ==> r2 != reg)
                },
                Err(e) => e == CodegenError::RegisterExhausted,
            },
    {
        match v {
            Val::Reg { reg, ty: _ } => {
                proof {
                    if stack_owns(self.stack@, reg) {
                        let j = choose|j: int|
                            0 <= j < self.stack@.len() && (#[trigger] self.stack@[j]).is_reg()
                                && self.stack@[j].spec_reg() == reg;
                    }
                }
                Ok(reg)
            },
            Val::Imm { bits, ty } => {
                let reg = match self.any_gpr(masm, spill_base) {
                    Ok(r) => r,
                    Err(e) => {
                        return Err(e);
                    },
                };
                masm.mov(RegImm::imm(bits), reg, val_size(ty));
                Ok(reg)
            },
            Val::Mem { offset, ty } => {
                let reg = match self.any_gpr(masm, spill_base) {
                    Ok(r) => r,
                    Err(e) => {
                        return Err(e);
                    },
                };
                masm.load(Address::FpNeg { offset }, reg, val_size(ty));
                Ok(reg)
            },
            Val::Local { index, ty } => {
                let reg = match self.any_gpr(masm, spill_base) {
                    Ok(r) => r,
                    Err(e) => {
                        return Err(e);
                    },
                };
                let addr = local_address(&self.frame, index);
                masm.load(addr, reg, val_size(ty));
                Ok(reg)
            },
        }
    }
}

/// Moves a non-register operand into `dst`: an immediate by a move, a
/// spilled or local value by a load from its slot.
pub fn emit_move_into(masm: &mut MacroAssembler, frame: &Frame, v: Val, dst: Reg)
    requires
        !v.is_reg(),
        v is Local ==> v->Local_index < frame.locals@.len(),
        old(masm).insts@.len() < usize::MAX,
    ensures
        final(masm).insts@.len() == old(masm).insts@.len() + 1,
        old(masm).insts@.is_prefix_of(final(masm).insts@),
        final(masm).sp_offset == old(masm).sp_offset,
        final(masm).sp == old(masm).sp,
        final(masm).fp == old(masm).fp,
        final(masm).next_label == old(masm).next_label,
{
    match v {
        Val::Imm { bits, ty } => {
            masm.mov(RegImm::imm(bits), dst, val_size(ty));
        },
        Val::Mem { offset, ty } => {
            masm.load(Address::FpNeg { offset }, dst, val_size(ty));
        },
        Val::Local { index, ty } => {
            let addr = local_address(frame, index);
            masm.load(addr, dst, val_size(ty));
        },
        Val::Reg { reg, ty } => {
            masm.mov(RegImm::reg(reg), dst, val_size(ty));
        },
    }
}

/// The stores that save the first `n` register arguments into their frame
/// slots; stack arguments stay in the caller's area and store nothing.
pub open spec fn spec_arg_stores(params: Seq<ABIArg>, locals: Seq<crate::frame::Local>, n: int) -> Seq<
    Inst,
>
    decreases n,
{
    if n <= 0 {
        Seq::<Inst>::empty()
    } else {
        let rest = spec_arg_stores(params, locals, n - 1);
        match params[n - 1] {
            ABIArg::Reg { reg, ty } => rest + seq![
                Inst::Store {
                    src: reg,
                    addr: spec_local_address(locals[n - 1].slot),
                    size: crate::abi::spec_val_size(ty),
                },
            ],
            ABIArg::Stack { .. } => rest,
        }
    }
}

/// The stores that zero-initialize the first `n` declared locals, which
/// sit after the `arg_count` argument locals.
pub open spec fn spec_zero_stores(locals: Seq<crate::frame::Local>, arg_count: int, n: int) -> Seq<
    Inst,
>
    decreases n,
{
    if n <= 0 {
        Seq::<Inst>::empty()
    } else {
        spec_zero_stores(locals, arg_count, n - 1) + seq![
            Inst::StoreImm {
                value: 0,
                addr: spec_local_address(locals[arg_count + n - 1].slot),
                size: OperandSize::S64,
            },
        ]
    }
}

/// The whole frame-setup sequence one function body begins with: the
/// prologue, the reservation of the local and spill areas, the stores of
/// the register arguments into their slots, and the zero-initialization
/// of every declared local — all before any body operation's code.
pub open spec fn spec_frame_setup(
    sig: ABISig,
    frame: Frame,
    sp: Reg,
    fp: Reg,
    total: u32,
) -> Seq<Inst> {
    seq![
        Inst::Push { reg: fp },
        Inst::MovRR { src: sp, dst: fp, size: OperandSize::S64 },
        Inst::ReserveSp { bytes: total },
    ] + spec_arg_stores(sig.params@, frame.locals@, sig.params@.len() as int) + spec_zero_stores(
        frame.locals@,
        frame.arg_count as int,
        frame.locals@.len() - frame.arg_count,
    )
}

/// The address of one local's storage.
pub fn local_address(frame: &Frame, index: usize) -> (a: Address)
    requires
        index < frame.locals@.len(),
    ensures
        a == spec_local_address(frame.locals@[index as int].slot),
{
    match frame.locals[index].slot {
        LocalSlot::InFrame { offset } => Address::FpNeg { offset },
        LocalSlot::InArgArea { offset } => Address::FpPos { offset },
    }
}

/// Where a local slot lives as a memory operand: in-frame slots below the
/// frame pointer, argument-area slots above it.
pub open spec fn spec_local_address(slot: LocalSlot) -> Address {
    match slot {
        LocalSlot::InFrame { offset } => Address::FpNeg { offset },
        LocalSlot::InArgArea { offset } => Address::FpPos { offset },
    }
}

/// Pushing one entry extends ownership by exactly that entry's register.
proof fn lemma_owns_push(s: Seq<Val>, v: Val)
    ensures
        forall|r: Reg|
            stack_owns(#[trigger] s.push(v), r) == (stack_owns(s, r) || (v.is_reg()
                && v.spec_reg() == r)),
{
    assert forall|r: Reg|
        stack_owns(#[trigger] s.push(v), r) == (stack_owns(s, r) || (v.is_reg() && v.spec_reg()
            == r)) by {
        let ext = s.push(v);
        if stack_owns(ext, r) {
            let j = choose|j: int| 0 <= j < ext.len() && (#[trigger] ext[j]).is_reg() && ext[
                j
            ].spec_reg() == r;
            if j < s.len() {
                assert(ext[j] == s[j]);
                assert(stack_owns(s, r));
            } else {
                assert(ext[j] == v);
            }
        }
        if stack_owns(s, r) {
            let j = choose|j: int| 0 <= j < s.len() && (#[trigger] s[j]).is_reg() && s[
                j
            ].spec_reg() == r;
            assert(ext[j] == s[j]);
            assert(stack_owns(ext, r));
        }
        if v.is_reg() && v.spec_reg() == r {
            assert(ext[s.len() as int] == v);
            assert(stack_owns(ext, r));
        }
    }
}

/// The engine for one function: the compilation context, the classified
/// signature, the module's function environment, the active convention,
/// the explicit control-flow stack, and the reachability state of the
/// current position.
pub struct CodeGen {
    pub context: CodeGenContext,
    pub sig: ABISig,
    pub env: FuncEnv,
    pub conv: CallingConv,
    pub ctrl: Vec<ControlFrame>,
    pub reachable: bool,
    pub dead_depth: usize,
    pub spill_base: u32,
    pub frame_size: u32,
}

impl FuncEnv {
    /// Every callable signature is of a size the classifier accepts.
    pub open spec fn wf(self) -> bool {
        forall|k: int|
            0 <= k < self.sigs@.len() ==> (#[trigger] self.sigs@[k]).params@.len() <= 0x1000
    }

    pub fn new(sigs: Vec<Signature>) -> (r: FuncEnv)
        ensures
            r.sigs@ == sigs@,
    {
        FuncEnv { sigs }
    }

    /// An element-wise copy; the engine keeps its own environment.
    pub fn duplicate(&self) -> (r: FuncEnv)
        ensures
            r.sigs@.len() == self.sigs@.len(),
            forall|k: int|
                0 <= k < self.sigs@.len() ==> (#[trigger] r.sigs@[k]).params@ == self.sigs@[
                    k
                ].params@ && r.sigs@[k].results@ == self.sigs@[k].results@,
            self.wf() ==> r.wf(),
    {
        let mut sigs: Vec<Signature> = Vec::new();
        let n = self.sigs.len();
        let mut i: usize = 0;
        while i < n
            invariant
                n == self.sigs@.len(),
                i <= n,
                sigs@.len() == i,
                forall|k: int|
                    0 <= k < i ==> (#[trigger] sigs@[k]).params@ == self.sigs@[k].params@
                        && sigs@[k].results@ == self.sigs@[k].results@,
            decreases n - i,
        {
            let params = copy_types(&self.sigs[i].params);
            let results = copy_types(&self.sigs[i].results);
            sigs.push(Signature { params, results });
            i = i + 1;
        }
        FuncEnv { sigs }
    }
}

/// An element-wise copy of a value-type vector.
fn copy_types(v: &Vec<ValType>) -> (r: Vec<ValType>)
    ensures
        r@ == v@,
{
    let mut out: Vec<ValType> = Vec::new();
    let n = v.len();
    let mut i: usize = 0;
    while i < n
        invariant
            n == v@.len(),
            i <= n,
            out@.len() == i,
            forall|k: int| 0 <= k < i ==> out@[k] == v@[k],
        decreases n - i,
    {
        out.push(v[i]);
        i = i + 1;
    }
    proof {
        assert(out@ =~= v@);
    }
    out
}

impl CodeGen {
    /// The engine invariant between operations.
    pub open spec fn wf(self) -> bool {
        &&& self.context.wf()
        &&& self.conv.wf()
        &&& self.env.wf()
        &&& self.spill_base <= 0x0100_0000
        &&& self.frame_size <= 0x0900_0000
        &&& forall|i: int|
            0 <= i < self.ctrl@.len() ==> (#[trigger] self.ctrl@[i]).entry_height
                <= self.context.stack@.len()
        &&& forall|i: int, j: int|
            0 <= i < j < self.ctrl@.len() ==> self.ctrl@[i].entry_height
                <= self.ctrl@[j].entry_height
        &&& (self.reachable ==> self.dead_depth == 0)
    }

    /// What no operation may change: the classified signature, the
    /// environment, the convention, the frame layout and the allocator's
    /// shape.
    pub open spec fn cfg_eq(self, prev: CodeGen) -> bool {
        &&& self.sig == prev.sig
        &&& self.env == prev.env
        &&& self.conv == prev.conv
        &&& self.spill_base == prev.spill_base
        &&& self.frame_size == prev.frame_size
        &&& self.context.frame == prev.context.frame
        &&& self.context.regalloc.scratch == prev.context.regalloc.scratch
        &&& forall|reg: Reg|
            self.context.regalloc.regset.allocatable_mask(reg.class)
                == prev.context.regalloc.regset.allocatable_mask(reg.class)
    }

    /// What every successful operation guarantees besides its own clauses.
    pub open spec fn step_ok(self, prev: CodeGen, m: MacroAssembler, pm: MacroAssembler) -> bool {
        &&& self.wf()
        &&& self.cfg_eq(prev)
        &&& pm.insts@.is_prefix_of(m.insts@)
        &&& m.insts@.len() <= pm.insts@.len() + 3 * prev.context.stack@.len() + 0x3000
        &&& m.sp_offset == pm.sp_offset
        &&& m.sp == pm.sp
        &&& m.fp == pm.fp
        &&& pm.next_label <= m.next_label <= pm.next_label + 2
        &&& self.context.stack@.len() <= prev.context.stack@.len() + 1
        &&& self.ctrl@.len() <= prev.ctrl@.len() + 1
    }

    /// The top of the control stack.
    fn cur_frame(&self) -> (f: ControlFrame)
        requires
            self.ctrl@.len() > 0,
        ensures
            f == self.ctrl@.last(),
    {
        self.ctrl[self.ctrl.len() - 1]
    }

    /// The designated merge register for a construct's result: the
    /// convention's result register of the integer class.  Floating-point
    /// merge values are not yet supported.
    fn result_reg(&self, arity: BlockArity) -> (r: Result<Option<(Reg, ValType)>, CodegenError>)
        requires
            self.conv.wf(),
        ensures
            match r {
                Ok(rr) => match rr {
                    Some(pair) => {
                        &&& arity == BlockArity::One(pair.1)
                        &&& spec_val_class(pair.1) == RegClass::Int
                        &&& Some(pair.0) == self.conv.spec_result_reg(RegClass::Int)
                        &&& pair.0.wf()
                    },
                    None => arity == BlockArity::Empty,
                },
                Err(e) => e == CodegenError::UnsupportedType || e
                    == CodegenError::MissingResultRegister,
            },
            arity == BlockArity::Empty ==> r is Ok,
    {
        match arity {
            BlockArity::Empty => Ok(None),
            BlockArity::One(ty) => {
                match val_class(ty) {
                    RegClass::Int => match self.conv.int_result {
                        Some(reg) => Ok(Some((reg, ty))),
                        None => Err(CodegenError::MissingResultRegister),
                    },
                    RegClass::Float => Err(CodegenError::UnsupportedType),
                }
            },
        }
    }

    /// Spills the whole operand stack to its frame slots and returns every
    /// allocatable register to the pool.
    fn spill(&mut self, masm: &mut MacroAssembler)
        requires
            old(self).wf(),
            old(self).context.stack@.len() <= 0x10_0000,
            old(masm).insts@.len() + old(self).context.stack@.len() <= usize::MAX,
        ensures
            final(self).wf(),
            final(self).cfg_eq(*old(self)),
            final(self).ctrl == old(self).ctrl,
            final(self).reachable == old(self).reachable,
            final(self).dead_depth == old(self).dead_depth,
            stack_spilled_from(old(self).context.stack@, final(self).context.stack@),
            forall|k: int|
                0 <= k < final(self).context.stack@.len() ==> !(#[trigger] final(self).context.stack@[k]).is_reg(),
            forall|r: Reg|
                r.wf() ==> !(#[trigger] final(self).context.regalloc.regset.is_used(r)),
            final(masm).insts@.len() <= old(masm).insts@.len() + old(self).context.stack@.len(),
            old(masm).insts@.is_prefix_of(final(masm).insts@),
            final(masm).sp_offset == old(masm).sp_offset,
            final(masm).sp == old(masm).sp,
            final(masm).fp == old(masm).fp,
            final(masm).next_label == old(masm).next_label,
    {
        let ghost pre = *self;
        self.context.spill_all(masm, self.spill_base);
        proof {
            assert forall|r: Reg| r.wf() implies !(
            #[trigger] self.context.regalloc.regset.is_used(r)) by {
                if self.context.regalloc.regset.is_used(r) {
                    assert(!self.context.regalloc.regset.is_free(r));
                    assert(!pre.context.regalloc.regset.is_free(r));
                    assert(pre.context.regalloc.regset.is_used(r));
                    assert(stack_owns(pre.context.stack@, r));
                    assert(self.context.regalloc.regset.is_free(r));
                }
            }
        }
    }

    /// Pops one operand, discarding it; the popped entry's register, if it
    /// held one, goes back to the pool by way of the preceding spill.
    fn op_drop(&mut self, masm: &mut MacroAssembler) -> (r: Result<(), CodegenError>)
        requires
            old(self).wf(),
            old(self).ctrl@.len() > 0,
            old(self).context.stack@.len() < 0x10_0000,
            old(masm).insts@.len() <= 0x0FFF_0000,
        ensures
            r is Ok ==> final(self).step_ok(*old(self), *final(masm), *old(masm))
                && final(self).ctrl == old(self).ctrl && final(self).reachable == old(self).reachable && final(self).dead_depth == old(self).dead_depth && final(self).context.stack@.len() + 1 == old(self).context.stack@.len(),
            old(self).context.stack@.len() > old(self).ctrl@.last().entry_height ==> r is Ok,
    {
        let top = self.cur_frame();
        if self.context.stack.len() <= top.entry_height {
            return Err(CodegenError::ValueStackUnderflow);
        }
        self.spill(masm);
        let popped = self.context.stack.pop();
        proof {
            assert(popped is Some);
            lemma_ctrl_heights(self.ctrl@, self.context.stack@.len() as int);
        }
        Ok(())
    }

    /// Stores the popped operand into a local's slot.  Stack entries that
    /// alias the local are first materialized into their own spill slots
    /// through the scratch register, so the overwrite cannot change them.
    fn op_local_set(&mut self, masm: &mut MacroAssembler, index: u32) -> (r: Result<
        (),
        CodegenError,
    >)
        requires
            old(self).wf(),
            old(self).ctrl@.len() > 0,
            old(self).context.stack@.len() < 0x10_0000,
            old(masm).insts@.len() <= 0x0FFF_0000,
        ensures
            r is Ok ==> final(self).step_ok(*old(self), *final(masm), *old(masm))
                && final(self).ctrl == old(self).ctrl && final(self).reachable == old(self).reachable && final(self).dead_depth == old(self).dead_depth && final(self).context.stack@.len() + 1 == old(self).context.stack@.len(),
    {
        let nlocals = self.context.frame.locals.len();
        if index as usize >= nlocals {
            return Err(CodegenError::InvalidLocalIndex);
        }
        let idx = index as usize;
        let local_ty = self.context.frame.locals[idx].ty;
        let top = self.cur_frame();
        if self.context.stack.len() <= top.entry_height {
            return Err(CodegenError::ValueStackUnderflow);
        }
        self.spill(masm);
        let scratch = self.context.regalloc.scratch;

        // Materialize every alias of this local into its own spill slot.
        let n = self.context.stack.len();
        let ghost pre_stack = self.context.stack@;
        let mut k: usize = 0;
        while k < n
            invariant
                self.wf(),
                self.cfg_eq(*old(self)),
                n == self.context.stack@.len(),
                n < 0x10_0000,
                k <= n,
                self.ctrl == old(self).ctrl,
                self.reachable == old(self).reachable,
                self.dead_depth == old(self).dead_depth,
                scratch == self.context.regalloc.scratch,
                idx < self.context.frame.locals@.len(),
                forall|j: int|
                    0 <= j < n ==> !(#[trigger] self.context.stack@[j]).is_reg()
                        && self.context.stack@[j].ty() == pre_stack[j].ty(),
                forall|r2: Reg| r2.wf() ==> !(#[trigger] self.context.regalloc.regset.is_used(r2)),
                masm.insts@.len() <= old(masm).insts@.len() + n + 2 * k,
                old(masm).insts@.len() <= 0x0FFF_0000,
                old(masm).insts@.is_prefix_of(masm.insts@),
                masm.sp_offset == old(masm).sp_offset,
                masm.sp == old(masm).sp,
                masm.fp == old(masm).fp,
                masm.next_label == old(masm).next_label,
            decreases n - k,
        {
            let entry = match self.context.stack.get(k) {
                Some(v) => v,
                None => {
                    proof {
                        assert(false);
                    }
                    Val::Imm { bits: 0, ty: ValType::I32 }
                },
            };
            match entry {
                Val::Local { index: li, ty } => {
                    if li == idx {
                        let addr = local_address(&self.context.frame, li);
                        masm.load(addr, scratch, val_size(ty));
                        let off: u32 = self.spill_base + 8 * ((k as u32) + 1);
                        masm.store(
                            RegImm::reg(scratch),
                            Address::FpNeg { offset: off },
                            val_size(ty),
                        );
                        self.context.stack.set(k, Val::Mem { offset: off, ty });
                    }
                },
                _ => {},
            }
            k = k + 1;
        }

        let v = match self.context.stack.pop() {
            Some(v) => v,
            None => {
                proof {
                    assert(false);
                }
                return Err(CodegenError::ValueStackUnderflow);
            },
        };
        if v.val_ty() != local_ty {
            return Err(CodegenError::TypeMismatch);
        }
        let addr = local_address(&self.context.frame, idx);
        match v {
            Val::Imm { bits, ty } => {
                if bits <= 0xFFFF_FFFF {
                    masm.store(RegImm::imm(bits), addr, val_size(ty));
                } else {
                    masm.mov(RegImm::imm(bits), scratch, val_size(ty));
                    masm.store(RegImm::reg(scratch), addr, val_size(ty));
                }
            },
            Val::Mem { offset, ty } => {
                masm.load(Address::FpNeg { offset }, scratch, val_size(ty));
                masm.store(RegImm::reg(scratch), addr, val_size(ty));
            },
            Val::Local { index: li, ty } => {
                let src = local_address(&self.context.frame, li);
                masm.load(src, scratch, val_size(ty));
                masm.store(RegImm::reg(scratch), addr, val_size(ty));
            },
            Val::Reg { .. } => {
                proof {
                    assert(false);
                }
            },
        }
        proof {
            lemma_ctrl_heights(self.ctrl@, self.context.stack@.len() as int);
            assert(forall|r2: Reg|
                r2.wf() ==> !(#[trigger] self.context.regalloc.regset.is_used(r2)));
            assert(used_covered(self.context.stack@, self.context.regalloc.regset));
        }
        Ok(())
    }

    /// Translates one binary integer operation: both operands are popped,
    /// type-checked and materialized into registers, the operation is
    /// emitted onto the left operand's register, and that register is
    /// pushed back as the result.
    fn op_binop(&mut self, masm: &mut MacroAssembler, vt: ValType, aop: AluOp) -> (r: Result<
        (),
        CodegenError,
    >)
        requires
            old(self).wf(),
            old(self).ctrl@.len() > 0,
            old(self).context.stack@.len() < 0x10_0000,
            old(masm).insts@.len() <= 0x0FFF_0000,
        ensures
            r is Ok ==> final(self).step_ok(*old(self), *final(masm), *old(masm))
                && final(self).ctrl == old(self).ctrl && final(self).reachable == old(self).reachable && final(self).dead_depth == old(self).dead_depth && final(self).context.stack@.len() + 1 == old(self).context.stack@.len(),
    {
        let top = self.cur_frame();
        if self.context.stack.len() < 2 || self.context.stack.len() - 2 < top.entry_height {
            return Err(CodegenError::ValueStackUnderflow);
        }
        self.spill(masm);
        let rhs = match self.context.stack.pop() {
            Some(v) => v,
            None => {
                proof {
                    assert(false);
                }
                return Err(CodegenError::ValueStackUnderflow);
            },
        };
        let lhs = match self.context.stack.pop() {
            Some(v) => v,
            None => {
                proof {
                    assert(false);
                }
                return Err(CodegenError::ValueStackUnderflow);
            },
        };
        if rhs.val_ty() != vt || lhs.val_ty() != vt {
            return Err(CodegenError::TypeMismatch);
        }
        let spill_base = self.spill_base;
        let ghost ctx0 = self.context;
        let rhs_r = match self.context.ensure_register(masm, spill_base, rhs) {
            Ok(r) => r,
            Err(e) => {
                return Err(e);
            },
        };
        let ghost ctx1 = self.context;
        let lhs_r = match self.context.ensure_register(masm, spill_base, lhs) {
            Ok(r) => r,
            Err(e) => {
                return Err(e);
            },
        };
        let ghost ctx2 = self.context;
        proof {
            assert(rhs_r != lhs_r);
            assert(ctx2.regalloc.regset.is_used(rhs_r));
        }
        masm.alu(aop, RegImm::reg(rhs_r), lhs_r, val_size(vt));
        let freed = self.context.regalloc.regset.free(rhs_r);
        proof {
            assert(freed);
        }
        proof {
            lemma_owns_push(self.context.stack@, Val::Reg { reg: lhs_r, ty: vt });
        }
        self.context.stack.push(Val::Reg { reg: lhs_r, ty: vt });
        proof {
            lemma_ctrl_heights(self.ctrl@, self.context.stack@.len() as int);
            let rs = self.context.regalloc.regset;
            assert forall|r2: Reg| r2.wf() && #[trigger] rs.is_used(r2) implies stack_owns(
                self.context.stack@,
                r2,
            ) by {
                if r2 != lhs_r {
                    assert(r2 != rhs_r);
                    assert(ctx2.regalloc.regset.is_used(r2));
                    assert(ctx1.regalloc.regset.is_used(r2));
                    assert(ctx0.regalloc.regset.is_used(r2));
                    assert(false);
                }
            }
        }
        Ok(())
    }

    /// Opens a `block`: a fresh forward label and a control frame recording
    /// the current operand-stack height and the declared result arity.
    fn op_block(&mut self, masm: &mut MacroAssembler, arity: BlockArity) -> (r: Result<
        (),
        CodegenError,
    >)
        requires
            old(self).wf(),
            old(self).ctrl@.len() > 0,
            old(self).ctrl@.len() < 0x20_0000,
            old(self).context.stack@.len() < 0x10_0000,
            old(masm).insts@.len() <= 0x0FFF_0000,
            old(masm).next_label < 0xFFFF_0000,
        ensures
            r is Ok,
            final(self).step_ok(*old(self), *final(masm), *old(masm)) && final(self).reachable == old(self).reachable && final(self).dead_depth == old(self).dead_depth
                && final(self).context.stack@ == old(self).context.stack@ && final(self).ctrl@
                == old(self).ctrl@.push(final(self).ctrl@.last()) && final(self).ctrl@.last().entry_height == old(self).context.stack@.len()
                && final(self).ctrl@.last().kind == CtrlKind::Block && final(self).ctrl@.last().arity
                == arity,
    {
        let label = masm.get_label();
        let f = ControlFrame {
            kind: CtrlKind::Block,
            label,
            else_label: label,
            entry_height: self.context.stack.len(),
            arity,
        };
        self.ctrl.push(f);
        Ok(())
    }

    /// Opens a `loop`: the operand stack is spilled so every back edge
    /// arrives at a canonical machine state, and the loop's label is bound
    /// at its start.
    fn op_loop(&mut self, masm: &mut MacroAssembler, arity: BlockArity) -> (r: Result<
        (),
        CodegenError,
    >)
        requires
            old(self).wf(),
            old(self).ctrl@.len() > 0,
            old(self).ctrl@.len() < 0x20_0000,
            old(self).context.stack@.len() < 0x10_0000,
            old(masm).insts@.len() <= 0x0FFF_0000,
            old(masm).next_label < 0xFFFF_0000,
        ensures
            r is Ok,
            final(self).step_ok(*old(self), *final(masm), *old(masm)) && final(self).reachable == old(self).reachable && final(self).dead_depth == old(self).dead_depth
                && final(self).context.stack@.len() == old(self).context.stack@.len() && final(self).ctrl@ == old(self).ctrl@.push(final(self).ctrl@.last()) && final(self).ctrl@.last().entry_height == old(self).context.stack@.len() && final(self).ctrl@.last().kind == CtrlKind::Loop
                && final(self).ctrl@.last().arity == arity,
    {
        self.spill(masm);
        let label = masm.get_label();
        masm.bind(label);
        let f = ControlFrame {
            kind: CtrlKind::Loop,
            label,
            else_label: label,
            entry_height: self.context.stack.len(),
            arity,
        };
        self.ctrl.push(f);
        Ok(())
    }

    /// Opens an `if`: the condition is popped and materialized, a branch
    /// to the `else` label is emitted for the zero case, and a control
    /// frame records the height after the pop.
    fn op_if(&mut self, masm: &mut MacroAssembler, arity: BlockArity) -> (r: Result<
        (),
        CodegenError,
    >)
        requires
            old(self).wf(),
            old(self).ctrl@.len() > 0,
            old(self).ctrl@.len() < 0x20_0000,
            old(self).context.stack@.len() < 0x10_0000,
            old(masm).insts@.len() <= 0x0FFF_0000,
            old(masm).next_label < 0xFFFF_0000,
        ensures
            r is Ok ==> final(self).step_ok(*old(self), *final(masm), *old(masm)) && final(self).reachable == old(self).reachable && final(self).dead_depth == old(self).dead_depth
                && final(self).context.stack@.len() + 1 == old(self).context.stack@.len() && final(self).ctrl@.len() == old(self).ctrl@.len() + 1 && final(self).ctrl@.last().entry_height
                == old(self).context.stack@.len() - 1 && final(self).ctrl@.last().kind
                == CtrlKind::If && final(self).ctrl@.last().arity == arity,
    {
        let top = self.cur_frame();
        if self.context.stack.len() <= top.entry_height {
            return Err(CodegenError::ValueStackUnderflow);
        }
        self.spill(masm);
        let cond = match self.context.stack.pop() {
            Some(v) => v,
            None => {
                proof {
                    assert(false);
                }
                return Err(CodegenError::ValueStackUnderflow);
            },
        };
        if cond.val_ty() != ValType::I32 {
            return Err(CodegenError::TypeMismatch);
        }
        let spill_base = self.spill_base;
        let ghost ctx0 = self.context;
        let cond_r = match self.context.ensure_register(masm, spill_base, cond) {
            Ok(r) => r,
            Err(e) => {
                return Err(e);
            },
        };
        let ghost ctx1 = self.context;
        let else_label = masm.get_label();
        let end_label = masm.get_label();
        masm.brz(cond_r, else_label);
        let freed = self.context.regalloc.regset.free(cond_r);
        proof {
            assert(freed);
        }
        let f = ControlFrame {
            kind: CtrlKind::If,
            label: end_label,
            else_label,
            entry_height: self.context.stack.len(),
            arity,
        };
        self.ctrl.push(f);
        proof {
            lemma_ctrl_heights(old(self).ctrl@, self.context.stack@.len() as int);
            let rs = self.context.regalloc.regset;
            assert forall|r2: Reg| r2.wf() && #[trigger] rs.is_used(r2) implies stack_owns(
                self.context.stack@,
                r2,
            ) by {
                assert(ctx1.regalloc.regset.is_used(r2));
                assert(ctx0.regalloc.regset.is_used(r2));
                assert(false);
            }
        }
        Ok(())
    }

    /// Closes the `then` arm of an `if`: the arm's result is moved to the
    /// merge register, the stack is reconciled back to the `if`'s entry
    /// height, and the `else` arm begins.  Succeeds only when the arm's
    /// operand-stack height equals the entry height plus the declared
    /// arity.
    fn op_else(&mut self, masm: &mut MacroAssembler) -> (r: Result<(), CodegenError>)
        requires
            old(self).wf(),
            old(self).ctrl@.len() > 0,
            old(self).context.stack@.len() < 0x10_0000,
            old(masm).insts@.len() <= 0x0FFF_0000,
            old(masm).next_label < 0xFFFF_0000,
        ensures
            r is Ok ==> final(self).step_ok(*old(self), *final(masm), *old(masm)) && final(self).reachable == old(self).reachable && final(self).dead_depth == old(self).dead_depth
                && final(self).ctrl@.len() == old(self).ctrl@.len() && old(self).context.stack@.len() == old(self).ctrl@.last().entry_height + old(self).ctrl@.last().arity.count() && final(self).context.stack@.len() == old(self).ctrl@.last().entry_height,
            old(self).ctrl@.last().kind == CtrlKind::If && old(self).ctrl@.last().arity
                == BlockArity::Empty && old(self).context.stack@.len() == old(self).ctrl@.last().entry_height ==> r is Ok,
    {
        let top = self.cur_frame();
        if top.kind != CtrlKind::If {
            return Err(CodegenError::ElseWithoutIf);
        }
        let rr = match self.result_reg(top.arity) {
            Ok(v) => v,
            Err(e) => {
                return Err(e);
            },
        };
        let count: usize = match rr {
            Some(_) => 1,
            None => 0,
        };
        if self.context.stack.len() != top.entry_height + count {
            return Err(CodegenError::StackHeightMismatch);
        }
        self.spill(masm);
        match rr {
            Some((r_reg, rty)) => {
                let v = match self.context.stack.pop() {
                    Some(v) => v,
                    None => {
                        proof {
                            assert(false);
                        }
                        return Err(CodegenError::ValueStackUnderflow);
                    },
                };
                if v.val_ty() != rty {
                    return Err(CodegenError::TypeMismatch);
                }
                emit_move_into(masm, &self.context.frame, v, r_reg);
            },
            None => {},
        }
        self.context.stack.truncate(top.entry_height);
        masm.jmp(top.label);
        masm.bind(top.else_label);
        let idx = self.ctrl.len() - 1;
        self.ctrl.set(
            idx,
            ControlFrame {
                kind: CtrlKind::Else,
                label: top.label,
                else_label: top.else_label,
                entry_height: top.entry_height,
                arity: top.arity,
            },
        );
        proof {
            lemma_ctrl_heights(self.ctrl@, self.context.stack@.len() as int);
        }
        Ok(())
    }

    /// Closes the current construct: the operand stack is checked against
    /// the entry height plus the declared arity — a mismatch is rejected,
    /// never truncated to a wrong height — the result value is moved to the
    /// merge register, the merge labels are bound, and the result is pushed
    /// back, leaving the stack at exactly the merge height.
    fn op_end(&mut self, masm: &mut MacroAssembler) -> (r: Result<(), CodegenError>)
        requires
            old(self).wf(),
            old(self).ctrl@.len() > 0,
            old(self).context.stack@.len() < 0x10_0000,
            old(masm).insts@.len() <= 0x0FFF_0000,
            old(masm).next_label < 0xFFFF_0000,
        ensures
            r is Ok ==> final(self).step_ok(*old(self), *final(masm), *old(masm)) && final(self).reachable == old(self).reachable && final(self).dead_depth == old(self).dead_depth
                && final(self).ctrl@ == old(self).ctrl@.drop_last() && old(self).context.stack@.len() == old(self).ctrl@.last().entry_height + old(self).ctrl@.last().arity.count() && final(self).context.stack@.len() == old(self).ctrl@.last().entry_height + old(self).ctrl@.last().arity.count(),
            old(self).ctrl@.last().arity == BlockArity::Empty && old(self).context.stack@.len()
                == old(self).ctrl@.last().entry_height ==> r is Ok,
    {
        let top = self.cur_frame();
        let rr = match self.result_reg(top.arity) {
            Ok(v) => v,
            Err(e) => {
                return Err(e);
            },
        };
        if top.kind == CtrlKind::If {
            match rr {
                Some(_) => {
                    return Err(CodegenError::TypeMismatch);
                },
                None => {},
            }
        }
        let count: usize = match rr {
            Some(_) => 1,
            None => 0,
        };
        if self.context.stack.len() != top.entry_height + count {
            return Err(CodegenError::StackHeightMismatch);
        }
        self.spill(masm);
        let ghost rs0 = self.context.regalloc.regset;
        let mut pushed: Option<(Reg, ValType)> = None;
        match rr {
            Some((r_reg, rty)) => {
                let v = match self.context.stack.pop() {
                    Some(v) => v,
                    None => {
                        proof {
                            assert(false);
                        }
                        return Err(CodegenError::ValueStackUnderflow);
                    },
                };
                if v.val_ty() != rty {
                    return Err(CodegenError::TypeMismatch);
                }
                emit_move_into(masm, &self.context.frame, v, r_reg);
                pushed = Some((r_reg, rty));
            },
            None => {},
        }
        self.context.stack.truncate(top.entry_height);
        if top.kind == CtrlKind::If {
            masm.bind(top.else_label);
        }
        if top.kind != CtrlKind::Loop {
            masm.bind(top.label);
        }
        match pushed {
            Some((r_reg, rty)) => {
                let ok = self.context.regalloc.regset.mark_used(r_reg);
                if !ok {
                    return Err(CodegenError::RegisterExhausted);
                }
                proof {
                    lemma_owns_push(self.context.stack@, Val::Reg { reg: r_reg, ty: rty });
                }
                self.context.stack.push(Val::Reg { reg: r_reg, ty: rty });
                proof {
                    let rs = self.context.regalloc.regset;
                    assert forall|r2: Reg| r2.wf() && #[trigger] rs.is_used(r2) implies stack_owns(
                        self.context.stack@,
                        r2,
                    ) by {
                        if r2 != r_reg {
                            assert(rs.is_free(r2) == rs0.is_free(r2));
                            assert(rs.allocatable_mask(r2.class) == rs0.allocatable_mask(r2.class));
                            assert(rs0.is_used(r2));
                            assert(false);
                        } else {
                            let s = self.context.stack@;
                            assert(s[s.len() - 1].is_reg() && s[s.len() - 1].spec_reg() == r_reg);
                        }
                    }
                }
            },
            None => {},
        }
        self.ctrl.pop();
        proof {
            lemma_ctrl_heights(old(self).ctrl@, self.context.stack@.len() as int);
        }
        Ok(())
    }

    /// Translates an unconditional branch: the operand stack is reconciled
    /// to the target frame's recorded height plus its carried arity — the
    /// result value moves to the merge register — and the code after the
    /// branch becomes unreachable.
    fn op_br(&mut self, masm: &mut MacroAssembler, depth: u32) -> (r: Result<(), CodegenError>)
        requires
            old(self).wf(),
            old(self).ctrl@.len() > 0,
            old(self).context.stack@.len() < 0x10_0000,
            old(masm).insts@.len() <= 0x0FFF_0000,
            old(masm).next_label < 0xFFFF_0000,
        ensures
            r is Ok ==> final(self).step_ok(*old(self), *final(masm), *old(masm)) && !final(self).reachable && final(self).dead_depth == old(self).dead_depth && final(self).ctrl == old(self).ctrl && depth < old(self).ctrl@.len()
                && old(self).context.stack@.len() >= old(self).ctrl@[old(self).ctrl@.len() - 1
                - depth].entry_height + old(self).ctrl@[old(self).ctrl@.len() - 1
                - depth].target_arity() && final(self).context.stack@.len() == old(self).context.stack@.len(),
    {
        if depth as usize >= self.ctrl.len() {
            return Err(CodegenError::ControlStackUnderflow);
        }
        let idx = self.ctrl.len() - 1 - depth as usize;
        let target = self.ctrl[idx];
        let rr = if target.kind == CtrlKind::Loop {
            None
        } else {
            match self.result_reg(target.arity) {
                Ok(v) => v,
                Err(e) => {
                    return Err(e);
                },
            }
        };
        let count: usize = match rr {
            Some(_) => 1,
            None => 0,
        };
        if self.context.stack.len() < target.entry_height + count {
            return Err(CodegenError::StackHeightMismatch);
        }
        self.spill(masm);
        match rr {
            Some((r_reg, rty)) => {
                let v = match self.context.stack.peek(0) {
                    Some(v) => v,
                    None => {
                        proof {
                            assert(false);
                        }
                        return Err(CodegenError::ValueStackUnderflow);
                    },
                };
                if v.val_ty() != rty {
                    return Err(CodegenError::TypeMismatch);
                }
                emit_move_into(masm, &self.context.frame, v, r_reg);
            },
            None => {},
        }
        masm.jmp(target.label);
        self.reachable = false;
        Ok(())
    }

    /// Translates a conditional branch: the condition is popped and tested;
    /// on the taken path the operand stack is reconciled exactly as for an
    /// unconditional branch, while the fall-through keeps its operands.
    fn op_br_if(&mut self, masm: &mut MacroAssembler, depth: u32) -> (r: Result<(), CodegenError>)
        requires
            old(self).wf(),
            old(self).ctrl@.len() > 0,
            old(self).context.stack@.len() < 0x10_0000,
            old(masm).insts@.len() <= 0x0FFF_0000,
            old(masm).next_label < 0xFFFF_0000,
        ensures
            r is Ok ==> final(self).step_ok(*old(self), *final(masm), *old(masm)) && final(self).reachable == old(self).reachable && final(self).dead_depth == old(self).dead_depth
                && final(self).ctrl == old(self).ctrl && depth < old(self).ctrl@.len() && old(self).context.stack@.len() >= 1 + old(self).ctrl@[old(self).ctrl@.len() - 1
                - depth].entry_height + old(self).ctrl@[old(self).ctrl@.len() - 1
                - depth].target_arity() && final(self).context.stack@.len() + 1 == old(self).context.stack@.len(),
    {
        if depth as usize >= self.ctrl.len() {
            return Err(CodegenError::ControlStackUnderflow);
        }
        let idx = self.ctrl.len() - 1 - depth as usize;
        let target = self.ctrl[idx];
        let top = self.cur_frame();
        if self.context.stack.len() <= top.entry_height {
            return Err(CodegenError::ValueStackUnderflow);
        }
        let rr = if target.kind == CtrlKind::Loop {
            None
        } else {
            match self.result_reg(target.arity) {
                Ok(v) => v,
                Err(e) => {
                    return Err(e);
                },
            }
        };
        let count: usize = match rr {
            Some(_) => 1,
            None => 0,
        };
        if self.context.stack.len() - 1 < target.entry_height + count {
            return Err(CodegenError::StackHeightMismatch);
        }
        self.spill(masm);
        let ghost mi0 = masm.insts@;
        let cond = match self.context.stack.pop() {
            Some(v) => v,
            None => {
                proof {
                    assert(false);
                }
                return Err(CodegenError::ValueStackUnderflow);
            },
        };
        if cond.val_ty() != ValType::I32 {
            return Err(CodegenError::TypeMismatch);
        }
        let spill_base = self.spill_base;
        let ghost ctx0 = self.context;
        let mut cond_r = match self.context.ensure_register(masm, spill_base, cond) {
            Ok(r) => r,
            Err(e) => {
                return Err(e);
            },
        };
        let ghost ctx1 = self.context;
        let ghost mi1 = masm.insts@;
        proof {
            lemma_prefix_trans(old(masm).insts@, mi0, mi1);
        }
        proof {
            assert forall|rw: Reg|
                rw.wf() && #[trigger] self.context.regalloc.regset.is_used(rw) implies rw
                == cond_r by {
                if rw != cond_r {
                    assert(ctx0.regalloc.regset.is_used(rw));
                    assert(false);
                }
            }
        }
        match rr {
            Some((r_reg, rty)) => {
                if cond_r == r_reg {
                    let ghost ctxa = self.context;
                    let r2 = match self.context.any_gpr(masm, spill_base) {
                        Ok(r) => r,
                        Err(e) => {
                            return Err(e);
                        },
                    };
                    let ghost ctxb = self.context;
                    let ghost mia = masm.insts@;
                    masm.mov(RegImm::reg(cond_r), r2, OperandSize::S32);
                    proof {
                        lemma_prefix_append(mia, seq![
                            Inst::MovRR { src: cond_r, dst: r2, size: OperandSize::S32 },
                        ]);
                        lemma_prefix_trans(mi1, mia, masm.insts@);
                    }
                    let freed = self.context.regalloc.regset.free(cond_r);
                    proof {
                        assert(freed);
                    }
                    let ghost old_cond = cond_r;
                    cond_r = r2;
                    proof {
                        assert forall|rw: Reg|
                            rw.wf() && #[trigger] self.context.regalloc.regset.is_used(rw) implies rw
                            == cond_r by {
                            if rw != cond_r {
                                assert(self.context.regalloc.regset.is_free(rw)
                                    == ctxb.regalloc.regset.is_free(rw) || rw == old_cond);
                                if rw != old_cond {
                                    assert(ctxb.regalloc.regset.is_used(rw));
                                    assert(ctxa.regalloc.regset.is_used(rw));
                                }
                                assert(false);
                            }
                        }
                    }
                }
                let v = match self.context.stack.peek(0) {
                    Some(v) => v,
                    None => {
                        proof {
                            assert(false);
                        }
                        return Err(CodegenError::ValueStackUnderflow);
                    },
                };
                if v.val_ty() != rty {
                    return Err(CodegenError::TypeMismatch);
                }
                let ghost mpre = masm.insts@;
                proof {
                    lemma_prefix_refl(mi1);
                    assert(mi1.is_prefix_of(mpre));
                }
                emit_move_into(masm, &self.context.frame, v, r_reg);
                proof {
                    lemma_prefix_trans(mi1, mpre, masm.insts@);
                }
            },
            None => {},
        }
        let ghost ctx2 = self.context;
        let ghost mi2 = masm.insts@;
        proof {
            lemma_prefix_refl(mi1);
            assert(mi1.is_prefix_of(mi2));
            lemma_prefix_trans(old(masm).insts@, mi1, mi2);
        }
        masm.brnz(cond_r, target.label);
        proof {
            lemma_prefix_append(mi2, seq![Inst::Brnz { reg: cond_r, label: target.label }]);
            lemma_prefix_trans(old(masm).insts@, mi2, masm.insts@);
        }
        let freed2 = self.context.regalloc.regset.free(cond_r);
        proof {
            assert(freed2);
        }
        proof {
            lemma_ctrl_heights(self.ctrl@, self.context.stack@.len() as int);
            let rs = self.context.regalloc.regset;
            assert forall|r2: Reg| r2.wf() && #[trigger] rs.is_used(r2) implies stack_owns(
                self.context.stack@,
                r2,
            ) by {
                assert(r2 != cond_r);
                assert(rs.is_free(r2) == ctx2.regalloc.regset.is_free(r2));
                assert(ctx2.regalloc.regset.is_used(r2));
                assert(false);
            }
        }
        Ok(())
    }

    /// Translates a call to a module-local function: the callee signature
    /// is classified, the operands are moved or spilled into the required
    /// argument positions, aligned stack space is reserved around the call,
    /// and the result register is pushed back.
    fn op_call(&mut self, masm: &mut MacroAssembler, fidx: u32) -> (r: Result<(), CodegenError>)
        requires
            old(self).wf(),
            old(self).ctrl@.len() > 0,
            old(self).context.stack@.len() < 0x10_0000,
            old(masm).insts@.len() <= 0x0FFF_0000,
            old(masm).next_label < 0xFFFF_0000,
            old(masm).sp_offset == old(self).frame_size,
        ensures
            r is Ok ==> final(self).step_ok(*old(self), *final(masm), *old(masm)) && final(self).reachable == old(self).reachable && final(self).dead_depth == old(self).dead_depth
                && final(self).ctrl == old(self).ctrl,
    {
        if fidx as usize >= self.env.sigs.len() {
            return Err(CodegenError::InvalidFunctionIndex);
        }
        let callee_sig = match self.conv.sig(&self.env.sigs[fidx as usize]) {
            Ok(s) => s,
            Err(e) => {
                return Err(e);
            },
        };
        let rr = match callee_sig.result {
            ABIResult::Void => None,
            ABIResult::Reg { reg, ty } => {
                match val_class(ty) {
                    RegClass::Int => Some((reg, ty)),
                    RegClass::Float => {
                        return Err(CodegenError::UnsupportedType);
                    },
                }
            },
        };
        let nargs = callee_sig.params.len();
        let top = self.cur_frame();
        if self.context.stack.len() < nargs || self.context.stack.len() - nargs
            < top.entry_height {
            return Err(CodegenError::StackHeightMismatch);
        }
        let base = self.context.stack.len() - nargs;
        let mut i: usize = 0;
        while i < nargs
            invariant
                self == old(self),
                masm == old(masm),
                nargs == callee_sig.params@.len(),
                base + nargs == self.context.stack@.len(),
                self.context.stack@.len() < 0x10_0000,
                i <= nargs,
                forall|k: int|
                    0 <= k < i ==> self.context.stack@[base + k].ty() == (
                    #[trigger] callee_sig.params@[k]).ty(),
            decreases nargs - i,
        {
            let v = match self.context.stack.get(base + i) {
                Some(v) => v,
                None => {
                    proof {
                        assert(false);
                    }
                    return Err(CodegenError::ValueStackUnderflow);
                },
            };
            let want = match callee_sig.params[i] {
                ABIArg::Reg { ty, .. } => ty,
                ABIArg::Stack { ty, .. } => ty,
            };
            if v.val_ty() != want {
                return Err(CodegenError::TypeMismatch);
            }
            i = i + 1;
        }
        self.spill(masm);
        let ghost mi0 = masm.insts@;
        let delta = calculate_frame_adjustment(
            masm.sp_offset,
            self.conv.arg_base_offset,
            self.conv.stack_align,
        );
        let total = align_to(callee_sig.stack_bytes + delta, self.conv.stack_align);
        masm.reserve_stack(total);
        let ghost mi1 = masm.insts@;
        proof {
            lemma_prefix_append(mi0, seq![Inst::ReserveSp { bytes: total }]);
            lemma_prefix_trans(old(masm).insts@, mi0, mi1);
        }
        let scratch = self.context.regalloc.scratch;
        let mut j: usize = 0;
        while j < nargs
            invariant
                self.wf(),
                self.cfg_eq(*old(self)),
                self.ctrl == old(self).ctrl,
                self.reachable == old(self).reachable,
                self.dead_depth == old(self).dead_depth,
                nargs == callee_sig.params@.len(),
                nargs <= 0x1000,
                base + nargs == self.context.stack@.len(),
                self.context.stack@.len() < 0x10_0000,
                j <= nargs,
                scratch == self.context.regalloc.scratch,
                forall|k: int|
                    0 <= k < self.context.stack@.len() ==> !(
                    #[trigger] self.context.stack@[k]).is_reg(),
                forall|r2: Reg| r2.wf() ==> !(#[trigger] self.context.regalloc.regset.is_used(r2)),
                mi1.is_prefix_of(masm.insts@),
                masm.insts@.len() <= mi1.len() + 2 * j,
                mi1.len() <= 0x0FFF_0000 + 0x10_0000 + 2,
                masm.sp_offset == old(masm).sp_offset + total,
                masm.sp == old(masm).sp,
                masm.fp == old(masm).fp,
                masm.next_label == old(masm).next_label,
                old(masm).insts@.is_prefix_of(masm.insts@),
            decreases nargs - j,
        {
            let v = match self.context.stack.get(base + j) {
                Some(v) => v,
                None => {
                    proof {
                        assert(false);
                    }
                    return Err(CodegenError::ValueStackUnderflow);
                },
            };
            let ghost mpre = masm.insts@;
            match callee_sig.params[j] {
                ABIArg::Reg { reg, .. } => {
                    emit_move_into(masm, &self.context.frame, v, reg);
                },
                ABIArg::Stack { offset, .. } => {
                    emit_move_into(masm, &self.context.frame, v, scratch);
                    masm.store(
                        RegImm::reg(scratch),
                        Address::SpOffset { offset },
                        val_size(v.val_ty()),
                    );
                },
            }
            proof {
                lemma_prefix_trans(mi1, mpre, masm.insts@);
                lemma_prefix_trans(old(masm).insts@, mpre, masm.insts@);
            }
            j = j + 1;
        }
        masm.call(CallKind::Direct(fidx));
        masm.free_stack(total);
        self.context.stack.truncate(base);
        let ghost rs0 = self.context.regalloc.regset;
        match rr {
            Some((r_reg, rty)) => {
                let ok = self.context.regalloc.regset.mark_used(r_reg);
                if !ok {
                    return Err(CodegenError::RegisterExhausted);
                }
                proof {
                    lemma_owns_push(self.context.stack@, Val::Reg { reg: r_reg, ty: rty });
                }
                self.context.stack.push(Val::Reg { reg: r_reg, ty: rty });
                proof {
                    let rs = self.context.regalloc.regset;
                    assert forall|r2: Reg| r2.wf() && #[trigger] rs.is_used(r2) implies stack_owns(
                        self.context.stack@,
                        r2,
                    ) by {
                        if r2 != r_reg {
                            assert(rs.is_free(r2) == rs0.is_free(r2));
                            assert(rs0.is_used(r2));
                            assert(false);
                        } else {
                            let s = self.context.stack@;
                            assert(s[s.len() - 1].is_reg() && s[s.len() - 1].spec_reg() == r_reg);
                        }
                    }
                }
            },
            None => {},
        }
        proof {
            lemma_ctrl_heights(self.ctrl@, base as int);
            let ghost fin = masm.insts@;
            lemma_prefix_trans(old(masm).insts@, mi1, fin);
        }
        Ok(())
    }

    /// Emits the trap for the `unreachable` operation; everything after it
    /// is dead until the enclosing construct closes.
    fn op_unreachable(&mut self, masm: &mut MacroAssembler) -> (r: Result<(), CodegenError>)
        requires
            old(self).wf(),
            old(self).ctrl@.len() > 0,
            old(self).context.stack@.len() < 0x10_0000,
            old(masm).insts@.len() <= 0x0FFF_0000,
        ensures
            r is Ok,
            final(self).step_ok(*old(self), *final(masm), *old(masm)),
            !final(self).reachable,
            final(self).dead_depth == old(self).dead_depth,
            final(self).ctrl == old(self).ctrl,
            final(self).context.stack@ == old(self).context.stack@,
    {
        masm.trap(TrapCode::UnreachableCodeReached);
        self.reachable = false;
        Ok(())
    }

    /// Closes a construct whose own code ended unreachable: the stack is
    /// reconciled to the entry height, the merge labels are bound, the
    /// result — delivered by whatever branches targeted the label — is
    /// pushed in the merge register, and code becomes reachable again.
    fn revive_end(&mut self, masm: &mut MacroAssembler) -> (r: Result<(), CodegenError>)
        requires
            old(self).wf(),
            old(self).ctrl@.len() > 0,
            !old(self).reachable,
            old(self).context.stack@.len() < 0x10_0000,
            old(masm).insts@.len() <= 0x0FFF_0000,
            old(masm).next_label < 0xFFFF_0000,
        ensures
            r is Ok ==> final(self).step_ok(*old(self), *final(masm), *old(masm)) && final(self).reachable && final(self).dead_depth == 0 && final(self).ctrl@ == old(self).ctrl@.drop_last() && final(self).context.stack@.len() == old(self).ctrl@.last().entry_height + old(self).ctrl@.last().arity.count(),
    {
        let top = self.cur_frame();
        let rr = match self.result_reg(top.arity) {
            Ok(v) => v,
            Err(e) => {
                return Err(e);
            },
        };
        if top.kind == CtrlKind::If {
            match rr {
                Some(_) => {
                    return Err(CodegenError::TypeMismatch);
                },
                None => {},
            }
        }
        self.spill(masm);
        self.context.stack.truncate(top.entry_height);
        if top.kind == CtrlKind::If {
            masm.bind(top.else_label);
        }
        if top.kind != CtrlKind::Loop {
            masm.bind(top.label);
        }
        let ghost rs0 = self.context.regalloc.regset;
        match rr {
            Some((r_reg, rty)) => {
                let ok = self.context.regalloc.regset.mark_used(r_reg);
                if !ok {
                    return Err(CodegenError::RegisterExhausted);
                }
                proof {
                    lemma_owns_push(self.context.stack@, Val::Reg { reg: r_reg, ty: rty });
                }
                self.context.stack.push(Val::Reg { reg: r_reg, ty: rty });
                proof {
                    let rs = self.context.regalloc.regset;
                    assert forall|r2: Reg| r2.wf() && #[trigger] rs.is_used(r2) implies stack_owns(
                        self.context.stack@,
                        r2,
                    ) by {
                        if r2 != r_reg {
                            assert(rs.is_free(r2) == rs0.is_free(r2));
                            assert(rs0.is_used(r2));
                            assert(false);
                        } else {
                            let s = self.context.stack@;
                            assert(s[s.len() - 1].is_reg() && s[s.len() - 1].spec_reg() == r_reg);
                        }
                    }
                }
            },
            None => {},
        }
        self.ctrl.pop();
        self.reachable = true;
        self.dead_depth = 0;
        proof {
            lemma_ctrl_heights(old(self).ctrl@, self.context.stack@.len() as int);
        }
        Ok(())
    }

    /// Begins the `else` arm of an `if` whose `then` arm ended
    /// unreachable: the stack is reset to the entry height and code
    /// becomes reachable again.
    fn revive_else(&mut self, masm: &mut MacroAssembler) -> (r: Result<(), CodegenError>)
        requires
            old(self).wf(),
            old(self).ctrl@.len() > 0,
            !old(self).reachable,
            old(self).context.stack@.len() < 0x10_0000,
            old(masm).insts@.len() <= 0x0FFF_0000,
        ensures
            r is Ok ==> final(self).step_ok(*old(self), *final(masm), *old(masm)) && final(self).reachable && final(self).dead_depth == 0 && final(self).ctrl@.len() == old(self).ctrl@.len() && final(self).context.stack@.len() == old(self).ctrl@.last().entry_height,
    {
        let top = self.cur_frame();
        if top.kind != CtrlKind::If {
            return Err(CodegenError::ElseWithoutIf);
        }
        self.spill(masm);
        self.context.stack.truncate(top.entry_height);
        masm.bind(top.else_label);
        let idx = self.ctrl.len() - 1;
        self.ctrl.set(
            idx,
            ControlFrame {
                kind: CtrlKind::Else,
                label: top.label,
                else_label: top.else_label,
                entry_height: top.entry_height,
                arity: top.arity,
            },
        );
        self.reachable = true;
        self.dead_depth = 0;
        proof {
            lemma_ctrl_heights(self.ctrl@, self.context.stack@.len() as int);
        }
        Ok(())
    }

    /// Translates a constant push or a local reference: the value joins
    /// the operand stack without consuming a register.
    fn op_push_val(&mut self, v: Val) -> (r: Result<(), CodegenError>)
        requires
            old(self).wf(),
            old(self).context.stack@.len() < 0x10_0000,
            !v.is_reg(),
            v is Local ==> v->Local_index < old(self).context.frame.locals@.len(),
        ensures
            r is Ok,
            final(self).wf(),
            final(self).cfg_eq(*old(self)),
            final(self).ctrl == old(self).ctrl,
            final(self).reachable == old(self).reachable,
            final(self).dead_depth == old(self).dead_depth,
            final(self).context.stack@ == old(self).context.stack@.push(v),
            final(self).context.regalloc == old(self).context.regalloc,
    {
        proof {
            lemma_owns_push(self.context.stack@, v);
        }
        self.context.stack.push(v);
        Ok(())
    }

    /// Creates the engine for one function over a fresh compilation
    /// context.
    pub fn new(context: CodeGenContext, env: FuncEnv, sig: ABISig, conv: CallingConv) -> (r:
        CodeGen)
        requires
            context.wf(),
            context.stack@.len() == 0,
            conv.wf(),
            env.wf(),
            context.frame.locals_size <= 0x0100_0000,
        ensures
            r.wf(),
            r.context == context,
            r.env == env,
            r.sig == sig,
            r.conv == conv,
            r.ctrl@.len() == 0,
            r.reachable,
            r.dead_depth == 0,
            r.spill_base == context.frame.locals_size,
            r.frame_size == 0,
    {
        let spill_base = context.frame.locals_size;
        CodeGen {
            context,
            sig,
            env,
            conv,
            ctrl: Vec::new(),
            reachable: true,
            dead_depth: 0,
            spill_base,
            frame_size: 0,
        }
    }

    /// Translates one bytecode operation.
    ///
    /// In reachable code the operation is dispatched to its handler; the
    /// clauses below carry the merge-point law: closing a construct, or
    /// branching to one, succeeds only when the operand-stack height agrees
    /// with the height recorded at the construct's entry plus its declared
    /// arity, and leaves the stack at exactly that height.  In unreachable
    /// code — after an unconditional branch or trap — operations are
    /// skipped until the construct that was current when reachability ended
    /// closes or reaches its `else`.
    pub fn emit_op(&mut self, masm: &mut MacroAssembler, op: Op) -> (r: Result<(), CodegenError>)
        requires
            old(self).wf(),
            old(self).ctrl@.len() > 0,
            old(self).ctrl@.len() < 0x20_0000,
            old(self).context.stack@.len() < 0x10_0000,
            old(self).dead_depth < 0x10_0000,
            old(masm).insts@.len() <= 0x0FFF_0000,
            old(masm).next_label < 0xFFFF_0000,
            old(masm).sp_offset == old(self).frame_size,
        ensures
            r is Ok ==> final(self).step_ok(*old(self), *final(masm), *old(masm)) && final(self).dead_depth <= old(self).dead_depth + 1 && (match op {
                Op::End => {
                    &&& (old(self).reachable ==> final(self).ctrl@ == old(self).ctrl@.drop_last()
                        && old(self).context.stack@.len() == old(self).ctrl@.last().entry_height
                        + old(self).ctrl@.last().arity.count() && final(self).context.stack@.len()
                        == old(self).ctrl@.last().entry_height + old(self).ctrl@.last().arity.count())
                    &&& (!old(self).reachable && old(self).dead_depth == 0 ==> final(self).ctrl@
                        == old(self).ctrl@.drop_last() && final(self).context.stack@.len() == old(self).ctrl@.last().entry_height + old(self).ctrl@.last().arity.count())
                },
                Op::Else => old(self).reachable ==> old(self).context.stack@.len() == old(self).ctrl@.last().entry_height + old(self).ctrl@.last().arity.count() && final(self).context.stack@.len() == old(self).ctrl@.last().entry_height,
                Op::Br(d) => old(self).reachable ==> d < old(self).ctrl@.len() && old(self).context.stack@.len() >= old(self).ctrl@[old(self).ctrl@.len() - 1
                    - d].entry_height + old(self).ctrl@[old(self).ctrl@.len() - 1
                    - d].target_arity() && !final(self).reachable,
                Op::BrIf(d) => old(self).reachable ==> d < old(self).ctrl@.len() && old(self).context.stack@.len() >= 1 + old(self).ctrl@[old(self).ctrl@.len() - 1
                    - d].entry_height + old(self).ctrl@[old(self).ctrl@.len() - 1
                    - d].target_arity() && final(self).context.stack@.len() + 1 == old(self).context.stack@.len(),
                Op::Block(a) => old(self).reachable ==> final(self).ctrl@ == old(self).ctrl@.push(final(self).ctrl@.last()) && final(self).ctrl@.last() == (
                ControlFrame {
                    kind: CtrlKind::Block,
                    label: final(self).ctrl@.last().label,
                    else_label: final(self).ctrl@.last().else_label,
                    entry_height: old(self).context.stack@.len() as usize,
                    arity: a,
                }) && final(self).context.stack@ == old(self).context.stack@,
                Op::Loop(a) => old(self).reachable ==> final(self).ctrl@ == old(self).ctrl@.push(final(self).ctrl@.last()) && final(self).ctrl@.last().kind
                    == CtrlKind::Loop && final(self).ctrl@.last().arity == a && final(self).ctrl@.last().entry_height == old(self).context.stack@.len() && final(self).context.stack@.len() == old(self).context.stack@.len(),
                Op::If(a) => old(self).reachable ==> final(self).ctrl@.len() == old(self).ctrl@.len() + 1 && final(self).ctrl@.last().kind == CtrlKind::If && final(self).ctrl@.last().arity == a && final(self).ctrl@.last().entry_height == old(self).context.stack@.len() - 1 && final(self).context.stack@.len() + 1 == old(self).context.stack@.len(),
                _ => true,
            })
            // Operations that cannot be refused owe success: constants and
            // control-construct openings always translate, a discard
            // translates whenever an operand is available above the current
            // construct's base, and a merge with no declared results
            // translates whenever the stack sits at its entry height.  In
            // unreachable code everything but a construct's close
            // translates to nothing.
            && (match op {
                Op::I32Const(_) => r is Ok,
                Op::I64Const(_) => r is Ok,
                Op::Block(_) => r is Ok,
                Op::Loop(_) => r is Ok,
                Op::LocalGet(i) => i < old(self).context.frame.locals@.len()
                    && crate::abi::spec_val_class(
                    old(self).context.frame.locals@[i as int].ty,
                ) == RegClass::Int ==> r is Ok,
                Op::Drop => !old(self).reachable || old(self).context.stack@.len() > old(self).ctrl@.last().entry_height ==> r is Ok,
                Op::End => old(self).reachable && old(self).ctrl@.last().arity
                    == BlockArity::Empty && old(self).context.stack@.len() == old(self).ctrl@.last().entry_height ==> r is Ok,
                Op::Else => old(self).reachable && old(self).ctrl@.last().kind == CtrlKind::If
                    && old(self).ctrl@.last().arity == BlockArity::Empty && old(self).context.stack@.len() == old(self).ctrl@.last().entry_height ==> r is Ok,
                _ => !old(self).reachable ==> r is Ok,
            }),
    {
        if self.reachable {
            match op {
                Op::I32Const(c) => {
                    let r = self.op_push_val(Val::Imm { bits: c as u64, ty: ValType::I32 });
                    proof {
                        lemma_prefix_refl(masm.insts@);
                    }
                    r
                },
                Op::I64Const(c) => {
                    let r = self.op_push_val(Val::Imm { bits: c, ty: ValType::I64 });
                    proof {
                        lemma_prefix_refl(masm.insts@);
                    }
                    r
                },
                Op::LocalGet(i) => {
                    if i as usize >= self.context.frame.locals.len() {
                        return Err(CodegenError::InvalidLocalIndex);
                    }
                    let ty = self.context.frame.locals[i as usize].ty;
                    match val_class(ty) {
                        RegClass::Int => {},
                        RegClass::Float => {
                            return Err(CodegenError::UnsupportedType);
                        },
                    }
                    let r = self.op_push_val(Val::Local { index: i as usize, ty });
                    proof {
                        lemma_prefix_refl(masm.insts@);
                    }
                    r
                },
                Op::LocalSet(i) => self.op_local_set(masm, i),
                Op::Drop => self.op_drop(masm),
                Op::I32Add => self.op_binop(masm, ValType::I32, AluOp::Add),
                Op::I32Sub => self.op_binop(masm, ValType::I32, AluOp::Sub),
                Op::I32Mul => self.op_binop(masm, ValType::I32, AluOp::Mul),
                Op::I64Add => self.op_binop(masm, ValType::I64, AluOp::Add),
                Op::I64Sub => self.op_binop(masm, ValType::I64, AluOp::Sub),
                Op::I64Mul => self.op_binop(masm, ValType::I64, AluOp::Mul),
                Op::Block(a) => self.op_block(masm, a),
                Op::Loop(a) => self.op_loop(masm, a),
                Op::If(a) => self.op_if(masm, a),
                Op::Else => self.op_else(masm),
                Op::End => self.op_end(masm),
                Op::Br(d) => self.op_br(masm, d),
                Op::BrIf(d) => self.op_br_if(masm, d),
                Op::Call(f) => self.op_call(masm, f),
                Op::Unreachable => self.op_unreachable(masm),
            }
        } else {
            match op {
                Op::Block(_) => {
                    self.dead_depth = self.dead_depth + 1;
                    proof {
                        lemma_prefix_refl(masm.insts@);
                    }
                    Ok(())
                },
                Op::Loop(_) => {
                    self.dead_depth = self.dead_depth + 1;
                    proof {
                        lemma_prefix_refl(masm.insts@);
                    }
                    Ok(())
                },
                Op::If(_) => {
                    self.dead_depth = self.dead_depth + 1;
                    proof {
                        lemma_prefix_refl(masm.insts@);
                    }
                    Ok(())
                },
                Op::End => {
                    if self.dead_depth > 0 {
                        self.dead_depth = self.dead_depth - 1;
                        proof {
                            lemma_prefix_refl(masm.insts@);
                        }
                        Ok(())
                    } else {
                        self.revive_end(masm)
                    }
                },
                Op::Else => {
                    if self.dead_depth == 0 {
                        self.revive_else(masm)
                    } else {
                        proof {
                            lemma_prefix_refl(masm.insts@);
                        }
                        Ok(())
                    }
                },
                _ => {
                    proof {
                        lemma_prefix_refl(masm.insts@);
                    }
                    Ok(())
                },
            }
        }
    }

    /// Translates one whole function body: the prologue saves the frame
    /// state and reserves the local and spill areas, register arguments
    /// are stored to their slots, declared locals are zero-initialized,
    /// and every operation is translated in one linear pass; the epilogue
    /// releases the frame and returns.  The body must close every construct
    /// it opens, its own outermost one last.
    pub fn emit(&mut self, masm: &mut MacroAssembler, ops: &Vec<Op>) -> (r: Result<
        (),
        CodegenError,
    >)
        requires
            old(self).wf(),
            old(self).ctrl@.len() == 0,
            old(self).context.stack@.len() == 0,
            old(self).reachable,
            old(self).dead_depth == 0,
            old(self).frame_size == 0,
            old(self).context.frame.locals@.len() <= 0x10_0000,
            old(self).sig.params@.len() == old(self).context.frame.arg_count,
            old(self).context.frame.arg_count <= old(self).context.frame.locals@.len(),
            old(masm).insts@.len() == 0,
            old(masm).sp_offset == 0,
            old(masm).next_label == 0,
            ops@.len() <= 0x10_0000,
        ensures
            match r {
                Ok(_) => {
                    &&& final(masm).sp_offset == 0
                    &&& final(masm).insts@.len() > 0
                    &&& final(masm).insts@.last() == Inst::Ret
                    &&& final(self).ctrl@.len() == 0
                    &&& spec_frame_setup(
                        old(self).sig,
                        old(self).context.frame,
                        old(masm).sp,
                        old(masm).fp,
                        (old(self).spill_base + 8 * (ops@.len() + 1)) as u32,
                    ).is_prefix_of(final(masm).insts@)
                },
                Err(_) => true,
            },
    {
        masm.prologue();
        let nops = ops.len();
        let spill_area: u32 = 8 * ((nops as u32) + 1);
        let total: u32 = self.spill_base + spill_area;
        self.frame_size = total;
        masm.reserve_stack(total);

        // Store register arguments into their frame slots.
        let nparams = self.sig.params.len();
        let mut i: usize = 0;
        while i < nparams
            invariant
                self.wf(),
                self.frame_size == total,
                self.context == old(self).context,
                self.sig == old(self).sig,
                self.ctrl@.len() == 0,
                self.reachable,
                self.dead_depth == 0,
                self.context.stack@.len() == 0,
                nparams == self.sig.params@.len(),
                nparams <= self.context.frame.locals@.len(),
                i <= nparams,
                nparams <= 0x10_0000,
                masm.insts@ == seq![
                    Inst::Push { reg: old(masm).fp },
                    Inst::MovRR { src: old(masm).sp, dst: old(masm).fp, size: OperandSize::S64 },
                    Inst::ReserveSp { bytes: total },
                ] + spec_arg_stores(self.sig.params@, self.context.frame.locals@, i as int),
                masm.sp == old(masm).sp,
                masm.fp == old(masm).fp,
                masm.insts@.len() <= 3 + i,
                masm.sp_offset == total,
                masm.next_label == 0,
            decreases nparams - i,
        {
            match self.sig.params[i] {
                ABIArg::Reg { reg, ty } => {
                    let addr = local_address(&self.context.frame, i);
                    masm.store(RegImm::reg(reg), addr, val_size(ty));
                },
                ABIArg::Stack { .. } => {},
            }
            i = i + 1;
            proof {
                assert(masm.insts@ =~= seq![
                    Inst::Push { reg: old(masm).fp },
                    Inst::MovRR { src: old(masm).sp, dst: old(masm).fp, size: OperandSize::S64 },
                    Inst::ReserveSp { bytes: total },
                ] + spec_arg_stores(self.sig.params@, self.context.frame.locals@, i as int));
            }
        }

        // Zero-initialize the declared locals.
        let nlocals = self.context.frame.locals.len();
        let mut k: usize = self.context.frame.arg_count;
        while k < nlocals
            invariant
                self.wf(),
                self.frame_size == total,
                self.context == old(self).context,
                self.sig == old(self).sig,
                self.ctrl@.len() == 0,
                self.reachable,
                self.dead_depth == 0,
                self.context.stack@.len() == 0,
                nlocals == self.context.frame.locals@.len(),
                nlocals <= 0x10_0000,
                nparams <= nlocals,
                nparams == self.sig.params@.len(),
                k <= nlocals,
                k >= self.context.frame.arg_count,
                nparams == self.context.frame.arg_count,
                masm.insts@ == seq![
                    Inst::Push { reg: old(masm).fp },
                    Inst::MovRR { src: old(masm).sp, dst: old(masm).fp, size: OperandSize::S64 },
                    Inst::ReserveSp { bytes: total },
                ] + spec_arg_stores(
                    self.sig.params@,
                    self.context.frame.locals@,
                    nparams as int,
                ) + spec_zero_stores(
                    self.context.frame.locals@,
                    self.context.frame.arg_count as int,
                    k - self.context.frame.arg_count,
                ),
                masm.sp == old(masm).sp,
                masm.fp == old(masm).fp,
                masm.insts@.len() <= 3 + nparams + k,
                masm.sp_offset == total,
                masm.next_label == 0,
            decreases nlocals - k,
        {
            let addr = local_address(&self.context.frame, k);
            masm.store(RegImm::imm(0), addr, OperandSize::S64);
            k = k + 1;
            proof {
                assert(masm.insts@ =~= seq![
                    Inst::Push { reg: old(masm).fp },
                    Inst::MovRR { src: old(masm).sp, dst: old(masm).fp, size: OperandSize::S64 },
                    Inst::ReserveSp { bytes: total },
                ] + spec_arg_stores(
                    self.sig.params@,
                    self.context.frame.locals@,
                    nparams as int,
                ) + spec_zero_stores(
                    self.context.frame.locals@,
                    self.context.frame.arg_count as int,
                    k - self.context.frame.arg_count,
                ));
            }
        }

        let ghost setup = masm.insts@;
        proof {
            assert(setup =~= spec_frame_setup(
                old(self).sig,
                old(self).context.frame,
                old(masm).sp,
                old(masm).fp,
                total,
            ));
            lemma_prefix_refl(setup);
        }
        // The function body is its own outermost construct.
        let end_label = masm.get_label();
        let arity = match self.sig.result {
            ABIResult::Void => BlockArity::Empty,
            ABIResult::Reg { reg: _, ty } => BlockArity::One(ty),
        };
        self.ctrl.push(
            ControlFrame {
                kind: CtrlKind::Block,
                label: end_label,
                else_label: end_label,
                entry_height: 0,
                arity,
            },
        );

        let mut p: usize = 0;
        while p < nops
            invariant
                self.wf(),
                self.frame_size == total,
                nops == ops@.len(),
                nops <= 0x10_0000,
                p <= nops,
                self.context.stack@.len() <= p,
                self.ctrl@.len() <= 1 + p,
                self.dead_depth <= p,
                masm.sp_offset == total,
                masm.insts@.len() <= 0x0FFF_0000 + 0x33_0000,
                masm.next_label <= 1 + 2 * p,
                setup.is_prefix_of(masm.insts@),
                total == (old(self).spill_base + 8 * (ops@.len() + 1)) as u32,
                setup == spec_frame_setup(
                    old(self).sig,
                    old(self).context.frame,
                    old(masm).sp,
                    old(masm).fp,
                    total,
                ),
            decreases nops - p,
        {
            if self.ctrl.len() == 0 {
                return Err(CodegenError::UnbalancedControlFlow);
            }
            if masm.insts.len() > 0x0FFF_0000 {
                return Err(CodegenError::CodeTooLarge);
            }
            let op = ops[p];
            let ghost mpre = masm.insts@;
            match self.emit_op(masm, op) {
                Ok(_) => {},
                Err(e) => {
                    return Err(e);
                },
            }
            proof {
                lemma_prefix_trans(setup, mpre, masm.insts@);
            }
            p = p + 1;
        }
        if self.ctrl.len() > 0 {
            return Err(CodegenError::UnbalancedControlFlow);
        }
        let ghost pre_epi = masm.insts@;
        masm.epilogue(total);
        proof {
            assert(masm.insts@.last() == Inst::Ret);
            lemma_prefix_append(pre_epi, seq![
                Inst::FreeSp { bytes: total },
                Inst::Pop { reg: old(masm).fp },
                Inst::Ret,
            ]);
            lemma_prefix_trans(setup, pre_epi, masm.insts@);
        }
        Ok(())
    }
}

} // verus!
