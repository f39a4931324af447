//! The calling-convention classifier.
//!
//! Given a function signature and a calling convention, every parameter is
//! assigned a concrete location — the next free argument register of its
//! class while one remains, then increasing, pointer-aligned stack slots —
//! and the single result value is assigned the convention's result register.

use vstd::arithmetic::div_mod::{
    lemma_fundamental_div_mod, lemma_mod_bound, lemma_mod_multiples_basic, lemma_mod_self_0,
    lemma_small_mod,
};
use vstd::prelude::*;

use crate::masm::OperandSize;
use crate::reg::{Reg, RegClass};
use crate::types::{CodegenError, Signature, ValType};

verus! {

/// The register class that carries values of `ty`.
pub open spec fn spec_val_class(ty: ValType) -> RegClass {
    match ty {
        ValType::I32 => RegClass::Int,
        ValType::I64 => RegClass::Int,
        ValType::F32 => RegClass::Float,
        ValType::F64 => RegClass::Float,
    }
}

/// Executable twin of [`spec_val_class`].
pub fn val_class(ty: ValType) -> (r: RegClass)
    ensures
        r == spec_val_class(ty),
{
    match ty {
        ValType::I32 => RegClass::Int,
        ValType::I64 => RegClass::Int,
        ValType::F32 => RegClass::Float,
        ValType::F64 => RegClass::Float,
    }
}

/// The operand width that moves values of `ty`.
pub open spec fn spec_val_size(ty: ValType) -> OperandSize {
    match ty {
        ValType::I32 => OperandSize::S32,
        ValType::I64 => OperandSize::S64,
        ValType::F32 => OperandSize::S32,
        ValType::F64 => OperandSize::S64,
    }
}

/// Executable twin of [`spec_val_size`].
pub fn val_size(ty: ValType) -> (r: OperandSize)
    ensures
        r == spec_val_size(ty),
{
    match ty {
        ValType::I32 => OperandSize::S32,
        ValType::I64 => OperandSize::S64,
        ValType::F32 => OperandSize::S32,
        ValType::F64 => OperandSize::S64,
    }
}

/// `x` rounded up to the next multiple of `align`.
pub open spec fn spec_align_to(x: int, align: int) -> int {
    ((x + align - 1) / align) * align
}

/// Rounds `x` up to the next multiple of `align`.
pub fn align_to(x: u32, align: u32) -> (r: u32)
    requires
        align > 0,
        x + align - 1 <= u32::MAX,
    ensures
        r == spec_align_to(x as int, align as int),
        r % align == 0,
        x <= r < x + align,
{
    let total: u32 = x + (align - 1);
    let q: u32 = total / align;
    proof {
        lemma_fundamental_div_mod(total as int, align as int);
        vstd::arithmetic::div_mod::lemma_mod_bound(total as int, align as int);
        lemma_mod_multiples_basic(q as int, align as int);
        assert((align as int) * (q as int) <= total as int);
    }
    q * align
}

/// How many padding bytes bring `sp_offset + arg_base` up to the next
/// multiple of `align`.
pub open spec fn spec_frame_adjustment(sp_offset: int, arg_base: int, align: int) -> int {
    (align - (sp_offset + arg_base) % align) % align
}

/// The padding needed so that, `arg_base` bytes into a frame currently
/// `sp_offset` bytes deep, the stack meets the target's call-stack
/// alignment.
pub fn calculate_frame_adjustment(sp_offset: u32, arg_base: u32, align: u32) -> (r: u32)
    requires
        0 < align <= 0x1000,
        sp_offset + arg_base <= 0x8000_0000,
    ensures
        r == spec_frame_adjustment(sp_offset as int, arg_base as int, align as int),
        r < align,
{
    let total: u32 = sp_offset + arg_base;
    let rem: u32 = total % align;
    proof {
        lemma_mod_bound(total as int, align as int);
        if rem == 0 {
            lemma_mod_self_0(align as int);
        } else {
            lemma_small_mod((align - rem) as nat, align as nat);
        }
    }
    if rem == 0 {
        0
    } else {
        align - rem
    }
}

/// Padding a length by the distance to the next multiple of `align`
/// reaches a multiple of `align`.
pub proof fn lemma_align_rem(len: int, pad: int, align: int, rem: int)
    requires
        0 < align,
        0 <= len,
        rem == len % align,
        pad == (if rem == 0 {
            0int
        } else {
            align - rem
        }),
    ensures
        (len + pad) % align == 0,
{
    lemma_fundamental_div_mod(len, align);
    lemma_mod_bound(len, align);
    let q = len / align;
    if rem == 0 {
        lemma_mod_multiples_basic(q, align);
    } else {
        assert(align * (q + 1) == align * q + align) by (nonlinear_arith);
        assert(len + pad == align * (q + 1));
        lemma_mod_multiples_basic(q + 1, align);
    }
}

/// One parameter's classified location: a register, or a stack slot at a
/// byte offset within the outgoing argument area.
#[derive(Clone, Copy, Debug, PartialEq, Eq, Structural)]
pub enum ABIArg {
    Reg { reg: Reg, ty: ValType },
    Stack { offset: u32, ty: ValType },
}

impl ABIArg {
    pub open spec fn ty(self) -> ValType {
        match self {
            ABIArg::Reg { ty, .. } => ty,
            ABIArg::Stack { ty, .. } => ty,
        }
    }

    pub open spec fn is_reg(self) -> bool {
        self is Reg
    }

    pub open spec fn spec_reg(self) -> Reg {
        self->Reg_reg
    }

    pub open spec fn spec_offset(self) -> u32 {
        self->Stack_offset
    }
}

/// The classified location of the (at most one) result value.
#[derive(Clone, Copy, Debug, PartialEq, Eq, Structural)]
pub enum ABIResult {
    Void,
    Reg { reg: Reg, ty: ValType },
}

/// The classified form of a signature for one calling convention: one
/// location per parameter in parameter order, the result location, and the
/// total stack-argument byte size rounded up to the convention's call-stack
/// alignment.
#[derive(Clone, Debug, PartialEq, Eq)]
pub struct ABISig {
    pub params: Vec<ABIArg>,
    pub result: ABIResult,
    pub stack_bytes: u32,
}

impl ABISig {
    /// The location part of the classification law, independent of the
    /// signature classified: registers are well-formed and never assigned
    /// twice, stack-slot offsets are strictly increasing, aligned to the
    /// pointer width, and inside the reported stack-argument area.
    pub open spec fn params_wf(self) -> bool {
        &&& forall|i: int|
            0 <= i < self.params@.len() && self.params@[i].is_reg() ==> (
            #[trigger] self.params@[i]).spec_reg().wf()
        &&& forall|i: int, j: int|
            0 <= i < j < self.params@.len() && self.params@[i].is_reg()
                && self.params@[j].is_reg() ==> (#[trigger] self.params@[i]).spec_reg() != (
            #[trigger] self.params@[j]).spec_reg()
        &&& forall|i: int, j: int|
            0 <= i < j < self.params@.len() && !self.params@[i].is_reg()
                && !self.params@[j].is_reg() ==> (#[trigger] self.params@[i]).spec_offset() < (
            #[trigger] self.params@[j]).spec_offset()
        &&& forall|i: int|
            0 <= i < self.params@.len() && !self.params@[i].is_reg() ==> (
            #[trigger] self.params@[i]).spec_offset() % 8 == 0 && self.params@[i].spec_offset() + 8
                <= self.stack_bytes
    }

    /// The classification law for one signature and convention: one entry
    /// per parameter, types kept, locations well-formed as in
    /// [`ABISig::params_wf`], the stack-argument area aligned, and the
    /// result in the convention's result register.
    pub open spec fn wf_for(self, conv: CallingConv, ty: Signature) -> bool {
        &&& self.params_wf()
        &&& self.params@.len() == ty.params@.len()
        &&& forall|i: int|
            0 <= i < self.params@.len() ==> (#[trigger] self.params@[i]).ty() == ty.params@[i]
        &&& forall|i: int|
            0 <= i < self.params@.len() && self.params@[i].is_reg() ==> (
            #[trigger] self.params@[i]).spec_reg().class == spec_val_class(ty.params@[i])
        &&& self.stack_bytes % conv.stack_align == 0
        &&& match self.result {
            ABIResult::Void => ty.results@.len() == 0,
            ABIResult::Reg { reg, ty: rty } => ty.results@.len() == 1 && rty == ty.results@[0]
                && Some(reg) == conv.spec_result_reg(spec_val_class(rty)),
        }
    }
}

/// One calling convention: the ordered argument-register pools of both
/// classes, the result register of each class if the convention has one,
/// the call-stack alignment, and the offset from the frame pointer at which
/// the caller's stack-argument area begins.
#[derive(Clone, Debug, PartialEq, Eq)]
pub struct CallingConv {
    pub int_params: Vec<Reg>,
    pub float_params: Vec<Reg>,
    pub int_result: Option<Reg>,
    pub float_result: Option<Reg>,
    pub stack_align: u32,
    pub arg_base_offset: u32,
}

/// The classification algorithm as a mathematical function: the locations
/// of the first `n` parameters together with the classifier state after
/// them — registers used per class, the stack cursor, and whether the pool
/// has spilled to the stack.  Parameters are classified left to right; each
/// takes the next register of its class while that class's ordered pool
/// lasts, and once any parameter has gone to the stack every later
/// parameter of either class is placed at the next 8-byte stack slot.
pub open spec fn spec_classify(conv: CallingConv, tys: Seq<ValType>, n: int) -> (
    Seq<ABIArg>,
    int,
    int,
    int,
    bool,
)
    decreases n,
{
    if n <= 0 {
        (Seq::<ABIArg>::empty(), 0, 0, 0, false)
    } else {
        let (s, ni, nf, cur, on) = spec_classify(conv, tys, n - 1);
        let ty = tys[n - 1];
        let class = spec_val_class(ty);
        if !on && class == RegClass::Int && ni < conv.int_params@.len() {
            (s.push(ABIArg::Reg { reg: conv.int_params@[ni], ty }), ni + 1, nf, cur, on)
        } else if !on && class == RegClass::Float && nf < conv.float_params@.len() {
            (s.push(ABIArg::Reg { reg: conv.float_params@[nf], ty }), ni, nf + 1, cur, on)
        } else {
            (s.push(ABIArg::Stack { offset: cur as u32, ty }), ni, nf, cur + 8, true)
        }
    }
}

impl CallingConv {
    /// The convention's result register of `class`, if it has one.
    pub open spec fn spec_result_reg(self, class: RegClass) -> Option<Reg> {
        match class {
            RegClass::Int => self.int_result,
            RegClass::Float => self.float_result,
        }
    }

    /// A usable convention: both pools hold well-formed registers of their
    /// own class with no repeats, result registers match their class, and
    /// the alignment is positive and bounded.
    pub open spec fn wf(self) -> bool {
        &&& forall|i: int|
            0 <= i < self.int_params@.len() ==> (#[trigger] self.int_params@[i]).wf()
                && self.int_params@[i].class == RegClass::Int
        &&& forall|i: int|
            0 <= i < self.float_params@.len() ==> (#[trigger] self.float_params@[i]).wf()
                && self.float_params@[i].class == RegClass::Float
        &&& forall|i: int, j: int|
            0 <= i < j < self.int_params@.len() ==> self.int_params@[i] != self.int_params@[j]
        &&& forall|i: int, j: int|
            0 <= i < j < self.float_params@.len() ==> self.float_params@[i]
                != self.float_params@[j]
        &&& match self.int_result {
            Some(r) => r.wf() && r.class == RegClass::Int,
            None => true,
        }
        &&& match self.float_result {
            Some(r) => r.wf() && r.class == RegClass::Float,
            None => true,
        }
        &&& 0 < self.stack_align <= 0x1000
        &&& self.arg_base_offset <= 0x1000
    }

    /// Classifies `ty` under this convention.
    ///
    /// Parameters are classified left to right; each is assigned the next
    /// register of its class while that class's ordered pool lasts, and once
    /// any parameter has gone to the stack every later parameter of either
    /// class follows it, at increasing pointer-aligned offsets.  Succeeds on
    /// exactly the signatures with at most one result for which, if a result
    /// is present, the convention names a result register of its class; a
    /// second result value and a missing result register are contract
    /// violations reported to the caller, never coerced.
    pub fn sig(&self, ty: &Signature) -> (r: Result<ABISig, CodegenError>)
        requires
            self.wf(),
            ty.params@.len() <= 0x10_0000,
        ensures
            match r {
                Ok(s) => {
                    &&& s.wf_for(*self, *ty)
                    &&& s.params@ == spec_classify(*self, ty.params@, ty.params@.len() as int).0
                    &&& s.stack_bytes == spec_align_to(
                        spec_classify(*self, ty.params@, ty.params@.len() as int).3,
                        self.stack_align as int,
                    )
                    &&& s.stack_bytes <= 8 * ty.params@.len() + self.stack_align
                    &&& ty.results@.len() <= 1
                    &&& (ty.results@.len() == 1 ==> self.spec_result_reg(
                        spec_val_class(ty.results@[0]),
                    ) is Some)
                },
                Err(e) => {
                    &&& e == CodegenError::UnsupportedMultiValue || e
                        == CodegenError::MissingResultRegister
                    &&& (e == CodegenError::UnsupportedMultiValue <==> ty.results@.len() > 1)
                    &&& (e == CodegenError::MissingResultRegister <==> ty.results@.len() == 1
                        && self.spec_result_reg(spec_val_class(ty.results@[0])) is None)
                },
            },
    {
        let result = if ty.results.len() > 1 {
            return Err(CodegenError::UnsupportedMultiValue);
        } else if ty.results.len() == 1 {
            let rty = ty.results[0];
            let class = val_class(rty);
            let reg_opt = match class {
                RegClass::Int => self.int_result,
                RegClass::Float => self.float_result,
            };
            match reg_opt {
                Some(reg) => ABIResult::Reg { reg, ty: rty },
                None => {
                    return Err(CodegenError::MissingResultRegister);
                },
            }
        } else {
            ABIResult::Void
        };

        let mut params: Vec<ABIArg> = Vec::new();
        let mut ni: usize = 0;
        let mut nf: usize = 0;
        let mut cursor: u32 = 0;
        let mut on_stack: bool = false;
        let n = ty.params.len();
        let mut i: usize = 0;
        while i < n
            invariant
                self.wf(),
                n == ty.params@.len(),
                n <= 0x10_0000,
                i <= n,
                params@.len() == i,
                ni <= self.int_params@.len(),
                nf <= self.float_params@.len(),
                cursor % 8 == 0,
                cursor <= 8 * i,
                forall|k: int| 0 <= k < i ==> (#[trigger] params@[k]).ty() == ty.params@[k],
                forall|k: int|
                    0 <= k < i && params@[k].is_reg() ==> (#[trigger] params@[k]).spec_reg().wf()
                        && params@[k].spec_reg().class == spec_val_class(ty.params@[k]),
                forall|k: int|
                    0 <= k < i && params@[k].is_reg() && (#[trigger] params@[k]).spec_reg().class
                        == RegClass::Int ==> self.int_params@.subrange(0, ni as int).contains(
                        params@[k].spec_reg(),
                    ),
                forall|k: int|
                    0 <= k < i && params@[k].is_reg() && (#[trigger] params@[k]).spec_reg().class
                        == RegClass::Float ==> self.float_params@.subrange(0, nf as int).contains(
                        params@[k].spec_reg(),
                    ),
                forall|k1: int, k2: int|
                    0 <= k1 < k2 < i && params@[k1].is_reg() && params@[k2].is_reg() ==> (
                    #[trigger] params@[k1]).spec_reg() != (#[trigger] params@[k2]).spec_reg(),
                forall|k: int|
                    0 <= k < i && !params@[k].is_reg() ==> (#[trigger] params@[k]).spec_offset() % 8
                        == 0 && params@[k].spec_offset() + 8 <= cursor,
                forall|k1: int, k2: int|
                    0 <= k1 < k2 < i && !params@[k1].is_reg() && !params@[k2].is_reg() ==> (
                    #[trigger] params@[k1]).spec_offset() < (#[trigger] params@[k2]).spec_offset(),
                (params@, ni as int, nf as int, cursor as int, on_stack) == spec_classify(
                    *self,
                    ty.params@,
                    i as int,
                ),
            decreases n - i,
        {
            let pty = ty.params[i];
            let mut assigned: Option<Reg> = None;
            if !on_stack {
                match val_class(pty) {
                    RegClass::Int => {
                        if ni < self.int_params.len() {
                            assigned = Some(self.int_params[ni]);
                            proof {
                                lemma_next_pool_reg_fresh(self.int_params@, ni as int);
                                lemma_prefix_contains_last(self.int_params@, ni as int);
                                lemma_subrange_grow(self.int_params@, ni as int + 1);
                            }
                            ni = ni + 1;
                        } else {
                            on_stack = true;
                        }
                    },
                    RegClass::Float => {
                        if nf < self.float_params.len() {
                            assigned = Some(self.float_params[nf]);
                            proof {
                                lemma_next_pool_reg_fresh(self.float_params@, nf as int);
                                lemma_prefix_contains_last(self.float_params@, nf as int);
                                lemma_subrange_grow(self.float_params@, nf as int + 1);
                            }
                            nf = nf + 1;
                        } else {
                            on_stack = true;
                        }
                    },
                }
            }
            match assigned {
                Some(reg) => {
                    params.push(ABIArg::Reg { reg, ty: pty });
                },
                None => {
                    params.push(ABIArg::Stack { offset: cursor, ty: pty });
                    cursor = cursor + 8;
                },
            }
            i = i + 1;
        }
        let stack_bytes = align_to(cursor, self.stack_align);
        Ok(ABISig { params, result, stack_bytes })
    }
}

/// In a pool without repeats, the register at position `n` is not among the
/// first `n`.
proof fn lemma_next_pool_reg_fresh(pool: Seq<Reg>, n: int)
    requires
        0 <= n < pool.len(),
        forall|i: int, j: int| 0 <= i < j < pool.len() ==> pool[i] != pool[j],
    ensures
        !pool.subrange(0, n).contains(pool[n]),
{
    if pool.subrange(0, n).contains(pool[n]) {
        let j = choose|j: int| 0 <= j < n && pool.subrange(0, n)[j] == pool[n];
        assert(pool[j] == pool[n]);
        assert(false);
    }
}

/// The first `n + 1` positions of a pool contain the register at position
/// `n`.
proof fn lemma_prefix_contains_last(pool: Seq<Reg>, n: int)
    requires
        0 <= n < pool.len(),
    ensures
        pool.subrange(0, n + 1).contains(pool[n]),
{
    assert(pool.subrange(0, n + 1)[n] == pool[n]);
}

/// Whatever the first `m` positions of a pool contain, the first `n`
/// positions contain as well, for `m <= n`.
proof fn lemma_subrange_grow(pool: Seq<Reg>, n: int)
    requires
        0 <= n <= pool.len(),
    ensures
        forall|x: Reg, m: int|
            0 <= m <= n && #[trigger] pool.subrange(0, m).contains(x) ==> pool.subrange(
                0,
                n,
            ).contains(x),
{
    assert forall|x: Reg, m: int|
        0 <= m <= n && #[trigger] pool.subrange(0, m).contains(x) implies pool.subrange(
        0,
        n,
    ).contains(x) by {
        let j = choose|j: int| 0 <= j < m && pool.subrange(0, m)[j] == x;
        assert(pool.subrange(0, n)[j] == x);
    }
}

} // verus!
