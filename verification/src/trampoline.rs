//! The trampoline generator: adapter code between the host's generic
//! marshalling convention and the target's native convention.
//!
//! A host-to-wasm trampoline receives four pointer-sized control words —
//! two context pointers, the callee's address, and a pointer to a flat
//! array of 16-byte value slots — and, for each callee parameter in order,
//! loads the value from its slot and places it where the callee's
//! classified signature demands, reserving aligned stack space for any
//! stack-classified argument.  After the call, the single result register
//! is stored back into the first value slot.

use vstd::prelude::*;

use crate::abi::{
    align_to, calculate_frame_adjustment, spec_align_to, spec_classify, spec_frame_adjustment,
    spec_val_class, spec_val_size, val_size, ABIArg, ABIResult, CallingConv,
};
use crate::masm::{Address, CallKind, Inst, MacroAssembler, OperandSize, RegImm};
use crate::reg::Reg;
use crate::types::{CodegenError, Signature, ValType};

verus! {

/// Each value slot in the host's argument array is as wide as the largest
/// scalar the host may pass: 16 bytes.
pub const VALUE_SLOT_SIZE: u32 = 16;

/// The parameter types of the fixed host-to-wasm trampoline signature:
/// callee context, caller context, callee address, value-array pointer.
pub open spec fn spec_host_params() -> Seq<ValType> {
    seq![ValType::I64, ValType::I64, ValType::I64, ValType::I64]
}

/// The instructions that marshal the first `n` callee parameters out of the
/// value array (whose base address is held in `s1`): a register parameter
/// is loaded straight from its 16-byte slot; a stack parameter goes through
/// the second scratch register into its classified slot of the outgoing
/// argument area.
pub open spec fn spec_marshal_insts(params: Seq<ABIArg>, s1: Reg, s2: Reg, n: int) -> Seq<Inst>
    decreases n,
{
    if n <= 0 {
        Seq::<Inst>::empty()
    } else {
        let rest = spec_marshal_insts(params, s1, s2, n - 1);
        let slot = Address::RegOffset { base: s1, offset: (16 * (n - 1)) as u32 };
        match params[n - 1] {
            ABIArg::Reg { reg, ty } => rest + seq![
                Inst::Load { addr: slot, dst: reg, size: spec_val_size(ty) },
            ],
            ABIArg::Stack { offset, ty } => rest + seq![
                Inst::Load { addr: slot, dst: s2, size: spec_val_size(ty) },
                Inst::Store { src: s2, addr: Address::SpOffset { offset }, size: spec_val_size(
                    ty,
                ) },
            ],
        }
    }
}

/// The whole instruction sequence of a host-to-wasm trampoline for a callee
/// of signature `ty` under convention `conv`, with scratch registers `s1`
/// and `s2` and the target's stack and frame pointers.
pub open spec fn spec_host_to_wasm_insts(
    conv: CallingConv,
    ty: Signature,
    s1: Reg,
    s2: Reg,
    sp: Reg,
    fp: Reg,
) -> Seq<Inst> {
    let host = spec_classify(conv, spec_host_params(), 4).0;
    let callee = spec_classify(conv, ty.params@, ty.params@.len() as int);
    let callee_stack_bytes = spec_align_to(callee.3, conv.stack_align as int);
    let delta = spec_frame_adjustment(32, conv.arg_base_offset as int, conv.stack_align as int);
    let total = spec_align_to(callee_stack_bytes + delta, conv.stack_align as int);
    seq![
        Inst::Push { reg: fp },
        Inst::MovRR { src: sp, dst: fp, size: OperandSize::S64 },
        Inst::Push { reg: host[0].spec_reg() },
        Inst::Push { reg: host[1].spec_reg() },
        Inst::Push { reg: host[2].spec_reg() },
        Inst::Push { reg: host[3].spec_reg() },
        Inst::MovRR { src: host[3].spec_reg(), dst: s1, size: OperandSize::S64 },
        Inst::ReserveSp { bytes: total as u32 },
    ] + spec_marshal_insts(callee.0, s1, s2, ty.params@.len() as int) + seq![
        Inst::Load {
            addr: Address::SpOffset { offset: (total + 8) as u32 },
            dst: s1,
            size: OperandSize::S64,
        },
        Inst::Call { kind: CallKind::Indirect(s1) },
        Inst::FreeSp { bytes: total as u32 },
        Inst::Load { addr: Address::SpOffset { offset: 0 }, dst: s1, size: OperandSize::S64 },
    ] + (match spec_result_store(conv, ty, s1) {
        Some(inst) => seq![inst],
        None => Seq::<Inst>::empty(),
    }) + seq![Inst::FreeSp { bytes: 32 }, Inst::Pop { reg: fp }, Inst::Ret]
}

/// The store that writes the callee's result register back into the first
/// value slot, if the callee returns a value.
pub open spec fn spec_result_store(conv: CallingConv, ty: Signature, s1: Reg) -> Option<Inst> {
    if ty.results@.len() == 1 {
        match conv.spec_result_reg(spec_val_class(ty.results@[0])) {
            Some(reg) => Some(
                Inst::Store {
                    src: reg,
                    addr: Address::RegOffset { base: s1, offset: 0 },
                    size: spec_val_size(ty.results@[0]),
                },
            ),
            None => None,
        }
    } else {
        None
    }
}

/// The trampoline generator: the convention both sides are classified
/// under and the two scratch registers the adapter may clobber.
pub struct Trampoline {
    pub conv: CallingConv,
    pub scratch_1: Reg,
    pub scratch_2: Reg,
}

impl Trampoline {
    pub fn new(conv: CallingConv, scratch_1: Reg, scratch_2: Reg) -> (r: Trampoline)
        ensures
            r.conv == conv,
            r.scratch_1 == scratch_1,
            r.scratch_2 == scratch_2,
    {
        Trampoline { conv, scratch_1, scratch_2 }
    }

    /// Emits the host-to-wasm adapter for a callee of signature `ty` into
    /// `masm`.
    ///
    /// On success the emitted instructions are exactly
    /// [`spec_host_to_wasm_insts`] and the tracked stack depth returns to
    /// zero.  Emission is refused — with nothing emitted — exactly when the
    /// callee signature cannot be classified (more than one result, or no
    /// result register of the result's class) or when the host convention
    /// does not place the callee address and the value-array pointer in
    /// registers.
    #[verifier::rlimit(100)]
    pub fn emit_host_to_wasm(&self, masm: &mut MacroAssembler, ty: &Signature) -> (r: Result<
        (),
        CodegenError,
    >)
        requires
            self.conv.wf(),
            ty.params@.len() <= 0x10_0000,
            old(masm).sp_offset == 0,
            old(masm).insts@.len() + 2 * ty.params@.len() + 32 <= usize::MAX,
        ensures
            match r {
                Ok(_) => {
                    &&& ty.results@.len() <= 1
                    &&& final(masm).insts@ == old(masm).insts@ + spec_host_to_wasm_insts(
                        self.conv,
                        *ty,
                        self.scratch_1,
                        self.scratch_2,
                        old(masm).sp,
                        old(masm).fp,
                    )
                    &&& final(masm).sp_offset == 0
                    &&& final(masm).sp == old(masm).sp
                    &&& final(masm).fp == old(masm).fp
                },
                Err(e) => {
                    &&& *final(masm) == *old(masm)
                    &&& (e == CodegenError::UnsupportedMultiValue || e
                        == CodegenError::MissingResultRegister || e
                        == CodegenError::ExpectedRegisterArgument)
                    &&& (e == CodegenError::UnsupportedMultiValue <==> ty.results@.len() > 1)
                    &&& (e == CodegenError::MissingResultRegister <==> ty.results@.len() == 1
                        && self.conv.spec_result_reg(spec_val_class(ty.results@[0])) is None)
                    &&& (e == CodegenError::ExpectedRegisterArgument <==> ty.results@.len() <= 1
                        && (ty.results@.len() == 1 ==> self.conv.spec_result_reg(
                        spec_val_class(ty.results@[0]),
                    ) is Some) && exists|i: int|
                        0 <= i < 4 && !(#[trigger] spec_classify(
                            self.conv,
                            spec_host_params(),
                            4,
                        ).0[i]).is_reg())
                },
            },
    {
        let host_ty = Signature {
            params: host_param_vec(),
            results: Vec::new(),
        };
        let host_sig = match self.conv.sig(&host_ty) {
            Ok(s) => s,
            Err(e) => {
                return Err(e);
            },
        };
        let callee_sig = match self.conv.sig(ty) {
            Ok(s) => s,
            Err(e) => {
                return Err(e);
            },
        };

        // The callee address and the value-array pointer must be register
        // arguments of the host convention; marshalling needs both.
        let r0 = match host_sig.params[0] {
            ABIArg::Reg { reg, .. } => reg,
            ABIArg::Stack { .. } => {
                return Err(CodegenError::ExpectedRegisterArgument);
            },
        };
        let r1 = match host_sig.params[1] {
            ABIArg::Reg { reg, .. } => reg,
            ABIArg::Stack { .. } => {
                return Err(CodegenError::ExpectedRegisterArgument);
            },
        };
        let func_ptr = match host_sig.params[2] {
            ABIArg::Reg { reg, .. } => reg,
            ABIArg::Stack { .. } => {
                return Err(CodegenError::ExpectedRegisterArgument);
            },
        };
        let val_ptr = match host_sig.params[3] {
            ABIArg::Reg { reg, .. } => reg,
            ABIArg::Stack { .. } => {
                return Err(CodegenError::ExpectedRegisterArgument);
            },
        };

        masm.prologue();

        // Spill all four control words; their slot depths after the four
        // pushes are 8, 16, 24 and 32 bytes.
        masm.push(r0);
        masm.push(r1);
        let func_ptr_depth = masm.push(func_ptr);
        let val_ptr_depth = masm.push(val_ptr);

        masm.mov(RegImm::reg(val_ptr), self.scratch_1, OperandSize::S64);

        // Stack space for the callee's stack arguments, padded so the call
        // meets the target's call-stack alignment.
        let delta = calculate_frame_adjustment(
            masm.sp_offset,
            self.conv.arg_base_offset,
            self.conv.stack_align,
        );
        let total_arg_stack_space = align_to(
            callee_sig.stack_bytes + delta,
            self.conv.stack_align,
        );
        masm.reserve_stack(total_arg_stack_space);

        let ghost marshal_base = masm.insts@;
        let n = ty.params.len();
        let mut i: usize = 0;
        while i < n
            invariant
                self.conv.wf(),
                n == callee_sig.params@.len(),
                n <= 0x10_0000,
                i <= n,
                callee_sig.params@ == spec_classify(self.conv, ty.params@, n as int).0,
                masm.insts@ == marshal_base + spec_marshal_insts(
                    callee_sig.params@,
                    self.scratch_1,
                    self.scratch_2,
                    i as int,
                ),
                masm.insts@.len() <= marshal_base.len() + 2 * i,
                marshal_base.len() + 2 * n + 16 <= usize::MAX,
                masm.sp_offset == 32 + total_arg_stack_space,
                masm.sp == old(masm).sp,
                masm.fp == old(masm).fp,
                masm.next_label == old(masm).next_label,
            decreases n - i,
        {
            let value_offset: u32 = (i as u32) * VALUE_SLOT_SIZE;
            match callee_sig.params[i] {
                ABIArg::Reg { reg, ty: pty } => {
                    masm.load(
                        masm.address_from_reg(self.scratch_1, value_offset),
                        reg,
                        val_size(pty),
                    );
                },
                ABIArg::Stack { offset, ty: pty } => {
                    masm.load(
                        masm.address_from_reg(self.scratch_1, value_offset),
                        self.scratch_2,
                        val_size(pty),
                    );
                    masm.store(
                        RegImm::reg(self.scratch_2),
                        masm.address_from_sp(offset),
                        val_size(pty),
                    );
                },
            }
            i = i + 1;
        }

        // The callee address: its slot sits `sp_offset - depth` bytes above
        // the stack pointer.
        masm.load(
            masm.address_from_sp(masm.sp_offset - func_ptr_depth),
            self.scratch_1,
            OperandSize::S64,
        );
        masm.call(CallKind::Indirect(self.scratch_1));
        masm.free_stack(total_arg_stack_space);

        // The value-array pointer again, to write the result back.
        masm.load(
            masm.address_from_sp(masm.sp_offset - val_ptr_depth),
            self.scratch_1,
            OperandSize::S64,
        );
        match callee_sig.result {
            ABIResult::Reg { reg, ty: rty } => {
                masm.store(
                    RegImm::reg(reg),
                    masm.address_from_reg(self.scratch_1, 0),
                    val_size(rty),
                );
            },
            ABIResult::Void => {},
        }

        masm.epilogue(32);
        proof {
            assert(masm.insts@ =~= old(masm).insts@ + spec_host_to_wasm_insts(
                self.conv,
                *ty,
                self.scratch_1,
                self.scratch_2,
                old(masm).sp,
                old(masm).fp,
            ));
        }
        Ok(())
    }
}

/// The four pointer-sized parameter types of the host trampoline.
fn host_param_vec() -> (r: Vec<ValType>)
    ensures
        r@ == spec_host_params(),
{
    let mut v: Vec<ValType> = Vec::new();
    v.push(ValType::I64);
    v.push(ValType::I64);
    v.push(ValType::I64);
    v.push(ValType::I64);
    proof {
        assert(v@ =~= spec_host_params());
    }
    v
}

} // verus!
