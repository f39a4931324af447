//! The aarch64 backend: register file, calling convention, the
//! fixed-width word encoder for the abstract instruction set, and the
//! per-function compile entry points.
//!
//! Wide immediates and large displacements do not fit a single A64 word;
//! this backend encodes such operations as short fixed-length sequences
//! that stage the value in the second scratch register, so every abstract
//! instruction still has a fixed byte length.

use vstd::prelude::*;

use crate::abi::CallingConv;
use crate::codegen::{CodeGen, CodeGenContext, FuncEnv, Op};
use crate::frame::{DefinedLocals, Frame};
use crate::isa::{Aarch64Flags, ArchFlags, Builder, Flags, Triple};
use crate::masm::{
    Address, AluOp, CallKind, Inst, MacroAssembler, MachBufferFinalized, MachReloc, MachTrap,
    OperandSize, RegImm,
};
use crate::obj::buffer_records_in_range;
use crate::reg::{Reg, RegClass};
use crate::regset::{RegAlloc, RegSet};
use crate::stack::OperandStack;
use crate::trampoline::Trampoline;
use crate::types::{CodegenError, RelocationKind, RelocationTarget, Signature};

verus! {

/// The allocatable general-purpose registers: x0 through x15.
pub const ALL_GPR: u32 = 0xFFFF;

/// The stack pointer.
pub fn sp_reg() -> (r: Reg)
    ensures
        r == (Reg { class: RegClass::Int, hw: 31 }),
{
    Reg { class: RegClass::Int, hw: 31 }
}

/// The frame pointer.
pub fn fp_reg() -> (r: Reg)
    ensures
        r == (Reg { class: RegClass::Int, hw: 29 }),
{
    Reg { class: RegClass::Int, hw: 29 }
}

/// The scratch register, never handed to the allocator.
pub fn scratch() -> (r: Reg)
    ensures
        r == (Reg { class: RegClass::Int, hw: 16 }),
        r.wf(),
{
    Reg { class: RegClass::Int, hw: 16 }
}

/// The second transient register, used to stage wide immediates and
/// stack-bound trampoline arguments.
pub fn scratch2() -> (r: Reg)
    ensures
        r == (Reg { class: RegClass::Int, hw: 17 }),
        r.wf(),
{
    Reg { class: RegClass::Int, hw: 17 }
}

/// The calling convention compiled wasm functions use on aarch64: the
/// AAPCS64 ordered register pools with a 16-byte call-stack alignment.
pub fn winch_call_conv() -> (r: CallingConv)
    ensures
        r.wf(),
        r.int_params@.len() == 8,
        forall|i: int|
            0 <= i < 8 ==> r.int_params@[i] == (Reg { class: RegClass::Int, hw: i as u8 }),
        r.float_params@.len() == 8,
        forall|i: int|
            0 <= i < 8 ==> r.float_params@[i] == (Reg { class: RegClass::Float, hw: i as u8 }),
        r.int_result == Some(Reg { class: RegClass::Int, hw: 0 }),
        r.float_result == Some(Reg { class: RegClass::Float, hw: 0 }),
        r.stack_align == 16,
        r.arg_base_offset == 16,
{
    let mut int_params: Vec<Reg> = Vec::new();
    let mut i: u8 = 0;
    while i < 8
        invariant
            i <= 8,
            int_params@.len() == i,
            forall|k: int|
                0 <= k < i ==> int_params@[k] == (Reg { class: RegClass::Int, hw: k as u8 }),
        decreases 8 - i,
    {
        int_params.push(Reg { class: RegClass::Int, hw: i });
        i = i + 1;
    }
    let mut float_params: Vec<Reg> = Vec::new();
    let mut j: u8 = 0;
    while j < 8
        invariant
            j <= 8,
            float_params@.len() == j,
            forall|k: int|
                0 <= k < j ==> float_params@[k] == (Reg { class: RegClass::Float, hw: k as u8 }),
        decreases 8 - j,
    {
        float_params.push(Reg { class: RegClass::Float, hw: j });
        j = j + 1;
    }
    CallingConv {
        int_params,
        float_params,
        int_result: Some(Reg { class: RegClass::Int, hw: 0 }),
        float_result: Some(Reg { class: RegClass::Float, hw: 0 }),
        stack_align: 16,
        arg_base_offset: 16,
    }
}

/// The convention the host side marshals through; it matches the native
/// convention on aarch64.
pub fn host_call_conv() -> (r: CallingConv)
    ensures
        r.wf(),
        r.int_params@.len() == 8,
        forall|i: int| 0 <= i < 8 ==> (#[trigger] r.int_params@[i]).class == RegClass::Int,
        r.int_result == Some(Reg { class: RegClass::Int, hw: 0 }),
        r.float_result == Some(Reg { class: RegClass::Float, hw: 0 }),
        r.stack_align == 16,
        r.arg_base_offset == 16,
{
    winch_call_conv()
}

/// Creates an ISA builder for an aarch64 triple.
pub fn isa_builder(triple: Triple) -> (r: Builder)
    ensures
        r.triple == triple,
        r.settings is Aarch64,
{
    Builder {
        triple,
        settings: ArchFlags::Aarch64(
            Aarch64Flags { use_bti: false, sign_return_address: false },
        ),
    }
}

/// The aarch64 ISA object, as the composition root instantiates it.
pub struct Aarch64 {
    pub triple: Triple,
    pub shared_flags: Flags,
    pub isa_flags: Aarch64Flags,
}

impl Aarch64 {
    /// Create an aarch64 ISA.
    pub fn new(triple: Triple, shared_flags: Flags, isa_flags: Aarch64Flags) -> (r: Aarch64)
        ensures
            r.triple == triple,
            r.shared_flags == shared_flags,
            r.isa_flags == isa_flags,
    {
        Aarch64 { triple, shared_flags, isa_flags }
    }

    /// Compiles one function body; see [`compile_function`].
    pub fn compile_function(
        &self,
        sig: &Signature,
        defined: &DefinedLocals,
        ops: &Vec<Op>,
        env: &FuncEnv,
    ) -> (r: Result<MachBufferFinalized, CodegenError>)
        requires
            sig.params@.len() <= 0x1000,
            defined.locals@.len() <= 0x1000,
            ops@.len() <= 0x10_0000,
            env.wf(),
        ensures
            r is Ok ==> buffer_records_in_range(r->Ok_0) && r->Ok_0.stack_maps@.len() == 0,
            sig.results@.len() > 1 ==> r == Err::<
                MachBufferFinalized,
                CodegenError,
            >(CodegenError::UnsupportedMultiValue),
    {
        compile_function(sig, defined, ops, env)
    }

    /// Builds the host-to-wasm trampoline; see [`compile_trampoline`].
    pub fn compile_trampoline(&self, ty: &Signature) -> (r: Result<
        MachBufferFinalized,
        CodegenError,
    >)
        requires
            ty.params@.len() <= 0x1000,
        ensures
            r is Err <==> ty.results@.len() > 1,
            r is Err ==> r->Err_0 == CodegenError::UnsupportedMultiValue,
            r is Ok ==> buffer_records_in_range(r->Ok_0) && r->Ok_0.traps@.len() == 0
                && r->Ok_0.relocs@.len() == 0 && r->Ok_0.data@.len() > 0
                && r->Ok_0.stack_maps@.len() == 0,
    {
        compile_trampoline(ty)
    }
}

/// Compiles one function body to aarch64 machine code.
pub fn compile_function(
    sig: &Signature,
    defined: &DefinedLocals,
    ops: &Vec<Op>,
    env: &FuncEnv,
) -> (r: Result<MachBufferFinalized, CodegenError>)
    requires
        sig.params@.len() <= 0x1000,
        defined.locals@.len() <= 0x1000,
        ops@.len() <= 0x10_0000,
        env.wf(),
    ensures
        r is Ok ==> buffer_records_in_range(r->Ok_0) && r->Ok_0.stack_maps@.len() == 0,
        sig.results@.len() > 1 ==> r == Err::<
            MachBufferFinalized,
            CodegenError,
        >(CodegenError::UnsupportedMultiValue),
{
    let conv = winch_call_conv();
    let abi_sig = match conv.sig(sig) {
        Ok(s) => s,
        Err(e) => {
            return Err(e);
        },
    };
    let frame = Frame::new(&abi_sig, defined, &conv);
    let regset = RegSet::new(ALL_GPR, 0);
    proof {
        assert(!crate::regset::bit(ALL_GPR, 16)) by (bit_vector);
    }
    let regalloc = RegAlloc::new(regset, scratch());
    let stack = OperandStack::new();
    let context = CodeGenContext::new(regalloc, stack, frame);
    let mut codegen = CodeGen::new(context, env.duplicate(), abi_sig, conv);
    let mut masm = MacroAssembler::new(sp_reg(), fp_reg());
    match codegen.emit(&mut masm, ops) {
        Ok(_) => {},
        Err(e) => {
            return Err(e);
        },
    }
    finalize(&masm)
}

/// Builds the host-to-wasm trampoline for `ty` and encodes it.
///
/// The trampoline emits no trap instruction, binds no label, and calls
/// only through a register, so its buffer carries no trap records and no
/// relocations, and encoding cannot fail: the build is refused exactly
/// when the callee declares more than one result.
pub fn compile_trampoline(ty: &Signature) -> (r: Result<MachBufferFinalized, CodegenError>)
    requires
        ty.params@.len() <= 0x1000,
    ensures
        r is Err <==> ty.results@.len() > 1,
        r is Err ==> r->Err_0 == CodegenError::UnsupportedMultiValue,
        r is Ok ==> buffer_records_in_range(r->Ok_0) && r->Ok_0.traps@.len() == 0
            && r->Ok_0.relocs@.len() == 0 && r->Ok_0.data@.len() > 0
            && r->Ok_0.stack_maps@.len() == 0,
{
    let conv = host_call_conv();
    let mut masm = MacroAssembler::new(sp_reg(), fp_reg());
    let tramp = Trampoline::new(conv, scratch(), scratch2());
    match tramp.emit_host_to_wasm(&mut masm, ty) {
        Ok(_) => {},
        Err(e) => {
            proof {
                lemma_host_control_words_in_regs(tramp.conv);
            }
            return Err(e);
        },
    }
    proof {
        lemma_marshal_plain(
            crate::abi::spec_classify(tramp.conv, ty.params@, ty.params@.len() as int).0,
            tramp.scratch_1,
            tramp.scratch_2,
            ty.params@.len() as int,
        );
        assert forall|k: int| 0 <= k < masm.insts@.len() implies !((#[trigger] masm.insts@[k])
            is Trap) && !(masm.insts@[k] is Bind) && !(masm.insts@[k] is Jmp) && !(masm.insts@[k]
            is Brz) && !(masm.insts@[k] is Brnz) && !(masm.insts@[k] matches Inst::Call {
            kind: CallKind::Direct(_) }) by {}
        lemma_no_trap_insts_no_trap_records(masm.insts@, masm.insts@.len() as int);
        lemma_no_direct_calls_no_relocs(masm.insts@, masm.insts@.len() as int);
        assert(labels_wf(masm.insts@, masm.next_label));
        lemma_marshal_len(
            crate::abi::spec_classify(tramp.conv, ty.params@, ty.params@.len() as int).0,
            tramp.scratch_1,
            tramp.scratch_2,
            ty.params@.len() as int,
        );
        assert(masm.insts@.len() <= 0x0100_0000);
        assert(masm.insts@[0] is Push);
    }
    let buf = match finalize(&masm) {
        Ok(b) => b,
        Err(_) => {
            proof {
                assert(false);
            }
            return Err(CodegenError::CodeTooLarge);
        },
    };
    proof {
        assert(buf.data@.len() == a64_prefix_len(masm.insts@, masm.insts@.len() as int));
        assert(masm.insts@.len() > 0);
        reveal_with_fuel(a64_prefix_len, 3);
        assert(a64_prefix_len(masm.insts@, 1) == a64_inst_len(masm.insts@[0]));
        assert(a64_inst_len(masm.insts@[0]) > 0);
        lemma_prefix_len_mono(masm.insts@, 1, masm.insts@.len() as int);
    }
    Ok(buf)
}

/// The host convention's four pointer-sized control words all land in
/// registers: its integer pool holds at least four entries.
proof fn lemma_host_control_words_in_regs(conv: CallingConv)
    requires
        conv.wf(),
        conv.int_params@.len() >= 4,
    ensures
        forall|i: int|
            0 <= i < 4 ==> (#[trigger] crate::abi::spec_classify(
                conv,
                crate::trampoline::spec_host_params(),
                4,
            ).0[i]).is_reg(),
{
    reveal_with_fuel(crate::abi::spec_classify, 6);
    let tys = crate::trampoline::spec_host_params();
    let c1 = crate::abi::spec_classify(conv, tys, 1);
    let c2 = crate::abi::spec_classify(conv, tys, 2);
    let c3 = crate::abi::spec_classify(conv, tys, 3);
    let c4 = crate::abi::spec_classify(conv, tys, 4);
    assert(c1.0[0].is_reg());
    assert(c2.0[1].is_reg());
    assert(c3.0[2].is_reg());
    assert(c4.0[3].is_reg());
    assert(c4.0[0] == c1.0[0] && c4.0[1] == c2.0[1] && c4.0[2] == c3.0[2]);
}

/// Marshalling emits loads and stores only: no trap, no label, no branch,
/// no direct call.
proof fn lemma_marshal_plain(params: Seq<crate::abi::ABIArg>, s1: Reg, s2: Reg, n: int)
    ensures
        forall|k: int|
            0 <= k < crate::trampoline::spec_marshal_insts(params, s1, s2, n).len() ==> ((
            #[trigger] crate::trampoline::spec_marshal_insts(params, s1, s2, n)[k]) is Load
                || crate::trampoline::spec_marshal_insts(params, s1, s2, n)[k] is Store),
    decreases n,
{
    if n > 0 {
        lemma_marshal_plain(params, s1, s2, n - 1);
    }
}

/// Marshalling emits at most two instructions per parameter.
proof fn lemma_marshal_len(params: Seq<crate::abi::ABIArg>, s1: Reg, s2: Reg, n: int)
    requires
        n >= 0,
    ensures
        crate::trampoline::spec_marshal_insts(params, s1, s2, n).len() <= 2 * n,
    decreases n,
{
    if n > 0 {
        lemma_marshal_len(params, s1, s2, n - 1);
    }
}

/// A stream without direct calls encodes without relocations.
proof fn lemma_no_direct_calls_no_relocs(s: Seq<Inst>, n: int)
    requires
        0 <= n <= s.len(),
        forall|k: int|
            0 <= k < s.len() ==> !((#[trigger] s[k]) matches Inst::Call {
                kind: CallKind::Direct(_) }),
    ensures
        a64_relocs(s, n).len() == 0,
    decreases n,
{
    if n > 0 {
        lemma_no_direct_calls_no_relocs(s, n - 1);
    }
}

/// A stream without trap instructions encodes without trap records.
proof fn lemma_no_trap_insts_no_trap_records(s: Seq<Inst>, n: int)
    requires
        0 <= n <= s.len(),
        forall|k: int| 0 <= k < s.len() ==> !((#[trigger] s[k]) is Trap),
    ensures
        a64_traps(s, n).len() == 0,
    decreases n,
{
    if n > 0 {
        lemma_no_trap_insts_no_trap_records(s, n - 1);
    }
}

/// The fixed byte length of one instruction under this backend's
/// encoding.
pub open spec fn a64_inst_len(i: Inst) -> int {
    match i {
        Inst::MovRR { .. } => 4,
        Inst::MovIR { .. } => 16,
        Inst::Load { .. } => 12,
        Inst::Store { .. } => 12,
        Inst::StoreImm { .. } => 20,
        Inst::Push { .. } => 4,
        Inst::Pop { .. } => 4,
        Inst::Alu { src, .. } => match src {
            RegImm::Reg(_) => 4,
            RegImm::Imm(_) => 12,
        },
        Inst::ReserveSp { .. } => 12,
        Inst::FreeSp { .. } => 12,
        Inst::Bind { .. } => 0,
        Inst::Jmp { .. } => 4,
        Inst::Brz { .. } => 4,
        Inst::Brnz { .. } => 4,
        Inst::Call { .. } => 4,
        Inst::Ret => 4,
        Inst::Trap { .. } => 4,
    }
}

/// The encoded byte length of the first `n` instructions.
pub open spec fn a64_prefix_len(s: Seq<Inst>, n: int) -> int
    decreases n,
{
    if n <= 0 {
        0
    } else {
        a64_prefix_len(s, n - 1) + a64_inst_len(s[n - 1])
    }
}

/// The relocations the first `n` instructions produce: one per direct
/// call, at the byte offset of its branch word.
pub open spec fn a64_relocs(s: Seq<Inst>, n: int) -> Seq<MachReloc>
    decreases n,
{
    if n <= 0 {
        Seq::<MachReloc>::empty()
    } else {
        let rest = a64_relocs(s, n - 1);
        match s[n - 1] {
            Inst::Call { kind: CallKind::Direct(f) } => rest.push(
                MachReloc {
                    offset: a64_prefix_len(s, n - 1) as u32,
                    kind: RelocationKind::Arm64Call,
                    target: RelocationTarget::UserFunc(f),
                    addend: 0,
                },
            ),
            _ => rest,
        }
    }
}

/// The trap records the first `n` instructions produce.
pub open spec fn a64_traps(s: Seq<Inst>, n: int) -> Seq<MachTrap>
    decreases n,
{
    if n <= 0 {
        Seq::<MachTrap>::empty()
    } else {
        let rest = a64_traps(s, n - 1);
        match s[n - 1] {
            Inst::Trap { code } => rest.push(
                MachTrap { offset: a64_prefix_len(s, n - 1) as u32, code },
            ),
            _ => rest,
        }
    }
}

/// How many times the first `n` instructions bind `l`.
pub open spec fn count_binds(s: Seq<Inst>, n: int, l: u32) -> int
    decreases n,
{
    if n <= 0 {
        0
    } else {
        count_binds(s, n - 1, l) + (if s[n - 1] matches Inst::Bind { label } && label == l {
            1int
        } else {
            0
        })
    }
}

/// The label discipline a stream must keep to encode: every label a bind
/// or a branch names lies under the label counter and is bound exactly
/// once.
pub open spec fn labels_wf(s: Seq<Inst>, nl: u32) -> bool {
    forall|i: int|
        0 <= i < s.len() ==> match #[trigger] s[i] {
            Inst::Bind { label } => label < nl && count_binds(s, s.len() as int, label) == 1,
            Inst::Jmp { label } => label < nl && count_binds(s, s.len() as int, label) == 1,
            Inst::Brz { label, .. } => label < nl && count_binds(s, s.len() as int, label) == 1,
            Inst::Brnz { label, .. } => label < nl && count_binds(s, s.len() as int, label) == 1,
            _ => true,
        }
}

/// Bind counts grow with the prefix.
proof fn lemma_count_mono(s: Seq<Inst>, a: int, b: int, l: u32)
    requires
        0 <= a <= b <= s.len(),
    ensures
        count_binds(s, a, l) <= count_binds(s, b, l),
    decreases b,
{
    if a < b {
        lemma_count_mono(s, a, b - 1, l);
    }
}

/// A branch to a label that the whole stream never binds contradicts the
/// label discipline.
proof fn lemma_unbound_contra(s: Seq<Inst>, nl: u32, labels: Seq<Option<u32>>, p: int, l: u32)
    requires
        0 <= p < s.len(),
        (s[p] matches Inst::Jmp { label } && label == l) || (s[p] matches Inst::Brz {
            label,
            ..
        } && label == l) || (s[p] matches Inst::Brnz { label, .. } && label == l),
        labels.len() == nl,
        l >= nl || labels[l as int] is None,
        forall|q: u32|
            q < nl && labels[q as int] is None ==> count_binds(s, s.len() as int, q) == 0,
    ensures
        !labels_wf(s, nl),
{
    if labels_wf(s, nl) {
        assert(l < nl && count_binds(s, s.len() as int, l) == 1);
        assert(count_binds(s, s.len() as int, l) == 0);
    }
}

/// Prefix lengths are monotone.
proof fn lemma_prefix_len_mono(s: Seq<Inst>, a: int, b: int)
    requires
        0 <= a <= b <= s.len(),
    ensures
        a64_prefix_len(s, a) <= a64_prefix_len(s, b),
    decreases b,
{
    if a < b {
        lemma_prefix_len_mono(s, a, b - 1);
    }
}

/// Each instruction encodes to at most 20 bytes.
proof fn lemma_prefix_len_bound(s: Seq<Inst>, n: int)
    requires
        0 <= n <= s.len(),
    ensures
        0 <= a64_prefix_len(s, n) <= 20 * n,
    decreases n,
{
    if n > 0 {
        lemma_prefix_len_bound(s, n - 1);
    }
}

/// Appends one 32-bit instruction word, little-endian.
fn push_word(data: &mut Vec<u8>, w: u32)
    requires
        old(data)@.len() + 4 <= usize::MAX,
    ensures
        final(data)@.len() == old(data)@.len() + 4,
{
    data.push((w & 0xFF) as u8);
    data.push(((w >> 8) & 0xFF) as u8);
    data.push(((w >> 16) & 0xFF) as u8);
    data.push(((w >> 24) & 0xFF) as u8);
}

/// Stages a 32-bit value in the second scratch register: `movz` for the
/// low half, `movk` for the high half — two words.
fn push_mov32_scratch2(data: &mut Vec<u8>, v: u32)
    requires
        old(data)@.len() + 8 <= usize::MAX,
    ensures
        final(data)@.len() == old(data)@.len() + 8,
{
    push_word(data, 0xD280_0000 | ((v & 0xFFFF) << 5) | 17);
    push_word(data, 0xF2A0_0000 | (((v >> 16) & 0xFFFF) << 5) | 17);
}

/// The base register and the 32-bit displacement pattern a memory operand
/// names.
fn a64_addr(addr: Address) -> (r: (u8, u32)) {
    match addr {
        Address::RegOffset { base, offset } => (base.hw, offset),
        Address::SpOffset { offset } => (31, offset),
        Address::FpNeg { offset } => (29, 0u32.wrapping_sub(offset)),
        Address::FpPos { offset } => (29, offset),
    }
}

/// Appends a staged-displacement load or store: the displacement goes to
/// the second scratch register, then one register-offset access — three
/// words.
fn push_mem_access(data: &mut Vec<u8>, load: bool, size: OperandSize, reg_hw: u8, addr: Address)
    requires
        old(data)@.len() + 12 <= usize::MAX,
    ensures
        final(data)@.len() == old(data)@.len() + 12,
{
    let (base, disp) = a64_addr(addr);
    push_mov32_scratch2(data, disp);
    let opc: u32 = match (load, size) {
        (true, OperandSize::S64) => 0xF861_6800,
        (true, OperandSize::S32) => 0xB861_6800,
        (false, OperandSize::S64) => 0xF821_6800,
        (false, OperandSize::S32) => 0xB821_6800,
    };
    push_word(data, opc | (((base & 31) as u32) << 5) | ((reg_hw & 31) as u32));
}

/// Encodes the finished instruction stream into machine words, gathering
/// the relocation and trap records at their byte offsets.
///
/// On success the byte count, the relocations and the traps are exactly
/// the spec-level encodings of the stream.  Encoding is refused when a
/// branch names a label that was never bound, when a label is bound
/// twice, or when the stream outgrows the encoder's range.
pub fn finalize(m: &MacroAssembler) -> (r: Result<MachBufferFinalized, CodegenError>)
    ensures
        match r {
            Ok(buf) => {
                &&& buf.data@.len() == a64_prefix_len(m.insts@, m.insts@.len() as int)
                &&& buf.relocs@ == a64_relocs(m.insts@, m.insts@.len() as int)
                &&& buf.traps@ == a64_traps(m.insts@, m.insts@.len() as int)
                &&& buf.stack_maps@.len() == 0
                &&& buffer_records_in_range(buf)
            },
            Err(e) => e == CodegenError::UnboundLabel || e == CodegenError::DuplicateLabel || e
                == CodegenError::CodeTooLarge,
        },
        labels_wf(m.insts@, m.next_label) && m.insts@.len() <= 0x0100_0000 ==> r is Ok,
{
    let n = m.insts.len();
    if n > 0x0100_0000 {
        return Err(CodegenError::CodeTooLarge);
    }

    let mut offsets: Vec<u32> = Vec::new();
    let mut cur: u32 = 0;
    let mut i: usize = 0;
    while i < n
        invariant
            n == m.insts@.len(),
            n <= 0x0100_0000,
            i <= n,
            offsets@.len() == i,
            forall|j: int| 0 <= j < i ==> offsets@[j] == a64_prefix_len(m.insts@, j),
            cur == a64_prefix_len(m.insts@, i as int),
            cur <= 20 * i,
        decreases n - i,
    {
        offsets.push(cur);
        let len: u32 = match m.insts[i] {
            Inst::MovRR { .. } => 4,
            Inst::MovIR { .. } => 16,
            Inst::Load { .. } => 12,
            Inst::Store { .. } => 12,
            Inst::StoreImm { .. } => 20,
            Inst::Push { .. } => 4,
            Inst::Pop { .. } => 4,
            Inst::Alu { src, .. } => match src {
                RegImm::Reg(_) => 4,
                RegImm::Imm(_) => 12,
            },
            Inst::ReserveSp { .. } => 12,
            Inst::FreeSp { .. } => 12,
            Inst::Bind { .. } => 0,
            Inst::Jmp { .. } => 4,
            Inst::Brz { .. } => 4,
            Inst::Brnz { .. } => 4,
            Inst::Call { .. } => 4,
            Inst::Ret => 4,
            Inst::Trap { .. } => 4,
        };
        cur = cur + len;
        i = i + 1;
    }
    let total: u32 = cur;
    proof {
        lemma_prefix_len_bound(m.insts@, n as int);
    }

    let nl = m.next_label as usize;
    let mut labels: Vec<Option<u32>> = Vec::new();
    let mut li: usize = 0;
    while li < nl
        invariant
            li <= nl,
            labels@.len() == li,
            forall|j: int| 0 <= j < li ==> labels@[j] is None,
        decreases nl - li,
    {
        labels.push(None);
        li = li + 1;
    }
    let mut b: usize = 0;
    while b < n
        invariant
            n == m.insts@.len(),
            n <= 0x0100_0000,
            nl == m.next_label,
            b <= n,
            labels@.len() == nl,
            offsets@.len() == n,
            forall|j: int| 0 <= j < n ==> offsets@[j] == a64_prefix_len(m.insts@, j),
            total == a64_prefix_len(m.insts@, n as int),
            total <= 20 * n,
            forall|l: int|
                0 <= l < nl && (#[trigger] labels@[l]) is Some ==> labels@[l]->0 <= total,
            forall|q: u32|
                q < nl && labels@[q as int] is Some ==> count_binds(m.insts@, b as int, q) >= 1,
            forall|q: u32|
                q < nl && labels@[q as int] is None ==> count_binds(m.insts@, b as int, q) == 0,
        decreases n - b,
    {
        match m.insts[b] {
            Inst::Bind { label } => {
                if label as usize >= nl {
                    proof {
                        if labels_wf(m.insts@, m.next_label) {
                            assert(m.insts@[b as int] matches Inst::Bind { label: l2 } && l2
                                < m.next_label);
                        }
                    }
                    return Err(CodegenError::UnboundLabel);
                }
                match labels[label as usize] {
                    Some(_) => {
                        proof {
                            assert(count_binds(m.insts@, b + 1, label) == count_binds(
                                m.insts@,
                                b as int,
                                label,
                            ) + 1);
                            lemma_count_mono(m.insts@, b + 1, n as int, label);
                            if labels_wf(m.insts@, m.next_label) {
                                assert(count_binds(m.insts@, n as int, label) == 1);
                            }
                        }
                        return Err(CodegenError::DuplicateLabel);
                    },
                    None => {},
                }
                let off = offsets[b];
                proof {
                    lemma_prefix_len_mono(m.insts@, b as int, n as int);
                }
                labels.set(label as usize, Some(off));
            },
            _ => {},
        }
        proof {
            assert forall|q: u32|
                q < nl && labels@[q as int] is Some implies count_binds(m.insts@, b + 1, q)
                >= 1 by {
                assert(count_binds(m.insts@, b + 1, q) == count_binds(m.insts@, b as int, q) + (
                if m.insts@[b as int] matches Inst::Bind { label } && label == q {
                    1int
                } else {
                    0
                }));
            }
            assert forall|q: u32|
                q < nl && labels@[q as int] is None implies count_binds(m.insts@, b + 1, q)
                == 0 by {
                assert(count_binds(m.insts@, b + 1, q) == count_binds(m.insts@, b as int, q) + (
                if m.insts@[b as int] matches Inst::Bind { label } && label == q {
                    1int
                } else {
                    0
                }));
            }
        }
        b = b + 1;
    }

    let mut data: Vec<u8> = Vec::new();
    let mut relocs: Vec<MachReloc> = Vec::new();
    let mut traps: Vec<MachTrap> = Vec::new();
    let mut p: usize = 0;
    while p < n
        invariant
            n == m.insts@.len(),
            n <= 0x0100_0000,
            p <= n,
            labels@.len() == nl,
            offsets@.len() == n,
            forall|j: int| 0 <= j < n ==> offsets@[j] == a64_prefix_len(m.insts@, j),
            total == a64_prefix_len(m.insts@, n as int),
            total <= 20 * n,
            forall|l: int|
                0 <= l < nl && (#[trigger] labels@[l]) is Some ==> labels@[l]->0 <= total,
            nl == m.next_label,
            forall|q: u32|
                q < nl && labels@[q as int] is None ==> count_binds(m.insts@, n as int, q) == 0,
            data@.len() == a64_prefix_len(m.insts@, p as int),
            data@.len() <= 20 * p,
            relocs@ == a64_relocs(m.insts@, p as int),
            traps@ == a64_traps(m.insts@, p as int),
            forall|k: int|
                0 <= k < relocs@.len() ==> (#[trigger] relocs@[k]).offset + 4 <= data@.len()
                    && -16 <= relocs@[k].addend <= 16,
            forall|k: int| 0 <= k < traps@.len() ==> (#[trigger] traps@[k]).offset < data@.len(),
        decreases n - p,
    {
        let off = offsets[p];
        proof {
            lemma_prefix_len_mono(m.insts@, p as int, n as int);
        }
        match m.insts[p] {
            Inst::MovRR { src, dst, size: _ } => {
                push_word(
                    &mut data,
                    0xAA00_03E0 | (((src.hw & 31) as u32) << 16) | ((dst.hw & 31) as u32),
                );
            },
            Inst::MovIR { imm, dst, size: _ } => {
                let d: u32 = (dst.hw & 31) as u32;
                push_word(&mut data, 0xD280_0000 | ((((imm & 0xFFFF) as u32)) << 5) | d);
                push_word(&mut data, 0xF2A0_0000 | ((((imm >> 16) & 0xFFFF) as u32) << 5) | d);
                push_word(&mut data, 0xF2C0_0000 | ((((imm >> 32) & 0xFFFF) as u32) << 5) | d);
                push_word(&mut data, 0xF2E0_0000 | ((((imm >> 48) & 0xFFFF) as u32) << 5) | d);
            },
            Inst::Load { addr, dst, size } => {
                push_mem_access(&mut data, true, size, dst.hw, addr);
            },
            Inst::Store { src, addr, size } => {
                push_mem_access(&mut data, false, size, src.hw, addr);
            },
            Inst::StoreImm { value, addr, size } => {
                push_word(&mut data, 0xD280_0000 | ((value & 0xFFFF) << 5) | 17);
                push_word(&mut data, 0xF2A0_0000 | (((value >> 16) & 0xFFFF) << 5) | 17);
                push_mem_access(&mut data, false, size, 17, addr);
            },
            Inst::Push { reg } => {
                push_word(&mut data, 0xF81F_0FE0 | ((reg.hw & 31) as u32));
            },
            Inst::Pop { reg } => {
                push_word(&mut data, 0xF841_07E0 | ((reg.hw & 31) as u32));
            },
            Inst::Alu { op, src, dst, size: _ } => {
                let d: u32 = (dst.hw & 31) as u32;
                match src {
                    RegImm::Reg(s_reg) => {
                        let s_hw: u32 = (s_reg.hw & 31) as u32;
                        let w: u32 = match op {
                            AluOp::Add => 0x8B00_0000 | (s_hw << 16) | (d << 5) | d,
                            AluOp::Sub => 0xCB00_0000 | (s_hw << 16) | (d << 5) | d,
                            AluOp::Mul => 0x9B00_7C00 | (s_hw << 16) | (d << 5) | d,
                        };
                        push_word(&mut data, w);
                    },
                    RegImm::Imm(v) => {
                        push_mov32_scratch2(&mut data, (v & 0xFFFF_FFFF) as u32);
                        let w: u32 = match op {
                            AluOp::Add => 0x8B00_0000 | (17u32 << 16) | (d << 5) | d,
                            AluOp::Sub => 0xCB00_0000 | (17u32 << 16) | (d << 5) | d,
                            AluOp::Mul => 0x9B00_7C00 | (17u32 << 16) | (d << 5) | d,
                        };
                        push_word(&mut data, w);
                    },
                }
            },
            Inst::ReserveSp { bytes } => {
                push_mov32_scratch2(&mut data, bytes);
                push_word(&mut data, 0xCB31_63FF);
            },
            Inst::FreeSp { bytes } => {
                push_mov32_scratch2(&mut data, bytes);
                push_word(&mut data, 0x8B31_63FF);
            },
            Inst::Bind { .. } => {},
            Inst::Jmp { label } => {
                let target = match resolve_label(&labels, label) {
                    Ok(t) => t,
                    Err(e) => {
                        proof {
                            lemma_unbound_contra(m.insts@, m.next_label, labels@, p as int, label);
                        }
                        return Err(e);
                    },
                };
                let rel: i64 = target as i64 - off as i64;
                let imm26: u32 = ((rel / 4) as u32) & 0x03FF_FFFF;
                push_word(&mut data, 0x1400_0000 | imm26);
            },
            Inst::Brz { reg, label } => {
                let target = match resolve_label(&labels, label) {
                    Ok(t) => t,
                    Err(e) => {
                        proof {
                            lemma_unbound_contra(m.insts@, m.next_label, labels@, p as int, label);
                        }
                        return Err(e);
                    },
                };
                let rel: i64 = target as i64 - off as i64;
                let imm19: u32 = (((rel / 4) as u32) & 0x7_FFFF) << 5;
                push_word(&mut data, 0xB400_0000 | imm19 | ((reg.hw & 31) as u32));
            },
            Inst::Brnz { reg, label } => {
                let target = match resolve_label(&labels, label) {
                    Ok(t) => t,
                    Err(e) => {
                        proof {
                            lemma_unbound_contra(m.insts@, m.next_label, labels@, p as int, label);
                        }
                        return Err(e);
                    },
                };
                let rel: i64 = target as i64 - off as i64;
                let imm19: u32 = (((rel / 4) as u32) & 0x7_FFFF) << 5;
                push_word(&mut data, 0xB500_0000 | imm19 | ((reg.hw & 31) as u32));
            },
            Inst::Call { kind } => {
                match kind {
                    CallKind::Direct(f) => {
                        relocs.push(
                            MachReloc {
                                offset: off,
                                kind: RelocationKind::Arm64Call,
                                target: RelocationTarget::UserFunc(f),
                                addend: 0,
                            },
                        );
                        push_word(&mut data, 0x9400_0000);
                    },
                    CallKind::Indirect(reg) => {
                        push_word(&mut data, 0xD63F_0000 | (((reg.hw & 31) as u32) << 5));
                    },
                }
            },
            Inst::Ret => {
                push_word(&mut data, 0xD65F_03C0);
            },
            Inst::Trap { code: trap_code } => {
                traps.push(MachTrap { offset: off, code: trap_code });
                push_word(&mut data, 0x0000_0000);
            },
        }
        p = p + 1;
    }
    Ok(MachBufferFinalized { data, relocs, traps, stack_maps: Vec::new() })
}

/// The bound position of `label`, or the unbound-label fault.
fn resolve_label(labels: &Vec<Option<u32>>, label: u32) -> (r: Result<u32, CodegenError>)
    ensures
        match r {
            Ok(t) => label < labels@.len() && labels@[label as int] == Some(t),
            Err(e) => e == CodegenError::UnboundLabel && (label >= labels@.len() || labels@[
                label as int
            ] is None),
        },
{
    if label as usize >= labels.len() {
        return Err(CodegenError::UnboundLabel);
    }
    match labels[label as usize] {
        Some(t) => Ok(t),
        None => Err(CodegenError::UnboundLabel),
    }
}

} // verus!
