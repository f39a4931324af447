//! The x86-64 backend: register file, calling conventions, the byte
//! encoder for the abstract instruction set, and the per-function compile
//! entry points.

use vstd::prelude::*;

use crate::abi::CallingConv;
use crate::codegen::{CodeGen, CodeGenContext, FuncEnv, Op};
use crate::frame::{DefinedLocals, Frame};
use crate::isa::{Flags, Triple, X64Flags};
use crate::isa::Builder;
use crate::isa::ArchFlags;
use crate::masm::{
    Address, AluOp, CallKind, Inst, MacroAssembler, MachBufferFinalized, MachReloc, MachTrap,
    OperandSize, RegImm,
};
use crate::obj::buffer_records_in_range;
use crate::reg::{Reg, RegClass};
use crate::regset::{RegAlloc, RegSet};
use crate::stack::OperandStack;
use crate::trampoline::Trampoline;
use crate::types::{CodegenError, RelocationKind, RelocationTarget, Signature};

verus! {

/// The allocatable general-purpose registers: everything but the stack
/// pointer, the frame pointer and the scratch register.
pub const ALL_GPR: u32 = 0xF7CF;

/// The stack pointer.
pub fn rsp() -> (r: Reg)
    ensures
        r == (Reg { class: RegClass::Int, hw: 4 }),
{
    Reg { class: RegClass::Int, hw: 4 }
}

/// The frame pointer.
pub fn rbp() -> (r: Reg)
    ensures
        r == (Reg { class: RegClass::Int, hw: 5 }),
{
    Reg { class: RegClass::Int, hw: 5 }
}

/// The scratch register, reserved for transient values and never handed
/// to the allocator.
pub fn scratch() -> (r: Reg)
    ensures
        r == (Reg { class: RegClass::Int, hw: 11 }),
        r.wf(),
{
    Reg { class: RegClass::Int, hw: 11 }
}

/// A second transient register a trampoline may clobber while moving
/// stack-bound arguments.
pub fn argv(
) -> (r: Reg)
    ensures
        r == (Reg { class: RegClass::Int, hw: 10 }),
        r.wf(),
{
    Reg { class: RegClass::Int, hw: 10 }
}

/// The internal convention compiled wasm functions use on x86-64: the
/// System V ordered register pools with a 16-byte call-stack alignment.
pub fn winch_call_conv() -> (r: CallingConv)
    ensures
        r.wf(),
        r.int_params@ =~= seq![
            Reg { class: RegClass::Int, hw: 7 },
            Reg { class: RegClass::Int, hw: 6 },
            Reg { class: RegClass::Int, hw: 2 },
            Reg { class: RegClass::Int, hw: 1 },
            Reg { class: RegClass::Int, hw: 8 },
            Reg { class: RegClass::Int, hw: 9 },
        ],
        r.float_params@.len() == 8,
        forall|i: int|
            0 <= i < 8 ==> r.float_params@[i] == (Reg { class: RegClass::Float, hw: i as u8 }),
        r.int_result == Some(Reg { class: RegClass::Int, hw: 0 }),
        r.float_result == Some(Reg { class: RegClass::Float, hw: 0 }),
        r.stack_align == 16,
        r.arg_base_offset == 16,
{
    let mut int_params: Vec<Reg> = Vec::new();
    int_params.push(Reg { class: RegClass::Int, hw: 7 });
    int_params.push(Reg { class: RegClass::Int, hw: 6 });
    int_params.push(Reg { class: RegClass::Int, hw: 2 });
    int_params.push(Reg { class: RegClass::Int, hw: 1 });
    int_params.push(Reg { class: RegClass::Int, hw: 8 });
    int_params.push(Reg { class: RegClass::Int, hw: 9 });
    let mut float_params: Vec<Reg> = Vec::new();
    let mut i: u8 = 0;
    while i < 8
        invariant
            i <= 8,
            float_params@.len() == i,
            forall|k: int|
                0 <= k < i ==> float_params@[k] == (Reg { class: RegClass::Float, hw: k as u8 }),
        decreases 8 - i,
    {
        float_params.push(Reg { class: RegClass::Float, hw: i });
        i = i + 1;
    }
    let conv = CallingConv {
        int_params,
        float_params,
        int_result: Some(Reg { class: RegClass::Int, hw: 0 }),
        float_result: Some(Reg { class: RegClass::Float, hw: 0 }),
        stack_align: 16,
        arg_base_offset: 16,
    };
    proof {
        assert(conv.int_params@ =~= seq![
            Reg { class: RegClass::Int, hw: 7 },
            Reg { class: RegClass::Int, hw: 6 },
            Reg { class: RegClass::Int, hw: 2 },
            Reg { class: RegClass::Int, hw: 1 },
            Reg { class: RegClass::Int, hw: 8 },
            Reg { class: RegClass::Int, hw: 9 },
        ]);
    }
    conv
}

/// The convention the host side marshals through; on x86-64 it matches
/// the native System V convention.
pub fn host_call_conv() -> (r: CallingConv)
    ensures
        r.wf(),
        r.int_params@.len() == 6,
        forall|i: int| 0 <= i < 6 ==> (#[trigger] r.int_params@[i]).class == RegClass::Int,
        r.int_result == Some(Reg { class: RegClass::Int, hw: 0 }),
        r.float_result == Some(Reg { class: RegClass::Float, hw: 0 }),
        r.stack_align == 16,
        r.arg_base_offset == 16,
{
    winch_call_conv()
}

/// Creates an ISA builder for an x86-64 triple.
pub fn isa_builder(triple: Triple) -> (r: Builder)
    ensures
        r.triple == triple,
        r.settings is X64,
{
    Builder {
        triple,
        settings: ArchFlags::X64(X64Flags { has_sse3: false, has_avx: false }),
    }
}

/// The x64 ISA object, as the composition root instantiates it.
pub struct X64 {
    pub triple: Triple,
    pub shared_flags: Flags,
    pub isa_flags: X64Flags,
}

impl X64 {
    /// Create an x64 ISA.
    pub fn new(triple: Triple, shared_flags: Flags, isa_flags: X64Flags) -> (r: X64)
        ensures
            r.triple == triple,
            r.shared_flags == shared_flags,
            r.isa_flags == isa_flags,
    {
        X64 { triple, shared_flags, isa_flags }
    }

    /// Compiles one function body; see [`compile_function`].
    pub fn compile_function(
        &self,
        sig: &Signature,
        defined: &DefinedLocals,
        ops: &Vec<Op>,
        env: &FuncEnv,
    ) -> (r: Result<MachBufferFinalized, CodegenError>)
        requires
            sig.params@.len() <= 0x1000,
            defined.locals@.len() <= 0x1000,
            ops@.len() <= 0x10_0000,
            env.wf(),
        ensures
            r is Ok ==> buffer_records_in_range(r->Ok_0) && r->Ok_0.stack_maps@.len() == 0,
            sig.results@.len() > 1 ==> r == Err::<
                MachBufferFinalized,
                CodegenError,
            >(CodegenError::UnsupportedMultiValue),
    {
        compile_function(sig, defined, ops, env)
    }

    /// Builds the host-to-wasm trampoline; see [`compile_trampoline`].
    pub fn compile_trampoline(&self, ty: &Signature) -> (r: Result<
        MachBufferFinalized,
        CodegenError,
    >)
        requires
            ty.params@.len() <= 0x1000,
        ensures
            r is Err <==> ty.results@.len() > 1,
            r is Err ==> r->Err_0 == CodegenError::UnsupportedMultiValue,
            r is Ok ==> buffer_records_in_range(r->Ok_0) && r->Ok_0.traps@.len() == 0
                && r->Ok_0.relocs@.len() == 0 && r->Ok_0.data@.len() > 0
                && r->Ok_0.stack_maps@.len() == 0,
    {
        compile_trampoline(ty)
    }
}

/// Compiles one function body to x86-64 machine code: the signature is
/// classified, the frame laid out, and the single-pass engine drives the
/// macro assembler; the finished instruction stream is then encoded.
pub fn compile_function(
    sig: &Signature,
    defined: &DefinedLocals,
    ops: &Vec<Op>,
    env: &FuncEnv,
) -> (r: Result<MachBufferFinalized, CodegenError>)
    requires
        sig.params@.len() <= 0x1000,
        defined.locals@.len() <= 0x1000,
        ops@.len() <= 0x10_0000,
        env.wf(),
    ensures
        r is Ok ==> buffer_records_in_range(r->Ok_0) && r->Ok_0.stack_maps@.len() == 0,
        sig.results@.len() > 1 ==> r == Err::<
            MachBufferFinalized,
            CodegenError,
        >(CodegenError::UnsupportedMultiValue),
{
    let conv = winch_call_conv();
    let abi_sig = match conv.sig(sig) {
        Ok(s) => s,
        Err(e) => {
            return Err(e);
        },
    };
    let frame = Frame::new(&abi_sig, defined, &conv);
    let regset = RegSet::new(ALL_GPR, 0);
    proof {
        assert(!crate::regset::bit(ALL_GPR, 11)) by (bit_vector);
    }
    let regalloc = RegAlloc::new(regset, scratch());
    let stack = OperandStack::new();
    let context = CodeGenContext::new(regalloc, stack, frame);
    let mut codegen = CodeGen::new(context, env.duplicate(), abi_sig, conv);
    let mut masm = MacroAssembler::new(rsp(), rbp());
    match codegen.emit(&mut masm, ops) {
        Ok(_) => {},
        Err(e) => {
            return Err(e);
        },
    }
    finalize(&masm)
}

/// Builds the host-to-wasm trampoline for `ty` and encodes it.
///
/// The trampoline emits no trap instruction, binds no label, and calls
/// only through a register, so its buffer carries no trap records and no
/// relocations, and encoding cannot fail: the build is refused exactly
/// when the callee declares more than one result.
pub fn compile_trampoline(ty: &Signature) -> (r: Result<MachBufferFinalized, CodegenError>)
    requires
        ty.params@.len() <= 0x1000,
    ensures
        r is Err <==> ty.results@.len() > 1,
        r is Err ==> r->Err_0 == CodegenError::UnsupportedMultiValue,
        r is Ok ==> buffer_records_in_range(r->Ok_0) && r->Ok_0.traps@.len() == 0
            && r->Ok_0.relocs@.len() == 0 && r->Ok_0.data@.len() > 0
            && r->Ok_0.stack_maps@.len() == 0,
{
    let conv = host_call_conv();
    let mut masm = MacroAssembler::new(rsp(), rbp());
    let tramp = Trampoline::new(conv, scratch(), argv());
    match tramp.emit_host_to_wasm(&mut masm, ty) {
        Ok(_) => {},
        Err(e) => {
            proof {
                lemma_host_control_words_in_regs(tramp.conv);
            }
            return Err(e);
        },
    }
    proof {
        lemma_marshal_plain(
            crate::abi::spec_classify(tramp.conv, ty.params@, ty.params@.len() as int).0,
            tramp.scratch_1,
            tramp.scratch_2,
            ty.params@.len() as int,
        );
        assert forall|k: int| 0 <= k < masm.insts@.len() implies !((#[trigger] masm.insts@[k])
            is Trap) && !(masm.insts@[k] is Bind) && !(masm.insts@[k] is Jmp) && !(masm.insts@[k]
            is Brz) && !(masm.insts@[k] is Brnz) && !(masm.insts@[k] matches Inst::Call {
            kind: CallKind::Direct(_) }) by {}
        lemma_no_trap_insts_no_trap_records(masm.insts@, masm.insts@.len() as int);
        lemma_no_direct_calls_no_relocs(masm.insts@, masm.insts@.len() as int);
        assert(labels_wf(masm.insts@, masm.next_label));
        lemma_marshal_len(
            crate::abi::spec_classify(tramp.conv, ty.params@, ty.params@.len() as int).0,
            tramp.scratch_1,
            tramp.scratch_2,
            ty.params@.len() as int,
        );
        assert(masm.insts@.len() <= 0x0100_0000);
        assert(masm.insts@[0] is Push);
    }
    let buf = match finalize(&masm) {
        Ok(b) => b,
        Err(_) => {
            proof {
                assert(false);
            }
            return Err(CodegenError::CodeTooLarge);
        },
    };
    proof {
        assert(buf.data@.len() == x64_prefix_len(masm.insts@, masm.insts@.len() as int));
        assert(masm.insts@.len() > 0);
        reveal_with_fuel(x64_prefix_len, 3);
        assert(x64_prefix_len(masm.insts@, 1) == x64_inst_len(masm.insts@[0]));
        assert(x64_inst_len(masm.insts@[0]) > 0);
        lemma_prefix_len_mono(masm.insts@, 1, masm.insts@.len() as int);
    }
    Ok(buf)
}

/// The host convention's four pointer-sized control words all land in
/// registers: its integer pool holds at least four entries.
proof fn lemma_host_control_words_in_regs(conv: CallingConv)
    requires
        conv.wf(),
        conv.int_params@.len() >= 4,
    ensures
        forall|i: int|
            0 <= i < 4 ==> (#[trigger] crate::abi::spec_classify(
                conv,
                crate::trampoline::spec_host_params(),
                4,
            ).0[i]).is_reg(),
{
    reveal_with_fuel(crate::abi::spec_classify, 6);
    let tys = crate::trampoline::spec_host_params();
    let c1 = crate::abi::spec_classify(conv, tys, 1);
    let c2 = crate::abi::spec_classify(conv, tys, 2);
    let c3 = crate::abi::spec_classify(conv, tys, 3);
    let c4 = crate::abi::spec_classify(conv, tys, 4);
    assert(c1.0[0].is_reg());
    assert(c2.0[1].is_reg());
    assert(c3.0[2].is_reg());
    assert(c4.0[3].is_reg());
    assert(c4.0[0] == c1.0[0] && c4.0[1] == c2.0[1] && c4.0[2] == c3.0[2]);
}

/// Marshalling emits loads and stores only: no trap, no label, no branch,
/// no direct call.
proof fn lemma_marshal_plain(params: Seq<crate::abi::ABIArg>, s1: Reg, s2: Reg, n: int)
    ensures
        forall|k: int|
            0 <= k < crate::trampoline::spec_marshal_insts(params, s1, s2, n).len() ==> ((
            #[trigger] crate::trampoline::spec_marshal_insts(params, s1, s2, n)[k]) is Load
                || crate::trampoline::spec_marshal_insts(params, s1, s2, n)[k] is Store),
    decreases n,
{
    if n > 0 {
        lemma_marshal_plain(params, s1, s2, n - 1);
    }
}

/// Marshalling emits at most two instructions per parameter.
proof fn lemma_marshal_len(params: Seq<crate::abi::ABIArg>, s1: Reg, s2: Reg, n: int)
    requires
        n >= 0,
    ensures
        crate::trampoline::spec_marshal_insts(params, s1, s2, n).len() <= 2 * n,
    decreases n,
{
    if n > 0 {
        lemma_marshal_len(params, s1, s2, n - 1);
    }
}

/// A stream without direct calls encodes without relocations.
proof fn lemma_no_direct_calls_no_relocs(s: Seq<Inst>, n: int)
    requires
        0 <= n <= s.len(),
        forall|k: int|
            0 <= k < s.len() ==> !((#[trigger] s[k]) matches Inst::Call {
                kind: CallKind::Direct(_) }),
    ensures
        x64_relocs(s, n).len() == 0,
    decreases n,
{
    if n > 0 {
        lemma_no_direct_calls_no_relocs(s, n - 1);
    }
}

/// A stream without trap instructions encodes without trap records.
proof fn lemma_no_trap_insts_no_trap_records(s: Seq<Inst>, n: int)
    requires
        0 <= n <= s.len(),
        forall|k: int| 0 <= k < s.len() ==> !((#[trigger] s[k]) is Trap),
    ensures
        x64_traps(s, n).len() == 0,
    decreases n,
{
    if n > 0 {
        lemma_no_trap_insts_no_trap_records(s, n - 1);
    }
}

/// The fixed byte length of one instruction under this backend's
/// encoding.
pub open spec fn x64_inst_len(i: Inst) -> int {
    match i {
        Inst::MovRR { .. } => 3,
        Inst::MovIR { .. } => 10,
        Inst::Load { .. } => 8,
        Inst::Store { .. } => 8,
        Inst::StoreImm { .. } => 12,
        Inst::Push { .. } => 2,
        Inst::Pop { .. } => 2,
        Inst::Alu { op, src, .. } => match src {
            RegImm::Reg(_) => if op == AluOp::Mul {
                4
            } else {
                3
            },
            RegImm::Imm(_) => 7,
        },
        Inst::ReserveSp { .. } => 7,
        Inst::FreeSp { .. } => 7,
        Inst::Bind { .. } => 0,
        Inst::Jmp { .. } => 5,
        Inst::Brz { .. } => 9,
        Inst::Brnz { .. } => 9,
        Inst::Call { kind } => match kind {
            CallKind::Direct(_) => 5,
            CallKind::Indirect(_) => 3,
        },
        Inst::Ret => 1,
        Inst::Trap { .. } => 2,
    }
}

/// The encoded byte length of the first `n` instructions.
pub open spec fn x64_prefix_len(s: Seq<Inst>, n: int) -> int
    decreases n,
{
    if n <= 0 {
        0
    } else {
        x64_prefix_len(s, n - 1) + x64_inst_len(s[n - 1])
    }
}

/// The relocations the first `n` instructions produce: one per direct
/// call, at the byte offset of its 4-byte displacement field, against the
/// called function's index.
pub open spec fn x64_relocs(s: Seq<Inst>, n: int) -> Seq<MachReloc>
    decreases n,
{
    if n <= 0 {
        Seq::<MachReloc>::empty()
    } else {
        let rest = x64_relocs(s, n - 1);
        match s[n - 1] {
            Inst::Call { kind: CallKind::Direct(f) } => rest.push(
                MachReloc {
                    offset: (x64_prefix_len(s, n - 1) + 1) as u32,
                    kind: RelocationKind::X86CallPcRel4,
                    target: RelocationTarget::UserFunc(f),
                    addend: -4int as i64,
                },
            ),
            _ => rest,
        }
    }
}

/// The trap records the first `n` instructions produce: one per trap
/// instruction, at its byte offset.
pub open spec fn x64_traps(s: Seq<Inst>, n: int) -> Seq<MachTrap>
    decreases n,
{
    if n <= 0 {
        Seq::<MachTrap>::empty()
    } else {
        let rest = x64_traps(s, n - 1);
        match s[n - 1] {
            Inst::Trap { code } => rest.push(
                MachTrap { offset: x64_prefix_len(s, n - 1) as u32, code },
            ),
            _ => rest,
        }
    }
}

/// How many times the first `n` instructions bind `l`.
pub open spec fn count_binds(s: Seq<Inst>, n: int, l: u32) -> int
    decreases n,
{
    if n <= 0 {
        0
    } else {
        count_binds(s, n - 1, l) + (if s[n - 1] matches Inst::Bind { label } && label == l {
            1int
        } else {
            0
        })
    }
}

/// The label discipline a stream must keep to encode: every label a bind
/// or a branch names lies under the label counter and is bound exactly
/// once.
pub open spec fn labels_wf(s: Seq<Inst>, nl: u32) -> bool {
    forall|i: int|
        0 <= i < s.len() ==> match #[trigger] s[i] {
            Inst::Bind { label } => label < nl && count_binds(s, s.len() as int, label) == 1,
            Inst::Jmp { label } => label < nl && count_binds(s, s.len() as int, label) == 1,
            Inst::Brz { label, .. } => label < nl && count_binds(s, s.len() as int, label) == 1,
            Inst::Brnz { label, .. } => label < nl && count_binds(s, s.len() as int, label) == 1,
            _ => true,
        }
}

/// Bind counts grow with the prefix.
proof fn lemma_count_mono(s: Seq<Inst>, a: int, b: int, l: u32)
    requires
        0 <= a <= b <= s.len(),
    ensures
        count_binds(s, a, l) <= count_binds(s, b, l),
    decreases b,
{
    if a < b {
        lemma_count_mono(s, a, b - 1, l);
    }
}

/// A branch to a label that the whole stream never binds contradicts the
/// label discipline.
proof fn lemma_unbound_contra(s: Seq<Inst>, nl: u32, labels: Seq<Option<u32>>, p: int, l: u32)
    requires
        0 <= p < s.len(),
        (s[p] matches Inst::Jmp { label } && label == l) || (s[p] matches Inst::Brz {
            label,
            ..
        } && label == l) || (s[p] matches Inst::Brnz { label, .. } && label == l),
        labels.len() == nl,
        l >= nl || labels[l as int] is None,
        forall|q: u32|
            q < nl && labels[q as int] is None ==> count_binds(s, s.len() as int, q) == 0,
    ensures
        !labels_wf(s, nl),
{
    if labels_wf(s, nl) {
        assert(l < nl && count_binds(s, s.len() as int, l) == 1);
        assert(count_binds(s, s.len() as int, l) == 0);
    }
}

/// Prefix lengths are monotone.
proof fn lemma_prefix_len_mono(s: Seq<Inst>, a: int, b: int)
    requires
        0 <= a <= b <= s.len(),
    ensures
        x64_prefix_len(s, a) <= x64_prefix_len(s, b),
    decreases b,
{
    if a < b {
        lemma_prefix_len_mono(s, a, b - 1);
    }
}

/// Each instruction encodes to at most 12 bytes.
proof fn lemma_prefix_len_bound(s: Seq<Inst>, n: int)
    requires
        0 <= n <= s.len(),
    ensures
        0 <= x64_prefix_len(s, n) <= 12 * n,
    decreases n,
{
    if n > 0 {
        lemma_prefix_len_bound(s, n - 1);
    }
}

/// Appends a 32-bit little-endian value.
fn push_le32(data: &mut Vec<u8>, x: u32)
    requires
        old(data)@.len() + 4 <= usize::MAX,
    ensures
        final(data)@.len() == old(data)@.len() + 4,
{
    data.push((x & 0xFF) as u8);
    data.push(((x >> 8) & 0xFF) as u8);
    data.push(((x >> 16) & 0xFF) as u8);
    data.push(((x >> 24) & 0xFF) as u8);
}

/// Appends a 64-bit little-endian value.
fn push_le64(data: &mut Vec<u8>, x: u64)
    requires
        old(data)@.len() + 8 <= usize::MAX,
    ensures
        final(data)@.len() == old(data)@.len() + 8,
{
    push_le32(data, (x & 0xFFFF_FFFF) as u32);
    push_le32(data, ((x >> 32) & 0xFFFF_FFFF) as u32);
}

/// The REX prefix for a register-to-register form.
fn rex_rr(w: bool, reg_hw: u8, rm_hw: u8) -> (r: u8) {
    let mut rex: u8 = 0x40;
    if w {
        rex = rex | 0x08;
    }
    if reg_hw >= 8 {
        rex = rex | 0x04;
    }
    if rm_hw >= 8 {
        rex = rex | 0x01;
    }
    rex
}

/// The base register and signed displacement a memory operand names.
fn addr_base_disp(addr: Address) -> (r: (u8, u32)) {
    match addr {
        Address::RegOffset { base, offset } => (base.hw, offset),
        Address::SpOffset { offset } => (4, offset),
        Address::FpNeg { offset } => (5, (0u32.wrapping_sub(offset))),
        Address::FpPos { offset } => (5, offset),
    }
}

/// Appends one register/memory operation with a SIB byte and a 32-bit
/// displacement: REX, opcode, ModRM, SIB, disp32 — 8 bytes.
fn push_mem_op(data: &mut Vec<u8>, opcode: u8, wide: bool, reg_hw: u8, addr: Address)
    requires
        old(data)@.len() + 8 <= usize::MAX,
    ensures
        final(data)@.len() == old(data)@.len() + 8,
{
    let (base, disp) = addr_base_disp(addr);
    data.push(rex_rr(wide, reg_hw, base));
    data.push(opcode);
    data.push(0x84 | ((reg_hw & 7) << 3));
    data.push(0x20 | (base & 7));
    push_le32(data, disp);
}

/// Whether an operand size selects the 64-bit form.
fn is_wide(size: OperandSize) -> (r: bool)
    ensures
        r == (size == OperandSize::S64),
{
    match size {
        OperandSize::S32 => false,
        OperandSize::S64 => true,
    }
}

/// Encodes the finished instruction stream into machine bytes, gathering
/// the relocation and trap records at their byte offsets.
///
/// On success the byte count, the relocations and the traps are exactly
/// the spec-level encodings of the stream.  Encoding is refused when a
/// branch names a label that was never bound, when a label is bound
/// twice, or when the stream outgrows the encoder's range.
pub fn finalize(m: &MacroAssembler) -> (r: Result<MachBufferFinalized, CodegenError>)
    ensures
        match r {
            Ok(buf) => {
                &&& buf.data@.len() == x64_prefix_len(m.insts@, m.insts@.len() as int)
                &&& buf.relocs@ == x64_relocs(m.insts@, m.insts@.len() as int)
                &&& buf.traps@ == x64_traps(m.insts@, m.insts@.len() as int)
                &&& buf.stack_maps@.len() == 0
                &&& buffer_records_in_range(buf)
            },
            Err(e) => e == CodegenError::UnboundLabel || e == CodegenError::DuplicateLabel || e
                == CodegenError::CodeTooLarge,
        },
        labels_wf(m.insts@, m.next_label) && m.insts@.len() <= 0x0100_0000 ==> r is Ok,
{
    let n = m.insts.len();
    if n > 0x0100_0000 {
        return Err(CodegenError::CodeTooLarge);
    }
    let ghost s = m.insts@;

    // First pass: the byte offset of every instruction.
    let mut offsets: Vec<u32> = Vec::new();
    let mut cur: u32 = 0;
    let mut i: usize = 0;
    while i < n
        invariant
            n == m.insts@.len(),
            n <= 0x0100_0000,
            i <= n,
            offsets@.len() == i,
            forall|j: int| 0 <= j < i ==> offsets@[j] == x64_prefix_len(m.insts@, j),
            cur == x64_prefix_len(m.insts@, i as int),
            cur <= 12 * i,
        decreases n - i,
    {
        offsets.push(cur);
        let len: u32 = match m.insts[i] {
            Inst::MovRR { .. } => 3,
            Inst::MovIR { .. } => 10,
            Inst::Load { .. } => 8,
            Inst::Store { .. } => 8,
            Inst::StoreImm { .. } => 12,
            Inst::Push { .. } => 2,
            Inst::Pop { .. } => 2,
            Inst::Alu { op, src, .. } => match src {
                RegImm::Reg(_) => {
                    if op == AluOp::Mul {
                        4
                    } else {
                        3
                    }
                },
                RegImm::Imm(_) => 7,
            },
            Inst::ReserveSp { .. } => 7,
            Inst::FreeSp { .. } => 7,
            Inst::Bind { .. } => 0,
            Inst::Jmp { .. } => 5,
            Inst::Brz { .. } => 9,
            Inst::Brnz { .. } => 9,
            Inst::Call { kind } => match kind {
                CallKind::Direct(_) => 5,
                CallKind::Indirect(_) => 3,
            },
            Inst::Ret => 1,
            Inst::Trap { .. } => 2,
        };
        cur = cur + len;
        i = i + 1;
    }
    let total: u32 = cur;
    proof {
        lemma_prefix_len_bound(m.insts@, n as int);
    }

    // Label table: each label's byte offset, bound exactly once.
    let nl = m.next_label as usize;
    let mut labels: Vec<Option<u32>> = Vec::new();
    let mut li: usize = 0;
    while li < nl
        invariant
            li <= nl,
            labels@.len() == li,
            forall|j: int| 0 <= j < li ==> labels@[j] is None,
        decreases nl - li,
    {
        labels.push(None);
        li = li + 1;
    }
    let mut b: usize = 0;
    while b < n
        invariant
            n == m.insts@.len(),
            n <= 0x0100_0000,
            nl == m.next_label,
            b <= n,
            labels@.len() == nl,
            offsets@.len() == n,
            forall|j: int| 0 <= j < n ==> offsets@[j] == x64_prefix_len(m.insts@, j),
            total == x64_prefix_len(m.insts@, n as int),
            total <= 12 * n,
            forall|l: int|
                0 <= l < nl && (#[trigger] labels@[l]) is Some ==> labels@[l]->0 <= total,
            forall|q: u32|
                q < nl && labels@[q as int] is Some ==> count_binds(m.insts@, b as int, q) >= 1,
            forall|q: u32|
                q < nl && labels@[q as int] is None ==> count_binds(m.insts@, b as int, q) == 0,
        decreases n - b,
    {
        proof {
            assert(forall|q: u32|
                count_binds(m.insts@, b + 1, q) == count_binds(m.insts@, b as int, q) + (
                if m.insts@[b as int] matches Inst::Bind { label } && label == q {
                    1int
                } else {
                    0
                }));
        }
        match m.insts[b] {
            Inst::Bind { label } => {
                if label as usize >= nl {
                    proof {
                        if labels_wf(m.insts@, m.next_label) {
                            assert(m.insts@[b as int] matches Inst::Bind { label: l2 } && l2
                                < m.next_label);
                        }
                    }
                    return Err(CodegenError::UnboundLabel);
                }
                match labels[label as usize] {
                    Some(_) => {
                        proof {
                            lemma_count_mono(m.insts@, b + 1, n as int, label);
                            if labels_wf(m.insts@, m.next_label) {
                                assert(count_binds(m.insts@, n as int, label) == 1);
                            }
                        }
                        return Err(CodegenError::DuplicateLabel);
                    },
                    None => {},
                }
                let off = offsets[b];
                proof {
                    lemma_prefix_len_mono(m.insts@, b as int, n as int);
                }
                labels.set(label as usize, Some(off));
            },
            _ => {},
        }
        proof {
            assert forall|q: u32|
                q < nl && labels@[q as int] is Some implies count_binds(m.insts@, b + 1, q)
                >= 1 by {
                assert(count_binds(m.insts@, b + 1, q) == count_binds(m.insts@, b as int, q) + (
                if m.insts@[b as int] matches Inst::Bind { label } && label == q {
                    1int
                } else {
                    0
                }));
            }
            assert forall|q: u32|
                q < nl && labels@[q as int] is None implies count_binds(m.insts@, b + 1, q)
                == 0 by {
                assert(count_binds(m.insts@, b + 1, q) == count_binds(m.insts@, b as int, q) + (
                if m.insts@[b as int] matches Inst::Bind { label } && label == q {
                    1int
                } else {
                    0
                }));
            }
        }
        b = b + 1;
    }

    // Second pass: bytes plus relocation and trap records.
    let mut data: Vec<u8> = Vec::new();
    let mut relocs: Vec<MachReloc> = Vec::new();
    let mut traps: Vec<MachTrap> = Vec::new();
    let mut p: usize = 0;
    while p < n
        invariant
            n == m.insts@.len(),
            n <= 0x0100_0000,
            p <= n,
            labels@.len() == nl,
            offsets@.len() == n,
            forall|j: int| 0 <= j < n ==> offsets@[j] == x64_prefix_len(m.insts@, j),
            total == x64_prefix_len(m.insts@, n as int),
            total <= 12 * n,
            forall|l: int|
                0 <= l < nl && (#[trigger] labels@[l]) is Some ==> labels@[l]->0 <= total,
            nl == m.next_label,
            forall|q: u32|
                q < nl && labels@[q as int] is None ==> count_binds(m.insts@, n as int, q) == 0,
            data@.len() == x64_prefix_len(m.insts@, p as int),
            data@.len() <= 12 * p,
            relocs@ == x64_relocs(m.insts@, p as int),
            traps@ == x64_traps(m.insts@, p as int),
            forall|k: int|
                0 <= k < relocs@.len() ==> (#[trigger] relocs@[k]).offset + 4 <= data@.len()
                    && -16 <= relocs@[k].addend <= 16,
            forall|k: int| 0 <= k < traps@.len() ==> (#[trigger] traps@[k]).offset < data@.len(),
        decreases n - p,
    {
        let off = offsets[p];
        proof {
            lemma_prefix_len_mono(m.insts@, p as int, n as int);
        }
        match m.insts[p] {
            Inst::MovRR { src, dst, size } => {
                data.push(rex_rr(is_wide(size), src.hw, dst.hw));
                data.push(0x89);
                data.push(0xC0 | ((src.hw & 7) << 3) | (dst.hw & 7));
            },
            Inst::MovIR { imm, dst, size: _ } => {
                let mut rex: u8 = 0x48;
                if dst.hw >= 8 {
                    rex = rex | 0x01;
                }
                data.push(rex);
                data.push(0xB8 | (dst.hw & 7));
                push_le64(&mut data, imm);
            },
            Inst::Load { addr, dst, size } => {
                push_mem_op(&mut data, 0x8B, is_wide(size), dst.hw, addr);
            },
            Inst::Store { src, addr, size } => {
                push_mem_op(&mut data, 0x89, is_wide(size), src.hw, addr);
            },
            Inst::StoreImm { value, addr, size } => {
                push_mem_op(&mut data, 0xC7, is_wide(size), 0, addr);
                push_le32(&mut data, value);
            },
            Inst::Push { reg } => {
                let mut rex: u8 = 0x40;
                if reg.hw >= 8 {
                    rex = rex | 0x01;
                }
                data.push(rex);
                data.push(0x50 | (reg.hw & 7));
            },
            Inst::Pop { reg } => {
                let mut rex: u8 = 0x40;
                if reg.hw >= 8 {
                    rex = rex | 0x01;
                }
                data.push(rex);
                data.push(0x58 | (reg.hw & 7));
            },
            Inst::Alu { op, src, dst, size } => {
                match src {
                    RegImm::Reg(s_reg) => {
                        match op {
                            AluOp::Add => {
                                data.push(rex_rr(is_wide(size), s_reg.hw, dst.hw));
                                data.push(0x01);
                                data.push(0xC0 | ((s_reg.hw & 7) << 3) | (dst.hw & 7));
                            },
                            AluOp::Sub => {
                                data.push(rex_rr(is_wide(size), s_reg.hw, dst.hw));
                                data.push(0x29);
                                data.push(0xC0 | ((s_reg.hw & 7) << 3) | (dst.hw & 7));
                            },
                            AluOp::Mul => {
                                data.push(rex_rr(is_wide(size), dst.hw, s_reg.hw));
                                data.push(0x0F);
                                data.push(0xAF);
                                data.push(0xC0 | ((dst.hw & 7) << 3) | (s_reg.hw & 7));
                            },
                        }
                    },
                    RegImm::Imm(v) => {
                        match op {
                            AluOp::Add => {
                                data.push(rex_rr(is_wide(size), 0, dst.hw));
                                data.push(0x81);
                                data.push(0xC0 | (dst.hw & 7));
                                push_le32(&mut data, (v & 0xFFFF_FFFF) as u32);
                            },
                            AluOp::Sub => {
                                data.push(rex_rr(is_wide(size), 5, dst.hw));
                                data.push(0x81);
                                data.push(0xE8 | (dst.hw & 7));
                                push_le32(&mut data, (v & 0xFFFF_FFFF) as u32);
                            },
                            AluOp::Mul => {
                                data.push(rex_rr(is_wide(size), dst.hw, dst.hw));
                                data.push(0x69);
                                data.push(0xC0 | ((dst.hw & 7) << 3) | (dst.hw & 7));
                                push_le32(&mut data, (v & 0xFFFF_FFFF) as u32);
                            },
                        }
                    },
                }
            },
            Inst::ReserveSp { bytes } => {
                data.push(0x48);
                data.push(0x81);
                data.push(0xEC);
                push_le32(&mut data, bytes);
            },
            Inst::FreeSp { bytes } => {
                data.push(0x48);
                data.push(0x81);
                data.push(0xC4);
                push_le32(&mut data, bytes);
            },
            Inst::Bind { .. } => {},
            Inst::Jmp { label } => {
                let target = match resolve_label(&labels, label) {
                    Ok(t) => t,
                    Err(e) => {
                        proof {
                            lemma_unbound_contra(m.insts@, m.next_label, labels@, p as int, label);
                        }
                        return Err(e);
                    },
                };
                let rel: i64 = target as i64 - (off as i64 + 5);
                data.push(0xE9);
                push_le32(&mut data, rel as u32);
            },
            Inst::Brz { reg, label } => {
                let target = match resolve_label(&labels, label) {
                    Ok(t) => t,
                    Err(e) => {
                        proof {
                            lemma_unbound_contra(m.insts@, m.next_label, labels@, p as int, label);
                        }
                        return Err(e);
                    },
                };
                data.push(rex_rr(false, reg.hw, reg.hw));
                data.push(0x85);
                data.push(0xC0 | ((reg.hw & 7) << 3) | (reg.hw & 7));
                let rel: i64 = target as i64 - (off as i64 + 9);
                data.push(0x0F);
                data.push(0x84);
                push_le32(&mut data, rel as u32);
            },
            Inst::Brnz { reg, label } => {
                let target = match resolve_label(&labels, label) {
                    Ok(t) => t,
                    Err(e) => {
                        proof {
                            lemma_unbound_contra(m.insts@, m.next_label, labels@, p as int, label);
                        }
                        return Err(e);
                    },
                };
                data.push(rex_rr(false, reg.hw, reg.hw));
                data.push(0x85);
                data.push(0xC0 | ((reg.hw & 7) << 3) | (reg.hw & 7));
                let rel: i64 = target as i64 - (off as i64 + 9);
                data.push(0x0F);
                data.push(0x85);
                push_le32(&mut data, rel as u32);
            },
            Inst::Call { kind } => {
                match kind {
                    CallKind::Direct(f) => {
                        relocs.push(
                            MachReloc {
                                offset: off + 1,
                                kind: RelocationKind::X86CallPcRel4,
                                target: RelocationTarget::UserFunc(f),
                                addend: -4,
                            },
                        );
                        data.push(0xE8);
                        push_le32(&mut data, 0);
                    },
                    CallKind::Indirect(reg) => {
                        let mut rex: u8 = 0x40;
                        if reg.hw >= 8 {
                            rex = rex | 0x01;
                        }
                        data.push(rex);
                        data.push(0xFF);
                        data.push(0xD0 | (reg.hw & 7));
                    },
                }
            },
            Inst::Ret => {
                data.push(0xC3);
            },
            Inst::Trap { code } => {
                traps.push(MachTrap { offset: off, code });
                data.push(0x0F);
                data.push(0x0B);
            },
        }
        p = p + 1;
    }
    Ok(MachBufferFinalized { data, relocs, traps, stack_maps: Vec::new() })
}

/// The bound position of `label`, or the unbound-label fault.
fn resolve_label(labels: &Vec<Option<u32>>, label: u32) -> (r: Result<u32, CodegenError>)
    ensures
        match r {
            Ok(t) => label < labels@.len() && labels@[label as int] == Some(t),
            Err(e) => e == CodegenError::UnboundLabel && (label >= labels@.len() || labels@[
                label as int
            ] is None),
        },
{
    if label as usize >= labels.len() {
        return Err(CodegenError::UnboundLabel);
    }
    match labels[label as usize] {
        Some(t) => Ok(t),
        None => Err(CodegenError::UnboundLabel),
    }
}

} // verus!
