//! The architecture-agnostic macro-assembler surface.
//!
//! Code is emitted as a sequence of abstract instructions; a concrete
//! backend encodes that sequence into machine bytes and gathers the trap
//! and relocation records for the finalized buffer.  The assembler tracks
//! the depth of the dynamic stack area — everything pushed or reserved
//! since the frame was set up — so that slot addresses can be formed
//! relative to the current stack pointer.

use vstd::prelude::*;

use crate::reg::Reg;
use crate::types::{RelocationKind, RelocationTarget, TrapCode};

verus! {

/// Operand widths the baseline generator distinguishes.
#[derive(Clone, Copy, Debug, PartialEq, Eq, Structural)]
pub enum OperandSize {
    S32,
    S64,
}

/// A register or an immediate, as instruction operands arrive from the
/// code generator.
#[derive(Clone, Copy, Debug, PartialEq, Eq, Structural)]
pub enum RegImm {
    Reg(Reg),
    Imm(u64),
}

impl RegImm {
    pub fn reg(r: Reg) -> (v: RegImm)
        ensures
            v == RegImm::Reg(r),
    {
        RegImm::Reg(r)
    }

    pub fn imm(bits: u64) -> (v: RegImm)
        ensures
            v == RegImm::Imm(bits),
    {
        RegImm::Imm(bits)
    }
}

/// How a call names its callee.
#[derive(Clone, Copy, Debug, PartialEq, Eq, Structural)]
pub enum CallKind {
    /// A module-local function, by index; emission records a relocation.
    Direct(u32),
    /// Through the address held in a register.
    Indirect(Reg),
}

/// A memory operand.
#[derive(Clone, Copy, Debug, PartialEq, Eq, Structural)]
pub enum Address {
    /// `offset` bytes above the address held in `base`.
    RegOffset { base: Reg, offset: u32 },
    /// `offset` bytes above the current stack pointer.
    SpOffset { offset: u32 },
    /// `offset` bytes below the frame pointer: an in-frame slot.
    FpNeg { offset: u32 },
    /// `offset` bytes above the frame pointer: the caller's argument area.
    FpPos { offset: u32 },
}

/// Integer operations of the baseline instruction set.
#[derive(Clone, Copy, Debug, PartialEq, Eq, Structural)]
pub enum AluOp {
    Add,
    Sub,
    Mul,
}

/// One abstract instruction.  Each backend encodes every variant with its
/// own fixed byte pattern.
#[derive(Clone, Copy, Debug, PartialEq, Eq, Structural)]
pub enum Inst {
    /// `dst <- src`.
    MovRR { src: Reg, dst: Reg, size: OperandSize },
    /// `dst <- imm`.
    MovIR { imm: u64, dst: Reg, size: OperandSize },
    /// `dst <- [addr]`.
    Load { addr: Address, dst: Reg, size: OperandSize },
    /// `[addr] <- src`.
    Store { src: Reg, addr: Address, size: OperandSize },
    /// `[addr] <- value`.
    StoreImm { value: u32, addr: Address, size: OperandSize },
    /// Push `reg` onto the machine stack.
    Push { reg: Reg },
    /// Pop the machine stack into `reg`.
    Pop { reg: Reg },
    /// `dst <- dst op src`.
    Alu { op: AluOp, src: RegImm, dst: Reg, size: OperandSize },
    /// Grow the stack frame downward by `bytes`.
    ReserveSp { bytes: u32 },
    /// Shrink the stack frame by `bytes`.
    FreeSp { bytes: u32 },
    /// Attach `label` to the position after this point.
    Bind { label: u32 },
    /// Unconditional jump to `label`.
    Jmp { label: u32 },
    /// Jump to `label` if `reg` is zero.
    Brz { reg: Reg, label: u32 },
    /// Jump to `label` if `reg` is non-zero.
    Brnz { reg: Reg, label: u32 },
    /// Call as `kind` names the callee.
    Call { kind: CallKind },
    /// Return to the caller.
    Ret,
    /// Raise `code` at this position.
    Trap { code: TrapCode },
}

/// A relocation gathered during encoding, at a byte offset within the
/// encoded body.
#[derive(Clone, Copy, Debug, PartialEq, Eq, Structural)]
pub struct MachReloc {
    pub offset: u32,
    pub kind: RelocationKind,
    pub target: RelocationTarget,
    pub addend: i64,
}

/// A trap record gathered during encoding.
#[derive(Clone, Copy, Debug, PartialEq, Eq, Structural)]
pub struct MachTrap {
    pub offset: u32,
    pub code: TrapCode,
}

/// A live-pointer record gathered during encoding.  The baseline generator
/// does not yet produce any; the shape is kept for the embedder's side
/// tables.
#[derive(Clone, Debug, PartialEq, Eq)]
pub struct MachStackMap {
    pub offset: u32,
    pub offset_end: u32,
    pub mapped_words: u32,
    pub bits: Vec<u32>,
}

/// The immutable result of encoding one function: machine code plus the
/// records gathered during emission.
#[derive(Clone, Debug, PartialEq, Eq)]
pub struct MachBufferFinalized {
    pub data: Vec<u8>,
    pub relocs: Vec<MachReloc>,
    pub traps: Vec<MachTrap>,
    pub stack_maps: Vec<MachStackMap>,
}

/// The macro assembler: the instruction sequence under construction, the
/// tracked depth of the dynamic stack area, the label counter, and the
/// target's stack- and frame-pointer registers.
pub struct MacroAssembler {
    pub insts: Vec<Inst>,
    pub sp_offset: u32,
    pub next_label: u32,
    pub sp: Reg,
    pub fp: Reg,
}

/// The cap on tracked stack depth; keeps every slot displacement well
/// inside a 32-bit signed field.
pub const SP_LIMIT: u32 = 0x1000_0000;

impl MacroAssembler {
    pub fn new(sp: Reg, fp: Reg) -> (r: MacroAssembler)
        ensures
            r.insts@.len() == 0,
            r.sp_offset == 0,
            r.next_label == 0,
            r.sp == sp,
            r.fp == fp,
    {
        MacroAssembler { insts: Vec::new(), sp_offset: 0, next_label: 0, sp, fp }
    }

    /// A fresh, not yet bound label.
    pub fn get_label(&mut self) -> (l: u32)
        requires
            old(self).next_label < u32::MAX,
        ensures
            l == old(self).next_label,
            final(self).next_label == old(self).next_label + 1,
            final(self).insts == old(self).insts,
            final(self).sp_offset == old(self).sp_offset,
            final(self).sp == old(self).sp,
            final(self).fp == old(self).fp,
    {
        let l = self.next_label;
        self.next_label = self.next_label + 1;
        l
    }

    /// States that emitting left everything but the instruction sequence
    /// unchanged.
    pub open spec fn emitted(self, prev: MacroAssembler, tail: Seq<Inst>) -> bool {
        &&& self.insts@ == prev.insts@ + tail
        &&& self.next_label == prev.next_label
        &&& self.sp == prev.sp
        &&& self.fp == prev.fp
    }

    fn emit(&mut self, inst: Inst)
        requires
            old(self).insts@.len() < usize::MAX,
        ensures
            final(self).emitted(*old(self), seq![inst]),
            final(self).sp_offset == old(self).sp_offset,
    {
        self.insts.push(inst);
        proof {
            assert(self.insts@ =~= old(self).insts@ + seq![inst]);
        }
    }

    /// Binds `label` to the current position.
    pub fn bind(&mut self, label: u32)
        requires
            old(self).insts@.len() < usize::MAX,
        ensures
            final(self).emitted(*old(self), seq![Inst::Bind { label }]),
            final(self).sp_offset == old(self).sp_offset,
    {
        self.emit(Inst::Bind { label });
    }

    /// Emits the frame setup: the caller's frame pointer is saved and the
    /// frame pointer is moved to the current stack pointer.
    pub fn prologue(&mut self)
        requires
            old(self).insts@.len() + 2 <= usize::MAX,
            old(self).sp_offset == 0,
        ensures
            final(self).emitted(
                *old(self),
                seq![
                    Inst::Push { reg: old(self).fp },
                    Inst::MovRR { src: old(self).sp, dst: old(self).fp, size: OperandSize::S64 },
                ],
            ),
            final(self).sp_offset == 0,
    {
        let fp = self.fp;
        let sp = self.sp;
        self.emit(Inst::Push { reg: fp });
        self.emit(Inst::MovRR { src: sp, dst: fp, size: OperandSize::S64 });
        proof {
            assert(self.insts@ =~= old(self).insts@ + seq![
                Inst::Push { reg: old(self).fp },
                Inst::MovRR { src: old(self).sp, dst: old(self).fp, size: OperandSize::S64 },
            ]);
        }
    }

    /// Emits the frame teardown: the frame area is released, the caller's
    /// frame pointer restored, and control returned.  The tracked dynamic
    /// area must consist of exactly the `locals_size` bytes being released.
    pub fn epilogue(&mut self, locals_size: u32)
        requires
            old(self).insts@.len() + 3 <= usize::MAX,
            old(self).sp_offset == locals_size,
        ensures
            final(self).emitted(
                *old(self),
                seq![
                    Inst::FreeSp { bytes: locals_size },
                    Inst::Pop { reg: old(self).fp },
                    Inst::Ret,
                ],
            ),
            final(self).sp_offset == 0,
    {
        let fp = self.fp;
        self.emit(Inst::FreeSp { bytes: locals_size });
        self.emit(Inst::Pop { reg: fp });
        self.emit(Inst::Ret);
        self.sp_offset = 0;
        proof {
            assert(self.insts@ =~= old(self).insts@ + seq![
                Inst::FreeSp { bytes: locals_size },
                Inst::Pop { reg: old(self).fp },
                Inst::Ret,
            ]);
        }
    }

    /// Grows the dynamic stack area by `bytes`.
    pub fn reserve_stack(&mut self, bytes: u32)
        requires
            old(self).insts@.len() < usize::MAX,
            old(self).sp_offset + bytes <= SP_LIMIT,
        ensures
            final(self).emitted(*old(self), seq![Inst::ReserveSp { bytes }]),
            final(self).sp_offset == old(self).sp_offset + bytes,
    {
        self.emit(Inst::ReserveSp { bytes });
        self.sp_offset = self.sp_offset + bytes;
    }

    /// Releases `bytes` of the dynamic stack area.
    pub fn free_stack(&mut self, bytes: u32)
        requires
            old(self).insts@.len() < usize::MAX,
            bytes <= old(self).sp_offset,
        ensures
            final(self).emitted(*old(self), seq![Inst::FreeSp { bytes }]),
            final(self).sp_offset == old(self).sp_offset - bytes,
    {
        self.emit(Inst::FreeSp { bytes });
        self.sp_offset = self.sp_offset - bytes;
    }

    /// Pushes `reg` onto the machine stack and returns the depth of the
    /// slot now holding it, measured from the frame setup point.
    pub fn push(&mut self, reg: Reg) -> (offset: u32)
        requires
            old(self).insts@.len() < usize::MAX,
            old(self).sp_offset + 8 <= SP_LIMIT,
        ensures
            final(self).emitted(*old(self), seq![Inst::Push { reg }]),
            final(self).sp_offset == old(self).sp_offset + 8,
            offset == final(self).sp_offset,
    {
        self.emit(Inst::Push { reg });
        self.sp_offset = self.sp_offset + 8;
        self.sp_offset
    }

    /// `dst <- src`, as a register move or an immediate load.
    pub fn mov(&mut self, src: RegImm, dst: Reg, size: OperandSize)
        requires
            old(self).insts@.len() < usize::MAX,
        ensures
            final(self).emitted(
                *old(self),
                seq![
                    match src {
                        RegImm::Reg(r) => Inst::MovRR { src: r, dst, size },
                        RegImm::Imm(imm) => Inst::MovIR { imm, dst, size },
                    },
                ],
            ),
            final(self).sp_offset == old(self).sp_offset,
    {
        match src {
            RegImm::Reg(r) => self.emit(Inst::MovRR { src: r, dst, size }),
            RegImm::Imm(imm) => self.emit(Inst::MovIR { imm, dst, size }),
        }
    }

    /// `dst <- [addr]`.
    pub fn load(&mut self, addr: Address, dst: Reg, size: OperandSize)
        requires
            old(self).insts@.len() < usize::MAX,
        ensures
            final(self).emitted(*old(self), seq![Inst::Load { addr, dst, size }]),
            final(self).sp_offset == old(self).sp_offset,
    {
        self.emit(Inst::Load { addr, dst, size });
    }

    /// `[addr] <- src`.  An immediate source must fit the 32-bit store
    /// field.
    pub fn store(&mut self, src: RegImm, addr: Address, size: OperandSize)
        requires
            old(self).insts@.len() < usize::MAX,
            src is Imm ==> src->Imm_0 <= u32::MAX,
        ensures
            final(self).emitted(
                *old(self),
                seq![
                    match src {
                        RegImm::Reg(r) => Inst::Store { src: r, addr, size },
                        RegImm::Imm(imm) => Inst::StoreImm { value: imm as u32, addr, size },
                    },
                ],
            ),
            final(self).sp_offset == old(self).sp_offset,
    {
        match src {
            RegImm::Reg(r) => self.emit(Inst::Store { src: r, addr, size }),
            RegImm::Imm(imm) => self.emit(Inst::StoreImm { value: imm as u32, addr, size }),
        }
    }

    /// `dst <- dst op src`.
    pub fn alu(&mut self, op: AluOp, src: RegImm, dst: Reg, size: OperandSize)
        requires
            old(self).insts@.len() < usize::MAX,
        ensures
            final(self).emitted(*old(self), seq![Inst::Alu { op, src, dst, size }]),
            final(self).sp_offset == old(self).sp_offset,
    {
        self.emit(Inst::Alu { op, src, dst, size });
    }

    /// A call, direct or through a register.
    pub fn call(&mut self, kind: CallKind)
        requires
            old(self).insts@.len() < usize::MAX,
        ensures
            final(self).emitted(*old(self), seq![Inst::Call { kind }]),
            final(self).sp_offset == old(self).sp_offset,
    {
        self.emit(Inst::Call { kind });
    }

    /// Unconditional jump to `label`.
    pub fn jmp(&mut self, label: u32)
        requires
            old(self).insts@.len() < usize::MAX,
        ensures
            final(self).emitted(*old(self), seq![Inst::Jmp { label }]),
            final(self).sp_offset == old(self).sp_offset,
    {
        self.emit(Inst::Jmp { label });
    }

    /// Jump to `label` if `reg` holds zero.
    pub fn brz(&mut self, reg: Reg, label: u32)
        requires
            old(self).insts@.len() < usize::MAX,
        ensures
            final(self).emitted(*old(self), seq![Inst::Brz { reg, label }]),
            final(self).sp_offset == old(self).sp_offset,
    {
        self.emit(Inst::Brz { reg, label });
    }

    /// Jump to `label` if `reg` holds anything but zero.
    pub fn brnz(&mut self, reg: Reg, label: u32)
        requires
            old(self).insts@.len() < usize::MAX,
        ensures
            final(self).emitted(*old(self), seq![Inst::Brnz { reg, label }]),
            final(self).sp_offset == old(self).sp_offset,
    {
        self.emit(Inst::Brnz { reg, label });
    }

    /// Raises `code` at the current position; the encoder records the trap
    /// at the instruction's byte offset.
    pub fn trap(&mut self, code: TrapCode)
        requires
            old(self).insts@.len() < usize::MAX,
        ensures
            final(self).emitted(*old(self), seq![Inst::Trap { code }]),
            final(self).sp_offset == old(self).sp_offset,
    {
        self.emit(Inst::Trap { code });
    }

    /// The address `offset` bytes above the current stack pointer.  A slot
    /// pushed at tracked depth `d` lives at `sp_offset - d` bytes above the
    /// stack pointer; callers convert depths with the tracked `sp_offset`.
    pub fn address_from_sp(&self, offset: u32) -> (a: Address)
        ensures
            a == (Address::SpOffset { offset }),
    {
        Address::SpOffset { offset }
    }

    /// `offset` bytes above the address held in `reg`.
    pub fn address_from_reg(&self, reg: Reg, offset: u32) -> (a: Address)
        ensures
            a == (Address::RegOffset { base: reg, offset }),
    {
        Address::RegOffset { base: reg, offset }
    }
}

} // verus!
