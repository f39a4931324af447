//! A reference machine for the abstract instruction set.
//!
//! The machine gives the macro assembler's instruction stream a concrete
//! meaning: thirty-two integer registers, one flat byte memory holding
//! both the stack and any data the caller lays out, and a function table
//! in which a code address is a function's index.  It exists so that the
//! compiler's output can be run — a compiled body, or a trampoline
//! invoking one — and its results observed, without leaving the verified
//! world.  Every memory access is bounds-checked and every fault is
//! reported, never absorbed.

use vstd::prelude::*;

use crate::masm::{Address, AluOp, CallKind, Inst, OperandSize, RegImm};
use crate::reg::{Reg, RegClass};
use crate::types::TrapCode;

verus! {

/// Why a run stopped before its function returned.
#[derive(Clone, Copy, Debug, PartialEq, Eq, Structural)]
pub enum VmFault {
    /// A memory access fell outside the machine's memory.
    OutOfBoundsAccess,
    /// A call named a function index outside the table, or a branch named
    /// a label with no position in its function.
    BadTarget,
    /// A trap instruction was reached.
    TrapHit(TrapCode),
    /// The step budget ran out before the function returned.
    OutOfFuel,
    /// An operand the machine does not model: a floating-point register.
    UnsupportedOperand,
}

/// The machine state: integer registers by hardware index, flat memory,
/// and the stack and frame pointers as byte addresses into that memory.
pub struct Machine {
    pub regs: Vec<u64>,
    pub mem: Vec<u8>,
    pub sp: u64,
    pub fp: u64,
}

impl Machine {
    /// The register file always holds all thirty-two slots.
    pub open spec fn wf(self) -> bool {
        self.regs@.len() == 32
    }

    /// A fresh machine with `mem_size` bytes of zeroed memory and the
    /// stack pointer at its top.
    pub fn new(mem_size: usize) -> (r: Machine)
        requires
            mem_size <= 0x100_0000,
        ensures
            r.wf(),
            r.mem@.len() == mem_size,
            r.sp == mem_size,
            r.fp == mem_size,
    {
        let mut regs: Vec<u64> = Vec::new();
        let mut i: usize = 0;
        while i < 32
            invariant
                i <= 32,
                regs@.len() == i,
            decreases 32 - i,
        {
            regs.push(0);
            i = i + 1;
        }
        let mut mem: Vec<u8> = Vec::new();
        let mut j: usize = 0;
        while j < mem_size
            invariant
                j <= mem_size,
                mem@.len() == j,
            decreases mem_size - j,
        {
            mem.push(0);
            j = j + 1;
        }
        Machine { regs, mem, sp: mem_size as u64, fp: mem_size as u64 }
    }

    /// The value of an integer register; a floating-point register is a
    /// fault, since the machine does not model that file.
    fn read_reg(&self, r: Reg) -> (v: Result<u64, VmFault>)
        requires
            self.wf(),
    {
        match r.class {
            RegClass::Int => {
                if r.hw < 32 {
                    Ok(self.regs[r.hw as usize])
                } else {
                    Err(VmFault::UnsupportedOperand)
                }
            },
            RegClass::Float => Err(VmFault::UnsupportedOperand),
        }
    }

    fn write_reg(&mut self, r: Reg, v: u64) -> (res: Result<(), VmFault>)
        requires
            old(self).wf(),
        ensures
            final(self).wf(),
            final(self).mem@.len() == old(self).mem@.len(),
    {
        match r.class {
            RegClass::Int => {
                if r.hw < 32 {
                    self.regs.set(r.hw as usize, v);
                    Ok(())
                } else {
                    Err(VmFault::UnsupportedOperand)
                }
            },
            RegClass::Float => Err(VmFault::UnsupportedOperand),
        }
    }

    /// Reads `n` little-endian bytes at `addr`.
    fn read_mem(&self, addr: u64, n: u64) -> (v: Result<u64, VmFault>)
        requires
            n == 4 || n == 8,
    {
        if addr > u64::MAX - n {
            return Err(VmFault::OutOfBoundsAccess);
        }
        if addr + n > self.mem.len() as u64 {
            return Err(VmFault::OutOfBoundsAccess);
        }
        let base = addr as usize;
        let ml = self.mem.len();
        let mut v: u64 = 0;
        let mut i: usize = 0;
        let count = n as usize;
        while i < count
            invariant
                count <= 8,
                i <= count,
                ml == self.mem@.len(),
                base + count <= ml,
            decreases count - i,
        {
            let byte = self.mem[base + i] as u64;
            let shift: u64 = 8 * (i as u64);
            v = v | (byte << shift);
            i = i + 1;
        }
        Ok(v)
    }

    /// Writes the low `n` bytes of `v` at `addr`, little-endian.
    fn write_mem(&mut self, addr: u64, n: u64, v: u64) -> (res: Result<(), VmFault>)
        requires
            old(self).wf(),
            n == 4 || n == 8,
        ensures
            final(self).wf(),
            final(self).mem@.len() == old(self).mem@.len(),
    {
        if addr > u64::MAX - n {
            return Err(VmFault::OutOfBoundsAccess);
        }
        if addr + n > self.mem.len() as u64 {
            return Err(VmFault::OutOfBoundsAccess);
        }
        let base = addr as usize;
        let ml = self.mem.len();
        let mut i: usize = 0;
        let count = n as usize;
        while i < count
            invariant
                self.wf(),
                count <= 8,
                i <= count,
                ml == self.mem@.len(),
                base + count <= ml,
                self.mem@.len() == old(self).mem@.len(),
            decreases count - i,
        {
            let shift: u64 = 8 * (i as u64);
            let byte = ((v >> shift) & 0xFF) as u8;
            self.mem.set(base + i, byte);
            i = i + 1;
        }
        Ok(())
    }

    /// The byte address a memory operand names in the current state.
    fn resolve(&self, addr: Address) -> (a: Result<u64, VmFault>)
        requires
            self.wf(),
    {
        match addr {
            Address::RegOffset { base, offset } => {
                let b = self.read_reg(base)?;
                if b > u64::MAX - offset as u64 {
                    Err(VmFault::OutOfBoundsAccess)
                } else {
                    Ok(b + offset as u64)
                }
            },
            Address::SpOffset { offset } => {
                if self.sp > u64::MAX - offset as u64 {
                    Err(VmFault::OutOfBoundsAccess)
                } else {
                    Ok(self.sp + offset as u64)
                }
            },
            Address::FpNeg { offset } => {
                if self.fp < offset as u64 {
                    Err(VmFault::OutOfBoundsAccess)
                } else {
                    Ok(self.fp - offset as u64)
                }
            },
            Address::FpPos { offset } => {
                if self.fp > u64::MAX - offset as u64 {
                    Err(VmFault::OutOfBoundsAccess)
                } else {
                    Ok(self.fp + offset as u64)
                }
            },
        }
    }
}

/// The byte width an operand size moves.
fn size_bytes(size: OperandSize) -> (n: u64)
    ensures
        n == 4 || n == 8,
{
    match size {
        OperandSize::S32 => 4,
        OperandSize::S64 => 8,
    }
}

/// Truncates a value to its operand size.
fn clamp(size: OperandSize, v: u64) -> u64 {
    match size {
        OperandSize::S32 => v & 0xFFFF_FFFF,
        OperandSize::S64 => v,
    }
}

/// The position just after `Bind { label }` in `insts`, if the label is
/// bound there.
fn find_label(insts: &Vec<Inst>, label: u32) -> (r: Result<usize, VmFault>)
    ensures
        r matches Ok(p) ==> p <= insts@.len(),
{
    let n = insts.len();
    let mut i: usize = 0;
    while i < n
        invariant
            n == insts@.len(),
            i <= n,
        decreases n - i,
    {
        match insts[i] {
            Inst::Bind { label: l } => {
                if l == label {
                    return Ok(i + 1);
                }
            },
            _ => {},
        }
        i = i + 1;
    }
    Err(VmFault::BadTarget)
}

/// Runs the function at `fidx` of the table to completion: its `Ret`
/// undoes the return-address slot its caller pushed.  `fuel` bounds the
/// steps taken, across calls.
pub fn run_func(funcs: &Vec<Vec<Inst>>, fidx: usize, m: &mut Machine, fuel: u64) -> (r: Result<
    u64,
    VmFault,
>)
    requires
        old(m).wf(),
    ensures
        final(m).wf(),
        final(m).mem@.len() == old(m).mem@.len(),
    decreases fuel,
{
    if fuel == 0 {
        return Err(VmFault::OutOfFuel);
    }
    if fidx >= funcs.len() {
        return Err(VmFault::BadTarget);
    }
    let insts = &funcs[fidx];
    let n = insts.len();
    let mut pc: usize = 0;
    let mut steps: u64 = fuel;
    loop
        invariant_except_break
            m.wf(),
            m.mem@.len() == old(m).mem@.len(),
            n == insts@.len(),
            pc <= n,
            1 <= steps <= fuel,
        ensures
            m.wf(),
            m.mem@.len() == old(m).mem@.len(),
        decreases steps,
    {
        if steps == 1 {
            return Err(VmFault::OutOfFuel);
        }
        steps = steps - 1;
        if pc >= n {
            // Control fell off the end without a return.
            return Err(VmFault::BadTarget);
        }
        let inst = insts[pc];
        pc = pc + 1;
        match inst {
            Inst::MovRR { src, dst, size } => {
                let v = m.read_reg(src)?;
                m.write_reg(dst, clamp(size, v))?;
            },
            Inst::MovIR { imm, dst, size } => {
                m.write_reg(dst, clamp(size, imm))?;
            },
            Inst::Load { addr, dst, size } => {
                let a = m.resolve(addr)?;
                let v = m.read_mem(a, size_bytes(size))?;
                m.write_reg(dst, v)?;
            },
            Inst::Store { src, addr, size } => {
                let a = m.resolve(addr)?;
                let v = m.read_reg(src)?;
                m.write_mem(a, size_bytes(size), v)?;
            },
            Inst::StoreImm { value, addr, size } => {
                let a = m.resolve(addr)?;
                m.write_mem(a, size_bytes(size), value as u64)?;
            },
            Inst::Push { reg } => {
                let v = m.read_reg(reg)?;
                if m.sp < 8 {
                    return Err(VmFault::OutOfBoundsAccess);
                }
                m.sp = m.sp - 8;
                let sp = m.sp;
                m.write_mem(sp, 8, v)?;
            },
            Inst::Pop { reg } => {
                let sp = m.sp;
                let v = m.read_mem(sp, 8)?;
                if m.sp > u64::MAX - 8 {
                    return Err(VmFault::OutOfBoundsAccess);
                }
                m.sp = m.sp + 8;
                m.write_reg(reg, v)?;
            },
            Inst::Alu { op, src, dst, size } => {
                let a = m.read_reg(dst)?;
                let b = match src {
                    RegImm::Reg(r) => m.read_reg(r)?,
                    RegImm::Imm(v) => v,
                };
                let raw = match op {
                    AluOp::Add => a.wrapping_add(b),
                    AluOp::Sub => a.wrapping_sub(b),
                    AluOp::Mul => a.wrapping_mul(b),
                };
                m.write_reg(dst, clamp(size, raw))?;
            },
            Inst::ReserveSp { bytes } => {
                if m.sp < bytes as u64 {
                    return Err(VmFault::OutOfBoundsAccess);
                }
                m.sp = m.sp - bytes as u64;
            },
            Inst::FreeSp { bytes } => {
                if m.sp > u64::MAX - bytes as u64 {
                    return Err(VmFault::OutOfBoundsAccess);
                }
                m.sp = m.sp + bytes as u64;
            },
            Inst::Bind { .. } => {},
            Inst::Jmp { label } => {
                pc = find_label(insts, label)?;
            },
            Inst::Brz { reg, label } => {
                let v = m.read_reg(reg)?;
                if v & 0xFFFF_FFFF == 0 {
                    pc = find_label(insts, label)?;
                }
            },
            Inst::Brnz { reg, label } => {
                let v = m.read_reg(reg)?;
                if v & 0xFFFF_FFFF != 0 {
                    pc = find_label(insts, label)?;
                }
            },
            Inst::Call { kind } => {
                let target: u64 = match kind {
                    CallKind::Direct(f) => f as u64,
                    CallKind::Indirect(reg) => m.read_reg(reg)?,
                };
                if target > usize::MAX as u64 {
                    return Err(VmFault::BadTarget);
                }
                // The call leaves a return-address slot on the stack; the
                // callee's return releases it.
                if m.sp < 8 {
                    return Err(VmFault::OutOfBoundsAccess);
                }
                m.sp = m.sp - 8;
                let saved_fp = m.fp;
                run_func(funcs, target as usize, m, steps)?;
                m.fp = saved_fp;
            },
            Inst::Ret => {
                if m.sp > u64::MAX - 8 {
                    return Err(VmFault::OutOfBoundsAccess);
                }
                m.sp = m.sp + 8;
                let v = if 0 < m.regs.len() {
                    m.regs[0]
                } else {
                    0
                };
                return Ok(v);
            },
            Inst::Trap { code } => {
                return Err(VmFault::TrapHit(code));
            },
        }
    }
}

/// Calls the function at `fidx` as an outside caller would: a
/// return-address slot is pushed for the callee to release.  Returns the
/// value left in the convention's first integer register.
pub fn call_func(funcs: &Vec<Vec<Inst>>, fidx: usize, m: &mut Machine, fuel: u64) -> (r: Result<
    u64,
    VmFault,
>)
    requires
        old(m).wf(),
    ensures
        final(m).wf(),
        final(m).mem@.len() == old(m).mem@.len(),
{
    if m.sp < 8 {
        return Err(VmFault::OutOfBoundsAccess);
    }
    m.sp = m.sp - 8;
    run_func(funcs, fidx, m, fuel)
}

} // verus!
