//! The operand stack: the compiler's model of the WebAssembly value stack
//! during translation.
//!
//! Each entry records where a value currently lives — a register, a spill
//! slot, an immediate, or a named local.  Values are materialized into a
//! register only when an instruction requires one.

use vstd::prelude::*;

use crate::reg::Reg;
use crate::types::ValType;

verus! {

/// One operand-stack entry.
#[derive(Clone, Copy, Debug, PartialEq, Eq, Structural)]
pub enum Val {
    /// The value lives in a register owned by this entry.
    Reg { reg: Reg, ty: ValType },
    /// The value was spilled to the slot that was `offset` bytes deep in
    /// the dynamic stack area when it was pushed there.
    Mem { offset: u32, ty: ValType },
    /// A literal that has not yet needed a register.
    Imm { bits: u64, ty: ValType },
    /// A reference to the function's local with this index.
    Local { index: usize, ty: ValType },
}

impl Val {
    pub open spec fn ty(self) -> ValType {
        match self {
            Val::Reg { ty, .. } => ty,
            Val::Mem { ty, .. } => ty,
            Val::Imm { ty, .. } => ty,
            Val::Local { ty, .. } => ty,
        }
    }

    pub open spec fn is_reg(self) -> bool {
        self is Reg
    }

    pub open spec fn spec_reg(self) -> Reg {
        self->Reg_reg
    }

    /// The type tag, as an executable query.
    pub fn val_ty(&self) -> (r: ValType)
        ensures
            r == self.ty(),
    {
        match self {
            Val::Reg { ty, .. } => *ty,
            Val::Mem { ty, .. } => *ty,
            Val::Imm { ty, .. } => *ty,
            Val::Local { ty, .. } => *ty,
        }
    }
}

/// The operand stack itself.
pub struct OperandStack {
    inner: Vec<Val>,
}

impl View for OperandStack {
    type V = Seq<Val>;

    closed spec fn view(&self) -> Seq<Val> {
        self.inner@
    }
}

impl OperandStack {
    pub fn new() -> (r: OperandStack)
        ensures
            r@.len() == 0,
    {
        OperandStack { inner: Vec::new() }
    }

    pub fn len(&self) -> (r: usize)
        ensures
            r == self@.len(),
    {
        self.inner.len()
    }

    pub fn push(&mut self, v: Val)
        requires
            old(self)@.len() < usize::MAX,
        ensures
            final(self)@ == old(self)@.push(v),
    {
        self.inner.push(v);
    }

    pub fn pop(&mut self) -> (r: Option<Val>)
        ensures
            match r {
                Some(v) => old(self)@.len() > 0 && v == old(self)@.last() && final(self)@ == old(
                    self,
                )@.drop_last(),
                None => old(self)@.len() == 0 && final(self)@ == old(self)@,
            },
    {
        self.inner.pop()
    }

    /// The entry `depth` positions below the top.
    pub fn peek(&self, depth: usize) -> (r: Option<Val>)
        ensures
            match r {
                Some(v) => depth < self@.len() && v == self@[self@.len() - 1 - depth],
                None => depth >= self@.len(),
            },
    {
        let n = self.inner.len();
        if depth < n {
            Some(self.inner[n - 1 - depth])
        } else {
            None
        }
    }

    /// The entry at absolute position `index`, counted from the bottom.
    pub fn get(&self, index: usize) -> (r: Option<Val>)
        ensures
            match r {
                Some(v) => index < self@.len() && v == self@[index as int],
                None => index >= self@.len(),
            },
    {
        if index < self.inner.len() {
            Some(self.inner[index])
        } else {
            None
        }
    }

    /// Replaces the entry at absolute position `index`.
    pub fn set(&mut self, index: usize, v: Val)
        requires
            index < old(self)@.len(),
        ensures
            final(self)@ == old(self)@.update(index as int, v),
    {
        self.inner.set(index, v);
    }

    /// Discards every entry above height `height`.  The registers such
    /// entries occupied are the caller's to free; truncation itself only
    /// drops the entries.
    pub fn truncate(&mut self, height: usize)
        requires
            height <= old(self)@.len(),
        ensures
            final(self)@ == old(self)@.subrange(0, height as int),
    {
        self.inner.truncate(height);
        proof {
            assert(self@ =~= old(self)@.subrange(0, height as int));
        }
    }
}

} // verus!
