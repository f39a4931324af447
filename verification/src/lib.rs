//! A baseline, single-pass WebAssembly-to-native code generator.
//!
//! One function body at a time is translated directly into machine code for a
//! chosen target architecture, favouring minimal compilation latency over
//! generated-code quality.  The crate covers the code-generation engine
//! itself: the operand-stack model mirroring the WebAssembly stack machine,
//! the calling-convention classifier, per-function frame layout, a minimal
//! register allocator, an architecture-agnostic macro assembler with concrete
//! encoders per target, the control-flow label stack, the trampoline
//! generator that adapts between calling conventions, the text-section
//! layout with relocation resolution, and a reference machine that gives
//! the emitted instruction stream a meaning code can be run against.
//!
//! Bytecode parsing and validation of full modules, final object-file
//! emission, and the host runtime that consumes trap metadata are external
//! collaborators; their data is exchanged through the plain types defined
//! here.

use vstd::prelude::*;

pub mod abi;
pub mod builder;
pub mod compiler;
pub mod codegen;
pub mod frame;
pub mod isa;
pub mod obj;
pub mod reg;
pub mod machine;
pub mod masm;
pub mod regset;
pub mod stack;
pub mod trampoline;
pub mod types;

use crate::types::{Relocation, TrapInformation};

verus! {

/// The finished artifact of one function compilation: raw machine code plus
/// the metadata the embedder needs to lay it out and to service traps.
#[derive(Debug)]
pub struct CompiledFunction {
    /// The machine code for this function.
    pub body: Vec<u8>,
    /// Metadata about traps in this function, mapping code offsets to the
    /// trap that they may cause.
    pub traps: Vec<TrapInformation>,
    /// Deferred references (call targets) recorded at emission time, to be
    /// resolved once the final code layout is known.
    pub relocations: Vec<Relocation>,
}

impl CompiledFunction {
    /// Every trap record and every relocation of a well-formed artifact
    /// points inside the function body, relocation addends are the small
    /// constants the patch-field shapes use, and the patch fields come in
    /// ascending order without overlapping — as emission produces them.
    pub open spec fn wf(self) -> bool {
        &&& forall|i: int|
            0 <= i < self.traps@.len() ==> (#[trigger] self.traps@[i]).code_offset < self.body@.len()
        &&& forall|i: int|
            0 <= i < self.relocations@.len() ==> (#[trigger] self.relocations@[i]).offset + 4
                <= self.body@.len() && -16 <= self.relocations@[i].addend <= 16
        &&& forall|i: int, j: int|
            0 <= i < j < self.relocations@.len() ==> (#[trigger] self.relocations@[i]).offset + 4
                <= (#[trigger] self.relocations@[j]).offset
    }
}

} // verus!
