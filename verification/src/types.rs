//! Plain data exchanged across the compiler: WebAssembly value types,
//! function signatures, trap and relocation metadata, and the error taxonomy.

use vstd::prelude::*;

verus! {

/// A WebAssembly value type.  Floating-point values are carried by the
/// generated code as raw bit patterns; the code generator never computes
/// with them.
#[derive(Clone, Copy, Debug, PartialEq, Eq, Structural)]
pub enum ValType {
    I32,
    I64,
    F32,
    F64,
}

impl ValType {
    /// The natural size of a value of this type, in bytes.
    pub fn size_bytes(&self) -> (r: u32)
        ensures
            r == self.spec_size_bytes(),
    {
        match self {
            ValType::I32 => 4,
            ValType::I64 => 8,
            ValType::F32 => 4,
            ValType::F64 => 8,
        }
    }

    pub open spec fn spec_size_bytes(self) -> u32 {
        match self {
            ValType::I32 => 4u32,
            ValType::I64 => 8u32,
            ValType::F32 => 4u32,
            ValType::F64 => 8u32,
        }
    }
}

/// An ordered sequence of parameter types and an ordered sequence of result
/// types; immutable once classified.
#[derive(Clone, Debug, PartialEq, Eq)]
pub struct Signature {
    pub params: Vec<ValType>,
    pub results: Vec<ValType>,
}

impl Signature {
    pub fn new(params: Vec<ValType>, results: Vec<ValType>) -> (r: Signature)
        ensures
            r.params@ == params@,
            r.results@ == results@,
    {
        Signature { params, results }
    }
}

/// A trap condition recorded during emission, before it is translated for
/// the embedder's side tables.
#[derive(Clone, Copy, Debug, PartialEq, Eq, Structural)]
pub enum TrapCode {
    StackOverflow,
    HeapOutOfBounds,
    HeapMisaligned,
    TableOutOfBounds,
    IndirectCallToNull,
    BadSignature,
    IntegerOverflow,
    IntegerDivisionByZero,
    BadConversionToInteger,
    UnreachableCodeReached,
    Interrupt,
    User(u16),
}

/// The fixed trap taxonomy the host runtime consults when execution faults.
#[derive(Clone, Copy, Debug, PartialEq, Eq, Structural)]
pub enum Trap {
    StackOverflow,
    MemoryOutOfBounds,
    HeapMisaligned,
    TableOutOfBounds,
    IndirectCallToNull,
    BadSignature,
    IntegerOverflow,
    IntegerDivisionByZero,
    BadConversionToInteger,
    UnreachableCodeReached,
    Interrupt,
    AlwaysTrapAdapter,
}

/// A code offset paired with the trap the host should report if execution
/// faults there.
#[derive(Clone, Copy, Debug, PartialEq, Eq, Structural)]
pub struct TrapInformation {
    pub code_offset: u32,
    pub trap_code: Trap,
}

/// Calls into the runtime's support library, as opposed to module-local
/// functions.  Relocations against these are deferred to the embedder as
/// dynamic relocations rather than resolved during text-section layout.
#[derive(Clone, Copy, Debug, PartialEq, Eq, Structural)]
pub enum LibCall {
    Probestack,
}

/// What a relocation refers to: another function of the same module, by
/// index, or a runtime library call.
#[derive(Clone, Copy, Debug, PartialEq, Eq, Structural)]
pub enum RelocationTarget {
    UserFunc(u32),
    LibCall(LibCall),
}

/// The shape of the patch site a relocation describes.
#[derive(Clone, Copy, Debug, PartialEq, Eq, Structural)]
pub enum RelocationKind {
    /// A 32-bit displacement relative to the end of the 4-byte field.
    X86CallPcRel4,
    /// A 26-bit instruction-word displacement held in a 4-byte instruction.
    Arm64Call,
}

/// A deferred reference recorded at emission time: the offset of the patch
/// site within the function body, the target, an addend, and the patch-site
/// shape.  Resolved against the assembled text section once every function's
/// position is fixed.
#[derive(Clone, Copy, Debug, PartialEq, Eq, Structural)]
pub struct Relocation {
    pub kind: RelocationKind,
    pub target: RelocationTarget,
    pub offset: u32,
    pub addend: i64,
}

/// Why a single function's translation was aborted.  The bytecode, given the
/// declared signature, could not be turned into machine code; no partial code
/// is ever produced.
#[derive(Clone, Copy, Debug, PartialEq, Eq, Structural)]
pub enum CodegenError {
    /// An operand had a different type than the instruction expects.
    TypeMismatch,
    /// A value was needed but the operand stack was empty.
    ValueStackUnderflow,
    /// A branch depth or `else`/`end` had no matching open construct.
    ControlStackUnderflow,
    /// At a control-flow merge point the operand-stack height did not equal
    /// the height recorded at entry plus the construct's declared arity.
    StackHeightMismatch,
    /// An `else` appeared outside an `if` construct.
    ElseWithoutIf,
    /// A local index was outside the function's local table.
    InvalidLocalIndex,
    /// A called function's index was outside the module's function table.
    InvalidFunctionIndex,
    /// The signature declares more than one result value, which the baseline
    /// calling conventions do not support.
    UnsupportedMultiValue,
    /// The calling convention has no result register of the class the
    /// declared result type needs.
    MissingResultRegister,
    /// A trampoline's own control words — the callee address and the value
    /// array pointer — did not land in registers under the host convention.
    ExpectedRegisterArgument,
    /// The function needs more locals or stack-argument space than the
    /// target can address.
    FrameTooLarge,
    /// A branch label was referenced but never bound to a position.
    UnboundLabel,
    /// A label was bound to two positions.
    DuplicateLabel,
    /// The encoded function outgrew the range branch displacements can
    /// span.
    CodeTooLarge,
    /// No register of the needed class could be produced even after
    /// spilling the operand stack.
    RegisterExhausted,
    /// A value of a type the baseline generator cannot yet keep in its
    /// register file, such as a floating-point operand.
    UnsupportedType,
    /// Bytecode ended while control constructs were still open, or continued
    /// after the function's outermost construct was closed.
    UnbalancedControlFlow,
    /// Emission records that break the emitter's own guarantees — an
    /// out-of-order patch field or a foreign trap marker; this compiler's
    /// backends never produce them.
    MalformedRecords,
}

/// Why no compilation could begin for a requested target.
#[derive(Clone, Copy, Debug, PartialEq, Eq, Structural)]
pub enum LookupError {
    /// The target architecture is not supported.
    Unsupported,
    /// Support for the target architecture was disabled when the compiler
    /// was built.
    SupportDisabled,
}

/// Why a configuration flag could not be set.
#[derive(Clone, Copy, Debug, PartialEq, Eq, Structural)]
pub enum SetError {
    /// No flag of that name is declared, neither shared nor
    /// target-specific.
    BadName,
    /// The flag exists but the value does not parse at its kind.
    BadValue,
}

/// Why the final text section could not be assembled.  These are build-time
/// faults, distinct from runtime traps.
#[derive(Clone, Copy, Debug, PartialEq, Eq, Structural)]
pub enum ObjectError {
    /// A relocation referenced a module-local function index for which no
    /// function was laid out.
    UnresolvedRelocation,
    /// The text section outgrew the range a 32-bit displacement can span.
    TextTooLarge,
    /// Fewer or more functions were appended than the builder was
    /// announced for.
    FunctionCountMismatch,
}

/// A fault surfaced to the external build driver for one function.
#[derive(Clone, Copy, Debug, PartialEq, Eq, Structural)]
pub enum CompileError {
    Codegen(CodegenError),
}

} // verus!
