//! The per-module compiler: drives one target object over every function,
//! converts the macro assembler's records into the embedder's metadata
//! shapes, and lays the finished functions out into a text region.

use vstd::multiset::Multiset;
use vstd::prelude::*;

use crate::codegen::{FuncEnv, Op};
use crate::frame::DefinedLocals;
use crate::isa::{CallConvId, FlagPair, Flags, TargetIsa, Triple};
use crate::masm::{MachBufferFinalized, MachReloc, MachStackMap, MachTrap};
use crate::obj::{buffer_records_in_range, ModuleTextBuilder, TextSection};
use crate::types::{
    CodegenError, CompileError, ObjectError, Relocation, RelocationTarget, Signature, Trap,
    TrapCode, TrapInformation,
};
use crate::CompiledFunction;

verus! {

/// The trap code the always-trap adapter is marked with.
pub const ALWAYS_TRAP_CODE: u16 = 100;

/// A live-pointer record in the embedder's shape: the code offset at the
/// end of the instruction it describes, the mapped word count, and the
/// set bit positions.
#[derive(Clone, Debug, PartialEq, Eq)]
pub struct StackMapInformation {
    pub code_offset: u32,
    pub mapped_words: u32,
    pub bits: Vec<u32>,
}

/// Function metadata handed to the embedder beside the machine code.
#[derive(Clone, Debug, PartialEq, Eq)]
pub struct WasmFunctionInfo {
    pub start_srcloc: u32,
    pub stack_maps: Vec<StackMapInformation>,
}

/// Where one function landed in the text region.
#[derive(Clone, Copy, Debug, PartialEq, Eq, Structural)]
pub struct FunctionLoc {
    pub start: u32,
    pub length: u32,
}

/// The module-wide trap side table: for each trap, its absolute code
/// offset in the text region and its kind, in layout order.
#[derive(Clone, Debug, PartialEq, Eq)]
pub struct TrapSection {
    pub offsets: Vec<u32>,
    pub codes: Vec<Trap>,
}

/// What an emission-level trap code means to the host runtime.  User
/// codes other than the always-trap marker are never emitted by this
/// compiler.
pub open spec fn spec_trap(c: TrapCode) -> Trap {
    match c {
        TrapCode::StackOverflow => Trap::StackOverflow,
        TrapCode::HeapOutOfBounds => Trap::MemoryOutOfBounds,
        TrapCode::HeapMisaligned => Trap::HeapMisaligned,
        TrapCode::TableOutOfBounds => Trap::TableOutOfBounds,
        TrapCode::IndirectCallToNull => Trap::IndirectCallToNull,
        TrapCode::BadSignature => Trap::BadSignature,
        TrapCode::IntegerOverflow => Trap::IntegerOverflow,
        TrapCode::IntegerDivisionByZero => Trap::IntegerDivisionByZero,
        TrapCode::BadConversionToInteger => Trap::BadConversionToInteger,
        TrapCode::UnreachableCodeReached => Trap::UnreachableCodeReached,
        TrapCode::Interrupt => Trap::Interrupt,
        TrapCode::User(_) => Trap::AlwaysTrapAdapter,
    }
}

/// Converts one emission-level trap record into the embedder's shape.
/// A user code other than the always-trap marker is never produced by
/// this compiler, so it is left outside the contract.
pub fn mach_trap_to_trap(trap: &MachTrap) -> (r: TrapInformation)
    requires
        trap.code matches TrapCode::User(c) ==> c == ALWAYS_TRAP_CODE,
    ensures
        r.code_offset == trap.offset,
        r.trap_code == spec_trap(trap.code),
{
    TrapInformation {
        code_offset: trap.offset,
        trap_code: match trap.code {
            TrapCode::StackOverflow => Trap::StackOverflow,
            TrapCode::HeapOutOfBounds => Trap::MemoryOutOfBounds,
            TrapCode::HeapMisaligned => Trap::HeapMisaligned,
            TrapCode::TableOutOfBounds => Trap::TableOutOfBounds,
            TrapCode::IndirectCallToNull => Trap::IndirectCallToNull,
            TrapCode::BadSignature => Trap::BadSignature,
            TrapCode::IntegerOverflow => Trap::IntegerOverflow,
            TrapCode::IntegerDivisionByZero => Trap::IntegerDivisionByZero,
            TrapCode::BadConversionToInteger => Trap::BadConversionToInteger,
            TrapCode::UnreachableCodeReached => Trap::UnreachableCodeReached,
            TrapCode::Interrupt => Trap::Interrupt,
            TrapCode::User(_) => Trap::AlwaysTrapAdapter,
        },
    }
}

/// Converts one emission-level relocation into the deferred-reference
/// shape the embedder resolves.
pub fn mach_reloc_to_reloc(reloc: &MachReloc) -> (r: Relocation)
    ensures
        r.kind == reloc.kind,
        r.target == reloc.target,
        r.offset == reloc.offset,
        r.addend == reloc.addend,
{
    Relocation {
        kind: reloc.kind,
        target: reloc.target,
        offset: reloc.offset,
        addend: reloc.addend,
    }
}

/// The whole content of one converted live-pointer record, as a plain
/// triple: code offset, mapped word count, bit positions.
pub open spec fn spec_map_content(x: StackMapInformation) -> (u32, u32, Seq<u32>) {
    (x.code_offset, x.mapped_words, x.bits@)
}

/// The content a raw emission-level record converts to.
pub open spec fn spec_mach_map_content(m: MachStackMap) -> (u32, u32, Seq<u32>) {
    (m.offset_end, m.mapped_words, m.bits@)
}

/// Inserting into a sequence inserts into its multiset.
proof fn lemma_insert_to_multiset<A>(s: Seq<A>, p: int, x: A)
    requires
        0 <= p <= s.len(),
    ensures
        s.insert(p, x).to_multiset() =~= s.to_multiset().insert(x),
{
    let front = s.subrange(0, p);
    let back = s.subrange(p, s.len() as int);
    vstd::seq_lib::lemma_multiset_commutative(front.push(x), back);
    front.to_multiset_ensures();
    assert(s =~= front + back);
    vstd::seq_lib::lemma_multiset_commutative(front, back);
}

/// Sorts converted live-pointer records by code offset: the result is a
/// reordering of the input — the multiset of record contents is kept —
/// in ascending code-offset order.
fn sort_stack_maps(input: Vec<StackMapInformation>) -> (r: Vec<StackMapInformation>)
    ensures
        r@.len() == input@.len(),
        forall|i: int, j: int|
            0 <= i < j < r@.len() ==> (#[trigger] r@[i]).code_offset <= (
            #[trigger] r@[j]).code_offset,
        r@.map_values(|x: StackMapInformation| spec_map_content(x)).to_multiset() =~= input@.map_values(
            |x: StackMapInformation| spec_map_content(x),
        ).to_multiset(),
{
    let ghost orig = input@;
    let mut rest = input;
    let mut out: Vec<StackMapInformation> = Vec::new();
    proof {
        let cf = |x: StackMapInformation| spec_map_content(x);
        assert(out@.map_values(cf) =~= Seq::<(u32, u32, Seq<u32>)>::empty());
        Seq::<(u32, u32, Seq<u32>)>::empty().to_multiset_ensures();
        assert(out@.map_values(cf).to_multiset() =~= Multiset::<(u32, u32, Seq<u32>)>::empty());
        assert(out@.map_values(cf).to_multiset().add(rest@.map_values(cf).to_multiset())
            =~= orig.map_values(cf).to_multiset());
    }
    while rest.len() > 0
        invariant
            out@.len() + rest@.len() == orig.len(),
            forall|i: int, j: int|
                0 <= i < j < out@.len() ==> (#[trigger] out@[i]).code_offset <= (
                #[trigger] out@[j]).code_offset,
            out@.map_values(|x: StackMapInformation| spec_map_content(x)).to_multiset().add(
                rest@.map_values(|x: StackMapInformation| spec_map_content(x)).to_multiset(),
            ) =~= orig.map_values(|x: StackMapInformation| spec_map_content(x)).to_multiset(),
        decreases rest@.len(),
    {
        let ghost pre_rest = rest@;
        let ghost pre_out = out@;
        let x = rest.remove(0);
        // Find the first position whose record sits past the new one.
        let mut p: usize = 0;
        while p < out.len() && out[p].code_offset <= x.code_offset
            invariant
                p <= out@.len(),
                forall|k: int| 0 <= k < p ==> (#[trigger] out@[k]).code_offset <= x.code_offset,
            decreases out@.len() - p,
        {
            p = p + 1;
        }
        let ghost scan_out = out@;
        out.insert(p, x);
        proof {
            let cf = |y: StackMapInformation| spec_map_content(y);
            // The sequence stays sorted around the insertion point.
            assert forall|i: int, j: int|
                0 <= i < j < out@.len() implies (#[trigger] out@[i]).code_offset <= (
            #[trigger] out@[j]).code_offset by {
                scan_out.insert_ensures(p as int, x);
                if j < p {
                } else if i < p && j == p {
                    assert(out@[i] == scan_out[i]);
                } else if i < p && j > p {
                    assert(out@[i] == scan_out[i] && out@[j] == scan_out[j - 1]);
                    assert(p < scan_out.len());
                    assert(x.code_offset < scan_out[p as int].code_offset);
                    assert(scan_out[p as int].code_offset <= scan_out[j - 1].code_offset);
                } else if i == p && j > p {
                    assert(out@[j] == scan_out[j - 1]);
                    assert(x.code_offset < scan_out[p as int].code_offset);
                    assert(scan_out[p as int].code_offset <= scan_out[j - 1].code_offset);
                } else {
                    assert(out@[i] == scan_out[i - 1] && out@[j] == scan_out[j - 1]);
                }
            }
            // The content multiset moves one record from rest to out.
            assert(out@ =~= scan_out.insert(p as int, x));
            assert(out@.map_values(cf) =~= scan_out.map_values(cf).insert(p as int, cf(x)));
            lemma_insert_to_multiset(scan_out.map_values(cf), p as int, cf(x));
            assert(rest@.map_values(cf) =~= pre_rest.map_values(cf).remove(0));
            pre_rest.map_values(cf).to_multiset_ensures();
            assert(pre_rest.map_values(cf)[0] == cf(x));
            assert(out@.map_values(cf).to_multiset().add(
                rest@.map_values(cf).to_multiset(),
            ) =~= pre_out.map_values(cf).to_multiset().add(pre_rest.map_values(cf).to_multiset()));
        }
    }
    proof {
        let cf = |x: StackMapInformation| spec_map_content(x);
        assert(rest@.map_values(cf) =~= Seq::<(u32, u32, Seq<u32>)>::empty());
        Seq::<(u32, u32, Seq<u32>)>::empty().to_multiset_ensures();
        assert(rest@.map_values(cf).to_multiset() =~= Multiset::<(u32, u32, Seq<u32>)>::empty());
        assert(out@.map_values(cf).to_multiset() =~= orig.map_values(cf).to_multiset());
    }
    out
}

/// Converts the emission-level live-pointer records into the embedder's
/// shape — keyed by the code offset at the end of each record — and sorts
/// them by that offset, as the side table wants them.
pub fn mach_stack_maps_to_stack_maps(maps: &Vec<MachStackMap>) -> (r: Vec<StackMapInformation>)
    ensures
        r@.len() == maps@.len(),
        forall|i: int, j: int|
            0 <= i < j < r@.len() ==> (#[trigger] r@[i]).code_offset <= (
            #[trigger] r@[j]).code_offset,
        r@.map_values(|x: StackMapInformation| spec_map_content(x)).to_multiset() =~= maps@.map_values(
            |m: MachStackMap| spec_mach_map_content(m),
        ).to_multiset(),
{
    let converted = convert_stack_maps(maps);
    proof {
        assert(converted@.map_values(|x: StackMapInformation| spec_map_content(x))
            =~= maps@.map_values(|m: MachStackMap| spec_mach_map_content(m)));
    }
    sort_stack_maps(converted)
}

/// Converts each record in order, without reordering.
fn convert_stack_maps(maps: &Vec<MachStackMap>) -> (r: Vec<StackMapInformation>)
    ensures
        r@.len() == maps@.len(),
        forall|i: int|
            0 <= i < maps@.len() ==> (#[trigger] r@[i]).code_offset == maps@[i].offset_end
                && r@[i].mapped_words == maps@[i].mapped_words && r@[i].bits@ == maps@[i].bits@,
{
    let mut out: Vec<StackMapInformation> = Vec::new();
    let n = maps.len();
    let mut i: usize = 0;
    while i < n
        invariant
            n == maps@.len(),
            i <= n,
            out@.len() == i,
            forall|k: int|
                0 <= k < i ==> (#[trigger] out@[k]).code_offset == maps@[k].offset_end && out@[
                    k
                ].mapped_words == maps@[k].mapped_words && out@[k].bits@ == maps@[k].bits@,
        decreases n - i,
    {
        let m = &maps[i];
        out.push(
            StackMapInformation {
                code_offset: m.offset_end,
                mapped_words: m.mapped_words,
                bits: copy_u32s(&m.bits),
            },
        );
        i = i + 1;
    }
    out
}

/// An element-wise copy of a word vector.
fn copy_u32s(v: &Vec<u32>) -> (r: Vec<u32>)
    ensures
        r@ == v@,
{
    let mut out: Vec<u32> = Vec::new();
    let n = v.len();
    let mut i: usize = 0;
    while i < n
        invariant
            n == v@.len(),
            i <= n,
            out@.len() == i,
            forall|k: int| 0 <= k < i ==> out@[k] == v@[k],
        decreases n - i,
    {
        out.push(v[i]);
        i = i + 1;
    }
    proof {
        assert(out@ =~= v@);
    }
    out
}

/// Converts the emission-level relocations of one buffer, checking that
/// the patch fields keep their ascending, non-overlapping order.
#[verifier::rlimit(100)]
fn convert_relocs(relocs: &Vec<MachReloc>, Ghost(data_len): Ghost<int>) -> (r: Result<
    Vec<Relocation>,
    CompileError,
>)
    requires
        forall|k: int|
            0 <= k < relocs@.len() ==> (#[trigger] relocs@[k]).offset + 4 <= data_len && -16
                <= relocs@[k].addend <= 16,
    ensures
        match r {
            Ok(out) => {
                &&& out@.len() == relocs@.len()
                &&& forall|k: int|
                    0 <= k < out@.len() ==> (#[trigger] out@[k]).offset == relocs@[k].offset
                        && out@[k].addend == relocs@[k].addend && out@[k].kind == relocs@[k].kind
                        && out@[k].target == relocs@[k].target
                &&& forall|k1: int, k2: int|
                    0 <= k1 < k2 < out@.len() ==> (#[trigger] out@[k1]).offset + 4 <= (
                    #[trigger] out@[k2]).offset
            },
            Err(_) => true,
        },
        relocs@.len() == 0 ==> r is Ok,
{
    let mut out_relocs: Vec<Relocation> = Vec::new();
    let nr = relocs.len();
    let mut j: usize = 0;
    while j < nr
        invariant
            nr == relocs@.len(),
            j <= nr,
            out_relocs@.len() == j,
            forall|k: int|
                0 <= k < j ==> (#[trigger] out_relocs@[k]).offset == relocs@[k].offset
                    && out_relocs@[k].addend == relocs@[k].addend && out_relocs@[k].kind
                    == relocs@[k].kind && out_relocs@[k].target == relocs@[k].target,
            forall|k1: int, k2: int|
                0 <= k1 < k2 < j ==> (#[trigger] out_relocs@[k1]).offset + 4 <= (
                #[trigger] out_relocs@[k2]).offset,
        decreases nr - j,
    {
        if j > 0 {
            // Emission records patch fields in ascending, non-overlapping
            // order; anything else is an internal fault, never absorbed.
            if relocs[j - 1].offset as u64 + 4 > relocs[j].offset as u64 {
                return Err(CompileError::Codegen(crate::types::CodegenError::MalformedRecords));
            }
        }
        out_relocs.push(mach_reloc_to_reloc(&relocs[j]));
        proof {
            assert forall|k1: int, k2: int|
                0 <= k1 < k2 < out_relocs@.len() implies (#[trigger] out_relocs@[k1]).offset + 4
                <= (#[trigger] out_relocs@[k2]).offset by {
                if k2 == out_relocs@.len() - 1 && k1 < k2 - 1 {
                    assert(out_relocs@[k1].offset + 4 <= out_relocs@[k2 - 1].offset);
                }
            }
        }
        j = j + 1;
    }
    Ok(out_relocs)
}

/// Turns a finalized buffer into the final artifact, converting each
/// record into the embedder's shape.
fn buffer_to_compiled(buffer: MachBufferFinalized) -> (r: Result<CompiledFunction, CompileError>)
    requires
        buffer_records_in_range(buffer),
    ensures
        match r {
            Ok(f) => {
                &&& f.wf()
                &&& f.body@ == buffer.data@
                &&& f.traps@.len() == buffer.traps@.len()
                &&& forall|k: int|
                    0 <= k < f.traps@.len() ==> (#[trigger] f.traps@[k]).code_offset
                        == buffer.traps@[k].offset && f.traps@[k].trap_code == spec_trap(
                        buffer.traps@[k].code,
                    )
                &&& f.relocations@.len() == buffer.relocs@.len()
                &&& forall|k: int|
                    0 <= k < f.relocations@.len() ==> (#[trigger] f.relocations@[k]).offset
                        == buffer.relocs@[k].offset && f.relocations@[k].addend
                        == buffer.relocs@[k].addend && f.relocations@[k].kind
                        == buffer.relocs@[k].kind && f.relocations@[k].target
                        == buffer.relocs@[k].target
            },
            Err(_) => true,
        },
        buffer.traps@.len() == 0 && buffer.relocs@.len() == 0 ==> r is Ok,
{
    let MachBufferFinalized { data, relocs, traps, stack_maps: _ } = buffer;
    let mut out_traps: Vec<TrapInformation> = Vec::new();
    let nt = traps.len();
    let mut i: usize = 0;
    while i < nt
        invariant
            nt == traps@.len(),
            traps@ == buffer.traps@,
            data@ == buffer.data@,
            i <= nt,
            out_traps@.len() == i,
            forall|k: int|
                0 <= k < buffer.traps@.len() ==> (#[trigger] buffer.traps@[k]).offset
                    < buffer.data@.len(),
            forall|k: int|
                0 <= k < i ==> (#[trigger] out_traps@[k]).code_offset == traps@[k].offset
                    && out_traps@[k].trap_code == spec_trap(traps@[k].code),
        decreases nt - i,
    {
        let t = &traps[i];
        match t.code {
            TrapCode::User(c) => {
                if c != ALWAYS_TRAP_CODE {
                    return Err(
                        CompileError::Codegen(crate::types::CodegenError::MalformedRecords),
                    );
                }
            },
            _ => {},
        }
        out_traps.push(mach_trap_to_trap(t));
        i = i + 1;
    }
    let out_relocs = convert_relocs(&relocs, Ghost(buffer.data@.len() as int))?;
    proof {
        assert(relocs@ == buffer.relocs@);
    }
    Ok(CompiledFunction { body: data, traps: out_traps, relocations: out_relocs })
}

/// Whether some function's relocation names a module-local function index
/// the module does not have.
pub open spec fn module_unresolved(funcs: Seq<CompiledFunction>) -> bool {
    exists|i: int, k: int|
        0 <= i < funcs.len() && 0 <= k < funcs[i].relocations@.len() && ((
        #[trigger] funcs[i].relocations@[k]).target matches RelocationTarget::UserFunc(t) && t
            >= funcs.len())
}

/// One function's trap offsets, shifted to its absolute start.
pub open spec fn spec_func_trap_offsets(f: CompiledFunction, start: u32) -> Seq<u32> {
    f.traps@.map_values(|t: TrapInformation| (start + t.code_offset) as u32)
}

/// One function's trap kinds, in record order.
pub open spec fn spec_func_trap_codes(f: CompiledFunction) -> Seq<Trap> {
    f.traps@.map_values(|t: TrapInformation| t.trap_code)
}

/// The absolute trap offsets of the first `n` laid-out functions.
pub open spec fn spec_trap_offsets(
    funcs: Seq<CompiledFunction>,
    locs: Seq<FunctionLoc>,
    n: int,
) -> Seq<u32>
    decreases n,
{
    if n <= 0 {
        Seq::<u32>::empty()
    } else {
        spec_trap_offsets(funcs, locs, n - 1) + spec_func_trap_offsets(
            funcs[n - 1],
            locs[n - 1].start,
        )
    }
}

/// The trap kinds of the first `n` laid-out functions.
pub open spec fn spec_trap_codes(funcs: Seq<CompiledFunction>, n: int) -> Seq<Trap>
    decreases n,
{
    if n <= 0 {
        Seq::<Trap>::empty()
    } else {
        spec_trap_codes(funcs, n - 1) + spec_func_trap_codes(funcs[n - 1])
    }
}

/// The relocation targets of the first `n` functions, in layout order.
pub open spec fn spec_reloc_targets(funcs: Seq<CompiledFunction>, n: int) -> Seq<RelocationTarget>
    decreases n,
{
    if n <= 0 {
        Seq::<RelocationTarget>::empty()
    } else {
        spec_reloc_targets(funcs, n - 1) + funcs[n - 1].relocations@.map_values(
            |r: Relocation| r.target,
        )
    }
}

/// Every element of the flattened target list is some function's
/// relocation target.
proof fn lemma_reloc_target_source(funcs: Seq<CompiledFunction>, n: int, j: int)
    requires
        0 <= n <= funcs.len(),
        0 <= j < spec_reloc_targets(funcs, n).len(),
    ensures
        exists|fi: int, fk: int|
            0 <= fi < n && 0 <= fk < funcs[fi].relocations@.len() && (
            #[trigger] funcs[fi].relocations@[fk]).target == spec_reloc_targets(funcs, n)[j],
    decreases n,
{
    let prev = spec_reloc_targets(funcs, n - 1);
    if j < prev.len() {
        lemma_reloc_target_source(funcs, n - 1, j);
        let (fi, fk) = choose|fi: int, fk: int|
            0 <= fi < n - 1 && 0 <= fk < funcs[fi].relocations@.len() && (
            #[trigger] funcs[fi].relocations@[fk]).target == prev[j];
        assert(0 <= fi < n && 0 <= fk < funcs[fi].relocations@.len() && funcs[
            fi
        ].relocations@[fk].target == spec_reloc_targets(funcs, n)[j]);
    } else {
        let fk = j - prev.len();
        assert(funcs[n - 1].relocations@[fk].target == spec_reloc_targets(funcs, n)[j]);
    }
}

/// Every function's relocation target appears in the flattened list.
proof fn lemma_reloc_target_member(funcs: Seq<CompiledFunction>, n: int, fi: int, fk: int)
    requires
        0 <= fi < n <= funcs.len(),
        0 <= fk < funcs[fi].relocations@.len(),
    ensures
        exists|j: int|
            0 <= j < spec_reloc_targets(funcs, n).len() && #[trigger] spec_reloc_targets(
                funcs,
                n,
            )[j] == funcs[fi].relocations@[fk].target,
    decreases n,
{
    let prev = spec_reloc_targets(funcs, n - 1);
    if fi < n - 1 {
        lemma_reloc_target_member(funcs, n - 1, fi, fk);
        let j = choose|j: int|
            0 <= j < prev.len() && #[trigger] prev[j] == funcs[fi].relocations@[fk].target;
        assert(spec_reloc_targets(funcs, n)[j] == prev[j]);
    } else {
        let j = prev.len() + fk;
        assert(spec_reloc_targets(funcs, n)[j] == funcs[fi].relocations@[fk].target);
    }
}

/// The absolute trap offsets read only the starts of the functions laid
/// out so far, so growing the location list does not move them.
proof fn lemma_trap_offsets_prefix_agree(
    funcs: Seq<CompiledFunction>,
    l1: Seq<FunctionLoc>,
    l2: Seq<FunctionLoc>,
    n: int,
)
    requires
        n <= l1.len(),
        n <= l2.len(),
        forall|j: int| 0 <= j < n ==> l1[j] == l2[j],
    ensures
        spec_trap_offsets(funcs, l1, n) == spec_trap_offsets(funcs, l2, n),
    decreases n,
{
    if n > 0 {
        lemma_trap_offsets_prefix_agree(funcs, l1, l2, n - 1);
    }
}

/// The per-module compiler: one immutable target object, shared freely by
/// concurrent per-function compilations.
pub struct Compiler {
    pub isa: TargetIsa,
}

impl Compiler {
    pub fn new(isa: TargetIsa) -> (r: Compiler)
        ensures
            r.isa == isa,
    {
        Compiler { isa }
    }

    /// Compiles one function of the module: its signature, declared
    /// locals and body ops, against the module's function environment.
    /// Returns the function's metadata and its finished artifact.
    pub fn compile_function(
        &self,
        sig: &Signature,
        defined: &DefinedLocals,
        ops: &Vec<Op>,
        env: &FuncEnv,
    ) -> (r: Result<(WasmFunctionInfo, CompiledFunction), CompileError>)
        requires
            sig.params@.len() <= 0x1000,
            defined.locals@.len() <= 0x1000,
            ops@.len() <= 0x10_0000,
            env.wf(),
        ensures
            r matches Ok(pair) ==> pair.1.wf() && pair.0.start_srcloc == 0
                && pair.0.stack_maps@.len() == 0,
            sig.results@.len() > 1 ==> r is Err && r->Err_0 == CompileError::Codegen(
                CodegenError::UnsupportedMultiValue,
            ),
    {
        let buffer = match self.isa.compile_function(sig, defined, ops, env) {
            Ok(b) => b,
            Err(e) => {
                return Err(CompileError::Codegen(e));
            },
        };
        let stack_maps = mach_stack_maps_to_stack_maps(&buffer.stack_maps);
        let info = WasmFunctionInfo { start_srcloc: 0, stack_maps };
        let func = buffer_to_compiled(buffer)?;
        Ok((info, func))
    }

    /// Builds the host-to-wasm trampoline for a signature; its artifact
    /// carries no trap records.
    pub fn compile_host_to_wasm_trampoline(&self, ty: &Signature) -> (r: Result<
        CompiledFunction,
        CompileError,
    >)
        requires
            ty.params@.len() <= 0x1000,
        ensures
            r is Err <==> ty.results@.len() > 1,
            r is Err ==> r->Err_0 == CompileError::Codegen(CodegenError::UnsupportedMultiValue),
            r matches Ok(f) ==> f.wf() && f.traps@.len() == 0 && f.relocations@.len() == 0
                && f.body@.len() > 0,
    {
        let buffer = match self.isa.compile_trampoline(ty) {
            Ok(b) => b,
            Err(e) => {
                return Err(CompileError::Codegen(e));
            },
        };
        let func = buffer_to_compiled(buffer)?;
        Ok(func)
    }

    /// Lays every compiled function out into one text region, resolving
    /// module-local relocations, and builds the trap side table mapping
    /// absolute code offsets to trap kinds.
    /// Lays every compiled function out into one text region, resolving
    /// module-local relocations, and builds the trap side table mapping
    /// absolute code offsets to trap kinds.
    ///
    /// On success every function's location is aligned to the target's
    /// function alignment, the locations ascend without overlapping, each
    /// length is its function's body length, and the side table holds
    /// exactly every function's traps at absolute offsets, in layout
    /// order.  A relocation against a function the module does not have is
    /// the unresolved-relocation build fault; and a module of few, small
    /// functions without one is owed success.
    #[verifier::rlimit(100)]
    pub fn append_code(&self, funcs: &Vec<CompiledFunction>) -> (r: Result<
        (TextSection, Vec<FunctionLoc>, TrapSection),
        ObjectError,
    >)
        requires
            forall|k: int| 0 <= k < funcs@.len() ==> (#[trigger] funcs@[k]).wf(),
        ensures
            match r {
                Ok(out) => {
                    &&& out.1@.len() == funcs@.len()
                    &&& !module_unresolved(funcs@)
                    &&& forall|i: int|
                        0 <= i < funcs@.len() ==> (#[trigger] out.1@[i]).length == funcs@[
                            i
                        ].body@.len() && out.1@[i].start % crate::isa::spec_function_alignment(
                            self.isa,
                        ) == 0 && out.1@[i].start + out.1@[i].length <= out.0.bytes@.len()
                    &&& forall|i: int|
                        0 <= i < funcs@.len() - 1 ==> (#[trigger] out.1@[i]).start + out.1@[
                            i
                        ].length <= out.1@[i + 1].start
                    &&& out.2.offsets@ == spec_trap_offsets(funcs@, out.1@, funcs@.len() as int)
                    &&& out.2.codes@ == spec_trap_codes(funcs@, funcs@.len() as int)
                },
                Err(e) => {
                    &&& e != ObjectError::FunctionCountMismatch
                    &&& (e == ObjectError::UnresolvedRelocation ==> module_unresolved(funcs@))
                },
            },
            funcs@.len() <= 0x10 && (forall|i: int|
                0 <= i < funcs@.len() ==> (#[trigger] funcs@[i]).body@.len() <= 0x100_0000)
                && !module_unresolved(funcs@) ==> r is Ok,
    {
        let ghost benign = funcs@.len() <= 0x10 && (forall|i: int|
            0 <= i < funcs@.len() ==> (#[trigger] funcs@[i]).body@.len() <= 0x100_0000)
            && !module_unresolved(funcs@);
        let alignment = self.isa.function_alignment();
        let mut builder = match ModuleTextBuilder::new(alignment, funcs.len()) {
            Ok(b) => b,
            Err(e) => {
                proof {
                    assert(false);
                }
                return Err(e);
            },
        };
        let mut locs: Vec<FunctionLoc> = Vec::new();
        let mut trap_offsets: Vec<u32> = Vec::new();
        let mut trap_codes: Vec<Trap> = Vec::new();
        let n = funcs.len();
        let mut i: usize = 0;
        while i < n
            invariant
                n == funcs@.len(),
                i <= n,
                locs@.len() == i,
                builder.wf(),
                builder.spec_alignment() == alignment,
                alignment == crate::isa::spec_function_alignment(self.isa),
                builder.spec_expected() == n,
                builder.spec_starts().len() == i,
                trap_offsets@.len() == trap_codes@.len(),
                forall|k: int| 0 <= k < funcs@.len() ==> (#[trigger] funcs@[k]).wf(),
                forall|j: int|
                    0 <= j < i ==> (#[trigger] locs@[j]).length == funcs@[j].body@.len()
                        && locs@[j].start % alignment == 0 && locs@[j].start + locs@[j].length
                        <= builder.spec_text().len(),
                forall|j: int|
                    0 <= j < i - 1 ==> (#[trigger] locs@[j]).start + locs@[j].length <= locs@[j
                        + 1].start,
                trap_offsets@ == spec_trap_offsets(funcs@, locs@, i as int),
                trap_codes@ == spec_trap_codes(funcs@, i as int),
                builder.spec_pending().map_values(|p: crate::obj::TextReloc| p.target)
                    == spec_reloc_targets(funcs@, i as int),
                benign == (funcs@.len() <= 0x10 && (forall|q: int|
                    0 <= q < funcs@.len() ==> (#[trigger] funcs@[q]).body@.len() <= 0x100_0000)
                    && !module_unresolved(funcs@)),
                benign ==> builder.spec_text().len() <= i * 0x100_1000,
            decreases n - i,
        {
            let func = &funcs[i];
            let ghost pre_builder = builder;
            let (_, range) = match builder.append_func(func) {
                Ok(pair) => pair,
                Err(e) => {
                    proof {
                        if benign {
                            assert(funcs@[i as int].body@.len() <= 0x100_0000);
                            assert(pre_builder.spec_text().len() <= 0x10 * 0x100_1000);
                        }
                    }
                    return Err(e);
                },
            };
            let ghost pre_locs = locs@;
            locs.push(FunctionLoc { start: range.0, length: range.1 - range.0 });
            proof {
                lemma_trap_offsets_prefix_agree(funcs@, pre_locs, locs@, i as int);
                assert(builder.spec_pending().map_values(|p: crate::obj::TextReloc| p.target)
                    =~= spec_reloc_targets(funcs@, i + 1)) by {
                    assert forall|k: int|
                        0 <= k < builder.spec_pending().len() implies (
                        #[trigger] builder.spec_pending()[k]).target == spec_reloc_targets(
                        funcs@,
                        i + 1,
                    )[k] by {
                        if k < pre_builder.spec_pending().len() {
                            assert(builder.spec_pending()[k] == pre_builder.spec_pending()[k]);
                            assert(pre_builder.spec_pending().map_values(
                                |p: crate::obj::TextReloc| p.target,
                            )[k] == pre_builder.spec_pending()[k].target);
                        } else {
                            let fk = k - pre_builder.spec_pending().len();
                            assert(builder.spec_pending()[pre_builder.spec_pending().len() + fk]
                                == (crate::obj::TextReloc {
                                site: (range.0 + funcs@[i as int].relocations@[fk].offset) as u32,
                                kind: funcs@[i as int].relocations@[fk].kind,
                                target: funcs@[i as int].relocations@[fk].target,
                                addend: funcs@[i as int].relocations@[fk].addend,
                            }));
                        }
                    }
                }
            }
            let nt = func.traps.len();
            let mut t: usize = 0;
            while t < nt
                invariant
                    n == funcs@.len(),
                    i < n,
                    *func == funcs@[i as int],
                    nt == funcs@[i as int].traps@.len(),
                    t <= nt,
                    funcs@[i as int].wf(),
                    range.0 + funcs@[i as int].body@.len() == range.1,
                    range.1 <= 0x4000_0000,
                    locs@.len() == i + 1,
                    locs@[i as int] == (FunctionLoc {
                        start: range.0,
                        length: (range.1 - range.0) as u32,
                    }),
                    trap_offsets@.len() == trap_codes@.len(),
                    trap_offsets@ == spec_trap_offsets(funcs@, locs@, i as int) + funcs@[
                        i as int
                    ].traps@.subrange(0, t as int).map_values(
                        |tr: TrapInformation| (range.0 + tr.code_offset) as u32,
                    ),
                    trap_codes@ == spec_trap_codes(funcs@, i as int) + funcs@[
                        i as int
                    ].traps@.subrange(0, t as int).map_values(
                        |tr: TrapInformation| tr.trap_code,
                    ),
                decreases nt - t,
            {
                let tr = &func.traps[t];
                trap_offsets.push(range.0 + tr.code_offset);
                trap_codes.push(tr.trap_code);
                t = t + 1;
                proof {
                    let s = funcs@[i as int].traps@;
                    assert(s.subrange(0, t as int) =~= s.subrange(0, t - 1).push(s[t - 1]));
                    assert(trap_offsets@ =~= spec_trap_offsets(funcs@, locs@, i as int)
                        + s.subrange(0, t as int).map_values(
                        |tr2: TrapInformation| (range.0 + tr2.code_offset) as u32,
                    ));
                    assert(trap_codes@ =~= spec_trap_codes(funcs@, i as int) + s.subrange(
                        0,
                        t as int,
                    ).map_values(|tr2: TrapInformation| tr2.trap_code));
                }
            }
            i = i + 1;
            proof {
                let s = funcs@[i - 1].traps@;
                assert(s.subrange(0, s.len() as int) =~= s);
                assert(trap_offsets@ =~= spec_trap_offsets(funcs@, locs@, i as int));
                assert(trap_codes@ =~= spec_trap_codes(funcs@, i as int));
            }
        }
        let ghost final_builder = builder;
        let text = match builder.finish() {
            Ok(t) => t,
            Err(e) => {
                proof {
                    let pend = final_builder.spec_pending();
                    let tgts = spec_reloc_targets(funcs@, n as int);
                    if e == ObjectError::UnresolvedRelocation {
                        let k = choose|k: int|
                            0 <= k < pend.len() && ((#[trigger] pend[k]).target matches
                            RelocationTarget::UserFunc(t2) && t2
                                >= final_builder.spec_starts().len());
                        assert(pend.map_values(|p: crate::obj::TextReloc| p.target)[k] == pend[
                            k
                        ].target);
                        lemma_reloc_target_source(funcs@, n as int, k);
                        let (fi, fk) = choose|fi: int, fk: int|
                            0 <= fi < n && 0 <= fk < funcs@[fi].relocations@.len() && (
                            #[trigger] funcs@[fi].relocations@[fk]).target == tgts[k];
                        assert(module_unresolved(funcs@));
                    }
                    if benign {
                        assert(e == ObjectError::UnresolvedRelocation);
                        assert(false);
                    }
                }
                return Err(e);
            },
        };
        proof {
            if module_unresolved(funcs@) {
                let pend = final_builder.spec_pending();
                let tgts = spec_reloc_targets(funcs@, n as int);
                let (fi, fk) = choose|fi: int, fk: int|
                    0 <= fi < funcs@.len() && 0 <= fk < funcs@[fi].relocations@.len() && ((
                    #[trigger] funcs@[fi].relocations@[fk]).target matches
                    RelocationTarget::UserFunc(t2) && t2 >= funcs@.len());
                lemma_reloc_target_member(funcs@, n as int, fi, fk);
                let j = choose|j: int|
                    0 <= j < tgts.len() && #[trigger] tgts[j] == funcs@[fi].relocations@[
                        fk
                    ].target;
                assert(pend.map_values(|p: crate::obj::TextReloc| p.target)[j] == pend[
                    j
                ].target);
                assert(pend[j].target == funcs@[fi].relocations@[fk].target);
                assert(crate::obj::has_unresolved(
                    pend,
                    final_builder.spec_starts().len() as int,
                ));
                assert(false);
            }
            assert forall|j: int|
                0 <= j < funcs@.len() implies (#[trigger] locs@[j]).start + locs@[j].length
                <= text.bytes@.len() by {
                assert(locs@[j].start + locs@[j].length <= final_builder.spec_text().len());
            }
        }
        Ok((text, locs, TrapSection { offsets: trap_offsets, codes: trap_codes }))
    }

    /// The target triple this compiler produces code for.
    pub fn triple(&self) -> (r: Triple)
        ensures
            r == self.isa.triple,
    {
        self.isa.triple()
    }

    /// The page alignment the code section wants in the final object.
    pub fn page_size_align(&self) -> (r: u64)
        ensures
            r == crate::isa::spec_code_section_alignment(self.isa.triple),
    {
        self.isa.code_section_alignment()
    }

    /// The shared flags the target was built with.
    pub fn flags(&self) -> (r: Flags)
        ensures
            r == self.isa.shared_flags,
    {
        self.isa.flags()
    }

    /// The architecture-specific flag values the target was built with.
    pub fn isa_flags(&self) -> (r: Vec<FlagPair>)
        ensures
            r@.len() == 2,
    {
        self.isa.isa_flags()
    }

    /// The default calling convention of the target triple.
    pub fn call_conv(&self) -> (r: CallConvId)
        ensures
            r == crate::isa::spec_call_conv(self.isa.triple),
    {
        self.isa.call_conv()
    }

    /// Whether branch protection is enabled on this target.
    pub fn is_branch_protection_enabled(&self) -> (r: bool)
        ensures
            r == (self.isa.isa_flags matches crate::isa::ArchFlags::Aarch64(f) && f.use_bti),
    {
        self.isa.is_branch_protection_enabled()
    }
}



} // verus!
