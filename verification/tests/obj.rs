use winch::builder::builder;
use winch::codegen::{FuncEnv, Op};
use winch::frame::DefinedLocals;
use winch::obj::ModuleTextBuilder;
use winch::types::{
    ObjectError, Relocation, RelocationKind, RelocationTarget, Signature, ValType,
};
use winch::CompiledFunction;

#[test]
fn a_cross_function_call_resolves_to_the_callees_start_offset() {
    let c = builder().build();
    let callee_sig = Signature::new(vec![], vec![ValType::I32]);
    let caller_sig = Signature::new(vec![], vec![ValType::I32]);
    let env = FuncEnv::new(vec![caller_sig.clone(), callee_sig.clone()]);
    // The first function calls the second by its module index.
    let caller_ops = vec![Op::Call(1), Op::End];
    let callee_ops = vec![Op::I32Const(7), Op::End];
    let (_, caller) = c
        .compile_function(&caller_sig, &DefinedLocals::empty(), &caller_ops, &env)
        .unwrap();
    let (_, callee) = c
        .compile_function(&callee_sig, &DefinedLocals::empty(), &callee_ops, &env)
        .unwrap();
    assert_eq!(caller.relocations.len(), 1);
    let reloc = caller.relocations[0];
    assert_eq!(reloc.target, RelocationTarget::UserFunc(1));

    let (text, locs, _) = c.append_code(&vec![caller, callee]).unwrap();
    assert_eq!(locs.len(), 2);
    // Function starts respect the target's function alignment.
    assert_eq!(locs[0].start % 16, 0);
    assert_eq!(locs[1].start % 16, 0);
    // The patched 32-bit field holds the displacement from the end of
    // the call's field to the callee's start.
    let site = (locs[0].start + reloc.offset) as usize;
    let patched = u32::from_le_bytes([
        text.bytes[site],
        text.bytes[site + 1],
        text.bytes[site + 2],
        text.bytes[site + 3],
    ]);
    let expected = (locs[1].start as i64 + reloc.addend - site as i64) as u32;
    assert_eq!(patched, expected);
}

#[test]
fn an_unresolvable_relocation_is_a_build_fault() {
    let mut b = ModuleTextBuilder::new(16, 1).unwrap();
    let func = CompiledFunction {
        body: vec![0u8; 8],
        traps: Vec::new(),
        relocations: vec![Relocation {
            kind: RelocationKind::X86CallPcRel4,
            target: RelocationTarget::UserFunc(5),
            offset: 0,
            addend: -4,
        }],
    };
    b.append_func(&func).unwrap();
    assert_eq!(b.finish().unwrap_err(), ObjectError::UnresolvedRelocation);
}

#[test]
fn trap_offsets_land_inside_the_text_region() {
    let c = builder().build();
    let sig = Signature::new(vec![], vec![]);
    let ops = vec![Op::Unreachable, Op::End];
    let env = FuncEnv::new(vec![sig.clone()]);
    let (_, func) = c
        .compile_function(&sig, &DefinedLocals::empty(), &ops, &env)
        .unwrap();
    let (text, _, traps) = c.append_code(&vec![func]).unwrap();
    assert_eq!(traps.offsets.len(), 1);
    assert_eq!(traps.codes.len(), 1);
    assert!((traps.offsets[0] as usize) < text.bytes.len());
}

#[test]
fn finishing_with_a_missed_function_count_is_a_build_fault() {
    let b = ModuleTextBuilder::new(16, 2).unwrap();
    let mut b = b;
    let func = CompiledFunction {
        body: vec![0u8; 4],
        traps: Vec::new(),
        relocations: Vec::new(),
    };
    b.append_func(&func).unwrap();
    // Announced two functions, appended one.
    assert_eq!(b.finish().unwrap_err(), ObjectError::FunctionCountMismatch);
}
