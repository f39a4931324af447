use winch::builder::builder;
use winch::compiler::mach_stack_maps_to_stack_maps;
use winch::masm::MachStackMap;
use winch::types::{CodegenError, CompileError};
use winch::codegen::{FuncEnv, Op};
use winch::compiler::{mach_trap_to_trap, Compiler};
use winch::frame::DefinedLocals;
use winch::masm::MachTrap;
use winch::types::{Signature, Trap, TrapCode, ValType};

fn compiler() -> Compiler {
    builder().build()
}

#[test]
fn a_constant_function_compiles_to_machine_code() {
    let c = compiler();
    let sig = Signature::new(vec![], vec![ValType::I32]);
    let ops = vec![Op::I32Const(42), Op::End];
    let env = FuncEnv::new(vec![sig.clone()]);
    let (info, func) = c
        .compile_function(&sig, &DefinedLocals::empty(), &ops, &env)
        .unwrap();
    assert!(!func.body.is_empty());
    // The x64 encoding of the return instruction closes the body.
    assert_eq!(*func.body.last().unwrap(), 0xC3);
    assert!(func.traps.is_empty());
    assert!(func.relocations.is_empty());
    assert!(info.stack_maps.is_empty());
}

#[test]
fn a_trampoline_artifact_carries_no_trap_records() {
    let c = compiler();
    let sig = Signature::new(vec![ValType::I64, ValType::I64], vec![ValType::I32]);
    let func = c.compile_host_to_wasm_trampoline(&sig).unwrap();
    assert!(func.traps.is_empty());
    assert!(!func.body.is_empty());
}

#[test]
fn an_unreachable_body_yields_one_trap_record() {
    let c = compiler();
    let sig = Signature::new(vec![], vec![]);
    let ops = vec![Op::Unreachable, Op::End];
    let env = FuncEnv::new(vec![sig.clone()]);
    let (_, func) = c
        .compile_function(&sig, &DefinedLocals::empty(), &ops, &env)
        .unwrap();
    assert_eq!(func.traps.len(), 1);
    assert_eq!(func.traps[0].trap_code, Trap::UnreachableCodeReached);
    assert!((func.traps[0].code_offset as usize) < func.body.len());
}

#[test]
fn trap_codes_translate_to_the_host_taxonomy() {
    let pairs = [
        (TrapCode::StackOverflow, Trap::StackOverflow),
        (TrapCode::HeapOutOfBounds, Trap::MemoryOutOfBounds),
        (TrapCode::HeapMisaligned, Trap::HeapMisaligned),
        (TrapCode::TableOutOfBounds, Trap::TableOutOfBounds),
        (TrapCode::IndirectCallToNull, Trap::IndirectCallToNull),
        (TrapCode::BadSignature, Trap::BadSignature),
        (TrapCode::IntegerOverflow, Trap::IntegerOverflow),
        (TrapCode::IntegerDivisionByZero, Trap::IntegerDivisionByZero),
        (TrapCode::BadConversionToInteger, Trap::BadConversionToInteger),
        (TrapCode::UnreachableCodeReached, Trap::UnreachableCodeReached),
        (TrapCode::Interrupt, Trap::Interrupt),
        (TrapCode::User(100), Trap::AlwaysTrapAdapter),
    ];
    for (code, want) in pairs.iter() {
        let info = mach_trap_to_trap(&MachTrap { offset: 7, code: *code });
        assert_eq!(info.code_offset, 7);
        assert_eq!(info.trap_code, *want);
    }
}

#[test]
fn stack_map_records_come_out_sorted_by_code_offset() {
    let maps = vec![
        MachStackMap { offset: 40, offset_end: 44, mapped_words: 2, bits: vec![1, 3] },
        MachStackMap { offset: 8, offset_end: 12, mapped_words: 1, bits: vec![0] },
        MachStackMap { offset: 20, offset_end: 24, mapped_words: 0, bits: vec![] },
    ];
    let out = mach_stack_maps_to_stack_maps(&maps);
    assert_eq!(out.len(), 3);
    assert_eq!(out[0].code_offset, 12);
    assert_eq!(out[0].bits, vec![0]);
    assert_eq!(out[1].code_offset, 24);
    assert_eq!(out[2].code_offset, 44);
    assert_eq!(out[2].mapped_words, 2);
    assert_eq!(out[2].bits, vec![1, 3]);
}

#[test]
fn a_second_result_value_is_refused_at_the_compiler_api() {
    let c = compiler();
    let sig = Signature::new(vec![], vec![ValType::I32, ValType::I32]);
    let env = FuncEnv::new(vec![sig.clone()]);
    let ops = vec![Op::End];
    let err = c
        .compile_function(&sig, &DefinedLocals::empty(), &ops, &env)
        .unwrap_err();
    assert_eq!(err, CompileError::Codegen(CodegenError::UnsupportedMultiValue));
    let terr = c.compile_host_to_wasm_trampoline(&sig).unwrap_err();
    assert_eq!(terr, CompileError::Codegen(CodegenError::UnsupportedMultiValue));
}
