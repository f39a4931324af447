use winch::codegen::{FuncEnv, Op};
use winch::frame::DefinedLocals;
use winch::isa::{lookup, Arch, Flags, Os, SettingsBuilder, Triple};
use winch::types::{Signature, ValType};

fn isa_for(arch: Arch) -> winch::isa::TargetIsa {
    lookup(Triple { arch, os: Os::Linux })
        .unwrap()
        .build(Flags::new(SettingsBuilder::new()))
}

#[test]
fn x64_bodies_end_with_a_return_and_carry_their_constant() {
    let isa = isa_for(Arch::X86_64);
    let sig = Signature::new(vec![], vec![ValType::I64]);
    let ops = vec![Op::I64Const(42), Op::End];
    let env = FuncEnv::new(vec![sig.clone()]);
    let buf = isa
        .compile_function(&sig, &DefinedLocals::empty(), &ops, &env)
        .unwrap();
    assert_eq!(*buf.data.last().unwrap(), 0xC3);
    // The wide move of the constant into register 0: REX.W, the move
    // opcode, then the immediate, little-endian.
    let needle = [0x48u8, 0xB8, 42, 0, 0, 0, 0, 0, 0, 0];
    let found = buf
        .data
        .windows(needle.len())
        .any(|w| w == needle);
    assert!(found);
}

#[test]
fn aarch64_bodies_are_word_aligned_and_end_with_a_return() {
    let isa = isa_for(Arch::Aarch64);
    let sig = Signature::new(vec![], vec![ValType::I32]);
    let ops = vec![Op::I32Const(42), Op::End];
    let env = FuncEnv::new(vec![sig.clone()]);
    let buf = isa
        .compile_function(&sig, &DefinedLocals::empty(), &ops, &env)
        .unwrap();
    assert_eq!(buf.data.len() % 4, 0);
    let n = buf.data.len();
    let last_word = u32::from_le_bytes([
        buf.data[n - 4],
        buf.data[n - 3],
        buf.data[n - 2],
        buf.data[n - 1],
    ]);
    assert_eq!(last_word, 0xD65F_03C0);
}

#[test]
fn both_backends_build_trampolines() {
    let sig = Signature::new(vec![ValType::I64, ValType::I64], vec![ValType::I32]);
    for arch in [Arch::X86_64, Arch::Aarch64] {
        let isa = isa_for(arch);
        let buf = isa.compile_trampoline(&sig).unwrap();
        assert!(!buf.data.is_empty());
        assert!(buf.traps.is_empty());
    }
}

#[test]
fn a_direct_call_records_a_relocation_inside_the_body() {
    let isa = isa_for(Arch::X86_64);
    let caller_sig = Signature::new(vec![], vec![]);
    let callee_sig = Signature::new(vec![], vec![]);
    let env = FuncEnv::new(vec![caller_sig.clone(), callee_sig.clone()]);
    let ops = vec![Op::Call(1), Op::End];
    let buf = isa
        .compile_function(&caller_sig, &DefinedLocals::empty(), &ops, &env)
        .unwrap();
    assert_eq!(buf.relocs.len(), 1);
    let r = &buf.relocs[0];
    assert!((r.offset as usize) + 4 <= buf.data.len());
    // The byte before the displacement field is the call opcode.
    assert_eq!(buf.data[(r.offset - 1) as usize], 0xE8);
}
