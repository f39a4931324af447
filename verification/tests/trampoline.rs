use winch::isa::x64;
use winch::masm::{Address, CallKind, Inst, MacroAssembler, OperandSize};
use winch::trampoline::Trampoline;
use winch::types::{CodegenError, Signature, ValType};

fn emit_for(ty: &Signature) -> Vec<Inst> {
    let mut masm = MacroAssembler::new(x64::rsp(), x64::rbp());
    let tramp = Trampoline::new(x64::host_call_conv(), x64::scratch(), x64::argv());
    tramp.emit_host_to_wasm(&mut masm, ty).unwrap();
    masm.insts
}

#[test]
fn two_wide_arguments_are_loaded_from_their_own_value_slots() {
    // Two 64-bit integer parameters and one 32-bit integer result.
    let ty = Signature::new(vec![ValType::I64, ValType::I64], vec![ValType::I32]);
    let insts = emit_for(&ty);
    let scratch = x64::scratch();
    // The first parameter is read from slot 0, the second from slot 16,
    // each into its classified argument register.
    assert!(insts.contains(&Inst::Load {
        addr: Address::RegOffset { base: scratch, offset: 0 },
        dst: winch::reg::Reg { class: winch::reg::RegClass::Int, hw: 7 },
        size: OperandSize::S64,
    }));
    assert!(insts.contains(&Inst::Load {
        addr: Address::RegOffset { base: scratch, offset: 16 },
        dst: winch::reg::Reg { class: winch::reg::RegClass::Int, hw: 6 },
        size: OperandSize::S64,
    }));
    // Exactly one store back into the value array: the result into slot
    // 0; no other slot is written.
    let mut stores = 0;
    for inst in insts.iter() {
        if let Inst::Store { addr: Address::RegOffset { base, offset }, src, size } = inst {
            assert_eq!(*base, scratch);
            assert_eq!(*offset, 0);
            assert_eq!(src.hw, 0);
            assert_eq!(*size, OperandSize::S32);
            stores += 1;
        }
    }
    assert_eq!(stores, 1);
    // The callee is invoked through the loaded address.
    assert!(insts.contains(&Inst::Call { kind: CallKind::Indirect(scratch) }));
    assert_eq!(insts.last(), Some(&Inst::Ret));
}

#[test]
fn mixed_widths_marshal_bit_for_bit_from_their_slots() {
    let ty = Signature::new(
        vec![ValType::I32, ValType::I32, ValType::I64],
        vec![ValType::I64],
    );
    let insts = emit_for(&ty);
    let scratch = x64::scratch();
    let expect = [
        (0u32, 7u8, OperandSize::S32),
        (16, 6, OperandSize::S32),
        (32, 2, OperandSize::S64),
    ];
    for (offset, hw, size) in expect.iter() {
        assert!(insts.contains(&Inst::Load {
            addr: Address::RegOffset { base: scratch, offset: *offset },
            dst: winch::reg::Reg { class: winch::reg::RegClass::Int, hw: *hw },
            size: *size,
        }));
    }
}

#[test]
fn a_void_callee_writes_nothing_back() {
    let ty = Signature::new(vec![ValType::I64], vec![]);
    let insts = emit_for(&ty);
    let scratch = x64::scratch();
    for inst in insts.iter() {
        if let Inst::Store { addr: Address::RegOffset { base, .. }, .. } = inst {
            assert_ne!(*base, scratch);
        }
    }
}

#[test]
fn a_multi_result_callee_is_refused_with_nothing_emitted() {
    let ty = Signature::new(vec![], vec![ValType::I32, ValType::I32]);
    let mut masm = MacroAssembler::new(x64::rsp(), x64::rbp());
    let tramp = Trampoline::new(x64::host_call_conv(), x64::scratch(), x64::argv());
    assert_eq!(
        tramp.emit_host_to_wasm(&mut masm, &ty),
        Err(CodegenError::UnsupportedMultiValue)
    );
    assert!(masm.insts.is_empty());
}
