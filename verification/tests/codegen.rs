use winch::codegen::{BlockArity, CodeGen, CodeGenContext, ControlFrame, CtrlKind, FuncEnv, Op};
use winch::frame::{DefinedLocals, Frame};
use winch::isa::x64;
use winch::masm::{Inst, MacroAssembler};
use winch::regset::{RegAlloc, RegSet};
use winch::stack::OperandStack;
use winch::types::{CodegenError, Signature, ValType};

fn engine_for(sig_ty: &Signature) -> (CodeGen, MacroAssembler) {
    let conv = x64::winch_call_conv();
    let abi_sig = conv.sig(sig_ty).unwrap();
    let frame = Frame::new(&abi_sig, &DefinedLocals::empty(), &conv);
    let regalloc = RegAlloc::new(RegSet::new(x64::ALL_GPR, 0), x64::scratch());
    let context = CodeGenContext::new(regalloc, OperandStack::new(), frame);
    let env = FuncEnv::new(vec![]);
    let codegen = CodeGen::new(context, env, abi_sig, conv);
    let masm = MacroAssembler::new(x64::rsp(), x64::rbp());
    (codegen, masm)
}

#[test]
fn loading_a_constant_emits_its_move_into_the_result_register() {
    let sig_ty = Signature::new(vec![], vec![ValType::I32]);
    let (mut codegen, mut masm) = engine_for(&sig_ty);
    let ops = vec![Op::I32Const(42), Op::End];
    codegen.emit(&mut masm, &ops).unwrap();
    // The constant is lazily materialized straight into the merge
    // register, which for this convention is register 0.
    let mut found = false;
    for inst in masm.insts.iter() {
        if let Inst::MovIR { imm: 42, dst, .. } = inst {
            assert_eq!(dst.hw, 0);
            found = true;
        }
    }
    assert!(found);
    assert_eq!(masm.insts.last(), Some(&Inst::Ret));
    assert_eq!(masm.sp_offset, 0);
}

#[test]
fn a_wrong_merge_height_is_rejected_not_truncated() {
    let sig_ty = Signature::new(vec![], vec![]);
    let (mut codegen, mut masm) = engine_for(&sig_ty);
    // The block declares one result but its body produces none.
    let ops = vec![Op::Block(BlockArity::One(ValType::I32)), Op::End, Op::End];
    assert_eq!(codegen.emit(&mut masm, &ops), Err(CodegenError::StackHeightMismatch));
}

#[test]
fn an_extra_operand_at_the_function_end_is_rejected() {
    let sig_ty = Signature::new(vec![], vec![]);
    let (mut codegen, mut masm) = engine_for(&sig_ty);
    let ops = vec![Op::I32Const(1), Op::End];
    assert_eq!(codegen.emit(&mut masm, &ops), Err(CodegenError::StackHeightMismatch));
}

#[test]
fn operand_types_are_checked_as_translation_proceeds() {
    let sig_ty = Signature::new(vec![], vec![ValType::I32]);
    let (mut codegen, mut masm) = engine_for(&sig_ty);
    let ops = vec![Op::I32Const(1), Op::I64Const(2), Op::I32Add, Op::End];
    assert_eq!(codegen.emit(&mut masm, &ops), Err(CodegenError::TypeMismatch));
}

#[test]
fn arithmetic_pops_two_operands_and_pushes_one() {
    let sig_ty = Signature::new(vec![], vec![ValType::I32]);
    let (mut codegen, mut masm) = engine_for(&sig_ty);
    let ops = vec![Op::I32Const(20), Op::I32Const(22), Op::I32Add, Op::End];
    codegen.emit(&mut masm, &ops).unwrap();
    assert_eq!(masm.insts.last(), Some(&Inst::Ret));
}

#[test]
fn locals_are_zeroed_read_and_written() {
    let conv = x64::winch_call_conv();
    let sig_ty = Signature::new(vec![], vec![ValType::I64]);
    let abi_sig = conv.sig(&sig_ty).unwrap();
    let frame = Frame::new(&abi_sig, &DefinedLocals::new(vec![ValType::I64]), &conv);
    let regalloc = RegAlloc::new(RegSet::new(x64::ALL_GPR, 0), x64::scratch());
    let context = CodeGenContext::new(regalloc, OperandStack::new(), frame);
    let mut codegen = CodeGen::new(context, FuncEnv::new(vec![]), abi_sig, conv);
    let mut masm = MacroAssembler::new(x64::rsp(), x64::rbp());
    let ops = vec![
        Op::I64Const(9),
        Op::LocalSet(0),
        Op::LocalGet(0),
        Op::End,
    ];
    codegen.emit(&mut masm, &ops).unwrap();
    assert_eq!(masm.insts.last(), Some(&Inst::Ret));
}

#[test]
fn a_branch_out_of_nested_control_reconciles_to_entry_height_plus_arity() {
    let sig_ty = Signature::new(vec![], vec![ValType::I32]);
    let (mut codegen, mut masm) = engine_for(&sig_ty);
    // Drive the engine one operation at a time so the operand-stack
    // height at each merge point is observable.
    let end_label = masm.get_label();
    codegen.ctrl.push(ControlFrame {
        kind: CtrlKind::Block,
        label: end_label,
        else_label: end_label,
        entry_height: 0,
        arity: BlockArity::One(ValType::I32),
    });
    codegen.emit_op(&mut masm, Op::Block(BlockArity::One(ValType::I32))).unwrap();
    let block_entry = codegen.ctrl.last().unwrap().entry_height;
    assert_eq!(block_entry, 0);
    codegen.emit_op(&mut masm, Op::I32Const(5)).unwrap();
    codegen.emit_op(&mut masm, Op::Loop(BlockArity::Empty)).unwrap();
    codegen.emit_op(&mut masm, Op::I32Const(1)).unwrap();
    codegen.emit_op(&mut masm, Op::If(BlockArity::Empty)).unwrap();
    // Branch out of the innermost construct to the block, which expects
    // one result value.
    codegen.emit_op(&mut masm, Op::Br(2)).unwrap();
    codegen.emit_op(&mut masm, Op::End).unwrap();
    codegen.emit_op(&mut masm, Op::End).unwrap();
    codegen.emit_op(&mut masm, Op::End).unwrap();
    // After the block closes, the operand stack sits at the height
    // recorded when it was entered, plus one result.
    assert_eq!(codegen.context.stack.len(), block_entry + 1);
    assert!(codegen.reachable);
}

#[test]
fn a_branch_depth_past_the_control_stack_is_rejected() {
    let sig_ty = Signature::new(vec![], vec![]);
    let (mut codegen, mut masm) = engine_for(&sig_ty);
    let ops = vec![Op::Br(4), Op::End];
    assert_eq!(codegen.emit(&mut masm, &ops), Err(CodegenError::ControlStackUnderflow));
}

#[test]
fn else_without_an_open_if_is_rejected() {
    let sig_ty = Signature::new(vec![], vec![]);
    let (mut codegen, mut masm) = engine_for(&sig_ty);
    let ops = vec![Op::Else, Op::End];
    assert_eq!(codegen.emit(&mut masm, &ops), Err(CodegenError::ElseWithoutIf));
}

#[test]
fn a_call_to_an_unknown_function_index_is_rejected() {
    let sig_ty = Signature::new(vec![], vec![]);
    let (mut codegen, mut masm) = engine_for(&sig_ty);
    let ops = vec![Op::Call(3), Op::End];
    assert_eq!(codegen.emit(&mut masm, &ops), Err(CodegenError::InvalidFunctionIndex));
}

#[test]
fn unreachable_emits_a_trap_and_kills_the_rest_of_the_block() {
    let sig_ty = Signature::new(vec![], vec![ValType::I32]);
    let (mut codegen, mut masm) = engine_for(&sig_ty);
    let ops = vec![Op::Unreachable, Op::I32Const(1), Op::I32Const(2), Op::I32Add, Op::End];
    codegen.emit(&mut masm, &ops).unwrap();
    let traps = masm
        .insts
        .iter()
        .filter(|i| matches!(i, Inst::Trap { .. }))
        .count();
    assert_eq!(traps, 1);
}
