use winch::codegen::{BlockArity, CodeGen, CodeGenContext, FuncEnv, Op};
use winch::frame::{DefinedLocals, Frame};
use winch::isa::x64;
use winch::machine::{call_func, Machine, VmFault};
use winch::masm::{Inst, MacroAssembler};
use winch::regset::{RegAlloc, RegSet};
use winch::stack::OperandStack;
use winch::trampoline::Trampoline;
use winch::types::{Signature, ValType};

fn compile_insts(sig_ty: &Signature, ops: &Vec<Op>, env: &FuncEnv) -> Vec<Inst> {
    let conv = x64::winch_call_conv();
    let abi_sig = conv.sig(sig_ty).unwrap();
    let frame = Frame::new(&abi_sig, &DefinedLocals::empty(), &conv);
    let regalloc = RegAlloc::new(RegSet::new(x64::ALL_GPR, 0), x64::scratch());
    let context = CodeGenContext::new(regalloc, OperandStack::new(), frame);
    let mut codegen = CodeGen::new(context, env.clone(), abi_sig, conv);
    let mut masm = MacroAssembler::new(x64::rsp(), x64::rbp());
    codegen.emit(&mut masm, ops).unwrap();
    masm.insts
}

fn read_u64(m: &Machine, addr: usize) -> u64 {
    let mut v: u64 = 0;
    for i in 0..8 {
        v |= (m.mem[addr + i] as u64) << (8 * i);
    }
    v
}

fn write_u64(m: &mut Machine, addr: usize, v: u64) {
    for i in 0..8 {
        m.mem[addr + i] = ((v >> (8 * i)) & 0xFF) as u8;
    }
}

#[test]
fn a_constant_function_executes_to_its_constant() {
    let sig = Signature::new(vec![], vec![ValType::I32]);
    let env = FuncEnv::new(vec![sig.clone()]);
    let ops = vec![Op::I32Const(42), Op::End];
    let funcs = vec![compile_insts(&sig, &ops, &env)];
    let mut m = Machine::new(4096);
    let r = call_func(&funcs, 0, &mut m, 100_000).unwrap();
    assert_eq!(r & 0xFFFF_FFFF, 42);
}

#[test]
fn register_arguments_flow_through_locals_and_arithmetic() {
    let sig = Signature::new(vec![ValType::I32, ValType::I32], vec![ValType::I32]);
    let env = FuncEnv::new(vec![sig.clone()]);
    let ops = vec![Op::LocalGet(0), Op::LocalGet(1), Op::I32Add, Op::End];
    let funcs = vec![compile_insts(&sig, &ops, &env)];
    let mut m = Machine::new(4096);
    m.regs[7] = 20; // first argument register of the convention
    m.regs[6] = 22; // second
    let r = call_func(&funcs, 0, &mut m, 100_000).unwrap();
    assert_eq!(r & 0xFFFF_FFFF, 42);
}

#[test]
fn an_if_takes_the_arm_its_condition_selects() {
    let sig = Signature::new(vec![ValType::I32], vec![ValType::I32]);
    let env = FuncEnv::new(vec![sig.clone()]);
    let ops = vec![
        Op::LocalGet(0),
        Op::If(BlockArity::One(ValType::I32)),
        Op::I32Const(10),
        Op::Else,
        Op::I32Const(20),
        Op::End,
        Op::End,
    ];
    let funcs = vec![compile_insts(&sig, &ops, &env)];
    let mut m = Machine::new(4096);
    m.regs[7] = 1;
    assert_eq!(call_func(&funcs, 0, &mut m, 100_000).unwrap() & 0xFFFF_FFFF, 10);
    let mut m0 = Machine::new(4096);
    m0.regs[7] = 0;
    assert_eq!(call_func(&funcs, 0, &mut m0, 100_000).unwrap() & 0xFFFF_FFFF, 20);
}

#[test]
fn a_branch_out_of_a_nested_construct_carries_its_value() {
    let sig = Signature::new(vec![], vec![ValType::I32]);
    let env = FuncEnv::new(vec![sig.clone()]);
    let ops = vec![
        Op::Block(BlockArity::One(ValType::I32)),
        Op::I32Const(5),
        Op::Loop(BlockArity::Empty),
        Op::I32Const(1),
        Op::If(BlockArity::Empty),
        Op::Br(2),
        Op::End,
        Op::End,
        Op::End,
        Op::End,
    ];
    let funcs = vec![compile_insts(&sig, &ops, &env)];
    let mut m = Machine::new(4096);
    assert_eq!(call_func(&funcs, 0, &mut m, 100_000).unwrap() & 0xFFFF_FFFF, 5);
}

#[test]
fn a_module_local_call_passes_arguments_and_returns_the_result() {
    let caller_sig = Signature::new(vec![], vec![ValType::I32]);
    let callee_sig = Signature::new(vec![ValType::I32, ValType::I32], vec![ValType::I32]);
    let env = FuncEnv::new(vec![caller_sig.clone(), callee_sig.clone()]);
    let caller_ops = vec![Op::I32Const(20), Op::I32Const(22), Op::Call(1), Op::End];
    let callee_ops = vec![Op::LocalGet(0), Op::LocalGet(1), Op::I32Add, Op::End];
    let funcs = vec![
        compile_insts(&caller_sig, &caller_ops, &env),
        compile_insts(&callee_sig, &callee_ops, &env),
    ];
    let mut m = Machine::new(8192);
    assert_eq!(call_func(&funcs, 0, &mut m, 100_000).unwrap() & 0xFFFF_FFFF, 42);
}

#[test]
fn a_trampoline_round_trip_preserves_wide_values_bit_for_bit() {
    // A callee of two 64-bit parameters, added; marshalled through the
    // generic slot array by the trampoline.
    let callee_sig = Signature::new(vec![ValType::I64, ValType::I64], vec![ValType::I64]);
    let env = FuncEnv::new(vec![callee_sig.clone()]);
    let callee_ops = vec![Op::LocalGet(0), Op::LocalGet(1), Op::I64Add, Op::End];
    let callee = compile_insts(&callee_sig, &callee_ops, &env);

    let mut masm = MacroAssembler::new(x64::rsp(), x64::rbp());
    let tramp = Trampoline::new(x64::host_call_conv(), x64::scratch(), x64::argv());
    tramp.emit_host_to_wasm(&mut masm, &callee_sig).unwrap();
    let funcs = vec![masm.insts, callee];

    let a: u64 = 0x1122_3344_5566_7788;
    let b: u64 = 0x0123_4567_89AB_CDEF;
    let argv: usize = 256;
    let mut m = Machine::new(8192);
    write_u64(&mut m, argv, a);
    write_u64(&mut m, argv + 16, b);
    // The host convention hands the trampoline two context words, the
    // callee's address, and the value-array pointer.
    m.regs[7] = 0;
    m.regs[6] = 0;
    m.regs[2] = 1; // the callee's table index stands for its address
    m.regs[1] = argv as u64;
    call_func(&funcs, 0, &mut m, 200_000).unwrap();
    assert_eq!(read_u64(&m, argv), a.wrapping_add(b));
    // The second slot still holds the argument it carried in.
    assert_eq!(read_u64(&m, argv + 16), b);
}

#[test]
fn a_trampoline_writes_only_the_result_slot() {
    // Two 64-bit parameters and one 32-bit result; the callee returns a
    // constant, so every slot but the result's first word must survive.
    let callee_sig = Signature::new(vec![ValType::I64, ValType::I64], vec![ValType::I32]);
    let env = FuncEnv::new(vec![callee_sig.clone()]);
    let callee_ops = vec![Op::I32Const(7), Op::End];
    let callee = compile_insts(&callee_sig, &callee_ops, &env);

    let mut masm = MacroAssembler::new(x64::rsp(), x64::rbp());
    let tramp = Trampoline::new(x64::host_call_conv(), x64::scratch(), x64::argv());
    tramp.emit_host_to_wasm(&mut masm, &callee_sig).unwrap();
    let funcs = vec![masm.insts, callee];

    let argv: usize = 256;
    let mut m = Machine::new(8192);
    write_u64(&mut m, argv, 0xAAAA_BBBB_CCCC_DDDD);
    write_u64(&mut m, argv + 8, 0x1111_2222_3333_4444);
    write_u64(&mut m, argv + 16, 0x5555_6666_7777_8888);
    m.regs[7] = 0;
    m.regs[6] = 0;
    m.regs[2] = 1;
    m.regs[1] = argv as u64;
    call_func(&funcs, 0, &mut m, 200_000).unwrap();
    // The 32-bit result lands in the first slot's low word.
    assert_eq!(read_u64(&m, argv) & 0xFFFF_FFFF, 7);
    // The rest of the array is untouched.
    assert_eq!(read_u64(&m, argv + 8), 0x1111_2222_3333_4444);
    assert_eq!(read_u64(&m, argv + 16), 0x5555_6666_7777_8888);
}

#[test]
fn narrow_values_marshal_through_their_slots() {
    let callee_sig = Signature::new(vec![ValType::I32, ValType::I32], vec![ValType::I32]);
    let env = FuncEnv::new(vec![callee_sig.clone()]);
    let callee_ops = vec![Op::LocalGet(0), Op::LocalGet(1), Op::I32Add, Op::End];
    let callee = compile_insts(&callee_sig, &callee_ops, &env);

    let mut masm = MacroAssembler::new(x64::rsp(), x64::rbp());
    let tramp = Trampoline::new(x64::host_call_conv(), x64::scratch(), x64::argv());
    tramp.emit_host_to_wasm(&mut masm, &callee_sig).unwrap();
    let funcs = vec![masm.insts, callee];

    let argv: usize = 256;
    let mut m = Machine::new(8192);
    write_u64(&mut m, argv, 0x7000_0001);
    write_u64(&mut m, argv + 16, 0x0FFF_FFFF);
    m.regs[2] = 1;
    m.regs[1] = argv as u64;
    call_func(&funcs, 0, &mut m, 200_000).unwrap();
    assert_eq!(
        read_u64(&m, argv) & 0xFFFF_FFFF,
        0x7000_0001u64.wrapping_add(0x0FFF_FFFF) & 0xFFFF_FFFF
    );
}

#[test]
fn an_unreachable_body_faults_at_its_trap() {
    let sig = Signature::new(vec![], vec![]);
    let env = FuncEnv::new(vec![sig.clone()]);
    let ops = vec![Op::Unreachable, Op::End];
    let funcs = vec![compile_insts(&sig, &ops, &env)];
    let mut m = Machine::new(4096);
    assert!(matches!(
        call_func(&funcs, 0, &mut m, 100_000),
        Err(VmFault::TrapHit(_))
    ));
}

#[test]
fn overwriting_a_local_leaves_earlier_stack_references_intact() {
    // The reference to local 0 is pushed before the local is overwritten;
    // the engine materializes the alias so the function still returns the
    // original argument.
    let sig = Signature::new(vec![ValType::I32], vec![ValType::I32]);
    let env = FuncEnv::new(vec![sig.clone()]);
    let ops = vec![
        Op::LocalGet(0),
        Op::I32Const(99),
        Op::LocalSet(0),
        Op::End,
    ];
    let funcs = vec![compile_insts(&sig, &ops, &env)];
    let mut m = Machine::new(4096);
    m.regs[7] = 5;
    assert_eq!(call_func(&funcs, 0, &mut m, 100_000).unwrap() & 0xFFFF_FFFF, 5);
}

#[test]
fn a_backward_branch_drives_a_counting_loop() {
    // Counts down the argument, adding two per iteration into a declared
    // local, through a conditional back edge.
    let conv = x64::winch_call_conv();
    let sig = Signature::new(vec![ValType::I32], vec![ValType::I32]);
    let abi_sig = conv.sig(&sig).unwrap();
    let frame = Frame::new(&abi_sig, &DefinedLocals::new(vec![ValType::I32]), &conv);
    let regalloc = RegAlloc::new(RegSet::new(x64::ALL_GPR, 0), x64::scratch());
    let context = CodeGenContext::new(regalloc, OperandStack::new(), frame);
    let env = FuncEnv::new(vec![sig.clone()]);
    let mut codegen = CodeGen::new(context, env, abi_sig, conv);
    let mut masm = MacroAssembler::new(x64::rsp(), x64::rbp());
    let ops = vec![
        Op::Loop(BlockArity::Empty),
        Op::LocalGet(0),
        Op::If(BlockArity::Empty),
        Op::LocalGet(0),
        Op::I32Const(1),
        Op::I32Sub,
        Op::LocalSet(0),
        Op::LocalGet(1),
        Op::I32Const(2),
        Op::I32Add,
        Op::LocalSet(1),
        Op::Br(1),
        Op::End,
        Op::End,
        Op::LocalGet(1),
        Op::End,
    ];
    codegen.emit(&mut masm, &ops).unwrap();
    let funcs = vec![masm.insts];
    let mut m = Machine::new(8192);
    m.regs[7] = 5;
    assert_eq!(call_func(&funcs, 0, &mut m, 1_000_000).unwrap() & 0xFFFF_FFFF, 10);
}
