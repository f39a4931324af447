use winch::abi::{align_to, calculate_frame_adjustment, ABIArg, ABIResult, CallingConv};
use winch::isa::x64;
use winch::reg::{Reg, RegClass};
use winch::types::{CodegenError, Signature, ValType};

fn gpr(hw: u8) -> Reg {
    Reg { class: RegClass::Int, hw }
}

fn two_int_reg_conv() -> CallingConv {
    CallingConv {
        int_params: vec![gpr(0), gpr(1)],
        float_params: Vec::new(),
        int_result: Some(gpr(0)),
        float_result: None,
        stack_align: 16,
        arg_base_offset: 16,
    }
}

#[test]
fn four_ints_on_a_two_register_pool_split_between_regs_and_stack() {
    let conv = two_int_reg_conv();
    let ty = Signature::new(vec![ValType::I32; 4], vec![]);
    let sig = conv.sig(&ty).unwrap();
    assert_eq!(sig.params.len(), 4);
    assert!(matches!(sig.params[0], ABIArg::Reg { reg, .. } if reg.hw == 0));
    assert!(matches!(sig.params[1], ABIArg::Reg { reg, .. } if reg.hw == 1));
    assert!(matches!(sig.params[2], ABIArg::Stack { offset: 0, .. }));
    assert!(matches!(sig.params[3], ABIArg::Stack { offset: 8, .. }));
}

#[test]
fn stack_offsets_increase_and_are_pointer_aligned() {
    let conv = two_int_reg_conv();
    let ty = Signature::new(vec![ValType::I64; 6], vec![]);
    let sig = conv.sig(&ty).unwrap();
    let mut last: Option<u32> = None;
    for p in sig.params.iter() {
        if let ABIArg::Stack { offset, .. } = p {
            assert_eq!(offset % 8, 0);
            if let Some(prev) = last {
                assert!(*offset > prev);
            }
            last = Some(*offset);
        }
    }
    assert_eq!(sig.stack_bytes % conv.stack_align, 0);
}

#[test]
fn sysv_parameter_registers_are_assigned_in_order() {
    let conv = x64::winch_call_conv();
    let ty = Signature::new(vec![ValType::I64; 7], vec![ValType::I32]);
    let sig = conv.sig(&ty).unwrap();
    let order = [7u8, 6, 2, 1, 8, 9];
    for (i, hw) in order.iter().enumerate() {
        assert!(matches!(sig.params[i], ABIArg::Reg { reg, .. } if reg.hw == *hw));
    }
    assert!(matches!(sig.params[6], ABIArg::Stack { offset: 0, .. }));
    assert!(matches!(sig.result, ABIResult::Reg { reg, .. } if reg.hw == 0));
}

#[test]
fn no_register_is_assigned_twice() {
    let conv = x64::winch_call_conv();
    let ty = Signature::new(vec![ValType::I64; 6], vec![]);
    let sig = conv.sig(&ty).unwrap();
    for i in 0..sig.params.len() {
        for j in (i + 1)..sig.params.len() {
            if let (ABIArg::Reg { reg: a, .. }, ABIArg::Reg { reg: b, .. }) =
                (&sig.params[i], &sig.params[j])
            {
                assert_ne!(a, b);
            }
        }
    }
}

#[test]
fn a_second_result_value_is_a_reported_violation() {
    let conv = x64::winch_call_conv();
    let ty = Signature::new(vec![], vec![ValType::I32, ValType::I32]);
    assert_eq!(conv.sig(&ty).unwrap_err(), CodegenError::UnsupportedMultiValue);
}

#[test]
fn a_missing_result_register_is_a_reported_violation() {
    let mut conv = two_int_reg_conv();
    conv.int_result = None;
    let ty = Signature::new(vec![], vec![ValType::I32]);
    assert_eq!(conv.sig(&ty).unwrap_err(), CodegenError::MissingResultRegister);
}

#[test]
fn align_to_rounds_up_to_the_next_multiple() {
    assert_eq!(align_to(0, 16), 0);
    assert_eq!(align_to(1, 16), 16);
    assert_eq!(align_to(16, 16), 16);
    assert_eq!(align_to(17, 16), 32);
}

#[test]
fn frame_adjustment_pads_to_the_call_alignment() {
    assert_eq!(calculate_frame_adjustment(0, 16, 16), 0);
    assert_eq!(calculate_frame_adjustment(8, 16, 16), 8);
    assert_eq!(calculate_frame_adjustment(24, 16, 16), 8);
}
