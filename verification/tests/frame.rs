use winch::abi::ABIArg;
use winch::frame::{DefinedLocals, Frame, LocalSlot};
use winch::isa::x64;
use winch::types::{Signature, ValType};

#[test]
fn frame_size_is_a_multiple_of_the_call_stack_alignment() {
    let conv = x64::winch_call_conv();
    let ty = Signature::new(vec![ValType::I32], vec![]);
    let sig = conv.sig(&ty).unwrap();
    let defined = DefinedLocals::new(vec![ValType::I64, ValType::I32]);
    let frame = Frame::new(&sig, &defined, &conv);
    assert_eq!(frame.locals_size % conv.stack_align, 0);
    // One register argument plus two declared locals: three 8-byte slots,
    // rounded up to the 16-byte alignment.
    assert_eq!(frame.locals_size, 32);
    assert_eq!(frame.locals.len(), 3);
    assert_eq!(frame.arg_count, 1);
}

#[test]
fn stack_arguments_keep_their_place_in_the_callers_area() {
    let conv = x64::winch_call_conv();
    let ty = Signature::new(vec![ValType::I64; 8], vec![]);
    let sig = conv.sig(&ty).unwrap();
    let defined = DefinedLocals::empty();
    let frame = Frame::new(&sig, &defined, &conv);
    for (i, p) in sig.params.iter().enumerate() {
        match p {
            ABIArg::Stack { offset, .. } => {
                assert_eq!(frame.locals[i].slot, LocalSlot::InArgArea { offset: *offset });
            }
            ABIArg::Reg { .. } => {
                assert!(matches!(frame.locals[i].slot, LocalSlot::InFrame { .. }));
            }
        }
    }
}

#[test]
fn in_frame_slots_never_collide() {
    let conv = x64::winch_call_conv();
    let ty = Signature::new(vec![ValType::I32; 4], vec![]);
    let sig = conv.sig(&ty).unwrap();
    let defined = DefinedLocals::new(vec![ValType::I64; 3]);
    let frame = Frame::new(&sig, &defined, &conv);
    let mut offsets: Vec<u32> = Vec::new();
    for l in frame.locals.iter() {
        if let LocalSlot::InFrame { offset } = l.slot {
            assert!(!offsets.contains(&offset));
            assert_eq!(offset % 8, 0);
            assert!(offset <= frame.locals_size);
            offsets.push(offset);
        }
    }
}
