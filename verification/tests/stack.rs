use winch::stack::{OperandStack, Val};
use winch::types::ValType;

#[test]
fn push_pop_and_peek_follow_stack_order() {
    let mut s = OperandStack::new();
    s.push(Val::Imm { bits: 1, ty: ValType::I32 });
    s.push(Val::Imm { bits: 2, ty: ValType::I32 });
    assert_eq!(s.len(), 2);
    assert_eq!(s.peek(0), Some(Val::Imm { bits: 2, ty: ValType::I32 }));
    assert_eq!(s.peek(1), Some(Val::Imm { bits: 1, ty: ValType::I32 }));
    assert_eq!(s.pop(), Some(Val::Imm { bits: 2, ty: ValType::I32 }));
    assert_eq!(s.pop(), Some(Val::Imm { bits: 1, ty: ValType::I32 }));
    assert_eq!(s.pop(), None);
}

#[test]
fn truncate_discards_entries_above_the_height() {
    let mut s = OperandStack::new();
    for i in 0..5u64 {
        s.push(Val::Imm { bits: i, ty: ValType::I64 });
    }
    s.truncate(2);
    assert_eq!(s.len(), 2);
    assert_eq!(s.peek(0), Some(Val::Imm { bits: 1, ty: ValType::I64 }));
}
