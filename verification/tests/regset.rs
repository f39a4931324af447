use winch::reg::{Reg, RegClass};
use winch::regset::RegSet;

#[test]
fn allocate_hands_out_free_registers_once() {
    let mut rs = RegSet::new(0b0110, 0);
    let a = rs.allocate(RegClass::Int).unwrap();
    let b = rs.allocate(RegClass::Int).unwrap();
    assert_ne!(a.hw, b.hw);
    assert!(rs.allocate(RegClass::Int).is_none());
}

#[test]
fn freeing_an_unused_register_is_rejected() {
    let mut rs = RegSet::new(0b0001, 0);
    let a = rs.allocate(RegClass::Int).unwrap();
    assert_eq!(a, Reg { class: RegClass::Int, hw: 0 });
    assert!(rs.free(a));
    assert!(!rs.free(a));
    assert!(!rs.free(Reg { class: RegClass::Int, hw: 5 }));
}

#[test]
fn mark_used_claims_a_designated_register() {
    let mut rs = RegSet::new(0b0011, 0);
    let rax = Reg { class: RegClass::Int, hw: 0 };
    assert!(rs.mark_used(rax));
    assert!(!rs.mark_used(rax));
    assert!(rs.free(rax));
}
