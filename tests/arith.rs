use chip8_vm::alu::{add_with_carry, subtract_with_flag};

#[test]
fn add_wraps_and_flags_overflow() {
    assert_eq!(add_with_carry(200, 100), (44, 1));
    assert_eq!(add_with_carry(100, 155), (255, 0));
    assert_eq!(add_with_carry(255, 1), (0, 1));
}

#[test]
fn subtract_flags_no_borrow() {
    assert_eq!(subtract_with_flag(5, 3), (2, 1));
    assert_eq!(subtract_with_flag(3, 3), (0, 1));
    assert_eq!(subtract_with_flag(3, 5), (254, 0));
}
