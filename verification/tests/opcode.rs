use vihaco::opcode::{Instruction, OpCode};

fn width_of<T: Instruction>(_value: &T) -> u32 {
    T::width()
}

#[test]
fn scalar_instruction_traits_use_narrow_widths() {
    assert_eq!(i32::width(), 4);
}

#[test]
fn scalar_widths_are_their_byte_sizes_and_opcodes_are_zero() {
    assert_eq!(u32::width(), 4);
    assert_eq!(u64::width(), 8);
    assert_eq!(i64::width(), 8);
    assert_eq!(bool::width(), 1);
    assert_eq!(<()>::width(), 0);
    assert_eq!(width_of(&-7_i32), 4);
    assert_eq!(width_of(&7_u64), 8);
    assert_eq!(5_u32.opcode(), 0);
    assert_eq!((-5_i32).opcode(), 0);
    assert_eq!(true.opcode(), 0);
    assert_eq!(().opcode(), 0);
}
