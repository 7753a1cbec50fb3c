use succinct_core::field::{add_mod, exp_u64, mul_mod, sub_mod, P};
use succinct_core::instruction::{Instruction, InstructionCols, NUM_INSTRUCTION_COLS};
use succinct_core::word::Word;

#[test]
fn field_add_wraps_at_modulus() {
    assert_eq!(add_mod(P - 1, 1), 0);
    assert_eq!(add_mod(P - 1, 5), 4);
    assert_eq!(add_mod(3, 4), 7);
}

#[test]
fn field_sub_wraps_below_zero() {
    assert_eq!(sub_mod(0, 1), P - 1);
    assert_eq!(sub_mod(10, 3), 7);
}

#[test]
fn field_mul_reduces() {
    assert_eq!(mul_mod(P - 1, P - 1), 1);
    assert_eq!(mul_mod(65536, 65536), ((1u64 << 32) % P as u64) as u32);
}

#[test]
fn field_exp_values() {
    assert_eq!(exp_u64(2, 10), 1024);
    assert_eq!(exp_u64(5, 0), 1);
    assert_eq!(exp_u64(P - 1, 7), P - 1);
    assert_eq!(exp_u64(3, 7), 2187);
}

#[test]
fn word_from_u32_is_little_endian_bytes() {
    let w = Word::from_u32(0xDEADBEEF);
    assert_eq!(w.0, [0xEF, 0xBE, 0xAD, 0xDE]);
    assert!(w.check_bytes());
    assert_eq!(w.reduce(), (0xDEADBEEFu64 % P as u64) as u32);
}

#[test]
fn word_check_bytes_rejects_large_lane() {
    let w = Word([0, 256, 0, 0]);
    assert!(!w.check_bytes());
    assert_eq!(w.reduce(), 65536);
}

#[test]
fn word_lanes_eq() {
    assert!(Word::from_u32(7).lanes_eq(&Word([7, 0, 0, 0])));
    assert!(!Word::from_u32(7).lanes_eq(&Word([7, 0, 0, 1])));
}

#[test]
fn populate_add_immediate() {
    // ADDI x5, x0, 7
    let mut cols = InstructionCols::new();
    cols.populate(Instruction { opcode: 0, op_a: 5, op_b: 0, op_c: 7, imm_b: false, imm_c: true });
    assert_eq!(cols.opcode, 0);
    assert_eq!(cols.op_a.0, [5, 0, 0, 0]);
    assert_eq!(cols.op_b.0, [0, 0, 0, 0]);
    assert_eq!(cols.op_c.0, [7, 0, 0, 0]);
}

#[test]
fn populate_overwrites_and_flattens() {
    let mut cols = InstructionCols::new();
    cols.populate(Instruction { opcode: 9, op_a: 1, op_b: 0x0102_0304, op_c: 0xFFFF_FFFF, imm_b: true, imm_c: true });
    let v = cols.to_vec();
    assert_eq!(v.len(), NUM_INSTRUCTION_COLS);
    assert_eq!(v, vec![9, 1, 0, 0, 0, 4, 3, 2, 1, 255, 255, 255, 255]);
}
