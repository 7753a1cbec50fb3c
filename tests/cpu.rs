use succinct_core::columns::{
    AUIPCCols, CpuCols, JumpCols, MemoryAccessCols, MemoryColumns, OpcodeSelectorCols,
    OpcodeSpecificCols,
};
use succinct_core::cpu::{CpuChip, Interactions, OPCODE_ADD};
use succinct_core::instruction::InstructionCols;
use succinct_core::word::Word;

fn access(v: u32) -> MemoryAccessCols {
    MemoryAccessCols { value: Word::from_u32(v), prev_value: Word::from_u32(v), prev_shard: 0, prev_clk: 0 }
}

fn selectors() -> OpcodeSelectorCols {
    OpcodeSelectorCols {
        imm_b: 0,
        imm_c: 0,
        is_alu: 0,
        is_branch: 0,
        is_load: 0,
        is_store: 0,
        is_jal: 0,
        is_jalr: 0,
        is_auipc: 0,
        is_ecall: 0,
        is_noop: 0,
        reg_0_write: 0,
    }
}

fn padding_row() -> CpuCols {
    CpuCols {
        shard: 0,
        clk: 0,
        pc: 0,
        instruction: InstructionCols::new(),
        selectors: selectors(),
        op_a_access: access(0),
        op_b_access: access(0),
        op_c_access: access(0),
        opcode_specific_columns: OpcodeSpecificCols::new(),
        is_real: 0,
    }
}

#[test]
fn padding_row_satisfies_constraints() {
    let chip = CpuChip::new();
    let mut bus = Interactions::new();
    let row = padding_row();
    assert!(chip.eval(&mut bus, &row, &row, true));
    assert_eq!(bus.program.len(), 1);
    assert_eq!(bus.program[0].mult, 0);
    assert_eq!(bus.memory.len(), 4);
    assert_eq!(bus.alu.len(), 5);
    assert!(bus.alu.iter().all(|s| s.mult == 0));
}

#[test]
fn non_boolean_is_real_fails() {
    let chip = CpuChip::new();
    let mut bus = Interactions::new();
    let mut row = padding_row();
    row.is_real = 2;
    assert!(!chip.eval(&mut bus, &row, &row, true));
}

#[test]
fn add_immediate_row_sends_alu_tuple() {
    // ADDI x5, x0, 7: a = 7, b = x0 = 0, c = 7.
    let chip = CpuChip::new();
    let mut bus = Interactions::new();
    let mut row = padding_row();
    row.is_real = 1;
    row.pc = 0;
    row.clk = 0;
    row.instruction.opcode = OPCODE_ADD;
    row.instruction.op_a = Word::from_u32(5);
    row.instruction.op_c = Word::from_u32(7);
    row.selectors.imm_c = 1;
    row.selectors.is_alu = 1;
    row.op_a_access = MemoryAccessCols { value: Word::from_u32(7), prev_value: Word::zero(), prev_shard: 0, prev_clk: 0 };
    row.op_c_access = access(7);
    let next = padding_row();
    assert!(chip.eval(&mut bus, &row, &next, true));
    let alu = bus.alu[4];
    assert_eq!(alu.opcode, OPCODE_ADD);
    assert_eq!(alu.a.0, [7, 0, 0, 0]);
    assert_eq!(alu.b.0, [0, 0, 0, 0]);
    assert_eq!(alu.c.0, [7, 0, 0, 0]);
    assert_eq!(alu.mult, 1);
    // b is read from register 0, c is an immediate, a is written.
    assert_eq!(bus.memory[0].mult, 1);
    assert_eq!(bus.memory[0].clk, 2);
    assert_eq!(bus.memory[1].mult, 0);
    assert_eq!(bus.memory[2].mult, 1);
    assert_eq!(bus.memory[2].addr, 5);
    assert_eq!(bus.memory[3].mult, 0);
}

#[test]
fn immediate_mismatch_fails() {
    let chip = CpuChip::new();
    let mut bus = Interactions::new();
    let mut row = padding_row();
    row.instruction.op_c = Word::from_u32(7);
    row.selectors.imm_c = 1;
    row.op_c_access = access(8);
    assert!(!chip.eval(&mut bus, &row, &row, true));
}

#[test]
fn register_zero_write_sends_no_access() {
    // ADDI x0, x0, 5
    let chip = CpuChip::new();
    let mut bus = Interactions::new();
    let mut row = padding_row();
    row.is_real = 1;
    row.selectors.imm_c = 1;
    row.selectors.is_alu = 1;
    row.selectors.reg_0_write = 1;
    row.instruction.op_c = Word::from_u32(5);
    row.op_c_access = access(5);
    assert!(chip.eval(&mut bus, &row, &row, true));
    assert_eq!(bus.memory[2].addr, 0);
    assert_eq!(bus.memory[2].mult, 0);
}

#[test]
fn memory_row_checks_address_split() {
    let chip = CpuChip::new();
    let mut bus = Interactions::new();
    let mut row = padding_row();
    row.is_real = 1;
    row.selectors.is_load = 1;
    row.selectors.imm_c = 1;
    row.instruction.op_c = Word::from_u32(0x1001);
    row.op_c_access = access(0x1001);
    row.op_a_access = access(0);
    row.opcode_specific_columns.set_memory(MemoryColumns {
        addr_word: Word::from_u32(0x1001),
        addr_aligned: 0x1000,
        addr_offset: 1,
        memory_access: access(0xDEADBEEF),
    });
    assert!(chip.eval(&mut bus, &row, &row, true));
    assert_eq!(bus.memory[3].addr, 0x1000);
    assert_eq!(bus.memory[3].mult, 1);
    assert_eq!(bus.alu[0].a.0, [1, 0x10, 0, 0]);
    assert_eq!(bus.alu[0].mult, 1);

    let mut bad = row;
    bad.opcode_specific_columns.set_memory(MemoryColumns {
        addr_word: Word::from_u32(0x1001),
        addr_aligned: 0x1000,
        addr_offset: 2,
        memory_access: access(0xDEADBEEF),
    });
    let mut bus2 = Interactions::new();
    assert!(!chip.eval(&mut bus2, &bad, &bad, true));
}

fn jal_row(pc: u32, next_pc: u32, saved: u32) -> CpuCols {
    let mut row = padding_row();
    row.is_real = 1;
    row.pc = pc;
    row.selectors.is_jal = 1;
    row.op_a_access = access(saved);
    row.op_b_access = access(next_pc.wrapping_sub(pc));
    row.opcode_specific_columns.set_jump(JumpCols { pc: Word::from_u32(pc), next_pc: Word::from_u32(next_pc) });
    row
}

#[test]
fn jal_row_constraints() {
    let chip = CpuChip::new();
    let mut bus = Interactions::new();
    let row = jal_row(100, 140, 104);
    let mut next = padding_row();
    next.pc = 140;
    assert!(chip.jump_ops_eval(&mut bus, &row, &next, true));
    assert_eq!(bus.alu.len(), 2);
    assert_eq!(bus.alu[0].a.0, [140, 0, 0, 0]);
    assert_eq!(bus.alu[0].b.0, [100, 0, 0, 0]);
    assert_eq!(bus.alu[0].c.0, [40, 0, 0, 0]);
    assert_eq!(bus.alu[0].mult, 1);
    assert_eq!(bus.alu[1].mult, 0);
}

#[test]
fn jal_wrong_return_address_fails() {
    let chip = CpuChip::new();
    let mut bus = Interactions::new();
    let row = jal_row(100, 140, 108);
    let mut next = padding_row();
    next.pc = 140;
    assert!(!chip.jump_ops_eval(&mut bus, &row, &next, true));
}

#[test]
fn jal_next_pc_checked_only_on_transition() {
    let chip = CpuChip::new();
    let row = jal_row(100, 140, 104);
    let mut next = padding_row();
    next.pc = 200;
    let mut bus = Interactions::new();
    assert!(!chip.jump_ops_eval(&mut bus, &row, &next, true));
    let mut bus = Interactions::new();
    assert!(chip.jump_ops_eval(&mut bus, &row, &next, false));
}

#[test]
fn auipc_row_constraints() {
    let chip = CpuChip::new();
    let mut row = padding_row();
    row.pc = 0x40;
    row.selectors.is_auipc = 1;
    row.op_a_access = access(0x1040);
    row.op_b_access = access(0x1000);
    row.opcode_specific_columns.set_auipc(AUIPCCols { pc: Word::from_u32(0x40) });
    let mut bus = Interactions::new();
    assert!(chip.auipc_eval(&mut bus, &row));
    assert_eq!(bus.alu.len(), 1);
    assert_eq!(bus.alu[0].a.0, [0x40, 0x10, 0, 0]);
    assert_eq!(bus.alu[0].b.0, [0x40, 0, 0, 0]);
    assert_eq!(bus.alu[0].c.0, [0, 0x10, 0, 0]);
    row.pc = 0x44;
    let mut bus = Interactions::new();
    assert!(!chip.auipc_eval(&mut bus, &row));
}

#[test]
fn is_alu_instruction_reads_selector() {
    let chip = CpuChip::new();
    let mut s = selectors();
    assert_eq!(chip.is_alu_instruction(&s), 0);
    s.is_alu = 1;
    assert_eq!(chip.is_alu_instruction(&s), 1);
}

#[test]
fn opcode_specific_views_share_columns() {
    let mut c = OpcodeSpecificCols::new();
    c.set_jump(JumpCols { pc: Word::from_u32(0x0403_0201), next_pc: Word::from_u32(5) });
    assert_eq!(c.auipc().pc.0, [1, 2, 3, 4]);
    assert_eq!(c.memory().addr_word.0, [1, 2, 3, 4]);
    assert_eq!(c.memory().addr_aligned, 5);
    assert_eq!(c.jump().next_pc.0, [5, 0, 0, 0]);
}
