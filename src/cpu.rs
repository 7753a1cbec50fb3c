use vstd::prelude::*;
use crate::columns::{CpuCols, MemoryAccessCols, OpcodeSelectorCols};
use crate::field::{P, add_mod, add_spec, is_canonical, mul_mod, mul_spec, sub_mod, sub_spec};
use crate::instruction::InstructionCols;
use crate::word::Word;

verus! {

/// Opcode number of ADD on the ALU bus.
pub const OPCODE_ADD: u32 = 0;

/// Sub-clock offsets of the four access positions within a cycle.
pub const ACCESS_MEMORY: u32 = 0;
pub const ACCESS_C: u32 = 1;
pub const ACCESS_B: u32 = 2;
pub const ACCESS_A: u32 = 3;

/// A tuple sent to the ALU bus: `a = opcode(b, c)`, with a multiplicity.
#[derive(Clone, Copy, Debug)]
pub struct AluSend {
    pub opcode: u32,
    pub a: Word,
    pub b: Word,
    pub c: Word,
    pub mult: u32,
}

/// A memory access sent to the memory bus, with a multiplicity.
#[derive(Clone, Copy, Debug)]
pub struct MemorySend {
    pub shard: u32,
    pub clk: u32,
    pub addr: u32,
    pub access: MemoryAccessCols,
    pub mult: u32,
}

/// A `(pc, instruction, selectors)` tuple sent to the program bus, with a multiplicity.
#[derive(Clone, Copy, Debug)]
pub struct ProgramSend {
    pub pc: u32,
    pub instruction: InstructionCols,
    pub selectors: OpcodeSelectorCols,
    pub mult: u32,
}

/// What one evaluation sends on each bus.
pub struct Interactions {
    pub alu: Vec<AluSend>,
    pub memory: Vec<MemorySend>,
    pub program: Vec<ProgramSend>,
}

impl Interactions {
    pub fn new() -> (r: Interactions)
        ensures
            r.alu@.len() == 0,
            r.memory@.len() == 0,
            r.program@.len() == 0,
    {
        Interactions { alu: Vec::new(), memory: Vec::new(), program: Vec::new() }
    }
}

/// The CPU chip.
pub struct CpuChip {}

/// `when(sel).assert_eq(x, y)`: `sel * (x - y) = 0` in the field.
pub open spec fn when_eq(sel: int, x: int, y: int) -> bool {
    mul_spec(sel, sub_spec(x, y)) == 0
}

/// `when(sel).assert_word_eq(x, y)`, lane by lane.
pub open spec fn when_word_eq(sel: int, x: Word, y: Word) -> bool {
    &&& when_eq(sel, x.0[0] as int, y.0[0] as int)
    &&& when_eq(sel, x.0[1] as int, y.0[1] as int)
    &&& when_eq(sel, x.0[2] as int, y.0[2] as int)
    &&& when_eq(sel, x.0[3] as int, y.0[3] as int)
}

/// `1 - x` in the field.
pub open spec fn not_spec(x: int) -> int {
    sub_spec(1, x)
}

/// The jump constraints of a row: `op_a = pc + 4` for JAL and JALR, the word
/// form of `pc` for JAL, and on a transition the word form of the next `pc`.
pub open spec fn jump_holds(local: CpuCols, next: CpuCols, is_transition: bool) -> bool {
    let j = local.opcode_specific_columns.jump_spec();
    let jumps = add_spec(local.selectors.is_jal as int, local.selectors.is_jalr as int);
    &&& when_eq(jumps, local.op_a_access.value.reduce_spec(), add_spec(local.pc as int, 4))
    &&& when_eq(local.selectors.is_jal as int, j.pc.reduce_spec(), local.pc as int)
    &&& is_transition ==> when_eq(jumps, j.next_pc.reduce_spec(), next.pc as int)
}

/// The ALU tuples of the jump constraints: `next_pc = pc + b` for JAL and
/// `next_pc = b + c` for JALR.
pub open spec fn jump_sends(local: CpuCols) -> Seq<AluSend> {
    let j = local.opcode_specific_columns.jump_spec();
    seq![
        AluSend {
            opcode: OPCODE_ADD,
            a: j.next_pc,
            b: j.pc,
            c: local.op_b_access.value,
            mult: local.selectors.is_jal,
        },
        AluSend {
            opcode: OPCODE_ADD,
            a: j.next_pc,
            b: local.op_b_access.value,
            c: local.op_c_access.value,
            mult: local.selectors.is_jalr,
        },
    ]
}

/// The AUIPC constraint of a row: the word form of `pc`.
pub open spec fn auipc_holds(local: CpuCols) -> bool {
    when_eq(
        local.selectors.is_auipc as int,
        local.opcode_specific_columns.auipc_spec().pc.reduce_spec(),
        local.pc as int,
    )
}

/// The ALU tuple of AUIPC: `op_a = pc + op_b`.
pub open spec fn auipc_send(local: CpuCols) -> AluSend {
    AluSend {
        opcode: OPCODE_ADD,
        a: local.op_a_access.value,
        b: local.opcode_specific_columns.auipc_spec().pc,
        c: local.op_b_access.value,
        mult: local.selectors.is_auipc,
    }
}

/// Whether the row is a load or a store.
pub open spec fn is_memory_spec(s: OpcodeSelectorCols) -> int {
    add_spec(s.is_load as int, s.is_store as int)
}

/// Every constraint of a row that the CPU chip states itself.
pub open spec fn row_holds(local: CpuCols, next: CpuCols, is_transition: bool) -> bool {
    let s = local.selectors;
    let m = local.opcode_specific_columns.memory_spec();
    let is_memory = is_memory_spec(s);
    &&& when_word_eq(s.imm_b as int, local.op_b_access.value, local.instruction.op_b)
    &&& when_word_eq(s.imm_c as int, local.op_c_access.value, local.instruction.op_c)
    &&& when_word_eq(not_spec(s.imm_b as int), local.op_b_access.value, local.op_b_access.prev_value)
    &&& when_word_eq(not_spec(s.imm_c as int), local.op_c_access.value, local.op_c_access.prev_value)
    &&& when_word_eq(
        add_spec(s.is_branch as int, s.is_store as int),
        local.op_a_access.value,
        local.op_a_access.prev_value,
    )
    &&& when_eq(is_memory, add_spec(m.addr_aligned as int, m.addr_offset as int), m.addr_word.reduce_spec())
    &&& (is_memory == 0 || m.addr_word.is_bytes())
    &&& jump_holds(local, next, is_transition)
    &&& auipc_holds(local)
    &&& mul_spec(local.is_real as int, sub_spec(local.is_real as int, 1)) == 0
}

/// The memory accesses of a row, in the order `b`, `c`, `a`, memory.
pub open spec fn row_memory_sends(local: CpuCols) -> Seq<MemorySend> {
    let s = local.selectors;
    let m = local.opcode_specific_columns.memory_spec();
    seq![
        MemorySend {
            shard: local.shard,
            clk: add_spec(local.clk as int, ACCESS_B as int) as u32,
            addr: local.instruction.op_b.0[0],
            access: local.op_b_access,
            mult: not_spec(s.imm_b as int) as u32,
        },
        MemorySend {
            shard: local.shard,
            clk: add_spec(local.clk as int, ACCESS_C as int) as u32,
            addr: local.instruction.op_c.0[0],
            access: local.op_c_access,
            mult: not_spec(s.imm_c as int) as u32,
        },
        MemorySend {
            shard: local.shard,
            clk: add_spec(local.clk as int, ACCESS_A as int) as u32,
            addr: local.instruction.op_a.0[0],
            access: local.op_a_access,
            mult: sub_spec(not_spec(s.is_noop as int), s.reg_0_write as int) as u32,
        },
        MemorySend {
            shard: local.shard,
            clk: add_spec(local.clk as int, ACCESS_MEMORY as int) as u32,
            addr: m.addr_aligned,
            access: m.memory_access,
            mult: is_memory_spec(s) as u32,
        },
    ]
}

/// The ALU tuples of a row: address arithmetic, jumps, AUIPC, then the ALU
/// instruction itself.
pub open spec fn row_alu_sends(local: CpuCols) -> Seq<AluSend> {
    let s = local.selectors;
    let m = local.opcode_specific_columns.memory_spec();
    seq![
        AluSend {
            opcode: OPCODE_ADD,
            a: m.addr_word,
            b: local.op_b_access.value,
            c: local.op_c_access.value,
            mult: is_memory_spec(s) as u32,
        },
    ].add(jump_sends(local)).push(auipc_send(local)).push(
        AluSend {
            opcode: local.instruction.opcode,
            a: local.op_a_access.value,
            b: local.op_b_access.value,
            c: local.op_c_access.value,
            mult: s.is_alu,
        },
    )
}

/// Register 0 is never written: on a row that writes register 0 and is not a
/// no-op, the access to operand `a` is sent with multiplicity zero.
pub proof fn lemma_register_zero_not_written(local: CpuCols)
    requires
        local.selectors.reg_0_write == 1,
        local.selectors.is_noop == 0,
    ensures
        row_memory_sends(local)[2].addr == local.instruction.op_a.0[0],
        row_memory_sends(local)[2].mult == 0,
{
}

/// A padding row: not real, every selector off, and the register reads of `b`
/// and `c` return what the registers held.
pub open spec fn is_padding_row(local: CpuCols) -> bool {
    let s = local.selectors;
    &&& local.is_real == 0
    &&& s.imm_b == 0 && s.imm_c == 0 && s.is_alu == 0 && s.is_branch == 0
    &&& s.is_load == 0 && s.is_store == 0 && s.is_jal == 0 && s.is_jalr == 0
    &&& s.is_auipc == 0 && s.is_ecall == 0 && s.is_noop == 0 && s.reg_0_write == 0
    &&& local.op_b_access.value == local.op_b_access.prev_value
    &&& local.op_c_access.value == local.op_c_access.prev_value
}

/// Padding rows satisfy every constraint of the CPU chip, whatever row follows.
pub proof fn lemma_padding_row_holds(local: CpuCols, next: CpuCols, is_transition: bool)
    requires
        is_padding_row(local),
    ensures
        row_holds(local, next, is_transition),
{
    assert forall|x: int| #[trigger] mul_spec(0, x) == 0 by {
        assert(0 * x == 0);
    }
    assert forall|x: int| #[trigger] sub_spec(x, x) == 0 by {
        assert(x - x + P as int == P as int);
    }
    assert(add_spec(0, 0) == 0);
    assert(not_spec(0) == 1);
    assert(mul_spec(1, 0) == 0);
}

/// `sel * (x - y) = 0` in the field.
fn check_when_eq(sel: u32, x: u32, y: u32) -> (r: bool)
    requires
        is_canonical(sel),
        is_canonical(x),
        is_canonical(y),
    ensures
        r == when_eq(sel as int, x as int, y as int),
{
    mul_mod(sel, sub_mod(x, y)) == 0
}

fn check_when_word_eq(sel: u32, x: &Word, y: &Word) -> (r: bool)
    requires
        is_canonical(sel),
        x.is_canonical(),
        y.is_canonical(),
    ensures
        r == when_word_eq(sel as int, *x, *y),
{
    let r0 = check_when_eq(sel, x.0[0], y.0[0]);
    let r1 = check_when_eq(sel, x.0[1], y.0[1]);
    let r2 = check_when_eq(sel, x.0[2], y.0[2]);
    let r3 = check_when_eq(sel, x.0[3], y.0[3]);
    r0 && r1 && r2 && r3
}

impl CpuChip {
    pub fn new() -> (r: CpuChip) {
        CpuChip {  }
    }

    /// Whether the row is an ALU instruction.
    pub fn is_alu_instruction(&self, opcode_selectors: &OpcodeSelectorCols) -> (r: u32)
        ensures
            r == opcode_selectors.is_alu,
    {
        opcode_selectors.is_alu
    }

    /// Constraints related to jump operations. Returns whether they hold on the
    /// row and appends their ALU tuples to `bus`.
    pub fn jump_ops_eval(
        &self,
        bus: &mut Interactions,
        local: &CpuCols,
        next: &CpuCols,
        is_transition: bool,
    ) -> (r: bool)
        requires
            local.is_canonical(),
            is_canonical(next.pc),
        ensures
            r == jump_holds(*local, *next, is_transition),
            final(bus).alu@ == old(bus).alu@ + jump_sends(*local),
            final(bus).memory@ == old(bus).memory@,
            final(bus).program@ == old(bus).program@,
    {
        let jump_columns = local.opcode_specific_columns.jump();
        let jumps = add_mod(local.selectors.is_jal, local.selectors.is_jalr);
        // The return address `pc + 4` is saved in op_a for both jumps.
        let c1 = check_when_eq(jumps, local.op_a_val().reduce(), add_mod(local.pc, 4));
        // The word form of pc is correct for JAL.
        let c2 = check_when_eq(local.selectors.is_jal, jump_columns.pc.reduce(), local.pc);
        // The word form of next.pc is correct for both jumps.
        let c3 = !is_transition || check_when_eq(jumps, jump_columns.next_pc.reduce(), next.pc);
        bus.alu.push(
            AluSend {
                opcode: OPCODE_ADD,
                a: jump_columns.next_pc,
                b: jump_columns.pc,
                c: local.op_b_val(),
                mult: local.selectors.is_jal,
            },
        );
        bus.alu.push(
            AluSend {
                opcode: OPCODE_ADD,
                a: jump_columns.next_pc,
                b: local.op_b_val(),
                c: local.op_c_val(),
                mult: local.selectors.is_jalr,
            },
        );
        c1 && c2 && c3
    }

    /// Constraints related to AUIPC. Returns whether they hold on the row and
    /// appends the ALU tuple `op_a = pc + op_b` to `bus`.
    pub fn auipc_eval(&self, bus: &mut Interactions, local: &CpuCols) -> (r: bool)
        requires
            local.is_canonical(),
        ensures
            r == auipc_holds(*local),
            final(bus).alu@ == old(bus).alu@.push(auipc_send(*local)),
            final(bus).memory@ == old(bus).memory@,
            final(bus).program@ == old(bus).program@,
    {
        let auipc_columns = local.opcode_specific_columns.auipc();
        let c = check_when_eq(local.selectors.is_auipc, auipc_columns.pc.reduce(), local.pc);
        bus.alu.push(
            AluSend {
                opcode: OPCODE_ADD,
                a: local.op_a_val(),
                b: auipc_columns.pc,
                c: local.op_b_val(),
                mult: local.selectors.is_auipc,
            },
        );
        c
    }

    /// Evaluates every constraint that the CPU chip states on a row. Returns
    /// whether they all hold, and appends the row's tuples to the program,
    /// memory and ALU buses.
    #[verifier::rlimit(50)]
    pub fn eval(
        &self,
        bus: &mut Interactions,
        local: &CpuCols,
        next: &CpuCols,
        is_transition: bool,
    ) -> (r: bool)
        requires
            local.is_canonical(),
            is_canonical(next.pc),
        ensures
            r == row_holds(*local, *next, is_transition),
            final(bus).program@ == old(bus).program@.push(
                ProgramSend {
                    pc: local.pc,
                    instruction: local.instruction,
                    selectors: local.selectors,
                    mult: local.is_real,
                },
            ),
            final(bus).memory@ == old(bus).memory@ + row_memory_sends(*local),
            final(bus).alu@ == old(bus).alu@ + row_alu_sends(*local),
    {
        let s = local.selectors;
        let memory_columns = local.opcode_specific_columns.memory();
        let is_memory = add_mod(s.is_load, s.is_store);
        let ghost alu0 = bus.alu@;
        let ghost mem0 = bus.memory@;

        // Program constraints.
        bus.program.push(
            ProgramSend {
                pc: local.pc,
                instruction: local.instruction,
                selectors: local.selectors,
                mult: local.is_real,
            },
        );

        // Immediates are loaded into b and c when their flags are on.
        let imm_b_ok = check_when_word_eq(s.imm_b, &local.op_b_val(), &local.instruction.op_b);
        let imm_c_ok = check_when_word_eq(s.imm_c, &local.op_c_val(), &local.instruction.op_c);

        // Otherwise b and c are read from registers.
        let not_imm_b = sub_mod(1, s.imm_b);
        bus.memory.push(
            MemorySend {
                shard: local.shard,
                clk: add_mod(local.clk, ACCESS_B),
                addr: local.instruction.op_b.0[0],
                access: local.op_b_access,
                mult: not_imm_b,
            },
        );
        let read_b_ok = check_when_word_eq(not_imm_b, &local.op_b_val(), &local.op_b_access.prev_value);
        let not_imm_c = sub_mod(1, s.imm_c);
        bus.memory.push(
            MemorySend {
                shard: local.shard,
                clk: add_mod(local.clk, ACCESS_C),
                addr: local.instruction.op_c.0[0],
                access: local.op_c_access,
                mult: not_imm_c,
            },
        );
        let read_c_ok = check_when_word_eq(not_imm_c, &local.op_c_val(), &local.op_c_access.prev_value);

        // Register a is written unless the row is a no-op or writes register 0.
        bus.memory.push(
            MemorySend {
                shard: local.shard,
                clk: add_mod(local.clk, ACCESS_A),
                addr: local.instruction.op_a.0[0],
                access: local.op_a_access,
                mult: sub_mod(sub_mod(1, s.is_noop), s.reg_0_write),
            },
        );
        // Branches and stores leave a as it was.
        let keep_a_ok = check_when_word_eq(
            add_mod(s.is_branch, s.is_store),
            &local.op_a_val(),
            &local.op_a_access.prev_value,
        );

        // Loads and stores access the aligned word.
        bus.memory.push(
            MemorySend {
                shard: local.shard,
                clk: add_mod(local.clk, ACCESS_MEMORY),
                addr: memory_columns.addr_aligned,
                access: memory_columns.memory_access,
                mult: is_memory,
            },
        );
        // reduce(addr_word) == addr_aligned + addr_offset.
        let addr_ok = check_when_eq(
            is_memory,
            add_mod(memory_columns.addr_aligned, memory_columns.addr_offset),
            memory_columns.addr_word.reduce(),
        );
        // Each lane of addr_word is a byte.
        let addr_bytes_ok = is_memory == 0 || memory_columns.addr_word.check_bytes();
        // The address is op_b + op_c.
        bus.alu.push(
            AluSend {
                opcode: OPCODE_ADD,
                a: memory_columns.addr_word,
                b: local.op_b_val(),
                c: local.op_c_val(),
                mult: is_memory,
            },
        );

        let jump_ok = self.jump_ops_eval(bus, local, next, is_transition);
        let auipc_ok = self.auipc_eval(bus, local);

        // ALU instructions.
        bus.alu.push(
            AluSend {
                opcode: local.instruction.opcode,
                a: local.op_a_val(),
                b: local.op_b_val(),
                c: local.op_c_val(),
                mult: self.is_alu_instruction(&s),
            },
        );

        // is_real is boolean.
        let real_ok = mul_mod(local.is_real, sub_mod(local.is_real, 1)) == 0;

        proof {
            assert(bus.memory@ =~= mem0 + row_memory_sends(*local));
            assert(bus.alu@ =~= alu0 + row_alu_sends(*local));
        }
        imm_b_ok && imm_c_ok && read_b_ok && read_c_ok && keep_a_ok && addr_ok && addr_bytes_ok
            && jump_ok && auipc_ok && real_ok
    }
}

} // verus!
