use vstd::prelude::*;
use crate::field::is_canonical;
use crate::instruction::InstructionCols;
use crate::word::Word;

verus! {

/// Number of columns in the opcode-specific region of a CPU row.
pub const NUM_OPCODE_SPECIFIC_COLS: usize = 16;

/// The columns of one memory access: the value after it, the value before it,
/// and the shard and clock of the access before it.
#[derive(Clone, Copy, Debug)]
pub struct MemoryAccessCols {
    pub value: Word,
    pub prev_value: Word,
    pub prev_shard: u32,
    pub prev_clk: u32,
}

impl MemoryAccessCols {
    pub open spec fn is_canonical(&self) -> bool {
        &&& self.value.is_canonical()
        &&& self.prev_value.is_canonical()
        &&& is_canonical(self.prev_shard)
        &&& is_canonical(self.prev_clk)
    }
}

/// Columns of a load or store: the effective address as a word, its aligned
/// part and offset, and the access to the aligned word.
#[derive(Clone, Copy, Debug)]
pub struct MemoryColumns {
    pub addr_word: Word,
    pub addr_aligned: u32,
    pub addr_offset: u32,
    pub memory_access: MemoryAccessCols,
}

/// Columns of JAL and JALR: the current and the next program counter as words.
#[derive(Clone, Copy, Debug)]
pub struct JumpCols {
    pub pc: Word,
    pub next_pc: Word,
}

/// Columns of AUIPC: the program counter as a word.
#[derive(Clone, Copy, Debug)]
pub struct AUIPCCols {
    pub pc: Word,
}

/// A fixed region of the CPU row read as memory, jump or AUIPC columns,
/// depending on the instruction of the row.
#[derive(Clone, Copy, Debug)]
pub struct OpcodeSpecificCols {
    pub cols: [u32; 16],
}

/// Four consecutive columns of `c`, from `at`, as a word.
pub open spec fn word_at(c: Seq<u32>, at: int) -> Word {
    Word([c[at], c[at + 1], c[at + 2], c[at + 3]])
}

impl OpcodeSpecificCols {
    /// Every column is a canonical field element.
    pub open spec fn is_canonical(&self) -> bool {
        forall|i: int| 0 <= i < 16 ==> is_canonical(#[trigger] self.cols[i])
    }

    pub open spec fn memory_spec(&self) -> MemoryColumns {
        let c = self.cols@;
        MemoryColumns {
            addr_word: word_at(c, 0),
            addr_aligned: c[4],
            addr_offset: c[5],
            memory_access: MemoryAccessCols {
                value: word_at(c, 6),
                prev_value: word_at(c, 10),
                prev_shard: c[14],
                prev_clk: c[15],
            },
        }
    }

    pub open spec fn jump_spec(&self) -> JumpCols {
        JumpCols { pc: word_at(self.cols@, 0), next_pc: word_at(self.cols@, 4) }
    }

    pub open spec fn auipc_spec(&self) -> AUIPCCols {
        AUIPCCols { pc: word_at(self.cols@, 0) }
    }

    /// An all-zero region.
    pub fn new() -> (r: OpcodeSpecificCols)
        ensures
            forall|i: int| 0 <= i < 16 ==> #[trigger] r.cols[i] == 0,
    {
        OpcodeSpecificCols { cols: [0u32; 16] }
    }

    fn word(&self, at: usize) -> (r: Word)
        requires
            at + 4 <= 16,
        ensures
            r == word_at(self.cols@, at as int),
    {
        Word([self.cols[at], self.cols[at + 1], self.cols[at + 2], self.cols[at + 3]])
    }

    /// The region read as memory columns.
    pub fn memory(&self) -> (r: MemoryColumns)
        ensures
            r == self.memory_spec(),
    {
        MemoryColumns {
            addr_word: self.word(0),
            addr_aligned: self.cols[4],
            addr_offset: self.cols[5],
            memory_access: MemoryAccessCols {
                value: self.word(6),
                prev_value: self.word(10),
                prev_shard: self.cols[14],
                prev_clk: self.cols[15],
            },
        }
    }

    /// The region read as jump columns.
    pub fn jump(&self) -> (r: JumpCols)
        ensures
            r == self.jump_spec(),
    {
        JumpCols { pc: self.word(0), next_pc: self.word(4) }
    }

    /// The region read as AUIPC columns.
    pub fn auipc(&self) -> (r: AUIPCCols)
        ensures
            r == self.auipc_spec(),
    {
        AUIPCCols { pc: self.word(0) }
    }

    fn set_word(&mut self, at: usize, w: Word)
        requires
            at + 4 <= 16,
        ensures
            word_at(final(self).cols@, at as int) == w,
            forall|i: int|
                0 <= i < 16 && !(at <= i < at + 4) ==> #[trigger] final(self).cols[i]
                    == old(self).cols[i],
    {
        self.cols[at] = w.0[0];
        self.cols[at + 1] = w.0[1];
        self.cols[at + 2] = w.0[2];
        self.cols[at + 3] = w.0[3];
        assert(word_at(self.cols@, at as int).0 =~= w.0);
    }

    /// Writes memory columns into the region.
    pub fn set_memory(&mut self, m: MemoryColumns)
        ensures
            final(self).memory_spec() == m,
    {
        self.set_word(0, m.addr_word);
        self.cols[4] = m.addr_aligned;
        self.cols[5] = m.addr_offset;
        self.set_word(6, m.memory_access.value);
        self.set_word(10, m.memory_access.prev_value);
        self.cols[14] = m.memory_access.prev_shard;
        self.cols[15] = m.memory_access.prev_clk;
    }

    /// Writes jump columns into the region; the columns past them keep their values.
    pub fn set_jump(&mut self, j: JumpCols)
        ensures
            final(self).jump_spec() == j,
            forall|i: int| 8 <= i < 16 ==> #[trigger] final(self).cols[i] == old(self).cols[i],
    {
        self.set_word(0, j.pc);
        self.set_word(4, j.next_pc);
    }

    /// Writes AUIPC columns into the region; the columns past them keep their values.
    pub fn set_auipc(&mut self, a: AUIPCCols)
        ensures
            final(self).auipc_spec() == a,
            forall|i: int| 4 <= i < 16 ==> #[trigger] final(self).cols[i] == old(self).cols[i],
    {
        self.set_word(0, a.pc);
    }
}

/// Opcode selectors and derived flags of a CPU row, each a field element.
#[derive(Clone, Copy, Debug)]
pub struct OpcodeSelectorCols {
    pub imm_b: u32,
    pub imm_c: u32,
    pub is_alu: u32,
    pub is_branch: u32,
    pub is_load: u32,
    pub is_store: u32,
    pub is_jal: u32,
    pub is_jalr: u32,
    pub is_auipc: u32,
    pub is_ecall: u32,
    pub is_noop: u32,
    pub reg_0_write: u32,
}

impl OpcodeSelectorCols {
    pub open spec fn is_canonical(&self) -> bool {
        &&& is_canonical(self.imm_b)
        &&& is_canonical(self.imm_c)
        &&& is_canonical(self.is_alu)
        &&& is_canonical(self.is_branch)
        &&& is_canonical(self.is_load)
        &&& is_canonical(self.is_store)
        &&& is_canonical(self.is_jal)
        &&& is_canonical(self.is_jalr)
        &&& is_canonical(self.is_auipc)
        &&& is_canonical(self.is_ecall)
        &&& is_canonical(self.is_noop)
        &&& is_canonical(self.reg_0_write)
    }
}

/// One row of the CPU trace.
#[derive(Clone, Copy, Debug)]
pub struct CpuCols {
    pub shard: u32,
    pub clk: u32,
    pub pc: u32,
    pub instruction: InstructionCols,
    pub selectors: OpcodeSelectorCols,
    pub op_a_access: MemoryAccessCols,
    pub op_b_access: MemoryAccessCols,
    pub op_c_access: MemoryAccessCols,
    pub opcode_specific_columns: OpcodeSpecificCols,
    pub is_real: u32,
}

impl CpuCols {
    /// Every column of the row is a canonical field element.
    pub open spec fn is_canonical(&self) -> bool {
        &&& is_canonical(self.shard)
        &&& is_canonical(self.clk)
        &&& is_canonical(self.pc)
        &&& is_canonical(self.instruction.opcode)
        &&& self.instruction.op_a.is_canonical()
        &&& self.instruction.op_b.is_canonical()
        &&& self.instruction.op_c.is_canonical()
        &&& self.selectors.is_canonical()
        &&& self.op_a_access.is_canonical()
        &&& self.op_b_access.is_canonical()
        &&& self.op_c_access.is_canonical()
        &&& self.opcode_specific_columns.is_canonical()
        &&& is_canonical(self.is_real)
    }

    /// The value of operand `a` after the cycle.
    pub fn op_a_val(&self) -> (r: Word)
        ensures
            r == self.op_a_access.value,
    {
        self.op_a_access.value
    }

    /// The value of operand `b`.
    pub fn op_b_val(&self) -> (r: Word)
        ensures
            r == self.op_b_access.value,
    {
        self.op_b_access.value
    }

    /// The value of operand `c`.
    pub fn op_c_val(&self) -> (r: Word)
        ensures
            r == self.op_c_access.value,
    {
        self.op_c_access.value
    }
}

} // verus!
