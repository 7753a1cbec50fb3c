use vstd::prelude::*;
use crate::word::Word;

verus! {

/// A decoded instruction. Register operands hold the register index; immediates
/// hold the literal.
#[derive(Clone, Copy, Debug)]
pub struct Instruction {
    pub opcode: u8,
    pub op_a: u32,
    pub op_b: u32,
    pub op_c: u32,
    pub imm_b: bool,
    pub imm_c: bool,
}

/// The column layout for instructions.
#[derive(Clone, Copy, Debug)]
pub struct InstructionCols {
    /// The opcode for this cycle.
    pub opcode: u32,
    /// The first operand for this instruction.
    pub op_a: Word,
    /// The second operand for this instruction.
    pub op_b: Word,
    /// The third operand for this instruction.
    pub op_c: Word,
}

/// Number of columns in an instruction row.
pub const NUM_INSTRUCTION_COLS: usize = 13;

impl InstructionCols {
    /// An all-zero row.
    pub fn new() -> (r: InstructionCols)
        ensures
            r.opcode == 0,
            r.op_a.is_bytes() && r.op_a.value() == 0,
            r.op_b.is_bytes() && r.op_b.value() == 0,
            r.op_c.is_bytes() && r.op_c.value() == 0,
    {
        InstructionCols { opcode: 0, op_a: Word::zero(), op_b: Word::zero(), op_c: Word::zero() }
    }

    /// Writes `instruction` into the row: the opcode as a field element and each
    /// operand as four byte lanes.
    pub fn populate(&mut self, instruction: Instruction)
        ensures
            final(self).opcode == instruction.opcode as u32,
            final(self).op_a.is_bytes(),
            final(self).op_b.is_bytes(),
            final(self).op_c.is_bytes(),
            final(self).op_a.value() == instruction.op_a as int,
            final(self).op_b.value() == instruction.op_b as int,
            final(self).op_c.value() == instruction.op_c as int,
    {
        self.opcode = instruction.opcode as u32;
        self.op_a = Word::from_u32(instruction.op_a);
        self.op_b = Word::from_u32(instruction.op_b);
        self.op_c = Word::from_u32(instruction.op_c);
    }

    /// The row's columns in order: opcode, then the lanes of `op_a`, `op_b`, `op_c`.
    pub fn to_vec(&self) -> (r: Vec<u32>)
        ensures
            r@ == seq![self.opcode].add(self.op_a.0@).add(self.op_b.0@).add(self.op_c.0@),
            r@.len() == NUM_INSTRUCTION_COLS,
    {
        let mut v: Vec<u32> = Vec::new();
        v.push(self.opcode);
        let words = [self.op_a, self.op_b, self.op_c];
        let mut k: usize = 0;
        while k < 3
            invariant
                0 <= k <= 3,
                words@ == seq![self.op_a, self.op_b, self.op_c],
                v@.len() == 1 + 4 * k,
                k == 0 ==> v@ == seq![self.opcode],
                k == 1 ==> v@ == seq![self.opcode].add(self.op_a.0@),
                k == 2 ==> v@ == seq![self.opcode].add(self.op_a.0@).add(self.op_b.0@),
                k == 3 ==> v@ == seq![self.opcode].add(self.op_a.0@).add(self.op_b.0@).add(
                    self.op_c.0@,
                ),
            decreases 3 - k,
        {
            let w = words[k];
            let ghost before = v@;
            let mut i: usize = 0;
            while i < 4
                invariant
                    0 <= i <= 4,
                    v@ == before.add(w.0@.subrange(0, i as int)),
                decreases 4 - i,
            {
                v.push(w.0[i]);
                i = i + 1;
            }
            assert(w.0@.subrange(0, 4) =~= w.0@);
            k = k + 1;
        }
        v
    }
}

} // verus!
