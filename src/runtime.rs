use vstd::prelude::*;
use std::collections::HashMap;

verus! {

broadcast use vstd::std_specs::hash::group_hash_axioms;

/// The register that carries a precompile's first argument.
pub const REGISTER_X10: usize = 10;

/// What memory holds at one aligned address: the value and the shard and clock
/// of its last access.
#[derive(Clone, Copy, Debug)]
pub struct MemoryEntry {
    pub value: u32,
    pub shard: u32,
    pub timestamp: u32,
}

/// The record of a read.
#[derive(Clone, Copy, Debug)]
pub struct MemoryReadRecord {
    pub value: u32,
    pub shard: u32,
    pub timestamp: u32,
    pub prev_shard: u32,
    pub prev_timestamp: u32,
}

/// The record of a write.
#[derive(Clone, Copy, Debug)]
pub struct MemoryWriteRecord {
    pub value: u32,
    pub shard: u32,
    pub timestamp: u32,
    pub prev_value: u32,
    pub prev_shard: u32,
    pub prev_timestamp: u32,
}

/// The entry at `addr`; an untouched address holds zero, last accessed at shard
/// 0 and clock 0.
pub open spec fn entry_at(m: Map<u32, MemoryEntry>, addr: u32) -> MemoryEntry {
    if m.contains_key(addr) {
        m[addr]
    } else {
        MemoryEntry { value: 0, shard: 0, timestamp: 0 }
    }
}

/// An insert changes the entry at its own key and no other.
pub broadcast proof fn lemma_entry_at_insert(
    m: Map<u32, MemoryEntry>,
    k: u32,
    e: MemoryEntry,
    a: u32,
)
    ensures
        #[trigger] entry_at(m.insert(k, e), a) == if a == k {
            e
        } else {
            entry_at(m, a)
        },
{
}

/// The view that a precompile gets of the machine: registers, memory, the
/// current shard and the clock.
pub struct PrecompileRuntime {
    pub registers: [u32; 32],
    pub memory: HashMap<u32, MemoryEntry>,
    pub shard: u32,
    pub clk: u32,
}

impl PrecompileRuntime {
    /// A runtime with zeroed registers and empty memory.
    pub fn new(shard: u32, clk: u32) -> (r: PrecompileRuntime)
        ensures
            forall|i: int| 0 <= i < 32 ==> #[trigger] r.registers[i] == 0,
            r.memory@ == Map::<u32, MemoryEntry>::empty(),
            r.shard == shard,
            r.clk == clk,
    {
        PrecompileRuntime { registers: [0u32; 32], memory: HashMap::new(), shard, clk }
    }

    /// The pointer that a precompile takes in `x10`.
    pub open spec fn arg_ptr(&self) -> u32 {
        self.registers[REGISTER_X10 as int]
    }

    /// The value of register `r`, read without an access record.
    pub fn register_unsafe(&self, r: usize) -> (v: u32)
        requires
            r < 32,
        ensures
            v == self.registers[r as int],
    {
        self.registers[r]
    }

    /// Sets register `r` without an access record.
    pub fn set_register(&mut self, r: usize, v: u32)
        requires
            r < 32,
        ensures
            final(self).registers[r as int] == v,
            forall|i: int| 0 <= i < 32 && i != r ==> #[trigger] final(self).registers[i]
                == old(self).registers[i],
            final(self).memory@ == old(self).memory@,
            final(self).shard == old(self).shard,
            final(self).clk == old(self).clk,
    {
        self.registers[r] = v;
    }

    /// The value at `addr`, read without an access record.
    pub fn word(&self, addr: u32) -> (v: u32)
        ensures
            v == entry_at(self.memory@, addr).value,
    {
        match self.memory.get(&addr) {
            Some(e) => e.value,
            None => 0,
        }
    }

    /// Sets the value at `addr` without an access record, as the initial image does.
    pub fn init_word(&mut self, addr: u32, value: u32)
        ensures
            final(self).memory@ == old(self).memory@.insert(
                addr,
                MemoryEntry { value, shard: 0, timestamp: 0 },
            ),
            final(self).registers == old(self).registers,
            final(self).shard == old(self).shard,
            final(self).clk == old(self).clk,
    {
        self.memory.insert(addr, MemoryEntry { value, shard: 0, timestamp: 0 });
    }

    /// Reads the aligned word at `addr` at the current clock.
    pub fn mr(&mut self, addr: u32) -> (r: (MemoryReadRecord, u32))
        requires
            addr % 4 == 0,
        ensures
            ({
                let prev = entry_at(old(self).memory@, addr);
                &&& r.1 == prev.value
                &&& r.0 == MemoryReadRecord {
                    value: prev.value,
                    shard: old(self).shard,
                    timestamp: old(self).clk,
                    prev_shard: prev.shard,
                    prev_timestamp: prev.timestamp,
                }
                &&& final(self).memory@ == old(self).memory@.insert(
                    addr,
                    MemoryEntry { value: prev.value, shard: old(self).shard, timestamp: old(self).clk },
                )
            }),
            final(self).registers == old(self).registers,
            final(self).shard == old(self).shard,
            final(self).clk == old(self).clk,
    {
        let prev = match self.memory.get(&addr) {
            Some(e) => *e,
            None => MemoryEntry { value: 0, shard: 0, timestamp: 0 },
        };
        self.memory.insert(addr, MemoryEntry { value: prev.value, shard: self.shard, timestamp: self.clk });
        (
            MemoryReadRecord {
                value: prev.value,
                shard: self.shard,
                timestamp: self.clk,
                prev_shard: prev.shard,
                prev_timestamp: prev.timestamp,
            },
            prev.value,
        )
    }

    /// Writes `value` to the aligned word at `addr` at the current clock.
    pub fn mw(&mut self, addr: u32, value: u32) -> (r: MemoryWriteRecord)
        requires
            addr % 4 == 0,
        ensures
            ({
                let prev = entry_at(old(self).memory@, addr);
                &&& r == MemoryWriteRecord {
                    value,
                    shard: old(self).shard,
                    timestamp: old(self).clk,
                    prev_value: prev.value,
                    prev_shard: prev.shard,
                    prev_timestamp: prev.timestamp,
                }
                &&& final(self).memory@ == old(self).memory@.insert(
                    addr,
                    MemoryEntry { value, shard: old(self).shard, timestamp: old(self).clk },
                )
            }),
            final(self).registers == old(self).registers,
            final(self).shard == old(self).shard,
            final(self).clk == old(self).clk,
    {
        let prev = match self.memory.get(&addr) {
            Some(e) => *e,
            None => MemoryEntry { value: 0, shard: 0, timestamp: 0 },
        };
        self.memory.insert(addr, MemoryEntry { value, shard: self.shard, timestamp: self.clk });
        MemoryWriteRecord {
            value,
            shard: self.shard,
            timestamp: self.clk,
            prev_value: prev.value,
            prev_shard: prev.shard,
            prev_timestamp: prev.timestamp,
        }
    }
}

} // verus!
