use vstd::prelude::*;
use crate::field::{P, add_mod, add_spec, exp_u64, is_canonical, pow_spec};
use crate::mds::{all_canonical, external_linear, external_linear_permute_mut, ints};
use crate::runtime::{
    MemoryEntry, MemoryReadRecord, MemoryWriteRecord, PrecompileRuntime, REGISTER_X10, entry_at,
    lemma_entry_at_insert,
};

verus! {

broadcast use lemma_entry_at_insert;

/// The S-box exponent: `x -> x^7` is a permutation of Baby Bear.
pub const SBOX_EXPONENT: u64 = 7;

/// One external round: add the round constants, apply the S-box, then the
/// linear layer.
pub open spec fn external_round(state: Seq<int>, rc: Seq<int>) -> Seq<int> {
    external_linear(
        Seq::new(
            state.len(),
            |i: int| pow_spec(add_spec(state[i], rc[i]), SBOX_EXPONENT as nat),
        ),
    )
}

/// The state after the first `n` rounds of `rcs`.
pub open spec fn external_rounds(state: Seq<int>, rcs: Seq<Seq<int>>, n: nat) -> Seq<int>
    decreases n,
{
    if n == 0 {
        state
    } else {
        external_round(external_rounds(state, rcs, (n - 1) as nat), rcs[n - 1])
    }
}

/// The address of lane `i` of a state at `ptr`.
pub open spec fn lane_addr(ptr: u32, i: int) -> u32 {
    (ptr + 4 * i) as u32
}

/// The `width` lanes of a state at `ptr` in memory `m`.
pub open spec fn state_at(m: Map<u32, MemoryEntry>, ptr: u32, width: nat) -> Seq<int> {
    Seq::new(width, |i: int| entry_at(m, lane_addr(ptr, i)).value as int)
}

/// The accesses to lane `i` form one chain across the rounds: each round's
/// write follows its read, each read follows the previous round's write, and
/// the first read follows what memory `m0` held at the lane. Every access is in
/// `shard`; a read returns the value that the access before it left.
pub open spec fn lane_chain(
    m0: Map<u32, MemoryEntry>,
    ptr: u32,
    shard: u32,
    reads: Seq<Vec<MemoryReadRecord>>,
    writes: Seq<Vec<MemoryWriteRecord>>,
    k: int,
    i: int,
) -> bool {
    let prev = entry_at(m0, lane_addr(ptr, i));
    &&& reads[k]@[i].shard == shard
    &&& writes[k]@[i].shard == shard
    &&& writes[k]@[i].prev_value == reads[k]@[i].value
    &&& writes[k]@[i].prev_shard == reads[k]@[i].shard
    &&& writes[k]@[i].prev_timestamp == reads[k]@[i].timestamp
    &&& k == 0 ==> {
        &&& reads[k]@[i].value == prev.value
        &&& reads[k]@[i].prev_shard == prev.shard
        &&& reads[k]@[i].prev_timestamp == prev.timestamp
    }
    &&& k > 0 ==> {
        &&& reads[k]@[i].value == writes[k - 1]@[i].value
        &&& reads[k]@[i].prev_shard == writes[k - 1]@[i].shard
        &&& reads[k]@[i].prev_timestamp == writes[k - 1]@[i].timestamp
    }
}

/// Round `k`'s records of lane `i` hold the lane's value before and after
/// the round, at the clock of each access: `8 w` per round, the reads first.
pub open spec fn lane_records(
    init: Seq<int>,
    rcs: Seq<Seq<int>>,
    clk0: int,
    w: int,
    reads: Seq<Vec<MemoryReadRecord>>,
    writes: Seq<Vec<MemoryWriteRecord>>,
    k: int,
    i: int,
) -> bool {
    &&& reads[k]@.len() == w
    &&& writes[k]@.len() == w
    &&& reads[k]@[i].value as int == external_rounds(init, rcs, k as nat)[i]
    &&& reads[k]@[i].timestamp == clk0 + 8 * w * k + 4 * i
    &&& writes[k]@[i].value as int == external_rounds(init, rcs, (k + 1) as nat)[i]
    &&& writes[k]@[i].timestamp == clk0 + 8 * w * k + 4 * w + 4 * i
}

/// Two invocations from the same state report the same records: every access
/// of every lane and round has the same value, shard and clock, and so has the
/// access before it.
pub proof fn lemma_records_deterministic(
    chip: &Poseidon2External1Chip,
    m0: Map<u32, MemoryEntry>,
    ptr: u32,
    shard: u32,
    clk0: int,
    reads1: Seq<Vec<MemoryReadRecord>>,
    writes1: Seq<Vec<MemoryWriteRecord>>,
    reads2: Seq<Vec<MemoryReadRecord>>,
    writes2: Seq<Vec<MemoryWriteRecord>>,
)
    requires
        chip.wf(),
        reads1.len() == chip.round_constants@.len(),
        writes1.len() == chip.round_constants@.len(),
        reads2.len() == chip.round_constants@.len(),
        writes2.len() == chip.round_constants@.len(),
        forall|k: int, i: int|
            0 <= k < chip.round_constants@.len() && 0 <= i < chip.width ==> #[trigger] lane_records(
                state_at(m0, ptr, chip.width as nat),
                chip.rcs(),
                clk0,
                chip.width as int,
                reads1,
                writes1,
                k,
                i,
            ),
        forall|k: int, i: int|
            0 <= k < chip.round_constants@.len() && 0 <= i < chip.width ==> #[trigger] lane_records(
                state_at(m0, ptr, chip.width as nat),
                chip.rcs(),
                clk0,
                chip.width as int,
                reads2,
                writes2,
                k,
                i,
            ),
        forall|k: int, i: int|
            0 <= k < chip.round_constants@.len() && 0 <= i < chip.width ==> #[trigger] lane_chain(
                m0,
                ptr,
                shard,
                reads1,
                writes1,
                k,
                i,
            ),
        forall|k: int, i: int|
            0 <= k < chip.round_constants@.len() && 0 <= i < chip.width ==> #[trigger] lane_chain(
                m0,
                ptr,
                shard,
                reads2,
                writes2,
                k,
                i,
            ),
    ensures
        forall|k: int, i: int|
            0 <= k < chip.round_constants@.len() && 0 <= i < chip.width ==> #[trigger] reads1[k]@[i]
                == reads2[k]@[i],
        forall|k: int, i: int|
            0 <= k < chip.round_constants@.len() && 0 <= i < chip.width ==> #[trigger] writes1[k]@[i]
                == writes2[k]@[i],
{
    let init = state_at(m0, ptr, chip.width as nat);
    let w = chip.width as int;
    assert forall|k: int, i: int|
        0 <= k < chip.round_constants@.len() && 0 <= i < chip.width implies #[trigger] reads1[k]@[i]
            == reads2[k]@[i] && writes1[k]@[i] == writes2[k]@[i] by {
        assert(lane_records(init, chip.rcs(), clk0, w, reads1, writes1, k, i));
        assert(lane_records(init, chip.rcs(), clk0, w, reads2, writes2, k, i));
        assert(lane_chain(m0, ptr, shard, reads1, writes1, k, i));
        assert(lane_chain(m0, ptr, shard, reads2, writes2, k, i));
        if k > 0 {
            assert(lane_records(init, chip.rcs(), clk0, w, reads1, writes1, k - 1, i));
            assert(lane_records(init, chip.rcs(), clk0, w, reads2, writes2, k - 1, i));
            assert(lane_chain(m0, ptr, shard, reads1, writes1, k - 1, i));
            assert(lane_chain(m0, ptr, shard, reads2, writes2, k - 1, i));
        }
        lemma_lane_deterministic(
            init,
            chip.rcs(),
            clk0,
            w,
            m0,
            ptr,
            shard,
            reads1,
            writes1,
            reads2,
            writes2,
            k,
            i,
        );
    }
    assert forall|k: int, i: int|
        0 <= k < chip.round_constants@.len() && 0 <= i < chip.width implies #[trigger] writes1[k]@[i]
            == writes2[k]@[i] by {
        assert(reads1[k]@[i] == reads2[k]@[i]);
    }
}

proof fn lemma_lane_deterministic(
    init: Seq<int>,
    rcs: Seq<Seq<int>>,
    clk0: int,
    w: int,
    m0: Map<u32, MemoryEntry>,
    ptr: u32,
    shard: u32,
    reads1: Seq<Vec<MemoryReadRecord>>,
    writes1: Seq<Vec<MemoryWriteRecord>>,
    reads2: Seq<Vec<MemoryReadRecord>>,
    writes2: Seq<Vec<MemoryWriteRecord>>,
    k: int,
    i: int,
)
    requires
        0 <= k < reads1.len(),
        0 <= k < reads2.len(),
        0 <= k < writes1.len(),
        0 <= k < writes2.len(),
        0 <= i < w,
        lane_records(init, rcs, clk0, w, reads1, writes1, k, i),
        lane_records(init, rcs, clk0, w, reads2, writes2, k, i),
        lane_chain(m0, ptr, shard, reads1, writes1, k, i),
        lane_chain(m0, ptr, shard, reads2, writes2, k, i),
        k > 0 ==> lane_records(init, rcs, clk0, w, reads1, writes1, k - 1, i),
        k > 0 ==> lane_records(init, rcs, clk0, w, reads2, writes2, k - 1, i),
        k > 0 ==> lane_chain(m0, ptr, shard, reads1, writes1, k - 1, i),
        k > 0 ==> lane_chain(m0, ptr, shard, reads2, writes2, k - 1, i),
    ensures
        reads1[k]@[i] == reads2[k]@[i],
        writes1[k]@[i] == writes2[k]@[i],
{
}

/// Why a precompile invocation is refused.
#[derive(Clone, Copy, Debug, PartialEq, Eq, Structural)]
pub enum PrecompileFault {
    /// The chip's width or round constants are malformed.
    MalformedChip,
    /// The state pointer is not word aligned.
    MisalignedPointer,
    /// The state runs past the end of the address space.
    StateOutOfRange,
    /// The clock would overflow during the invocation.
    ClockOverflow,
    /// A lane of the state is not a canonical field element.
    NonCanonicalState,
}

/// Every lane of the state at `ptr` is a canonical field element.
pub open spec fn state_canonical(m: Map<u32, MemoryEntry>, ptr: u32, width: int) -> bool {
    forall|i: int| 0 <= i < width ==> is_canonical(#[trigger] entry_at(m, lane_addr(ptr, i)).value)
}

/// The event of one invocation: the clock and pointer it started with, and the
/// records of each round's reads and writes, lane by lane.
pub struct Poseidon2ExternalEvent {
    pub clk: u32,
    pub state_ptr: u32,
    pub state_reads: Vec<Vec<MemoryReadRecord>>,
    pub state_writes: Vec<Vec<MemoryWriteRecord>>,
}

/// The precompile for the first external rounds of Poseidon2, on a state of
/// `width` lanes with one row of round constants per round.
pub struct Poseidon2External1Chip {
    pub width: usize,
    pub round_constants: Vec<Vec<u32>>,
}

proof fn lemma_round_clk(w: int, r: int, n: int)
    requires
        0 <= w,
        0 <= r < n,
    ensures
        8 * w * (r + 1) == 8 * w * r + 8 * w,
        8 * w * r + 8 * w <= 8 * w * n,
        0 <= 8 * w * r,
{
    assert(8 * w * (r + 1) == 8 * w * r + 8 * w) by (nonlinear_arith);
    assert(8 * w * (r + 1) <= 8 * w * n) by (nonlinear_arith)
        requires
            0 <= w,
            r + 1 <= n,
    ;
    assert(0 <= 8 * w * r) by (nonlinear_arith)
        requires
            0 <= w,
            0 <= r,
    ;
}

impl Poseidon2External1Chip {
    /// The width is a positive multiple of four, every row of round constants
    /// has one canonical element per lane.
    pub open spec fn wf(&self) -> bool {
        &&& self.width % 4 == 0
        &&& 0 < self.width < 0x1000_0000
        &&& forall|r: int|
            0 <= r < self.round_constants@.len() ==> {
                &&& (#[trigger] self.round_constants@[r])@.len() == self.width
                &&& all_canonical(self.round_constants@[r]@)
            }
    }

    /// The round constants as integers.
    pub open spec fn rcs(&self) -> Seq<Seq<int>> {
        Seq::new(self.round_constants@.len(), |r: int| ints(self.round_constants@[r]@))
    }

    pub fn new(width: usize, round_constants: Vec<Vec<u32>>) -> (r: Poseidon2External1Chip)
        ensures
            r.width == width,
            r.round_constants@ == round_constants@,
    {
        Poseidon2External1Chip { width, round_constants }
    }

    /// Whether the chip is well formed.
    pub fn is_well_formed(&self) -> (r: bool)
        ensures
            r == self.wf(),
    {
        let width = self.width;
        if width % 4 != 0 || width == 0 || width >= 0x1000_0000 {
            return false;
        }
        let n = self.round_constants.len();
        let mut k: usize = 0;
        while k < n
            invariant
                width == self.width,
                n == self.round_constants@.len(),
                k <= n,
                forall|r: int|
                    0 <= r < k ==> {
                        &&& (#[trigger] self.round_constants@[r])@.len() == width
                        &&& all_canonical(self.round_constants@[r]@)
                    },
            decreases n - k,
        {
            let row = &self.round_constants[k];
            if row.len() != width {
                return false;
            }
            let mut i: usize = 0;
            while i < width
                invariant
                    row@.len() == width,
                    i <= width,
                    k < n,
                    n == self.round_constants@.len(),
                    *row == self.round_constants@[k as int],
                    forall|j: int| 0 <= j < i ==> is_canonical(#[trigger] row@[j]),
                decreases width - i,
            {
                if row[i] >= P {
                    proof {
                        assert(self.round_constants@[k as int]@ == row@);
                        assert(!is_canonical(row@[i as int]));
                        assert(!all_canonical(self.round_constants@[k as int]@));
                    }
                    return false;
                }
                i = i + 1;
            }
            k = k + 1;
        }
        true
    }

    /// The first condition, in this order, under which an invocation on `rt`
    /// is refused.
    pub open spec fn fault(&self, rt: &PrecompileRuntime) -> Option<PrecompileFault> {
        let ptr = rt.arg_ptr();
        if !self.wf() {
            Some(PrecompileFault::MalformedChip)
        } else if ptr % 4 != 0 {
            Some(PrecompileFault::MisalignedPointer)
        } else if ptr + 4 * self.width > 0x1_0000_0000 {
            Some(PrecompileFault::StateOutOfRange)
        } else if rt.clk + 8 * self.width * self.round_constants@.len() > 0xffff_ffff {
            Some(PrecompileFault::ClockOverflow)
        } else if !state_canonical(rt.memory@, ptr, self.width as int) {
            Some(PrecompileFault::NonCanonicalState)
        } else {
            None
        }
    }

    /// Runs the rounds as `execute` does when no fault applies; otherwise
    /// returns the fault and leaves `rt` as it was.
    pub fn try_execute(&self, rt: &mut PrecompileRuntime) -> (r: Result<
        (u32, Poseidon2ExternalEvent),
        PrecompileFault,
    >)
        ensures
            match self.fault(old(rt)) {
                Some(e) => r == Err::<(u32, Poseidon2ExternalEvent), PrecompileFault>(e) && *final(rt)
                    == *old(rt),
                None => r is Ok,
            },
            r matches Ok(v) ==> {
                &&& v.0 == old(rt).arg_ptr()
                &&& v.1.clk == old(rt).clk
                &&& final(rt).clk == old(rt).clk + 8 * self.width * self.round_constants@.len()
                &&& state_at(final(rt).memory@, old(rt).arg_ptr(), self.width as nat)
                    == external_rounds(
                    state_at(old(rt).memory@, old(rt).arg_ptr(), self.width as nat),
                    self.rcs(),
                    self.round_constants@.len() as nat,
                )
                &&& (forall|a: u32|
                    !(old(rt).arg_ptr() <= a < old(rt).arg_ptr() + 4 * self.width) ==> #[trigger] entry_at(
                        final(rt).memory@,
                        a,
                    ) == entry_at(old(rt).memory@, a))
            },
    {
        if !self.is_well_formed() {
            return Err(PrecompileFault::MalformedChip);
        }
        let ptr = rt.register_unsafe(REGISTER_X10);
        if ptr % 4 != 0 {
            return Err(PrecompileFault::MisalignedPointer);
        }
        let width = self.width;
        if ptr as u64 + 4 * (width as u64) > 0x1_0000_0000 {
            return Err(PrecompileFault::StateOutOfRange);
        }
        let n = self.round_constants.len();
        if n as u64 > 0xffff_ffff {
            proof {
                assert(8 * self.width * self.round_constants@.len() >= 32 * self.round_constants@.len())
                    by (nonlinear_arith)
                    requires
                        self.width >= 4,
                ;
            }
            return Err(PrecompileFault::ClockOverflow);
        }
        assert(8 * (width as int) * (n as int) <= 8 * 0x1000_0000 * 0xffff_ffff) by (nonlinear_arith)
            requires
                width < 0x1000_0000,
                n <= 0xffff_ffff,
        ;
        if rt.clk as u64 + 8 * (width as u64) * (n as u64) > 0xffff_ffff {
            return Err(PrecompileFault::ClockOverflow);
        }
        let mut i: usize = 0;
        while i < width
            invariant
                width == self.width,
                i <= width,
                ptr == rt.arg_ptr(),
                ptr as int + 4 * width <= 0x1_0000_0000,
                self.wf(),
                ptr % 4 == 0,
                n == self.round_constants@.len(),
                rt.clk + 8 * self.width * self.round_constants@.len() <= 0xffff_ffff,
                forall|j: int|
                    0 <= j < i ==> is_canonical(#[trigger] entry_at(rt.memory@, lane_addr(ptr, j)).value),
            decreases width - i,
        {
            let v = rt.word(ptr + 4 * (i as u32));
            assert(ptr + 4 * (i as u32) == lane_addr(ptr, i as int));
            if v >= P {
                proof {
                    assert(!is_canonical(entry_at(rt.memory@, lane_addr(ptr, i as int)).value));
                }
                return Err(PrecompileFault::NonCanonicalState);
            }
            i = i + 1;
        }
        Ok(self.execute(rt))
    }

    /// Clock cycles that one invocation takes: a read and a write per lane and round.
    pub fn num_cycles(&self) -> (r: u64)
        requires
            self.round_constants@.len() < 0x1000_0000,
            self.width < 0x1000_0000,
        ensures
            r == 8 * self.round_constants@.len() * self.width,
    {
        assert(8 * self.round_constants@.len() * self.width < 0x1_0000_0000_0000_0000) by (nonlinear_arith)
            requires
                self.round_constants@.len() < 0x1000_0000,
                self.width < 0x1000_0000,
        ;
        8 * (self.round_constants.len() as u64) * (self.width as u64)
    }

    /// One round on the state at `state_ptr`: read every lane, add the round
    /// constants, apply the S-box and the linear layer, write every lane back.
    #[verifier::rlimit(100)]
    fn execute_round(
        &self,
        rt: &mut PrecompileRuntime,
        state_ptr: u32,
        round: usize,
    ) -> (r: (Vec<MemoryReadRecord>, Vec<MemoryWriteRecord>))
        requires
            self.wf(),
            round < self.round_constants@.len(),
            state_ptr % 4 == 0,
            state_ptr + 4 * self.width <= 0x1_0000_0000,
            old(rt).clk + 8 * self.width <= 0xffff_ffff,
            forall|i: int|
                0 <= i < self.width ==> is_canonical(
                    #[trigger] entry_at(old(rt).memory@, lane_addr(state_ptr, i)).value,
                ),
        ensures
            ({
                let w = self.width as int;
                let clk0 = old(rt).clk as int;
                let cur = state_at(old(rt).memory@, state_ptr, self.width as nat);
                let next = external_round(cur, self.rcs()[round as int]);
                &&& state_at(final(rt).memory@, state_ptr, self.width as nat) == next
                &&& forall|i: int|
                    0 <= i < w ==> is_canonical(
                        #[trigger] entry_at(final(rt).memory@, lane_addr(state_ptr, i)).value,
                    )
                &&& forall|a: u32|
                    !(state_ptr <= a < state_ptr + 4 * w) ==> #[trigger] entry_at(final(rt).memory@, a)
                        == entry_at(old(rt).memory@, a)
                &&& final(rt).clk == clk0 + 8 * w
                &&& final(rt).registers == old(rt).registers
                &&& final(rt).shard == old(rt).shard
                &&& r.0@.len() == w
                &&& r.1@.len() == w
                &&& forall|i: int|
                    0 <= i < w ==> {
                        &&& (#[trigger] r.0@[i]).value as int == cur[i]
                        &&& r.0@[i].timestamp == clk0 + 4 * i
                        &&& r.1@[i].value as int == next[i]
                        &&& r.1@[i].timestamp == clk0 + 4 * w + 4 * i
                        &&& r.0@[i].value == entry_at(old(rt).memory@, lane_addr(state_ptr, i)).value
                        &&& r.0@[i].shard == old(rt).shard
                        &&& r.0@[i].prev_shard == entry_at(old(rt).memory@, lane_addr(state_ptr, i)).shard
                        &&& r.0@[i].prev_timestamp == entry_at(
                            old(rt).memory@,
                            lane_addr(state_ptr, i),
                        ).timestamp
                        &&& r.1@[i].shard == old(rt).shard
                        &&& r.1@[i].prev_value == r.0@[i].value
                        &&& r.1@[i].prev_shard == r.0@[i].shard
                        &&& r.1@[i].prev_timestamp == r.0@[i].timestamp
                        &&& entry_at(final(rt).memory@, lane_addr(state_ptr, i)) == (MemoryEntry {
                            value: r.1@[i].value,
                            shard: r.1@[i].shard,
                            timestamp: r.1@[i].timestamp,
                        })
                    }
            }),
    {
        let width = self.width;
        let ghost w = width as int;
        let ghost rcs = self.rcs();
        let ghost regs0 = rt.registers;
        let ghost shard0 = rt.shard;
        let ghost m_round = rt.memory@;
        let ghost round_clk = rt.clk as int;
        let ghost cur = state_at(m_round, state_ptr, width as nat);
        let ghost round_clk = rt.clk as int;
        let ghost m_round = rt.memory@;

        // Read the state.
        let mut reads: Vec<MemoryReadRecord> = Vec::new();
        let mut state: Vec<u32> = Vec::new();
        let mut i: usize = 0;
        while i < width
            invariant
                width == self.width,
                w == width as int,
                i <= width,
                state_ptr % 4 == 0,
                state_ptr + 4 * w <= 0x1_0000_0000,
                round_clk + 8 * w <= 0xffff_ffff,
                0 <= round_clk,
                rt.clk == round_clk + 4 * i,
                rt.registers == regs0,
                rt.shard == shard0,
                forall|a: u32| #[trigger] entry_at(rt.memory@, a).value == entry_at(m_round, a).value,
                forall|a: u32|
                    !(state_ptr <= a < state_ptr + 4 * w) ==> #[trigger] entry_at(rt.memory@, a)
                        == entry_at(m_round, a),
                cur == state_at(m_round, state_ptr, width as nat),
                forall|j: int|
                    0 <= j < w ==> is_canonical(
                        #[trigger] entry_at(m_round, lane_addr(state_ptr, j)).value,
                    ),
                state@.len() == i,
                reads@.len() == i,
                forall|j: int|
                    0 <= j < i ==> {
                        &&& #[trigger] state@[j] as int == cur[j]
                        &&& is_canonical(state@[j])
                        &&& reads@[j].value == state@[j]
                    },
                forall|j: int|
                    0 <= j < i ==> {
                        &&& (#[trigger] reads@[j]).value as int == cur[j]
                        &&& reads@[j].timestamp == round_clk + 4 * j
                        &&& reads@[j].value == entry_at(m_round, lane_addr(state_ptr, j)).value
                        &&& reads@[j].shard == shard0
                        &&& reads@[j].prev_shard == entry_at(m_round, lane_addr(state_ptr, j)).shard
                        &&& reads@[j].prev_timestamp == entry_at(
                            m_round,
                            lane_addr(state_ptr, j),
                        ).timestamp
                    },
                forall|j: int|
                    0 <= j < i ==> #[trigger] entry_at(rt.memory@, lane_addr(state_ptr, j))
                        == (MemoryEntry {
                        value: entry_at(m_round, lane_addr(state_ptr, j)).value,
                        shard: shard0,
                        timestamp: (round_clk + 4 * j) as u32,
                    }),
                forall|j: int|
                    i <= j < w ==> #[trigger] entry_at(rt.memory@, lane_addr(state_ptr, j))
                        == entry_at(m_round, lane_addr(state_ptr, j)),
            decreases width - i,
        {
            let addr = state_ptr + (i as u32) * 4;
            assert(addr == lane_addr(state_ptr, i as int));
            let (record, value) = rt.mr(addr);
            reads.push(record);
            rt.clk = rt.clk + 4;
            state.push(value);
            i = i + 1;
        }
        let ghost m_read = rt.memory@;
        assert(state_at(m_read, state_ptr, width as nat) =~= cur);

        // Add the round constants, then apply the S-box.
        let rc = &self.round_constants[round];
        let mut i: usize = 0;
        while i < width
            invariant
                width == self.width,
                w == width as int,
                i <= width,
                state@.len() == w,
                rc@.len() == w,
                all_canonical(rc@),
                rcs[round as int] == ints(rc@),
                forall|j: int| 0 <= j < w ==> is_canonical(#[trigger] state@[j]),
                forall|j: int|
                    0 <= j < i ==> #[trigger] state@[j] as int == pow_spec(
                        add_spec(cur[j], rcs[round as int][j]),
                        SBOX_EXPONENT as nat,
                    ),
                forall|j: int| i <= j < w ==> #[trigger] state@[j] as int == cur[j],
            decreases width - i,
        {
            let v = exp_u64(add_mod(state[i], rc[i]), SBOX_EXPONENT);
            state.set(i, v);
            i = i + 1;
        }
        assert(ints(state@) =~= Seq::new(
            cur.len(),
            |j: int| pow_spec(add_spec(cur[j], rcs[round as int][j]), SBOX_EXPONENT as nat),
        ));
        external_linear_permute_mut(&mut state);
        let ghost next = external_round(cur, rcs[round as int]);
        assert(ints(state@) == next);

        // Write the state.
        let mut writes: Vec<MemoryWriteRecord> = Vec::new();
        let mut i: usize = 0;
        while i < width
            invariant
                width == self.width,
                w == width as int,
                i <= width,
                state_ptr % 4 == 0,
                state_ptr + 4 * w <= 0x1_0000_0000,
                round_clk + 8 * w <= 0xffff_ffff,
                0 <= round_clk,
                rt.clk == round_clk + 4 * w + 4 * i,
                rt.registers == regs0,
                rt.shard == shard0,
                state@.len() == w,
                ints(state@) == next,
                all_canonical(state@),
                forall|a: u32|
                    !(state_ptr <= a < state_ptr + 4 * w) ==> #[trigger] entry_at(rt.memory@, a)
                        == entry_at(m_round, a),
                forall|j: int|
                    0 <= j < i ==> #[trigger] entry_at(rt.memory@, lane_addr(state_ptr, j))
                        == (MemoryEntry {
                        value: state@[j],
                        shard: shard0,
                        timestamp: (round_clk + 4 * w + 4 * j) as u32,
                    }),
                forall|j: int|
                    i <= j < w ==> #[trigger] entry_at(rt.memory@, lane_addr(state_ptr, j))
                        == (MemoryEntry {
                        value: entry_at(m_round, lane_addr(state_ptr, j)).value,
                        shard: shard0,
                        timestamp: (round_clk + 4 * j) as u32,
                    }),
                writes@.len() == i,
                forall|j: int|
                    0 <= j < i ==> {
                        &&& (#[trigger] writes@[j]).value == state@[j]
                        &&& writes@[j].timestamp == round_clk + 4 * w + 4 * j
                        &&& writes@[j].shard == shard0
                        &&& writes@[j].prev_value == entry_at(m_round, lane_addr(state_ptr, j)).value
                        &&& writes@[j].prev_shard == shard0
                        &&& writes@[j].prev_timestamp == round_clk + 4 * j
                    },
            decreases width - i,
        {
            let addr = state_ptr.wrapping_add((i as u32) * 4);
            assert(addr == lane_addr(state_ptr, i as int));
            assert(entry_at(rt.memory@, lane_addr(state_ptr, i as int)) == (MemoryEntry {
                value: entry_at(m_round, lane_addr(state_ptr, i as int)).value,
                shard: shard0,
                timestamp: (round_clk + 4 * i) as u32,
            }));
            let record = rt.mw(addr, state[i]);
            writes.push(record);
            proof {
                assert(writes@[i as int] == record);
                assert(record.prev_timestamp as int == round_clk + 4 * i);
                assert(record.prev_value == entry_at(m_round, lane_addr(state_ptr, i as int)).value);
            }
            rt.clk = rt.clk + 4;
            i = i + 1;
        }
        assert(state_at(rt.memory@, state_ptr, width as nat) =~= next);
        proof {
            assert forall|i: int| 0 <= i < w implies is_canonical(
                #[trigger] entry_at(rt.memory@, lane_addr(state_ptr, i)).value,
            ) by {
                assert(entry_at(rt.memory@, lane_addr(state_ptr, i)).value == state@[i]);
            }
            assert forall|i: int| 0 <= i < w implies writes@[i].value as int == next[i] by {
                assert(ints(state@)[i] == state@[i] as int);
            }
            assert forall|i: int| 0 <= i < w implies writes@[i].prev_value == reads@[i].value by {
                assert(reads@[i].value == entry_at(m_round, lane_addr(state_ptr, i)).value);
            }
        }
        (reads, writes)
    }

    /// Runs the rounds on the state that `x10` points to: each round reads every
    /// lane, adds the round constants, applies the S-box and the linear layer,
    /// and writes every lane back; the clock advances by 4 per access.
    #[verifier::rlimit(100)]
    pub fn execute(&self, rt: &mut PrecompileRuntime) -> (r: (u32, Poseidon2ExternalEvent))
        requires
            self.wf(),
            old(rt).arg_ptr() % 4 == 0,
            old(rt).arg_ptr() + 4 * self.width <= 0x1_0000_0000,
            old(rt).clk + 8 * self.width * self.round_constants@.len() <= 0xffff_ffff,
            forall|i: int|
                0 <= i < self.width ==> is_canonical(
                    #[trigger] entry_at(
                        old(rt).memory@,
                        lane_addr(old(rt).arg_ptr(), i),
                    ).value,
                ),
        ensures
            r.0 == old(rt).arg_ptr(),
            r.1.clk == old(rt).clk,
            r.1.state_ptr == old(rt).arg_ptr(),
            final(rt).clk == old(rt).clk + 8 * self.width * self.round_constants@.len(),
            final(rt).registers == old(rt).registers,
            final(rt).shard == old(rt).shard,
            state_at(final(rt).memory@, old(rt).arg_ptr(), self.width as nat)
                == external_rounds(state_at(old(rt).memory@, old(rt).arg_ptr(), self.width as nat), self.rcs(), self.round_constants@.len() as nat),
            (forall|a: u32|
                !(old(rt).arg_ptr() <= a < old(rt).arg_ptr() + 4 * self.width) ==> #[trigger] entry_at(final(rt).memory@, a)
                    == entry_at(old(rt).memory@, a)),
            r.1.state_reads@.len() == self.round_constants@.len(),
            r.1.state_writes@.len() == self.round_constants@.len(),
            (forall|k: int, i: int|
                0 <= k < self.round_constants@.len() && 0 <= i < self.width ==> #[trigger] lane_chain(
                    old(rt).memory@,
                    old(rt).arg_ptr(),
                    old(rt).shard,
                    r.1.state_reads@,
                    r.1.state_writes@,
                    k,
                    i,
                )),
            (self.round_constants@.len() > 0 ==> forall|i: int|
                0 <= i < self.width ==> #[trigger] entry_at(final(rt).memory@, lane_addr(old(rt).arg_ptr(), i)) == (
                MemoryEntry {
                    value: r.1.state_writes@[self.round_constants@.len() - 1]@[i].value,
                    shard: r.1.state_writes@[self.round_constants@.len() - 1]@[i].shard,
                    timestamp: r.1.state_writes@[self.round_constants@.len() - 1]@[i].timestamp,
                })),
            forall|k: int, i: int|
                0 <= k < self.round_constants@.len() && 0 <= i < self.width ==> #[trigger] lane_records(
                    state_at(old(rt).memory@, old(rt).arg_ptr(), self.width as nat),
                    self.rcs(),
                    old(rt).clk as int,
                    self.width as int,
                    r.1.state_reads@,
                    r.1.state_writes@,
                    k,
                    i,
                ),
    {
        let state_ptr = rt.register_unsafe(REGISTER_X10);
        let saved_clk = rt.clk;
        let width = self.width;
        let n = self.round_constants.len();
        let ghost m0 = rt.memory@;
        let ghost w = width as int;
        let ghost init = state_at(m0, state_ptr, width as nat);
        let ghost rcs = self.rcs();
        let mut state_reads: Vec<Vec<MemoryReadRecord>> = Vec::new();
        let mut state_writes: Vec<Vec<MemoryWriteRecord>> = Vec::new();
        let mut round: usize = 0;
        while round < n
            invariant
                self.wf(),
                width == self.width,
                w == width as int,
                n == self.round_constants@.len(),
                rcs == self.rcs(),
                round <= n,
                state_ptr % 4 == 0,
                state_ptr + 4 * w <= 0x1_0000_0000,
                saved_clk + 8 * w * n <= 0xffff_ffff,
                rt.clk == saved_clk + 8 * w * round,
                rt.registers == old(rt).registers,
                rt.shard == old(rt).shard,
                state_ptr == old(rt).arg_ptr(),
                saved_clk == old(rt).clk,
                m0 == old(rt).memory@,
                init == state_at(m0, state_ptr, width as nat),
                state_at(rt.memory@, state_ptr, width as nat) == external_rounds(init, rcs, round as nat),
                forall|i: int|
                    0 <= i < w ==> is_canonical(
                        #[trigger] entry_at(rt.memory@, lane_addr(state_ptr, i)).value,
                    ),
                forall|a: u32|
                    !(state_ptr <= a < state_ptr + 4 * w) ==> #[trigger] entry_at(rt.memory@, a)
                        == entry_at(m0, a),
                state_reads@.len() == round,
                state_writes@.len() == round,
                round == 0 ==> rt.memory@ == m0,
                forall|k: int, i: int|
                    0 <= k < round && 0 <= i < w ==> #[trigger] lane_chain(
                        m0,
                        state_ptr,
                        rt.shard,
                        state_reads@,
                        state_writes@,
                        k,
                        i,
                    ),
                round > 0 ==> forall|i: int|
                    0 <= i < w ==> #[trigger] entry_at(rt.memory@, lane_addr(state_ptr, i)) == (
                    MemoryEntry {
                        value: state_writes@[round - 1]@[i].value,
                        shard: state_writes@[round - 1]@[i].shard,
                        timestamp: state_writes@[round - 1]@[i].timestamp,
                    }),
                forall|k: int, i: int|
                    0 <= k < round && 0 <= i < w ==> #[trigger] lane_records(
                        init,
                        rcs,
                        saved_clk as int,
                        w,
                        state_reads@,
                        state_writes@,
                        k,
                        i,
                    ),
            decreases n - round,
        {
            proof {
                lemma_round_clk(w, round as int, n as int);
            }
            let ghost old_mem = rt.memory@;
            let (reads, writes) = self.execute_round(rt, state_ptr, round);
            let ghost reads_v = reads@;
            let ghost writes_v = writes@;
            let ghost old_reads = state_reads@;
            let ghost old_writes = state_writes@;
            state_reads.push(reads);
            state_writes.push(writes);
            proof {
                assert forall|k: int, i: int| 0 <= k < round + 1 && 0 <= i < w implies #[trigger] lane_records(
                    init,
                    rcs,
                    saved_clk as int,
                    w,
                    state_reads@,
                    state_writes@,
                    k,
                    i,
                ) by {
                    if k < round {
                        assert(lane_records(init, rcs, saved_clk as int, w, old_reads, old_writes, k, i));
                        assert(state_reads@[k] == old_reads[k]);
                        assert(state_writes@[k] == old_writes[k]);
                    } else {
                        assert(state_reads@[k]@ == reads_v);
                        assert(state_writes@[k]@ == writes_v);
                        assert(reads_v[i].shard == rt.shard);
                    }
                }
                assert forall|k: int, i: int| 0 <= k < round + 1 && 0 <= i < w implies #[trigger] lane_chain(
                    m0,
                    state_ptr,
                    rt.shard,
                    state_reads@,
                    state_writes@,
                    k,
                    i,
                ) by {
                    if k < round {
                        assert(lane_chain(m0, state_ptr, rt.shard, old_reads, old_writes, k, i));
                        assert(state_reads@[k] == old_reads[k]);
                        assert(state_writes@[k] == old_writes[k]);
                        if k > 0 {
                            assert(state_writes@[k - 1] == old_writes[k - 1]);
                        }
                    } else {
                        assert(state_reads@[k]@ == reads_v);
                        assert(state_writes@[k]@ == writes_v);
                        assert(reads_v[i].shard == rt.shard);
                        if k > 0 {
                            assert(state_writes@[k - 1] == old_writes[k - 1]);
                            assert(entry_at(old_mem, lane_addr(state_ptr, i)) == (MemoryEntry {
                                value: old_writes[k - 1]@[i].value,
                                shard: old_writes[k - 1]@[i].shard,
                                timestamp: old_writes[k - 1]@[i].timestamp,
                            }));
                        }
                    }
                }
                assert forall|i: int| 0 <= i < w implies #[trigger] entry_at(
                    rt.memory@,
                    lane_addr(state_ptr, i),
                ) == (MemoryEntry {
                    value: state_writes@[round as int]@[i].value,
                    shard: state_writes@[round as int]@[i].shard,
                    timestamp: state_writes@[round as int]@[i].timestamp,
                }) by {
                    assert(state_writes@[round as int]@ == writes_v);
                    assert(reads_v[i].shard == rt.shard);
                }
            }
            round = round + 1;
        }
        proof {
            assert forall|k: int, i: int| 0 <= k < n && 0 <= i < w implies #[trigger] lane_chain(
                old(rt).memory@,
                state_ptr,
                old(rt).shard,
                state_reads@,
                state_writes@,
                k,
                i,
            ) by {
                assert(lane_chain(m0, state_ptr, rt.shard, state_reads@, state_writes@, k, i));
            }
            assert forall|k: int, i: int|
                0 <= k < n && 0 <= i < w implies #[trigger] lane_records(
                init,
                self.rcs(),
                old(rt).clk as int,
                self.width as int,
                state_reads@,
                state_writes@,
                k,
                i,
            ) by {
                assert(lane_records(init, rcs, saved_clk as int, w, state_reads@, state_writes@, k, i));
            }
        }
        let event = Poseidon2ExternalEvent { clk: saved_clk, state_ptr, state_reads, state_writes };
        proof {
            assert(event.state_reads@ == state_reads@);
            assert(event.state_writes@ == state_writes@);
        }
        (state_ptr, event)
    }
}

} // verus!
