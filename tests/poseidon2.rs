use succinct_core::field::P;
use succinct_core::mds::external_linear_permute_mut;
use succinct_core::poseidon2::{Poseidon2External1Chip, PrecompileFault};
use succinct_core::runtime::{PrecompileRuntime, REGISTER_X10};

const WIDTH: usize = 16;
const ROUNDS: usize = 4;

fn constants() -> Vec<Vec<u32>> {
    (0..ROUNDS).map(|r| (0..WIDTH).map(|i| (1000 * r + 17 * i + 3) as u32).collect()).collect()
}

fn pow7(x: u64) -> u64 {
    let p = P as u64;
    let mut acc = 1u64;
    for _ in 0..7 {
        acc = acc * x % p;
    }
    acc
}

fn linear(x: &[u64]) -> Vec<u64> {
    let p = P as u64;
    let m4 = [[5, 7, 1, 3], [4, 6, 1, 1], [1, 3, 5, 7], [1, 1, 4, 6]];
    let mut y = vec![0u64; x.len()];
    for c in 0..x.len() / 4 {
        for r in 0..4 {
            let mut s = 0u64;
            for k in 0..4 {
                s += m4[r][k] * x[4 * c + k];
            }
            y[4 * c + r] = s % p;
        }
    }
    let mut sums = [0u64; 4];
    for i in 0..y.len() {
        sums[i % 4] = (sums[i % 4] + y[i]) % p;
    }
    (0..y.len()).map(|i| (y[i] + sums[i % 4]) % p).collect()
}

fn reference(init: &[u64], rcs: &[Vec<u32>]) -> Vec<Vec<u64>> {
    let p = P as u64;
    let mut states = vec![init.to_vec()];
    for rc in rcs {
        let cur = states.last().unwrap();
        let s: Vec<u64> = (0..cur.len()).map(|i| pow7((cur[i] + rc[i] as u64) % p)).collect();
        states.push(linear(&s));
    }
    states
}

#[test]
fn linear_layer_on_one_chunk() {
    let mut s = vec![1, 0, 0, 0];
    external_linear_permute_mut(&mut s);
    assert_eq!(s, vec![10, 8, 2, 2]);
}

#[test]
fn linear_layer_matches_reference() {
    let mut s: Vec<u32> = (0..16).map(|i| i * 12345 + P - 20).map(|v| v % P).collect();
    let x: Vec<u64> = s.iter().map(|&v| v as u64).collect();
    external_linear_permute_mut(&mut s);
    let expected: Vec<u32> = linear(&x).iter().map(|&v| v as u32).collect();
    assert_eq!(s, expected);
}

#[test]
fn external_round_precompile() {
    let chip = Poseidon2External1Chip::new(WIDTH, constants());
    assert_eq!(chip.num_cycles(), (8 * ROUNDS * WIDTH) as u64);
    let mut rt = PrecompileRuntime::new(1, 100);
    for i in 0..WIDTH as u32 {
        rt.init_word(0x2000 + 4 * i, i);
    }
    rt.set_register(REGISTER_X10, 0x2000);
    let (ptr, event) = chip.execute(&mut rt);
    assert_eq!(ptr, 0x2000);
    assert_eq!(event.state_ptr, 0x2000);
    assert_eq!(event.clk, 100);
    assert_eq!(rt.clk, 100 + (8 * ROUNDS * WIDTH) as u32);
    assert_eq!(event.state_reads.len(), ROUNDS);
    assert_eq!(event.state_writes.len(), ROUNDS);
    let n_reads: usize = event.state_reads.iter().map(|r| r.len()).sum();
    let n_writes: usize = event.state_writes.iter().map(|r| r.len()).sum();
    assert_eq!(n_reads, 16 * ROUNDS);
    assert_eq!(n_writes, 16 * ROUNDS);

    let init: Vec<u64> = (0..WIDTH as u64).collect();
    let states = reference(&init, &constants());
    for i in 0..WIDTH {
        assert_eq!(rt.word(0x2000 + 4 * i as u32) as u64, states[ROUNDS][i]);
    }
    for r in 0..ROUNDS {
        for i in 0..WIDTH {
            assert_eq!(event.state_reads[r][i].value as u64, states[r][i]);
            assert_eq!(event.state_reads[r][i].timestamp, 100 + (8 * WIDTH * r + 4 * i) as u32);
            assert_eq!(event.state_writes[r][i].value as u64, states[r + 1][i]);
            assert_eq!(event.state_writes[r][i].timestamp, 100 + (8 * WIDTH * r + 4 * WIDTH + 4 * i) as u32);
        }
    }
    // Each lane's accesses chain: a write follows its read, a read follows the
    // previous round's write, and the first read follows the initial image.
    for i in 0..WIDTH {
        assert_eq!(event.state_reads[0][i].prev_shard, 0);
        assert_eq!(event.state_reads[0][i].prev_timestamp, 0);
        for r in 0..ROUNDS {
            let (rd, wr) = (event.state_reads[r][i], event.state_writes[r][i]);
            assert_eq!(rd.shard, 1);
            assert_eq!(wr.shard, 1);
            assert_eq!(wr.prev_value, rd.value);
            assert_eq!(wr.prev_timestamp, rd.timestamp);
            if r > 0 {
                let before = event.state_writes[r - 1][i];
                assert_eq!(rd.value, before.value);
                assert_eq!(rd.prev_timestamp, before.timestamp);
            }
        }
    }
    // Words next to the state are untouched.
    assert_eq!(rt.word(0x2000 - 4), 0);
    assert_eq!(rt.word(0x2000 + 4 * WIDTH as u32), 0);
}

#[test]
fn two_runs_report_the_same_records() {
    let chip = Poseidon2External1Chip::new(WIDTH, constants());
    let run = || {
        let mut rt = PrecompileRuntime::new(3, 400);
        for i in 0..WIDTH as u32 {
            rt.init_word(0x2000 + 4 * i, 7 * i + 1);
        }
        rt.set_register(REGISTER_X10, 0x2000);
        let (_, event) = chip.execute(&mut rt);
        let mut flat = Vec::new();
        for r in 0..ROUNDS {
            for i in 0..WIDTH {
                let (rd, wr) = (event.state_reads[r][i], event.state_writes[r][i]);
                flat.push((rd.value, rd.shard, rd.timestamp, rd.prev_shard, rd.prev_timestamp));
                flat.push((wr.value, wr.shard, wr.timestamp, wr.prev_value, wr.prev_timestamp));
            }
        }
        let words: Vec<u32> = (0..WIDTH as u32).map(|i| rt.word(0x2000 + 4 * i)).collect();
        (flat, words)
    };
    assert_eq!(run(), run());
}

fn prepared(ptr: u32, clk: u32) -> PrecompileRuntime {
    let mut rt = PrecompileRuntime::new(1, clk);
    for i in 0..WIDTH as u32 {
        rt.init_word(ptr.wrapping_add(4 * i), i);
    }
    rt.set_register(REGISTER_X10, ptr);
    rt
}

#[test]
fn well_formed_chip() {
    assert!(Poseidon2External1Chip::new(WIDTH, constants()).is_well_formed());
    assert!(!Poseidon2External1Chip::new(6, vec![vec![0; 6]]).is_well_formed());
    assert!(!Poseidon2External1Chip::new(4, vec![vec![0; 4], vec![0; 3]]).is_well_formed());
    assert!(!Poseidon2External1Chip::new(4, vec![vec![0, 0, P, 0]]).is_well_formed());
}

#[test]
fn try_execute_runs_when_no_fault_applies() {
    let chip = Poseidon2External1Chip::new(WIDTH, constants());
    let mut a = prepared(0x2000, 100);
    let mut b = prepared(0x2000, 100);
    let (ptr, event) = chip.try_execute(&mut a).unwrap();
    let (ptr2, event2) = chip.execute(&mut b);
    assert_eq!(ptr, ptr2);
    assert_eq!(event.clk, event2.clk);
    assert_eq!(a.clk, b.clk);
    for i in 0..WIDTH as u32 {
        assert_eq!(a.word(0x2000 + 4 * i), b.word(0x2000 + 4 * i));
    }
}

#[test]
fn try_execute_rejects_malformed_chip() {
    let chip = Poseidon2External1Chip::new(WIDTH, vec![vec![1; WIDTH - 1]]);
    let mut rt = prepared(0x2000, 100);
    assert_eq!(chip.try_execute(&mut rt).err(), Some(PrecompileFault::MalformedChip));
    assert_eq!(rt.clk, 100);
}

#[test]
fn try_execute_rejects_misaligned_pointer() {
    let chip = Poseidon2External1Chip::new(WIDTH, constants());
    let mut rt = prepared(0x2002, 100);
    assert_eq!(chip.try_execute(&mut rt).err(), Some(PrecompileFault::MisalignedPointer));
}

#[test]
fn try_execute_rejects_state_past_address_space() {
    let chip = Poseidon2External1Chip::new(WIDTH, constants());
    let mut rt = prepared(0xFFFF_FFF0, 100);
    assert_eq!(chip.try_execute(&mut rt).err(), Some(PrecompileFault::StateOutOfRange));
}

#[test]
fn try_execute_rejects_clock_overflow() {
    let chip = Poseidon2External1Chip::new(WIDTH, constants());
    let mut rt = prepared(0x2000, u32::MAX - 100);
    assert_eq!(chip.try_execute(&mut rt).err(), Some(PrecompileFault::ClockOverflow));
    assert_eq!(rt.word(0x2000 + 4), 1);
}

#[test]
fn try_execute_rejects_non_canonical_lane() {
    let chip = Poseidon2External1Chip::new(WIDTH, constants());
    let mut rt = prepared(0x2000, 100);
    rt.init_word(0x2000 + 12, P);
    assert_eq!(chip.try_execute(&mut rt).err(), Some(PrecompileFault::NonCanonicalState));
    assert_eq!(rt.clk, 100);
}
