use succinct_core::prover::SuccinctProver;
use succinct_core::runtime::{PrecompileRuntime, REGISTER_X10};

#[test]
fn store_then_load_round_trip() {
    let mut rt = PrecompileRuntime::new(1, 16);
    let w = rt.mw(0x1000, 0xDEADBEEF);
    assert_eq!(w.value, 0xDEADBEEF);
    assert_eq!(w.prev_value, 0);
    assert_eq!(w.prev_shard, 0);
    assert_eq!(w.prev_timestamp, 0);
    assert_eq!(w.timestamp, 16);
    rt.clk = 32;
    let (r, v) = rt.mr(0x1000);
    assert_eq!(v, 0xDEADBEEF);
    assert_eq!(r.value, 0xDEADBEEF);
    assert_eq!(r.prev_shard, 1);
    assert_eq!(r.prev_timestamp, 16);
    assert_eq!(r.timestamp, 32);
    assert_eq!(rt.word(0x1000), 0xDEADBEEF);
}

#[test]
fn untouched_memory_reads_zero() {
    let mut rt = PrecompileRuntime::new(0, 0);
    let (r, v) = rt.mr(0x40);
    assert_eq!(v, 0);
    assert_eq!(r.prev_timestamp, 0);
    assert_eq!(rt.word(0x44), 0);
}

#[test]
fn register_access_without_records() {
    let mut rt = PrecompileRuntime::new(0, 0);
    rt.set_register(REGISTER_X10, 0x2000);
    assert_eq!(rt.register_unsafe(REGISTER_X10), 0x2000);
    assert_eq!(rt.register_unsafe(11), 0);
}

#[test]
fn prover_collects_stdin() {
    let mut p = SuccinctProver::new();
    assert!(p.stdin().is_empty());
    p.write_stdin(&[1, 2, 3]);
    p.write_stdin(&[4]);
    assert_eq!(p.stdin(), &vec![1, 2, 3, 4]);
    let input = p.prove(&[0x7f, b'E', b'L', b'F']);
    assert_eq!(input.elf, vec![0x7f, b'E', b'L', b'F']);
    assert_eq!(input.stdin, vec![1, 2, 3, 4]);
}
