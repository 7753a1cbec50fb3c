use vstd::prelude::*;

verus! {

/// The input that one proof is made from: the program image and the bytes the
/// guest reads from stdin.
pub struct ProvingInput {
    pub elf: Vec<u8>,
    pub stdin: Vec<u8>,
}

fn copy_bytes(src: &[u8]) -> (r: Vec<u8>)
    ensures
        r@ == src@,
{
    let mut r: Vec<u8> = Vec::new();
    let mut i: usize = 0;
    while i < src.len()
        invariant
            i <= src@.len(),
            r@ == src@.subrange(0, i as int),
        decreases src@.len() - i,
    {
        r.push(src[i]);
        i = i + 1;
    }
    assert(src@.subrange(0, src@.len() as int) =~= src@);
    r
}

/// Collects the guest's stdin, then hands it over with a program to prove.
pub struct SuccinctProver {
    stdin: Vec<u8>,
}

impl SuccinctProver {
    /// The bytes written to stdin so far.
    pub closed spec fn stdin_spec(&self) -> Seq<u8> {
        self.stdin@
    }

    /// A prover with empty stdin.
    pub fn new() -> (r: SuccinctProver)
        ensures
            r.stdin_spec() == Seq::<u8>::empty(),
    {
        SuccinctProver { stdin: Vec::new() }
    }

    /// Appends an encoded input to stdin.
    pub fn write_stdin(&mut self, input: &[u8])
        ensures
            final(self).stdin_spec() == old(self).stdin_spec() + input@,
    {
        let mut i: usize = 0;
        let ghost before = self.stdin@;
        while i < input.len()
            invariant
                i <= input@.len(),
                self.stdin@ == before + input@.subrange(0, i as int),
            decreases input@.len() - i,
        {
            self.stdin.push(input[i]);
            i = i + 1;
        }
        assert(input@.subrange(0, input@.len() as int) =~= input@);
    }

    /// The bytes written to stdin so far.
    pub fn stdin(&self) -> (r: &Vec<u8>)
        ensures
            r@ == self.stdin_spec(),
    {
        &self.stdin
    }

    /// Binds `elf` to the stdin written so far: the runtime loads the program,
    /// writes this stdin before it runs, and proves the run.
    pub fn prove(&self, elf: &[u8]) -> (r: ProvingInput)
        ensures
            r.elf@ == elf@,
            r.stdin@ == self.stdin_spec(),
    {
        ProvingInput { elf: copy_bytes(elf), stdin: copy_bytes(self.stdin.as_slice()) }
    }
}

/// Verifier of shard proofs inside a recursive proof.
pub struct RecursiveVerifier {}

} // verus!
