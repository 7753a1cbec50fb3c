use vstd::prelude::*;
use crate::field::{P, add_mod, add_spec, is_canonical};

verus! {

/// Row `r` of the 4x4 block `[[5,7,1,3],[4,6,1,1],[1,3,5,7],[1,1,4,6]]` applied
/// to `x[base .. base + 4]`.
pub open spec fn m4_row(x: Seq<int>, base: int, r: int) -> int {
    let (a, b, c, d) = (x[base], x[base + 1], x[base + 2], x[base + 3]);
    (if r == 0 {
        5 * a + 7 * b + c + 3 * d
    } else if r == 1 {
        4 * a + 6 * b + c + d
    } else if r == 2 {
        a + 3 * b + 5 * c + 7 * d
    } else {
        a + b + 4 * c + 6 * d
    }) % (P as int)
}

/// The 4x4 block applied to each chunk of four lanes.
pub open spec fn m4_layer(x: Seq<int>) -> Seq<int> {
    Seq::new(x.len(), |i: int| m4_row(x, i - i % 4, i % 4))
}

/// The field sum of `y[r], y[4 + r], ..., y[4 (k - 1) + r]`.
pub open spec fn lane_sum(y: Seq<int>, r: int, k: nat) -> int
    decreases k,
{
    if k == 0 {
        0
    } else {
        add_spec(lane_sum(y, r, (k - 1) as nat), y[4 * (k - 1) + r])
    }
}

/// The external linear layer: the 4x4 block on each chunk, then each lane plus
/// the sum of the lanes at its position in every chunk.
pub open spec fn external_linear(x: Seq<int>) -> Seq<int> {
    let y = m4_layer(x);
    Seq::new(x.len(), |i: int| add_spec(y[i], lane_sum(y, i % 4, (x.len() / 4) as nat)))
}

/// A sequence of field elements as integers.
pub open spec fn ints(s: Seq<u32>) -> Seq<int> {
    s.map_values(|v: u32| v as int)
}

/// Every element is canonical.
pub open spec fn all_canonical(s: Seq<u32>) -> bool {
    forall|i: int| 0 <= i < s.len() ==> is_canonical(#[trigger] s[i])
}

/// For `i` a multiple of four and `j` in `[i, i + 4)`: `j` lies in the chunk at `i`.
proof fn lemma_chunk_index(i: int, j: int)
    requires
        0 <= i,
        i % 4 == 0,
        i <= j < i + 4,
    ensures
        j - j % 4 == i,
        j % 4 == j - i,
{
}

/// The 4x4 block on one chunk.
fn m4_chunk(a: u32, b: u32, c: u32, d: u32) -> (r: (u32, u32, u32, u32))
    requires
        is_canonical(a),
        is_canonical(b),
        is_canonical(c),
        is_canonical(d),
    ensures
        ({
            let x = seq![a as int, b as int, c as int, d as int];
            &&& r.0 as int == m4_row(x, 0, 0)
            &&& r.1 as int == m4_row(x, 0, 1)
            &&& r.2 as int == m4_row(x, 0, 2)
            &&& r.3 as int == m4_row(x, 0, 3)
        }),
        is_canonical(r.0),
        is_canonical(r.1),
        is_canonical(r.2),
        is_canonical(r.3),
{
    let (a, b, c, d) = (a as u64, b as u64, c as u64, d as u64);
    let pp = P as u64;
    (
        ((5 * a + 7 * b + c + 3 * d) % pp) as u32,
        ((4 * a + 6 * b + c + d) % pp) as u32,
        ((a + 3 * b + 5 * c + 7 * d) % pp) as u32,
        ((a + b + 4 * c + 6 * d) % pp) as u32,
    )
}

/// The 4x4 block on each chunk of a state whose width is a multiple of four.
#[verifier::rlimit(100)]
fn m4_layer_vec(state: &Vec<u32>) -> (y: Vec<u32>)
    requires
        state@.len() % 4 == 0,
        all_canonical(state@),
    ensures
        ints(y@) == m4_layer(ints(state@)),
        y@.len() == state@.len(),
        all_canonical(y@),
{
    let ghost x = ints(state@);
    let n = state.len();
    let mut y: Vec<u32> = Vec::new();
    let mut i: usize = 0;
    while i < n
        invariant
            n == state@.len(),
            n % 4 == 0,
            i % 4 == 0,
            i <= n,
            x == ints(state@),
            all_canonical(state@),
            y@.len() == i,
            forall|j: int| 0 <= j < i ==> #[trigger] y@[j] as int == m4_layer(x)[j],
            all_canonical(y@),
        decreases n - i,
    {
        let out = m4_chunk(state[i], state[i + 1], state[i + 2], state[i + 3]);
        let ghost before = y@;
        y.push(out.0);
        y.push(out.1);
        y.push(out.2);
        y.push(out.3);
        proof {
            assert forall|j: int| 0 <= j < i + 4 implies #[trigger] y@[j] as int == m4_layer(x)[j] by {
                if j >= i {
                    lemma_chunk_index(i as int, j);
                } else {
                    assert(y@[j] == before[j]);
                }
            }
        }
        i = i + 4;
    }
    proof {
        assert(ints(y@) =~= m4_layer(x));
    }
    y
}

/// The external linear layer in place, on a state whose width is a multiple of four.
#[verifier::rlimit(50)]
pub fn external_linear_permute_mut(state: &mut Vec<u32>)
    requires
        old(state)@.len() % 4 == 0,
        old(state)@.len() < 0x1000_0000,
        all_canonical(old(state)@),
    ensures
        ints(final(state)@) == external_linear(ints(old(state)@)),
        all_canonical(final(state)@),
{
    let ghost x = ints(state@);
    let n = state.len();
    let y = m4_layer_vec(state);
    let ghost ys = ints(y@);
    assert(ys =~= m4_layer(x));
    let mut sums: Vec<u32> = Vec::new();
    let mut r: usize = 0;
    while r < 4
        invariant
            n == y@.len(),
            n % 4 == 0,
            r <= 4,
            ys == ints(y@),
            all_canonical(y@),
            sums@.len() == r,
            forall|j: int| 0 <= j < r ==> #[trigger] sums@[j] as int == lane_sum(ys, j, (n / 4) as nat),
            all_canonical(sums@),
        decreases 4 - r,
    {
        let mut acc: u32 = 0;
        let mut k: usize = 0;
        while k < n / 4
            invariant
                n == y@.len(),
                n % 4 == 0,
                r < 4,
                k <= n / 4,
                ys == ints(y@),
                all_canonical(y@),
                is_canonical(acc),
                acc as int == lane_sum(ys, r as int, k as nat),
            decreases n / 4 - k,
        {
            acc = add_mod(acc, y[4 * k + r]);
            k = k + 1;
        }
        sums.push(acc);
        r = r + 1;
    }
    let mut i: usize = 0;
    while i < n
        invariant
            n == state@.len(),
            n == y@.len(),
            n % 4 == 0,
            i <= n,
            ys == ints(y@),
            ys == m4_layer(x),
            x.len() == n,
            all_canonical(y@),
            all_canonical(sums@),
            all_canonical(state@),
            sums@.len() == 4,
            forall|j: int| 0 <= j < 4 ==> #[trigger] sums@[j] as int == lane_sum(ys, j, (n / 4) as nat),
            forall|j: int| 0 <= j < i ==> #[trigger] state@[j] as int == external_linear(x)[j],
        decreases n - i,
    {
        state.set(i, add_mod(y[i], sums[i % 4]));
        i = i + 1;
    }
    assert(ints(state@) =~= external_linear(x));
}

} // verus!
