//! The batch scheduler's decision logic: the ordered sequence of ports to
//! probe for a range, and its partition into consecutive batches no larger
//! than the worker budget. The unverified shell walks the batches, spawns
//! one concurrent probe per port in a batch, and waits for the whole batch
//! before advancing — so the shapes proved here are exactly the shapes the
//! run takes: `ceil(N / W)` batches, none wider than `W`.

use vstd::prelude::*;

use vstd::arithmetic::div_mod::lemma_fundamental_div_mod;
use vstd::arithmetic::div_mod::lemma_fundamental_div_mod_converse;

verus! {

/// How many ports the inclusive range [start, end] holds.
pub open spec fn range_size(start: u16, end: u16) -> nat {
    if start <= end {
        (end - start + 1) as nat
    } else {
        0
    }
}

/// How many batches a run over `n` ports takes under a worker budget of
/// `w`: `ceil(n / w)`.
pub open spec fn batch_count(n: nat, w: nat) -> int
    recommends
        w >= 1,
{
    (n + w - 1) / (w as int)
}

/// The ordered sequence of ports to probe for the inclusive range
/// [start, end]: every port of the range exactly once, in descending
/// order, `end` first. Equal bounds give the one port; an inverted range
/// yields none.
pub fn port_sequence(start: u16, end: u16) -> (ports: Vec<u16>)
    ensures
        ports@.len() == range_size(start, end),
        forall|i: int| 0 <= i < ports@.len() ==> ports@[i] == end - i,
{
    let mut ports: Vec<u16> = Vec::new();
    if start > end {
        return ports;
    }
    let n: usize = (end - start) as usize + 1;
    let mut i: usize = 0;
    while i < n
        invariant
            start <= end,
            n == end - start + 1,
            i <= n,
            ports@.len() == i,
            forall|j: int| 0 <= j < i ==> ports@[j] == end - j,
        decreases n - i,
    {
        ports.push(end - (i as u16));
        i += 1;
    }
    ports
}

/// Partition `ports` into consecutive batches: every batch but the last
/// holds exactly `budget` ports, the last holds the remainder, the batches
/// laid end to end are `ports` in order, and there are `ceil(len / budget)`
/// of them. No batch ever exceeds the worker budget.
pub fn make_batches(ports: &Vec<u16>, budget: u8) -> (batches: Vec<Vec<u16>>)
    requires
        budget >= 1,
    ensures
        batches@.len() == batch_count(ports@.len(), budget as nat),
        forall|i: int| 0 <= i < batches@.len() ==> #[trigger] batches@[i]@.len() <= budget,
        forall|i: int| 0 <= i < batches@.len() - 1 ==> #[trigger] batches@[i]@.len() == budget,
        forall|i: int, j: int|
            0 <= i < batches@.len() && 0 <= j < batches@[i]@.len() ==> #[trigger] batches@[i]@[j]
                == ports@[i * (budget as int) + j],
        batches@.len() >= 1 ==> batches@[batches@.len() - 1]@.len() == ports@.len() - (
        batches@.len() - 1) * (budget as int),
{
    let n = ports.len();
    let w = budget as usize;
    let full: usize = n / w;
    let rem: usize = n % w;
    proof {
        lemma_fundamental_div_mod(n as int, w as int);
        assert((w as int) * (full as int) == (full as int) * (w as int)) by (nonlinear_arith);
        assert(n == full * w + rem);
    }
    let mut batches: Vec<Vec<u16>> = Vec::new();
    let mut b: usize = 0;
    while b < full
        invariant
            1 <= w,
            n == ports@.len(),
            b <= full,
            rem < w,
            n == full * w + rem,
            batches@.len() == b,
            forall|i: int| 0 <= i < b ==> #[trigger] batches@[i]@.len() == w,
            forall|i: int, j: int|
                0 <= i < b && 0 <= j < w ==> #[trigger] batches@[i]@[j] == ports@[i * (w as int)
                    + j],
        decreases full - b,
    {
        proof {
            assert(b * w + w <= full * w) by (nonlinear_arith)
                requires
                    b < full,
                    w >= 1,
            ;
        }
        let pos: usize = b * w;
        proof {
            assert(pos == b * w);
        }
        let mut batch: Vec<u16> = Vec::new();
        let mut j: usize = 0;
        while j < w
            invariant
                j <= w,
                pos + w <= n,
                pos == b * (w as int),
                n == ports@.len(),
                batch@.len() == j,
                forall|k: int| 0 <= k < j ==> #[trigger] batch@[k] == ports@[pos + k],
            decreases w - j,
        {
            batch.push(ports[pos + j]);
            j += 1;
        }
        batches.push(batch);
        b += 1;
    }
    if rem > 0 {
        let pos: usize = full * w;
        let mut batch: Vec<u16> = Vec::new();
        let mut j: usize = 0;
        while j < rem
            invariant
                j <= rem,
                pos + rem == n,
                pos == full * (w as int),
                n == full * w + rem,
                n == ports@.len(),
                batch@.len() == j,
                forall|k: int| 0 <= k < j ==> #[trigger] batch@[k] == ports@[pos + k],
            decreases rem - j,
        {
            batch.push(ports[pos + j]);
            j += 1;
        }
        batches.push(batch);
        proof {
            // n = full * w + rem with 0 < rem < w, so ceil(n / w) = full + 1
            assert(n + w - 1 == (full + 1) * (w as int) + (rem - 1)) by (nonlinear_arith)
                requires
                    n == full * (w as int) + rem,
            ;
            lemma_fundamental_div_mod_converse(
                n + w - 1,
                w as int,
                full as int + 1,
                rem as int - 1,
            );
        }
    } else {
        proof {
            // n = full * w exactly, so ceil(n / w) = full
            assert(n + w - 1 == full * (w as int) + (w - 1)) by (nonlinear_arith)
                requires
                    n == full * (w as int),
            ;
            lemma_fundamental_div_mod_converse(n + w - 1, w as int, full as int, w as int - 1);
            if full >= 1 {
                assert((full as int - 1) * (w as int) == full * (w as int) - (w as int))
                    by (nonlinear_arith);
            }
        }
    }
    batches
}

} // verus!
