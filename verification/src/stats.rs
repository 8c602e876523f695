//! Byte frequencies, the integer part of the statistical tests run on the
//! generated entropy (Shannon entropy and the chi-square test of uniformity).

use vstd::prelude::*;

verus! {

/// How many times the byte `b` occurs in `s`.
pub open spec fn occurrences(s: Seq<u8>, b: u8) -> nat
    decreases s.len(),
{
    if s.len() == 0 {
        0
    } else {
        occurrences(s.drop_last(), b) + (if s.last() == b { 1nat } else { 0nat })
    }
}

/// A byte occurs at most as often as the sequence is long.
proof fn lemma_occurrences_bound(s: Seq<u8>, b: u8)
    ensures
        occurrences(s, b) <= s.len(),
    decreases s.len(),
{
    if s.len() > 0 {
        lemma_occurrences_bound(s.drop_last(), b);
    }
}

/// The number of occurrences of every byte value in `data`: entry `b` of the
/// result counts the bytes equal to `b`.
pub fn byte_histogram(data: &[u8]) -> (counts: Vec<usize>)
    ensures
        counts@.len() == 256,
        forall|b: u8| #[trigger] counts@[b as int] == occurrences(data@, b),
{
    let mut counts: Vec<usize> = vec![0usize; 256];
    let n = data.len();
    let mut i: usize = 0;
    while i < n
        invariant
            n == data@.len(),
            i <= n,
            counts@.len() == 256,
            forall|b: u8| #[trigger] counts@[b as int] == occurrences(data@.take(i as int), b),
        decreases n - i,
    {
        let x = data[i];
        proof {
            assert(data@.take(i + 1).drop_last() =~= data@.take(i as int));
            assert(data@.take(i + 1).last() == x);
            lemma_occurrences_bound(data@.take(i as int), x);
        }
        let c = counts[x as usize];
        counts.set(x as usize, c + 1);
        proof {
            assert forall|b: u8| #[trigger] counts@[b as int] == occurrences(data@.take(i + 1), b) by {
                assert(data@.take(i + 1).drop_last() =~= data@.take(i as int));
            }
        }
        i = i + 1;
    }
    assert(data@.take(n as int) =~= data@);
    counts
}

/// The occurrences of the byte values below `k` in `s`, added up.
pub open spec fn occurrences_below(s: Seq<u8>, k: nat) -> nat
    decreases k,
{
    if k == 0 {
        0
    } else {
        occurrences_below(s, (k - 1) as nat) + occurrences(s, (k - 1) as u8)
    }
}

/// Dropping the last byte of `s` takes one occurrence off the values below
/// `k` exactly when that byte is below `k`.
proof fn lemma_occurrences_below_drop_last(s: Seq<u8>, k: nat)
    requires
        s.len() > 0,
        k <= 256,
    ensures
        occurrences_below(s, k) == occurrences_below(s.drop_last(), k) + (if (s.last() as nat) < k { 1nat } else { 0nat }),
    decreases k,
{
    if k > 0 {
        lemma_occurrences_below_drop_last(s, (k - 1) as nat);
        assert(((k - 1) as u8) as nat == k - 1);
    }
}

/// The counts of all 256 byte values add up to the length of the data.
pub proof fn lemma_histogram_total(s: Seq<u8>)
    ensures
        occurrences_below(s, 256) == s.len(),
    decreases s.len(),
{
    if s.len() == 0 {
        lemma_occurrences_below_empty(s, 256);
    } else {
        lemma_histogram_total(s.drop_last());
        lemma_occurrences_below_drop_last(s, 256);
    }
}

/// In empty data no byte value occurs.
proof fn lemma_occurrences_below_empty(s: Seq<u8>, k: nat)
    requires
        s.len() == 0,
    ensures
        occurrences_below(s, k) == 0,
    decreases k,
{
    if k > 0 {
        lemma_occurrences_below_empty(s, (k - 1) as nat);
    }
}

} // verus!
