//! Shuffling and punch-count helpers.

use vstd::prelude::*;
use crate::random::{gen_range_exclusive, gen_range_inclusive, thread_rng};

verus! {

/// `s` with the elements at `i` and `j` exchanged.
pub open spec fn swapped<T>(s: Seq<T>, i: int, j: int) -> Seq<T> {
    s.update(i, s[j]).update(j, s[i])
}

/// The first `k` steps of a Fisher–Yates pass over `s`: step `k` (counting
/// from 1) exchanges position `s.len() - k` with position `picks[k - 1]`.
pub open spec fn fisher_yates_steps<T>(s: Seq<T>, picks: Seq<usize>, k: nat) -> Seq<T>
    decreases k,
{
    if k == 0 {
        s
    } else {
        swapped(
            fisher_yates_steps(s, picks, (k - 1) as nat),
            s.len() - k,
            picks[k - 1] as int,
        )
    }
}

/// The number of draws a Fisher–Yates pass over `n` elements makes.
pub open spec fn fisher_yates_len(n: nat) -> nat {
    if n == 0 { 0 } else { (n - 1) as nat }
}

/// `picks` are draws a Fisher–Yates pass over `n` elements can make: one per
/// position from the last down to the second, each at most that position.
pub open spec fn valid_picks(n: nat, picks: Seq<usize>) -> bool {
    &&& picks.len() == fisher_yates_len(n)
    &&& forall|k: int| 0 <= k < picks.len() ==> #[trigger] picks[k] <= n - 1 - k
}

/// The whole Fisher–Yates pass over `s` with the draws `picks`.
pub open spec fn fisher_yates<T>(s: Seq<T>, picks: Seq<usize>) -> Seq<T> {
    fisher_yates_steps(s, picks, picks.len())
}

/// Exchanges `a[i]` and `a[j]` for `j <= i`.
fn swap_down<T>(a: &mut [T], i: usize, j: usize)
    requires
        i < old(a)@.len(),
        j <= i,
    ensures
        final(a)@ == swapped(old(a)@, i as int, j as int),
{
    if j < i {
        let (left, right) = a.split_at_mut(i);
        let (_, middle) = left.split_at_mut(j);
        match (middle.first_mut(), right.first_mut()) {
            (Some(x), Some(y)) => std::mem::swap(x, y),
            _ => {},
        }
    } else {
        assert(swapped(old(a)@, i as int, j as int) =~= old(a)@);
    }
}


/// Swapping two positions keeps the multiset of elements.
proof fn lemma_swapped_multiset<T>(s: Seq<T>, i: int, j: int)
    requires
        0 <= i < s.len(),
        0 <= j < s.len(),
    ensures
        swapped(s, i, j).to_multiset() == s.to_multiset(),
{
    broadcast use vstd::seq_lib::group_to_multiset_ensures;
    broadcast use vstd::multiset::group_multiset_axioms;
    vstd::seq_lib::to_multiset_update(s, i, s[j]);
    vstd::seq_lib::to_multiset_update(s.update(i, s[j]), j, s[i]);
    assert(s.to_multiset().count(s[i]) > 0) by {
        assert(s.contains(s[i]));
    }
    assert(s.to_multiset().count(s[j]) > 0) by {
        assert(s.contains(s[j]));
    }
    assert(swapped(s, i, j).to_multiset() =~= s.to_multiset());
}

/// Every prefix of a Fisher–Yates pass keeps the length and the multiset.
proof fn lemma_fisher_yates_steps_multiset<T>(s: Seq<T>, picks: Seq<usize>, k: nat)
    requires
        valid_picks(s.len(), picks),
        k <= picks.len(),
    ensures
        fisher_yates_steps(s, picks, k).len() == s.len(),
        fisher_yates_steps(s, picks, k).to_multiset() == s.to_multiset(),
    decreases k,
{
    if k > 0 {
        lemma_fisher_yates_steps_multiset(s, picks, (k - 1) as nat);
        let prev = fisher_yates_steps(s, picks, (k - 1) as nat);
        assert(picks[k - 1] <= s.len() - 1 - (k - 1));
        lemma_swapped_multiset(prev, s.len() - k, picks[k - 1] as int);
    }
}

/// A Fisher–Yates pass rearranges its input: whatever the draws, the result
/// has the same length and holds each element as often as the input does.
pub proof fn lemma_fisher_yates_permutes<T>(s: Seq<T>, picks: Seq<usize>)
    requires
        valid_picks(s.len(), picks),
    ensures
        fisher_yates(s, picks).len() == s.len(),
        fisher_yates(s, picks).to_multiset() == s.to_multiset(),
{
    lemma_fisher_yates_steps_multiset(s, picks, picks.len());
}

/// The draws of a pass that leave every element in place: each pick is the
/// largest the pass allows, the position itself.
pub open spec fn staying_picks(n: nat) -> Seq<usize> {
    Seq::new(fisher_yates_len(n), |k: int| (n - 1 - k) as usize)
}

/// A pick may equal its position: the draws that keep every element in
/// place are valid, and a pass with them leaves the input unchanged. So a
/// shuffle can hand back its input as it was.
pub proof fn lemma_fisher_yates_can_keep_order<T>(s: Seq<T>)
    requires
        s.len() <= usize::MAX,
    ensures
        valid_picks(s.len(), staying_picks(s.len())),
        fisher_yates(s, staying_picks(s.len())) == s,
{
    let picks = staying_picks(s.len());
    assert forall|k: int| 0 <= k < picks.len() implies #[trigger] picks[k] <= s.len() - 1 - k by {}
    lemma_fisher_yates_keeps_order_steps(s, picks.len());
}

proof fn lemma_fisher_yates_keeps_order_steps<T>(s: Seq<T>, k: nat)
    requires
        s.len() <= usize::MAX,
        k <= fisher_yates_len(s.len()),
    ensures
        fisher_yates_steps(s, staying_picks(s.len()), k) == s,
    decreases k,
{
    if k > 0 {
        lemma_fisher_yates_keeps_order_steps(s, (k - 1) as nat);
        let i = s.len() - k;
        assert(staying_picks(s.len())[k - 1] == i);
        assert(swapped(s, i, i) =~= s);
    }
}

/// Runs a Fisher–Yates pass over `array` with the given draws: for each
/// position `i` from the last down to the second, exchanges `array[i]` with
/// `array[picks[len - 1 - i]]`.
pub fn fisher_yates_with<T>(array: &mut [T], picks: &[usize])
    requires
        valid_picks(old(array)@.len(), picks@),
    ensures
        final(array)@ == fisher_yates(old(array)@, picks@),
        final(array)@.to_multiset() == old(array)@.to_multiset(),
{
    let ghost original = array@;
    let len = array.len();
    let mut k: usize = 0;
    while k < picks.len()
        invariant
            len == original.len(),
            valid_picks(original.len(), picks@),
            k <= picks@.len(),
            array@.len() == len,
            array@ == fisher_yates_steps(original, picks@, k as nat),
        decreases picks@.len() - k,
    {
        let i = len - 1 - k;
        assert(picks@[k as int] <= len - 1 - k);
        swap_down(array, i, picks[k]);
        k = k + 1;
    }
    proof {
        lemma_fisher_yates_permutes(original, picks@);
    }
}

/// Shuffles `array` in place with a Fisher–Yates pass whose draws come from
/// the thread-local generator, and hands the same slice back. Whatever the
/// draws, the result is the pass with some valid draws, so it is a
/// rearrangement of the input.
pub fn shuffle_array<'a, T>(array: &'a mut [T]) -> (shuffled: &'a mut [T])
    ensures
        exists|picks: Seq<usize>|
            valid_picks(old(array)@.len(), picks) && shuffled@ == #[trigger] fisher_yates(
                old(array)@,
                picks,
            ),
        shuffled@.to_multiset() == old(array)@.to_multiset(),
        final(array)@ == final(shuffled)@,
{
    let mut rng = thread_rng();
    let picks = draw_picks(&mut rng, array.len());
    fisher_yates_with(array, picks.as_slice());
    array
}

/// Draws the Fisher–Yates picks for `n` elements, in the order a pass uses
/// them: for each position from the last down to the second, a position at
/// most that one.
pub(crate) fn draw_picks(rng: &mut rand::rngs::ThreadRng, n: usize) -> (picks: Vec<usize>)
    ensures
        valid_picks(n as nat, picks@),
{
    let mut picks: Vec<usize> = Vec::new();
    let mut i = n;
    while i > 1
        invariant
            1 <= i <= n || (i == n && n <= 1),
            picks@.len() == n - i,
            forall|k: int| 0 <= k < picks@.len() ==> #[trigger] picks@[k] <= n - 1 - k,
        decreases i,
    {
        i = i - 1;
        let j = gen_range_inclusive(rng, 0, i);
        picks.push(j);
    }
    picks
}

/// A Fisher–Yates pass commutes with mapping its elements: shuffling the
/// images of `s` under `f` gives the images of the shuffled `s`.
pub proof fn lemma_fisher_yates_map<T, U>(s: Seq<T>, picks: Seq<usize>, f: spec_fn(T) -> U)
    requires
        valid_picks(s.len(), picks),
    ensures
        fisher_yates(s, picks).map_values(f) == fisher_yates(s.map_values(f), picks),
{
    lemma_fisher_yates_steps_map(s, picks, f, picks.len());
}

proof fn lemma_fisher_yates_steps_map<T, U>(s: Seq<T>, picks: Seq<usize>, f: spec_fn(T) -> U, k: nat)
    requires
        valid_picks(s.len(), picks),
        k <= picks.len(),
    ensures
        fisher_yates_steps(s, picks, k).map_values(f) == fisher_yates_steps(s.map_values(f), picks, k),
    decreases k,
{
    if k > 0 {
        lemma_fisher_yates_steps_map(s, picks, f, (k - 1) as nat);
        lemma_fisher_yates_steps_multiset(s, picks, (k - 1) as nat);
        let prev = fisher_yates_steps(s, picks, (k - 1) as nat);
        assert(picks[k - 1] <= s.len() - 1 - (k - 1));
        let i = s.len() - k;
        let j = picks[k - 1] as int;
        assert(swapped(prev, i, j).map_values(f) =~= swapped(prev.map_values(f), i, j));
    }
}

/// Draws a punch count in `min..max` from the thread-local generator.
pub fn generate_punches(min: &usize, max: &usize) -> (punches: usize)
    requires
        *min < *max,
    ensures
        *min <= punches < *max,
{
    let mut rng = thread_rng();
    gen_range_exclusive(&mut rng, *min, *max)
}

} // verus!
