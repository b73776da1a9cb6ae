//! All pairs of a list, each once.
//!
//! The pairs are drawn by the `combinations` crate. What it gives is stated
//! here once, over [`upcoming`], and the voting flow is verified against
//! that statement.

use vstd::prelude::*;
use combinations::Combinations;

verus! {

#[verifier::external_type_specification]
#[verifier::external_body]
#[verifier::reject_recursive_types(T)]
pub struct ExCombinations<T: Ord + Clone>(combinations::Combinations<T>);

/// The draws that a generator has yet to give, in the order in which it
/// gives them.
pub uninterp spec fn upcoming(generator: Combinations<usize>) -> Seq<Seq<usize>>;

/// Whether each item is less than the one after it.
pub open spec fn increasing(items: Seq<usize>) -> bool {
    forall|i: int, j: int| 0 <= i < j < items.len() ==> items[i] < items[j]
}

/// The pairs whose first member stands at `first`, by the place of the
/// second.
pub open spec fn pairs_with(items: Seq<usize>, first: int) -> Seq<Seq<usize>> {
    Seq::new(
        (items.len() - first - 1) as nat,
        |k: int| seq![items[first], items[first + 1 + k]],
    )
}

/// The pairs whose first member stands at `first` or later: by the place of
/// the first member, then by that of the second.
pub open spec fn pairs_from(items: Seq<usize>, first: int) -> Seq<Seq<usize>>
    decreases items.len() - first,
{
    if first < 0 || first + 1 >= items.len() {
        Seq::empty()
    } else {
        pairs_with(items, first) + pairs_from(items, first + 1)
    }
}

/// Every pair of two places of `items`, the earlier place first.
pub open spec fn pairs(items: Seq<usize>) -> Seq<Seq<usize>> {
    pairs_from(items, 0)
}

/// The numbers below `n`, in order.
pub open spec fn places(n: nat) -> Seq<usize> {
    Seq::new(n, |i: int| i as usize)
}

/// The draw of two places.
pub open spec fn pair(first: int, second: int) -> Seq<usize> {
    seq![first as usize, second as usize]
}

/// Whether `draw` pairs two places below `n`, the earlier first.
pub open spec fn is_pair(draw: Seq<usize>, n: nat) -> bool {
    draw.len() == 2 && draw[0] < draw[1] < n
}

/// Each draw of `pairs_from(items, first)` holds the members at two places
/// of `items`, the earlier one at `first` or later.
pub proof fn lemma_pairs_from_sound(items: Seq<usize>, first: int, k: int)
    requires
        0 <= first,
        0 <= k < pairs_from(items, first).len(),
    ensures
        exists|i: int, j: int|
            first <= i < j < items.len() && pairs_from(items, first)[k] == seq![
                #[trigger] items[i],
                #[trigger] items[j],
            ],
    decreases items.len() - first,
{
    if first + 1 < items.len() {
        let row = pairs_with(items, first);
        if k < row.len() {
            assert(pairs_from(items, first)[k] == seq![items[first], items[first + 1 + k]]);
        } else {
            lemma_pairs_from_sound(items, first + 1, k - row.len());
            let (i, j) = choose|i: int, j: int|
                first + 1 <= i < j < items.len() && pairs_from(items, first + 1)[k - row.len()]
                    == seq![#[trigger] items[i], #[trigger] items[j]];
            assert(pairs_from(items, first)[k] == seq![items[i], items[j]]);
        }
    }
}

/// The members at any two places from `first` on are a draw of
/// `pairs_from(items, first)`.
pub proof fn lemma_pairs_from_complete(items: Seq<usize>, first: int, i: int, j: int)
    requires
        0 <= first <= i < j < items.len(),
    ensures
        pairs_from(items, first).contains(seq![items[i], items[j]]),
    decreases items.len() - first,
{
    let row = pairs_with(items, first);
    if i == first {
        assert(row[j - first - 1] == seq![items[i], items[j]]);
        assert(pairs_from(items, first)[j - first - 1] == seq![items[i], items[j]]);
    } else {
        lemma_pairs_from_complete(items, first + 1, i, j);
        let rest = pairs_from(items, first + 1);
        let k = choose|k: int| 0 <= k < rest.len() && #[trigger] rest[k] == seq![items[i], items[j]];
        assert(pairs_from(items, first)[row.len() + k] == seq![items[i], items[j]]);
    }
}

/// The number of draws of `pairs_from(items, first)`.
pub proof fn lemma_pairs_from_len(items: Seq<usize>, first: int)
    requires
        0 <= first <= items.len(),
    ensures
        2 * pairs_from(items, first).len() == (items.len() - first) * (items.len() - first - 1),
    decreases items.len() - first,
{
    let m = items.len() - first;
    if first + 1 >= items.len() {
        assert(m == 0 || m == 1);
        assert(m * (m - 1) == 0) by (nonlinear_arith)
            requires
                m == 0 || m == 1,
        ;
    } else {
        lemma_pairs_from_len(items, first + 1);
        assert(2 * ((m - 1) + ((m - 1) * (m - 2)) / 2) == m * (m - 1)) by (nonlinear_arith)
            requires
                m >= 2,
                ((m - 1) * (m - 2)) % 2 == 0,
        ;
    }
}

/// Among items in increasing order no draw occurs twice.
pub proof fn lemma_pairs_from_distinct(items: Seq<usize>, first: int)
    requires
        0 <= first,
        increasing(items),
    ensures
        pairs_from(items, first).no_duplicates(),
    decreases items.len() - first,
{
    let all = pairs_from(items, first);
    if first + 1 < items.len() {
        let row = pairs_with(items, first);
        let rest = pairs_from(items, first + 1);
        lemma_pairs_from_distinct(items, first + 1);
        assert forall|a: int, b: int| 0 <= a < all.len() && 0 <= b < all.len() && a != b implies all[a]
            != all[b] by {
            if a < row.len() && b < row.len() {
                assert(all[a][1] == items[first + 1 + a]);
                assert(all[b][1] == items[first + 1 + b]);
            } else if a >= row.len() && b >= row.len() {
                assert(all[a] == rest[a - row.len()]);
                assert(all[b] == rest[b - row.len()]);
            } else {
                let (low, high) = if a < row.len() {
                    (a, b)
                } else {
                    (b, a)
                };
                lemma_pairs_from_sound(items, first + 1, high - row.len());
                let (i, j) = choose|i: int, j: int|
                    first + 1 <= i < j < items.len() && rest[high - row.len()] == seq![
                        #[trigger] items[i],
                        #[trigger] items[j],
                    ];
                assert(all[high][0] == items[i]);
                assert(all[low][0] == items[first]);
            }
        }
    }
}

/// Drawing pairs from `n` places gives each pair of two of them exactly
/// once: there are n(n-1)/2 draws, none occurs twice, each holds two places
/// with the earlier one first, and every such pair is among them.
pub proof fn every_pair_once(n: nat)
    requires
        n <= usize::MAX,
    ensures
        2 * pairs(places(n)).len() == n * (n - 1),
        pairs(places(n)).no_duplicates(),
        forall|k: int| 0 <= k < pairs(places(n)).len() ==> is_pair(#[trigger] pairs(places(n))[k], n),
        forall|i: int, j: int| 0 <= i < j < n ==> pairs(places(n)).contains(#[trigger] pair(i, j)),
{
    let items = places(n);
    lemma_pairs_from_len(items, 0);
    lemma_pairs_from_distinct(items, 0);
    assert forall|k: int| 0 <= k < pairs(items).len() implies is_pair(#[trigger] pairs(items)[k], n) by {
        lemma_pairs_from_sound(items, 0, k);
    }
    assert forall|i: int, j: int| 0 <= i < j < n implies pairs(items).contains(
        #[trigger] pair(i, j),
    ) by {
        lemma_pairs_from_complete(items, 0, i, j);
        assert(seq![items[i], items[j]] == pair(i, j));
    }
}

/// `combinations::Combinations::new`, which panics unless
/// `1 <= draw < items.len()`.
/// Where two are drawn from items in increasing order, the generator gives
/// every pair of them, ordered by the first member and then by the second.
#[verifier::external_body]
pub(crate) fn generator_of(items: Vec<usize>, draw: usize) -> (generator: Combinations<usize>)
    requires
        1 <= draw < items.len(),
    ensures
        draw == 2 && increasing(items@) ==> upcoming(generator) == pairs(items@),
{
    Combinations::new(items, draw)
}

/// `combinations::Combinations::next_combination`: while draws are left it
/// writes the next one to `draw` and returns true; after the last one it
/// returns false and leaves `draw` and the generator as they are.
#[verifier::external_body]
pub(crate) fn next_combination(generator: &mut Combinations<usize>, draw: &mut Vec<usize>) -> (more:
    bool)
    ensures
        more == (upcoming(*old(generator)).len() > 0),
        more ==> final(draw)@ == upcoming(*old(generator)).first() && upcoming(*final(generator))
            == upcoming(*old(generator)).drop_first(),
        !more ==> final(draw)@ == old(draw)@ && upcoming(*final(generator)) == upcoming(
            *old(generator),
        ),
{
    generator.next_combination(draw)
}

} // verus!
