//! Putting a playlist into a drawn order.
//!
//! The order is decided by the numbers the caller brings, one draw per
//! number; where they come from is the caller's business.

use vstd::prelude::*;
use vstd::multiset::Multiset;
use vstd::seq_lib::{lemma_multiset_commutative, to_multiset_remove};

verus! {

/// `items` in the order in which `picks` draws them: each pick, taken
/// modulo the number of items still left, names the item that comes next.
/// When the picks run out, what is left keeps its order.
pub open spec fn drawn<T>(items: Seq<T>, picks: Seq<usize>) -> Seq<T>
    decreases items.len(),
{
    if items.len() == 0 || picks.len() == 0 {
        items
    } else {
        let k = picks[0] as int % items.len() as int;
        seq![items[k]] + drawn(items.remove(k), picks.drop_first())
    }
}

/// A drawn order holds exactly the items it was drawn from, each as often
/// as before.
pub proof fn lemma_drawn_is_a_permutation<T>(items: Seq<T>, picks: Seq<usize>)
    ensures
        drawn(items, picks).to_multiset() == items.to_multiset(),
        drawn(items, picks).len() == items.len(),
    decreases items.len(),
{
    broadcast use vstd::multiset::group_multiset_axioms;

    if items.len() != 0 && picks.len() != 0 {
        let k = picks[0] as int % items.len() as int;
        let rest = drawn(items.remove(k), picks.drop_first());
        lemma_drawn_is_a_permutation(items.remove(k), picks.drop_first());
        // The first item drawn, put back into what the rest was drawn from,
        // gives the items again.
        lemma_multiset_commutative(seq![items[k]], rest);
        to_multiset_remove(items, k);
        items.to_multiset_ensures();
        assert(seq![items[k]].to_multiset() =~= Multiset::empty().insert(items[k])) by {
            assert(seq![items[k]] =~= Seq::<T>::empty().push(items[k]));
            Seq::<T>::empty().to_multiset_ensures();
        }
    }
}

/// Without picks nothing moves.
pub proof fn lemma_drawn_without_picks<T>(items: Seq<T>)
    ensures
        drawn(items, Seq::empty()) == items,
{
}

/// Puts `items` into the order in which `picks` draws them.
pub fn shuffle<T>(items: Vec<T>, picks: &Vec<usize>) -> (shuffled: Vec<T>)
    ensures
        shuffled@ == drawn(items@, picks@),
{
    let ghost given = items@;
    let mut rest = items;
    let mut shuffled: Vec<T> = Vec::new();
    let mut i: usize = 0;
    proof {
        assert(picks@.skip(0) =~= picks@);
        assert(shuffled@ + drawn(rest@, picks@) =~= drawn(given, picks@));
    }
    while i < picks.len() && rest.len() > 0
        invariant
            i <= picks.len(),
            shuffled@ + drawn(rest@, picks@.skip(i as int)) == drawn(given, picks@),
        decreases picks.len() - i,
    {
        let ghost before = rest@;
        let ghost left = picks@.skip(i as int);
        let k = picks[i] % rest.len();
        let item = rest.remove(k);
        proof {
            assert(left.drop_first() =~= picks@.skip(i + 1));
            assert(shuffled@.push(item) + drawn(rest@, picks@.skip(i + 1)) =~= shuffled@ + (
                seq![before[k as int]] + drawn(before.remove(k as int), left.drop_first())
            ));
        }
        shuffled.push(item);
        i += 1;
    }
    shuffled.append(&mut rest);
    shuffled
}

} // verus!
