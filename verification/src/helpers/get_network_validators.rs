//! The order in which the validators of a fetched set are presented.

use crate::types::validator::Validator;
use vstd::prelude::*;

verus! {

/// Whether the stakes of a list never rise from one validator to the next.
pub open spec fn descending_by_stake(validators: Seq<Validator>) -> bool {
    forall|i: int, j: int|
        0 <= i <= j < validators.len() ==> validators[i].stake >= validators[j].stake
}

/// The validators of a list that have the given stake, in the list's order.
pub open spec fn with_stake(validators: Seq<Validator>, stake: u64) -> Seq<Validator> {
    validators.filter(|v: Validator| v.stake == stake)
}

/// Whether `sorted` holds the validators of `fetched` by descending stake,
/// those of equal stake in the order in which they were fetched.
pub open spec fn sorted_by_stake(sorted: Seq<Validator>, fetched: Seq<Validator>) -> bool {
    &&& sorted.len() == fetched.len()
    &&& descending_by_stake(sorted)
    &&& forall|stake: u64| #[trigger] with_stake(sorted, stake) == with_stake(fetched, stake)
}

proof fn moving_forward_keeps_stakes(s: Seq<Validator>, from: int, to: int, stake: u64)
    requires
        0 <= to <= from < s.len(),
        forall|k: int| to <= k < from ==> s[k].stake != s[from].stake,
    ensures
        with_stake(s.remove(from).insert(to, s[from]), stake) == with_stake(s, stake),
{
    let held = |v: Validator| v.stake == stake;
    let head = s.subrange(0, to);
    let passed = s.subrange(to, from);
    let moved = seq![s[from]];
    let rest = s.subrange(from + 1, s.len() as int);
    assert(s =~= head + passed + moved + rest);
    assert(s.remove(from).insert(to, s[from]) =~= head + moved + passed + rest);
    Seq::filter_distributes_over_add(head + passed + moved, rest, held);
    Seq::filter_distributes_over_add(head + passed, moved, held);
    Seq::filter_distributes_over_add(head, passed, held);
    Seq::filter_distributes_over_add(head + moved + passed, rest, held);
    Seq::filter_distributes_over_add(head + moved, passed, held);
    Seq::filter_distributes_over_add(head, moved, held);
    if s[from].stake == stake {
        passed.lemma_all_neg_filter_empty(held);
        assert(passed.filter(held) =~= Seq::empty());
    } else {
        moved.lemma_all_neg_filter_empty(held);
        assert(moved.filter(held) =~= Seq::empty());
    }
    assert(head.filter(held) + moved.filter(held) + passed.filter(held) + rest.filter(held)
        =~= head.filter(held) + passed.filter(held) + moved.filter(held) + rest.filter(held));
}

/// Sorts the validators by descending stake. Validators of equal stake keep
/// the order in which they came.
pub fn sort_by_stake(validators: Vec<Validator>) -> (sorted: Vec<Validator>)
    ensures
        sorted_by_stake(sorted@, validators@),
{
    let mut sorted = validators;
    let count = sorted.len();
    let mut next: usize = 0;
    while next < count
        invariant
            next <= count,
            count == sorted@.len(),
            count == validators@.len(),
            descending_by_stake(sorted@.take(next as int)),
            forall|stake: u64| #[trigger] with_stake(sorted@, stake) == with_stake(validators@, stake),
        decreases count - next,
    {
        let stake = sorted[next].stake;
        let mut place: usize = next;
        while place > 0 && sorted[place - 1].stake < stake
            invariant
                place <= next < count,
                count == sorted@.len(),
                stake == sorted@[next as int].stake,
                forall|k: int| place <= k < next ==> sorted@[k].stake < stake,
            decreases place,
        {
            place -= 1;
        }
        let ghost before = sorted@;
        proof {
            assert forall|wanted: u64| #[trigger]
                with_stake(before.remove(next as int).insert(place as int, before[next as int]), wanted)
                == with_stake(validators@, wanted) by {
                moving_forward_keeps_stakes(before, next as int, place as int, wanted);
                assert(with_stake(before, wanted) == with_stake(validators@, wanted));
            }
        }
        let moved = sorted.remove(next);
        sorted.insert(place, moved);
        proof {
            let prefix = sorted@.take(next + 1);
            assert forall|i: int, j: int| 0 <= i <= j < prefix.len() implies prefix[i].stake
                >= prefix[j].stake by {
                let earlier = before.take(next as int);
                if j < place {
                    assert(prefix[i] == earlier[i] && prefix[j] == earlier[j]);
                } else if j == place {
                    if i < place {
                        assert(prefix[i] == earlier[i]);
                        if place > 0 {
                            assert(earlier[place - 1].stake >= stake);
                            assert(earlier[i].stake >= earlier[place - 1].stake);
                        }
                    }
                } else {
                    assert(prefix[j] == earlier[j - 1]);
                    if i < place {
                        assert(prefix[i] == earlier[i]);
                    } else if i > place {
                        assert(prefix[i] == earlier[i - 1]);
                    }
                }
            }
        }
        next += 1;
    }
    assert(sorted@.take(count as int) =~= sorted@);
    sorted
}

} // verus!
