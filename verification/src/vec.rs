//! A draining filter for vectors.

use vstd::prelude::*;

verus! {

/// The elements of `s` split into `kept` and `taken` with both sides in
/// `s`'s own order: walking `s` from the back, each element is the last of
/// one of the two sides.
pub open spec fn split_in_order<T>(s: Seq<T>, kept: Seq<T>, taken: Seq<T>) -> bool
    decreases s.len(),
{
    if s.len() == 0 {
        kept.len() == 0 && taken.len() == 0
    } else {
        ||| (kept.len() > 0 && s.last() == kept.last() && split_in_order(
            s.drop_last(),
            kept.drop_last(),
            taken,
        ))
        ||| (taken.len() > 0 && s.last() == taken.last() && split_in_order(
            s.drop_last(),
            kept,
            taken.drop_last(),
        ))
    }
}

/// Take only the elements that return `true` from the given condition.
pub trait TakeOnly<T> {
    /// The elements, for stating what a take leaves behind.
    spec fn elems(&self) -> Seq<T>;

    /// Take only the elements that return `true` from the given
    /// condition, removing them; the rest stay behind. Together the two
    /// parts hold exactly what was there before, each side keeping the
    /// elements' original relative order.
    fn take_only<F: Fn(&T) -> bool>(&mut self, cond: F) -> (r: Vec<T>)
        requires
            forall|t: &T| #[trigger] call_requires(cond, (t,)),
        ensures
            split_in_order(old(self).elems(), final(self).elems(), r@),
            old(self).elems().to_multiset() == final(self).elems().to_multiset().add(
                r@.to_multiset(),
            ),
            forall|i: int| 0 <= i < r@.len() ==> call_ensures(cond, (&r@[i],), true),
            forall|i: int|
                0 <= i < final(self).elems().len() ==> call_ensures(
                    cond,
                    (&final(self).elems()[i],),
                    false,
                ),
    ;
}

impl<T> TakeOnly<T> for Vec<T> {
    open spec fn elems(&self) -> Seq<T> {
        self@
    }

    fn take_only<F: Fn(&T) -> bool>(&mut self, cond: F) -> (r: Vec<T>) {
        let ghost s0 = self@;
        let mut taken: Vec<T> = Vec::new();
        let mut i: usize = 0;
        proof {
            broadcast use vstd::multiset::group_multiset_axioms;

            assert forall|e: T|
                old(self)@.to_multiset().count(e) == self@.to_multiset().add(
                    taken@.to_multiset(),
                ).count(e) by {
                vstd::seq_lib::to_multiset_contains::<T>(taken@, e);
            }
            assert(old(self)@.to_multiset() =~= self@.to_multiset().add(taken@.to_multiset()));
        }
        while i < self.len()
            invariant
                i <= self@.len(),
                forall|t: &T| #[trigger] call_requires(cond, (t,)),
                s0 == old(self)@,
                i + taken@.len() <= s0.len(),
                self@.subrange(i as int, self@.len() as int) == s0.subrange(
                    i + taken@.len(),
                    s0.len() as int,
                ),
                split_in_order(
                    s0.subrange(0, i + taken@.len()),
                    self@.subrange(0, i as int),
                    taken@,
                ),
                old(self)@.to_multiset() == self@.to_multiset().add(taken@.to_multiset()),
                forall|j: int| 0 <= j < taken@.len() ==> call_ensures(cond, (&taken@[j],), true),
                forall|j: int| 0 <= j < i ==> call_ensures(cond, (&self@[j],), false),
            decreases self@.len() - i,
        {
            let ghost processed = i + taken@.len();
            let ghost kept_prefix = self@.subrange(0, i as int);
            proof {
                assert(self@.len() - i == s0.len() - processed) by {
                    assert(self@.subrange(i as int, self@.len() as int).len() == s0.subrange(
                        processed,
                        s0.len() as int,
                    ).len());
                }
                assert(processed < s0.len());
                assert(self@[i as int] == s0[processed]) by {
                    assert(self@.subrange(i as int, self@.len() as int)[0] == s0.subrange(
                        processed,
                        s0.len() as int,
                    )[0]);
                }
                assert(s0.subrange(0, processed + 1).drop_last() =~= s0.subrange(0, processed));
                assert(s0.subrange(0, processed + 1).last() == s0[processed]);
            }
            let cond_result = cond(&self[i]);
            if cond_result {
                let ghost pre = self@;
                let ghost pre_taken = taken@;
                let moved = self.remove(i);
                taken.push(moved);
                proof {
                    broadcast use vstd::multiset::group_multiset_axioms;

                    vstd::seq_lib::to_multiset_remove::<T>(pre, i as int);
                    vstd::seq_lib::to_multiset_build::<T>(pre_taken, moved);
                    assert(pre.to_multiset().count(moved) > 0) by {
                        vstd::seq_lib::to_multiset_contains::<T>(pre, moved);
                        assert(pre.contains(moved)) by {
                            assert(pre[i as int] == moved);
                        }
                    }
                    assert(self@.to_multiset().add(taken@.to_multiset()) =~= pre.to_multiset().add(
                        pre_taken.to_multiset(),
                    ));
                    assert(taken@.drop_last() =~= pre_taken);
                    assert(self@.subrange(0, i as int) =~= kept_prefix);
                    assert(split_in_order(
                        s0.subrange(0, processed + 1),
                        self@.subrange(0, i as int),
                        taken@,
                    ));
                    assert forall|k: int| 0 <= k < self@.len() - i implies self@.subrange(
                        i as int,
                        self@.len() as int,
                    )[k] == s0.subrange(processed + 1, s0.len() as int)[k] by {
                        assert(self@[i + k] == pre[i + k + 1]);
                        assert(pre.subrange(i as int, pre.len() as int)[k + 1] == s0.subrange(
                            processed,
                            s0.len() as int,
                        )[k + 1]);
                    }
                    assert(self@.subrange(i as int, self@.len() as int) =~= s0.subrange(
                        processed + 1,
                        s0.len() as int,
                    ));
                }
            } else {
                i += 1;
                proof {
                    assert(self@.subrange(0, i as int).drop_last() =~= kept_prefix);
                    assert(self@.subrange(0, i as int).last() == self@[i - 1]);
                    assert(split_in_order(
                        s0.subrange(0, processed + 1),
                        self@.subrange(0, i as int),
                        taken@,
                    ));
                    assert forall|k: int| 0 <= k < self@.len() - i implies self@.subrange(
                        i as int,
                        self@.len() as int,
                    )[k] == s0.subrange(processed + 1, s0.len() as int)[k] by {
                        assert(self@.subrange(i - 1, self@.len() as int)[k + 1] == s0.subrange(
                            processed,
                            s0.len() as int,
                        )[k + 1]);
                    }
                    assert(self@.subrange(i as int, self@.len() as int) =~= s0.subrange(
                        processed + 1,
                        s0.len() as int,
                    ));
                }
            }
        }
        proof {
            assert(s0.subrange(0, i + taken@.len()) =~= s0);
            assert(self@.subrange(0, i as int) =~= self@);
        }
        taken
    }
}

} // verus!
