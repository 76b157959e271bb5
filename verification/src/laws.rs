//! The container's laws: properties that relate several operations,
//! stated over the element-sequence model and proved once and for all.

use vstd::prelude::*;

verus! {

use vstd::laws_eq::obeys_concrete_eq;
use vstd::pervasive::cloned;
use vstd::std_specs::cmp::PartialEqSpec;
use crate::bag::{Bag, first_match, occurrences_in, without_matches};

/// A clone operation that never strays from its input: every value the
/// element type's `clone` can return compares equal, in the logical sense,
/// to the value it was cloned from.
pub open spec fn clone_exact<T: Clone>() -> bool {
    forall|x: T, y: T| cloned::<T>(x, y) ==> x == y
}

/// A copied bag is equal to its source, provided the element type's clone
/// hands back its input and its equality agrees with logical equality.
pub proof fn lemma_copy_is_equal<T: PartialEq + Clone>(source: &Bag<T>, copy: &Bag<T>)
    requires
        obeys_concrete_eq::<T>(),
        clone_exact::<T>(),
        copy.cap() == source.cap(),
        copy@.len() == source@.len(),
        forall|i: int| 0 <= i < source@.len() ==> cloned::<T>(source@[i], copy@[i]),
    ensures
        copy.equal_to(source),
        source.equal_to(copy),
{
    reveal(vstd::laws_eq::obeys_concrete_eq);
    assert forall|i: int| 0 <= i < copy@.len() implies copy@[i].eq_spec(&source@[i])
        && source@[i].eq_spec(&copy@[i]) by {
        assert(cloned::<T>(source@[i], copy@[i]));
    }
}

/// The hypotheses of [`lemma_copy_is_equal`] are satisfiable: the unsigned
/// word type clones exactly and compares by value.
pub proof fn lemma_u64_copies_exactly()
    ensures
        obeys_concrete_eq::<u64>(),
        clone_exact::<u64>(),
{
    broadcast use vstd::laws_eq::group_laws_eq;

    assert(obeys_concrete_eq::<u64>());
    assert forall|x: u64, y: u64| cloned::<u64>(x, y) implies x == y by {
    }
}

/// Removing every match of `target` removes exactly as many elements as
/// `target` had occurrences; everything else stays.
pub proof fn lemma_without_matches_len<T: PartialEq>(s: Seq<T>, target: T)
    ensures
        without_matches(s, target).len() + occurrences_in(s, target) == s.len(),
    decreases s.len(),
{
    if s.len() > 0 {
        lemma_without_matches_len(s.drop_last(), target);
    }
}

/// After erasing every occurrence of a value, that value no longer occurs:
/// the sequence `erase` leaves behind counts zero for its target.
pub proof fn lemma_erase_removes_all<T: PartialEq>(s: Seq<T>, target: T)
    ensures
        occurrences_in(without_matches(s, target), target) == 0,
    decreases s.len(),
{
    if s.len() > 0 {
        lemma_erase_removes_all(s.drop_last(), target);
        if !s.last().eq_spec(&target) {
            let w = without_matches(s.drop_last(), target);
            assert(w.push(s.last()).drop_last() =~= w);
        }
    }
}

/// Removing one element that matches the target lowers the target's count
/// by exactly one: `erase_one` removes at most one occurrence.
pub proof fn lemma_remove_match_decrements<T: PartialEq>(s: Seq<T>, target: T, i: int)
    requires
        0 <= i < s.len(),
        s[i].eq_spec(&target),
    ensures
        occurrences_in(s.remove(i), target) + 1 == occurrences_in(s, target),
    decreases s.len(),
{
    if i == s.len() - 1 {
        assert(s.remove(i) =~= s.drop_last());
    } else {
        lemma_remove_match_decrements(s.drop_last(), target, i);
        assert(s.remove(i).drop_last() =~= s.drop_last().remove(i));
        assert(s.remove(i).last() == s.last());
    }
}

/// The first match is a position within the sequence (or the length, when
/// nothing matches), it does match, and no earlier position does.
pub proof fn lemma_first_match_properties<T: PartialEq>(s: Seq<T>, target: T)
    ensures
        0 <= first_match(s, target) <= s.len(),
        first_match(s, target) < s.len() ==> s[first_match(s, target)].eq_spec(&target),
        forall|j: int| 0 <= j < first_match(s, target) ==> !s[j].eq_spec(&target),
    decreases s.len(),
{
    if s.len() > 0 && !s.first().eq_spec(&target) {
        lemma_first_match_properties(s.drop_first(), target);
        let k = first_match(s.drop_first(), target);
        assert forall|j: int| 0 <= j < 1 + k implies !s[j].eq_spec(&target) by {
            if j > 0 {
                assert(s.drop_first()[j - 1] == s[j]);
            }
        }
        if k < s.drop_first().len() {
            assert(s.drop_first()[k] == s[1 + k]);
        }
    }
}

/// Merging two bags adds the occurrence counts: for every value, the count
/// in the concatenation is the sum of the counts in the two parts.
pub proof fn lemma_occurrences_of_concat<T: PartialEq>(s1: Seq<T>, s2: Seq<T>, target: T)
    ensures
        occurrences_in(s1 + s2, target) == occurrences_in(s1, target) + occurrences_in(
            s2,
            target,
        ),
    decreases s2.len(),
{
    if s2.len() == 0 {
        assert(s1 + s2 =~= s1);
    } else {
        lemma_occurrences_of_concat(s1, s2.drop_last(), target);
        assert((s1 + s2).drop_last() =~= s1 + s2.drop_last());
        assert((s1 + s2).last() == s2.last());
    }
}

} // verus!
