//! The bag container itself: data layout, capacity policy, and the
//! construction, query and mutation operations.

use vstd::prelude::*;

verus! {

use vstd::pervasive::cloned;
use vstd::string::StringExecFns;
use vstd::std_specs::cmp::PartialEqSpec;

/// How many elements of `s` compare equal to `target`, by the element
/// type's own equality.
pub open spec fn occurrences_in<T: PartialEq>(s: Seq<T>, target: T) -> nat
    decreases s.len(),
{
    if s.len() == 0 {
        0
    } else {
        occurrences_in(s.drop_last(), target) + if s.last().eq_spec(&target) {
            1nat
        } else {
            0nat
        }
    }
}

/// `s` with every element that compares equal to `target` removed,
/// the remaining elements kept in order.
pub open spec fn without_matches<T: PartialEq>(s: Seq<T>, target: T) -> Seq<T>
    decreases s.len(),
{
    if s.len() == 0 {
        s
    } else if s.last().eq_spec(&target) {
        without_matches(s.drop_last(), target)
    } else {
        without_matches(s.drop_last(), target).push(s.last())
    }
}

/// The index of the first element of `s` that compares equal to `target`,
/// or `s.len()` if there is none.
pub open spec fn first_match<T: PartialEq>(s: Seq<T>, target: T) -> int
    decreases s.len(),
{
    if s.len() == 0 {
        0
    } else if s.first().eq_spec(&target) {
        0
    } else {
        1 + first_match(s.drop_first(), target)
    }
}

/// A multiset container backed by a vector.
///
/// The elements live in `data`, in insertion order as modified by erasures.
/// `capacity` is the logical size of the backing store and `used` the number
/// of element slots in use; the vector holds exactly the `used` elements and
/// manages its own memory for the slack `[used, capacity)`.
pub struct Bag<T> {
    data: Vec<T>,
    capacity: u64,
    used: u64,
}

impl<T> View for Bag<T> {
    type V = Seq<T>;

    /// The element sequence of the bag, in order.
    closed spec fn view(&self) -> Seq<T> {
        self.data@
    }
}

impl<T> Bag<T> {
    /// The capacity counter: how many element slots the bag accounts for.
    pub closed spec fn cap(&self) -> u64 {
        self.capacity
    }

    /// Well-formedness: the capacity is at least one, no more slots are used
    /// than the capacity allows, and the used counter matches the vector.
    pub closed spec fn wf(&self) -> bool {
        &&& 1 <= self.capacity
        &&& self.used <= self.capacity
        &&& self.data@.len() == self.used
    }

    /// A well-formed bag never holds more elements than its capacity,
    /// and its capacity is never zero.
    pub proof fn lemma_wf_bounds(&self)
        requires
            self.wf(),
        ensures
            self@.len() <= self.cap(),
            1 <= self.cap(),
    {
    }

    /// A new bag with capacity one and no elements.
    pub fn new() -> (r: Bag<T>)
        ensures
            r.wf(),
            r@ == Seq::<T>::empty(),
            r.cap() == 1,
    {
        Bag { data: Vec::new(), capacity: 1, used: 0 }
    }

    /// A new bag with the given capacity and no elements. A capacity below
    /// one is an invalid argument and is excluded by the precondition.
    pub fn new_with_capacity(initial_capacity: u64) -> (r: Bag<T>)
        requires
            1 <= initial_capacity,
        ensures
            r.wf(),
            r@ == Seq::<T>::empty(),
            r.cap() == initial_capacity,
    {
        Bag { data: Vec::new(), capacity: initial_capacity, used: 0 }
    }

    /// The vector of elements currently stored in the bag.
    pub fn get_data(&self) -> (r: &Vec<T>)
        ensures
            r@ == self@,
    {
        &self.data
    }

    /// The capacity counter.
    pub fn get_capacity(&self) -> (r: u64)
        ensures
            r == self.cap(),
    {
        self.capacity
    }

    /// The number of elements in the bag.
    pub fn size(&self) -> (r: u64)
        requires
            self.wf(),
        ensures
            r == self@.len(),
    {
        self.used
    }

    /// Grow the capacity to `new_capacity` if it is larger than the current
    /// one; otherwise leave the bag untouched. The elements and the used
    /// count never change. A capacity below one is an invalid argument and
    /// is excluded by the precondition.
    pub fn ensure_capacity(&mut self, new_capacity: u64)
        requires
            old(self).wf(),
            1 <= new_capacity,
        ensures
            final(self).wf(),
            final(self)@ == old(self)@,
            final(self).cap() == if old(self).cap() < new_capacity {
                new_capacity as int
            } else {
                old(self).cap() as int
            },
    {
        if self.capacity < new_capacity {
            self.capacity = new_capacity;
        }
    }

    /// Shrink the capacity to match the used count (to one if the bag is
    /// empty); a bag that is already tight is left untouched. The elements
    /// and the used count never change.
    pub fn trim_to_size(&mut self)
        requires
            old(self).wf(),
        ensures
            final(self).wf(),
            final(self)@ == old(self)@,
            final(self).cap() == if old(self)@.len() <= 1 {
                1int
            } else {
                old(self)@.len() as int
            },
    {
        if self.used < self.capacity {
            let new_capacity: u64 = if self.used <= 1 {
                1
            } else {
                self.used
            };
            self.capacity = new_capacity;
        }
    }

    /// The capacity that merging `other` into this bag produces: the
    /// capacity left after growing to hold both element counts, plus the
    /// capacity of `other`. Merging deliberately sums the capacities
    /// rather than tightening to the new element count.
    pub open spec fn merged_cap(&self, other: &Bag<T>) -> int {
        (if self@.len() + other@.len() > self.cap() {
            (self@.len() + other@.len()) as int
        } else {
            self.cap() as int
        }) + other.cap()
    }

    /// Merge `addend` into this bag: append all of its elements, in order,
    /// behind the existing ones, growing this bag's capacity first when the
    /// combined element count does not fit. The final capacity is the sum
    /// of the (possibly grown) capacity and the addend's capacity. The
    /// precondition only rules out capacity sums that would not fit in the
    /// capacity counter.
    pub fn add_assign(&mut self, addend: Bag<T>)
        requires
            old(self).wf(),
            addend.wf(),
            old(self).merged_cap(&addend) <= u64::MAX,
        ensures
            final(self).wf(),
            final(self)@ == old(self)@ + addend@,
            final(self).cap() == old(self).merged_cap(&addend),
    {
        let total_used = self.used + addend.used;
        if total_used > self.capacity {
            self.ensure_capacity(total_used);
        }
        let Bag { data: mut addend_data, capacity: addend_capacity, used: _ } = addend;
        self.data.append(&mut addend_data);
        self.used = total_used;
        self.capacity = self.capacity + addend_capacity;
    }

    /// The merge of two bags as a new bag: a bag with the summed capacities
    /// is created and both operands are merged into it in turn, so the
    /// elements of `self` come first and the final capacity is twice the
    /// sum of the operands' capacities. The precondition only rules out
    /// capacity sums that would not fit in the capacity counter.
    pub fn add(self, addend: Bag<T>) -> (r: Bag<T>)
        requires
            self.wf(),
            addend.wf(),
            2 * self.cap() + 2 * addend.cap() <= u64::MAX,
        ensures
            r.wf(),
            r@ == self@ + addend@,
            r.cap() == 2 * self.cap() + 2 * addend.cap(),
    {
        let mut new_bag = Bag::new_with_capacity(self.capacity + addend.capacity);
        new_bag.add_assign(self);
        new_bag.add_assign(addend);
        proof {
            assert(new_bag@ =~= self@ + addend@);
        }
        new_bag
    }

    /// The diagnostic text for this bag: the rendered elements, separated
    /// by a comma and a space, followed by the capacity and the used count.
    /// Rendering an element needs a display capability the container does
    /// not ask of its element type, so the caller passes one rendering per
    /// element, in order.
    pub fn fmt(&self, rendered: &Vec<String>) -> (r: String)
        requires
            self.wf(),
            rendered@.len() == self@.len(),
        ensures
            r@ == crate::text::diag_text(
                crate::text::views_of(rendered@),
                self.cap() as nat,
                self@.len() as nat,
            ),
    {
        let mut out = "Bag\ndata: ".to_owned();
        let items = crate::text::comma_separated(rendered);
        out.append(items.as_str());
        out.append("\ncapacity: ");
        let capacity_text = crate::text::decimal_string(self.capacity);
        out.append(capacity_text.as_str());
        out.append("\nused: ");
        let used_text = crate::text::decimal_string(self.used);
        out.append(used_text.as_str());
        out
    }

    /// Append `entry` behind the existing elements, first doubling the
    /// capacity when the bag is full. The precondition only rules out a
    /// doubling that would not fit in the capacity counter.
    pub fn insert(&mut self, entry: T)
        requires
            old(self).wf(),
            old(self)@.len() == old(self).cap() ==> old(self).cap() <= u64::MAX / 2,
        ensures
            final(self).wf(),
            final(self)@ == old(self)@.push(entry),
            final(self).cap() == if old(self)@.len() == old(self).cap() {
                2 * old(self).cap()
            } else {
                old(self).cap() as int
            },
    {
        let current_capacity = self.capacity;
        if self.used == current_capacity {
            self.ensure_capacity(current_capacity * 2);
        }
        self.data.push(entry);
        self.used = self.used + 1;
    }
}

impl<T: PartialEq> Bag<T> {
    /// What bag equality means: equal capacities, equally many elements,
    /// and elements that compare equal position by position. Two bags
    /// holding the same multiset in a different order are not equal.
    pub open spec fn equal_to(&self, other: &Bag<T>) -> bool {
        &&& self.cap() == other.cap()
        &&& self@.len() == other@.len()
        &&& forall|i: int| 0 <= i < self@.len() ==> self@[i].eq_spec(&other@[i])
    }

    /// How many elements of the bag compare equal to `target`.
    pub fn occurrences(&self, target: T) -> (r: u64)
        requires
            self.wf(),
        ensures
            r <= self@.len(),
            T::obeys_eq_spec() ==> r == occurrences_in(self@, target),
    {
        let mut answer: u64 = 0;
        let mut i: usize = 0;
        while i < self.data.len()
            invariant
                self.wf(),
                i <= self.data@.len(),
                answer <= i,
                T::obeys_eq_spec() ==> answer == occurrences_in(
                    self.data@.subrange(0, i as int),
                    target,
                ),
            decreases self.data@.len() - i,
        {
            let matches = self.data[i].eq(&target);
            proof {
                assert(self.data@.subrange(0, i + 1).drop_last() =~= self.data@.subrange(
                    0,
                    i as int,
                ));
            }
            if matches {
                answer = answer + 1;
            }
            i = i + 1;
        }
        proof {
            assert(self.data@.subrange(0, self.data@.len() as int) =~= self.data@);
        }
        answer
    }

    /// Whether the two bags are equal: same capacity, same used count, and
    /// elements that compare equal position by position.
    pub fn eq(&self, comparand: &Bag<T>) -> (r: bool)
        requires
            self.wf(),
            comparand.wf(),
        ensures
            T::obeys_eq_spec() ==> r == self.equal_to(comparand),
            self.cap() != comparand.cap() ==> !r,
            self@.len() != comparand@.len() ==> !r,
    {
        if self.capacity != comparand.capacity {
            return false;
        }
        if self.used != comparand.used {
            return false;
        }
        let mut i: usize = 0;
        while i < self.data.len()
            invariant
                self.wf(),
                comparand.wf(),
                self.data@.len() == comparand.data@.len(),
                self.cap() == comparand.cap(),
                i <= self.data@.len(),
                T::obeys_eq_spec() ==> forall|j: int|
                    0 <= j < i ==> self.data@[j].eq_spec(&comparand.data@[j]),
            decreases self.data@.len() - i,
        {
            if !self.data[i].eq(&comparand.data[i]) {
                return false;
            }
            i = i + 1;
        }
        true
    }

    /// Remove every element that compares equal to `target`, shifting the
    /// later elements left, and return how many were removed. The capacity
    /// never changes; an absent target leaves the bag untouched.
    pub fn erase(&mut self, target: T) -> (r: u64)
        requires
            old(self).wf(),
        ensures
            final(self).wf(),
            final(self).cap() == old(self).cap(),
            final(self)@.len() + r == old(self)@.len(),
            T::obeys_eq_spec() ==> final(self)@ == without_matches(old(self)@, target)
                && r == occurrences_in(old(self)@, target),
    {
        let ghost orig = self.data@;
        let mut index: usize = 0;
        let mut number_removed: u64 = 0;
        while index < self.data.len()
            invariant
                self.wf(),
                self.cap() == old(self).cap(),
                index <= self.data@.len(),
                orig.len() <= u64::MAX,
                self.data@.len() + number_removed == orig.len(),
                T::obeys_eq_spec() ==> {
                    &&& self.data@ == without_matches(
                        orig.subrange(0, index + number_removed),
                        target,
                    ) + orig.subrange(index + number_removed, orig.len() as int)
                    &&& number_removed == occurrences_in(
                        orig.subrange(0, index + number_removed),
                        target,
                    )
                },
            decreases self.data@.len() - index,
        {
            let ghost j = index as int + number_removed as int;
            let ghost pre = self.data@;
            proof {
                if T::obeys_eq_spec() {
                    crate::laws::lemma_without_matches_len(orig.subrange(0, j), target);
                }
                assert(orig.subrange(0, j + 1).drop_last() =~= orig.subrange(0, j));
            }
            let matches = self.data[index].eq(&target);
            if matches {
                self.data.remove(index);
                self.used = self.used - 1;
                number_removed = number_removed + 1;
                proof {
                    if T::obeys_eq_spec() {
                        let w = without_matches(orig.subrange(0, j), target);
                        assert(pre[index as int] == orig[j]);
                        assert(self.data@ =~= w + orig.subrange(j + 1, orig.len() as int));
                    }
                }
            } else {
                index = index + 1;
                proof {
                    if T::obeys_eq_spec() {
                        let w = without_matches(orig.subrange(0, j), target);
                        assert(pre[index as int - 1] == orig[j]);
                        assert(self.data@ =~= w.push(orig[j]) + orig.subrange(
                            j + 1,
                            orig.len() as int,
                        ));
                    }
                }
            }
        }
        proof {
            assert(orig.subrange(0, index + number_removed) =~= orig);
            if T::obeys_eq_spec() {
                assert(self.data@ =~= without_matches(orig, target) + orig.subrange(
                    orig.len() as int,
                    orig.len() as int,
                ));
                assert(without_matches(orig, target) + orig.subrange(
                    orig.len() as int,
                    orig.len() as int,
                ) =~= without_matches(orig, target));
            }
        }
        number_removed
    }

    /// Remove the first element that compares equal to `target`, shifting
    /// the later elements left once, and return whether one was found. The
    /// capacity never changes; an absent target leaves the bag untouched.
    pub fn erase_one(&mut self, target: T) -> (r: bool)
        requires
            old(self).wf(),
        ensures
            final(self).wf(),
            final(self).cap() == old(self).cap(),
            final(self)@.len() + (if r { 1int } else { 0int }) == old(self)@.len(),
            !r ==> final(self)@ == old(self)@,
            T::obeys_eq_spec() ==> {
                if first_match(old(self)@, target) == old(self)@.len() {
                    !r
                } else {
                    r && final(self)@ == old(self)@.remove(first_match(old(self)@, target))
                }
            },
    {
        let mut index: usize = 0;
        while index < self.data.len()
            invariant
                self.wf(),
                self.cap() == old(self).cap(),
                self@ == old(self)@,
                index <= self@.len(),
                T::obeys_eq_spec() ==> forall|j: int|
                    0 <= j < index ==> !self@[j].eq_spec(&target),
            decreases self@.len() - index,
        {
            let matches = self.data[index].eq(&target);
            if matches {
                proof {
                    if T::obeys_eq_spec() {
                        crate::laws::lemma_first_match_properties(self@, target);
                        let k = first_match(self@, target);
                        if k < index {
                            assert(self@[k].eq_spec(&target));
                            assert(false);
                        }
                        if k > index {
                            assert(!self@[index as int].eq_spec(&target));
                            assert(false);
                        }
                    }
                }
                self.data.remove(index);
                self.used = self.used - 1;
                return true;
            }
            index = index + 1;
        }
        proof {
            if T::obeys_eq_spec() {
                crate::laws::lemma_first_match_properties(self@, target);
                let k = first_match(self@, target);
                if k < self@.len() {
                    assert(self@[k].eq_spec(&target));
                    assert(false);
                }
            }
        }
        false
    }

    /// Whether the two bags are not equal: the negation of [`Bag::eq`].
    pub fn ne(&self, comparand: &Bag<T>) -> (r: bool)
        requires
            self.wf(),
            comparand.wf(),
        ensures
            T::obeys_eq_spec() ==> r == !self.equal_to(comparand),
            self.cap() != comparand.cap() ==> r,
            self@.len() != comparand@.len() ==> r,
    {
        !self.eq(comparand)
    }
}

impl<T: Clone> Bag<T> {
    /// A new bag copied from `source`: same capacity, and one clone of each
    /// element, in order. The copy owns its own backing store, so mutating
    /// either bag afterwards never affects the other.
    pub fn new_from_bag(source: &Bag<T>) -> (r: Bag<T>)
        requires
            source.wf(),
        ensures
            r.wf(),
            r.cap() == source.cap(),
            r@.len() == source@.len(),
            forall|i: int| 0 <= i < source@.len() ==> cloned::<T>(source@[i], r@[i]),
    {
        let mut dest: Vec<T> = Vec::new();
        let mut i: usize = 0;
        while i < source.data.len()
            invariant
                source.wf(),
                i <= source.data@.len(),
                dest@.len() == i,
                forall|k: int| 0 <= k < i ==> cloned::<T>(source.data@[k], dest@[k]),
            decreases source.data@.len() - i,
        {
            dest.push(source.data[i].clone());
            i = i + 1;
        }
        Bag { data: dest, capacity: source.capacity, used: source.used }
    }

    /// A copy of this bag, by way of [`Bag::new_from_bag`].
    pub fn clone(&self) -> (r: Bag<T>)
        requires
            self.wf(),
        ensures
            r.wf(),
            r.cap() == self.cap(),
            r@.len() == self@.len(),
            forall|i: int| 0 <= i < self@.len() ==> cloned::<T>(self@[i], r@[i]),
    {
        Bag::new_from_bag(self)
    }
}

} // verus!
