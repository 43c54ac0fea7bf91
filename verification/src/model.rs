//! The mathematical model of the vector: its elements as a sequence, its
//! capacity as a number, and the operations as functions on the two. The
//! proof functions state what the growth rule implies for every vector that
//! appends can produce.

use vstd::prelude::*;
use vstd::layout::size_of;
use vstd::arithmetic::power2::{
    lemma2_to64, lemma_pow2_pos, lemma_pow2_strictly_increases, lemma_pow2_unfold, pow2,
};

verus! {

/// Number of slots that the first append allocates.
pub const INITIAL_CAPACITY: usize = 4;

/// Factor by which the buffer grows when an append finds it full.
pub const GROWTH_FACTOR: usize = 2;

/// Whether `capacity` is the least of the sizes that a buffer can take, the
/// initial capacity times a power of two, that has room for `len` elements.
pub open spec fn is_least_capacity_for(capacity: nat, len: nat) -> bool {
    &&& exists|k: nat| capacity == INITIAL_CAPACITY * #[trigger] pow2(k)
    &&& len <= capacity
    &&& forall|k: nat|
        len <= INITIAL_CAPACITY * #[trigger] pow2(k) ==> capacity <= INITIAL_CAPACITY * pow2(k)
}

/// What a vector is, seen from outside: the live elements in index order and
/// the number of slots in its buffer. A capacity of zero stands for a vector
/// that has not allocated.
pub struct MyVecView<T> {
    pub items: Seq<T>,
    pub capacity: nat,
}

impl<T> MyVecView<T> {
    /// The vector as constructed: no element, no buffer.
    pub open spec fn empty() -> Self {
        MyVecView { items: Seq::empty(), capacity: 0 }
    }

    /// Number of live elements.
    pub open spec fn len(self) -> nat {
        self.items.len()
    }

    /// The capacity that one more append leaves. An unallocated vector
    /// allocates the initial capacity, a vector with a free slot keeps its
    /// buffer, a full one multiplies it by the growth factor.
    pub open spec fn capacity_after_push(self) -> nat {
        if self.capacity == 0 {
            INITIAL_CAPACITY as nat
        } else if self.items.len() < self.capacity {
            self.capacity
        } else {
            GROWTH_FACTOR as nat * self.capacity
        }
    }

    /// The vector after `item` is appended.
    pub open spec fn push(self, item: T) -> Self {
        MyVecView { items: self.items.push(item), capacity: self.capacity_after_push() }
    }

    /// The element at `index`, or `None` where `index` names no live element.
    pub open spec fn get(self, index: int) -> Option<T> {
        if 0 <= index < self.items.len() {
            Some(self.items[index])
        } else {
            None
        }
    }

    /// The vector after the elements of `items` are appended one by one, in
    /// order.
    pub open spec fn push_all(self, items: Seq<T>) -> Self
        decreases items.len(),
    {
        if items.len() == 0 {
            self
        } else {
            self.push_all(items.drop_last()).push(items.last())
        }
    }

    /// Whether appends to the empty vector produce this vector. The elements
    /// appended are then its own, so this fixes the capacity by the length.
    pub open spec fn reachable(self) -> bool {
        self == Self::empty().push_all(self.items)
    }

    /// What holds of every vector in memory: appends produced it, and its
    /// buffer, measured in bytes, is within the limit on the size of an
    /// allocation. An element type without size never gets a buffer.
    pub open spec fn well_formed(self) -> bool {
        &&& self.reachable()
        &&& self.capacity * size_of::<T>() <= isize::MAX
        &&& self.capacity > 0 ==> size_of::<T>() != 0
    }

    /// Whether one more element can be appended: the element type occupies
    /// memory, and the buffer that the append leaves is within the limit on
    /// the size of an allocation.
    pub open spec fn admits_push(self) -> bool {
        &&& size_of::<T>() != 0
        &&& self.capacity_after_push() * size_of::<T>() <= isize::MAX
    }

    /// Appending a sequence that ends in `item` is appending the sequence
    /// before it and then `item`.
    pub proof fn lemma_push_all_push(self, items: Seq<T>, item: T)
        ensures
            self.push_all(items.push(item)) == self.push_all(items).push(item),
    {
        assert(items.push(item).drop_last() =~= items);
    }

    /// Appends add to the end: the elements already there stay where they
    /// are, and the appended ones follow in order.
    pub proof fn lemma_push_all_items(self, more: Seq<T>)
        ensures
            self.push_all(more).items == self.items + more,
        decreases more.len(),
    {
        if more.len() > 0 {
            self.lemma_push_all_items(more.drop_last());
            assert(self.items + more =~= (self.items + more.drop_last()).push(more.last()));
        } else {
            assert(self.items + more =~= self.items);
        }
    }

    /// Appends never shrink the buffer.
    pub proof fn lemma_push_all_capacity(self, more: Seq<T>)
        ensures
            self.push_all(more).capacity >= self.capacity,
        decreases more.len(),
    {
        if more.len() > 0 {
            self.lemma_push_all_capacity(more.drop_last());
        }
    }

    /// An element, once appended, is read back at its index whatever is
    /// appended after it, whether or not the buffer grows on the way.
    pub proof fn lemma_push_all_keeps(self, more: Seq<T>, index: int)
        requires
            0 <= index < self.len(),
        ensures
            self.push_all(more).get(index) == self.get(index),
    {
        self.lemma_push_all_items(more);
    }

    /// At an index that is not below the length there is no element. This
    /// holds of every vector, the empty one included.
    pub proof fn lemma_get_absent(self, index: int)
        requires
            index >= self.len(),
        ensures
            self.get(index) is None,
    {
    }

    /// After `items` are appended to the empty vector, the vector holds each
    /// of them at its position and answers `None` at every other index.
    pub proof fn lemma_get_after_pushes(items: Seq<T>, index: int)
        ensures
            Self::empty().push_all(items).items == items,
            0 <= index < items.len() ==> Self::empty().push_all(items).get(index) == Some(
                items[index],
            ),
            !(0 <= index < items.len()) ==> Self::empty().push_all(items).get(index) is None,
    {
        Self::empty().lemma_push_all_items(items);
        assert(Seq::<T>::empty() + items =~= items);
    }

    /// The exponent of the capacity that appends to the empty vector leave:
    /// the buffer holds the initial capacity times two to that power, has
    /// room for the elements, and has grown only when it was full.
    proof fn lemma_capacity_exponent(items: Seq<T>) -> (k: nat)
        requires
            items.len() > 0,
        ensures
            Self::empty().push_all(items).capacity == INITIAL_CAPACITY * pow2(k),
            items.len() <= Self::empty().push_all(items).capacity,
            k == 0 || Self::empty().push_all(items).capacity < 2 * items.len(),
        decreases items.len(),
    {
        let before = items.drop_last();
        Self::empty().lemma_push_all_items(before);
        if before.len() == 0 {
            lemma2_to64();
            0
        } else {
            let j: nat = Self::lemma_capacity_exponent(before);
            lemma_pow2_pos(j);
            if before.len() < Self::empty().push_all(before).capacity {
                j
            } else {
                lemma_pow2_unfold(j + 1);
                j + 1
            }
        }
    }

    /// After one or more appends to the empty vector the capacity is the
    /// least one, among the initial capacity times a power of two, that has
    /// room for the elements.
    pub proof fn lemma_capacity_after_pushes(items: Seq<T>)
        requires
            items.len() > 0,
        ensures
            is_least_capacity_for(Self::empty().push_all(items).capacity, items.len()),
    {
        let capacity: nat = Self::empty().push_all(items).capacity;
        let k: nat = Self::lemma_capacity_exponent(items);
        assert forall|j: nat| items.len() <= INITIAL_CAPACITY * #[trigger] pow2(j) implies capacity
            <= INITIAL_CAPACITY * pow2(j) by {
            lemma_pow2_pos(j);
            if j < k {
                // Then the buffer grew past 4 * 2^j, which it does only when
                // more elements than that are held.
                lemma_pow2_unfold(k);
                if j < k - 1 {
                    lemma_pow2_strictly_increases(j, (k - 1) as nat);
                }
            } else if k < j {
                lemma_pow2_strictly_increases(k, j);
            }
        }
    }

    /// After `items` are appended to the empty vector, the length is their
    /// number and the capacity is at least that. Nothing is allocated exactly
    /// as long as nothing was appended.
    pub proof fn lemma_length_and_capacity_after_pushes(items: Seq<T>)
        ensures
            Self::empty().push_all(items).len() == items.len(),
            Self::empty().push_all(items).capacity >= items.len(),
            items.len() == 0 <==> Self::empty().push_all(items).capacity == 0,
    {
        Self::lemma_get_after_pushes(items, 0);
        if items.len() > 0 {
            let k: nat = Self::lemma_capacity_exponent(items);
        }
    }

    /// The first capacities: four slots for up to four elements, eight for
    /// five to eight, sixteen for nine to sixteen.
    pub proof fn lemma_first_capacities(items: Seq<T>)
        ensures
            1 <= items.len() <= 4 ==> Self::empty().push_all(items).capacity == 4,
            5 <= items.len() <= 8 ==> Self::empty().push_all(items).capacity == 8,
            9 <= items.len() <= 16 ==> Self::empty().push_all(items).capacity == 16,
    {
        if items.len() > 0 {
            let k: nat = Self::lemma_capacity_exponent(items);
            lemma2_to64();
            if k > 3 {
                lemma_pow2_strictly_increases(3, k);
            }
        }
    }

    /// What holds of every vector that appends produce: the length is within
    /// the capacity, nothing is allocated exactly as long as nothing was
    /// appended, and the capacity is the least one that fits.
    pub proof fn lemma_reachable(self)
        requires
            self.reachable(),
        ensures
            self.len() <= self.capacity,
            self.len() == 0 <==> self.capacity == 0,
            self.len() > 0 ==> is_least_capacity_for(self.capacity, self.len()),
            self.capacity_after_push() >= self.len() + 1,
    {
        Self::lemma_length_and_capacity_after_pushes(self.items);
        if self.len() > 0 {
            Self::lemma_capacity_after_pushes(self.items);
        }
    }

    /// Every slot of the buffer starts at a byte offset below the limit on
    /// the size of an allocation, so placing an element in a free slot never
    /// reaches beyond it.
    pub proof fn lemma_slot_offset_within_limit(self, slot: nat)
        requires
            self.well_formed(),
            slot < self.capacity,
        ensures
            slot * size_of::<T>() < isize::MAX,
    {
        assert(slot * size_of::<T>() < self.capacity * size_of::<T>()) by (nonlinear_arith)
            requires
                slot < self.capacity,
                size_of::<T>() > 0,
        ;
    }

    /// A vector of elements without size is empty and stays so: no append to
    /// it is admitted.
    pub proof fn lemma_zero_sized_stays_empty(self)
        requires
            self.well_formed(),
            size_of::<T>() == 0,
        ensures
            self == Self::empty(),
            !self.admits_push(),
    {
        self.lemma_reachable();
        assert(self.items =~= Seq::<T>::empty());
    }

    /// An append that is admitted leads from one well-formed vector to
    /// another.
    pub proof fn lemma_push_well_formed(self, item: T)
        requires
            self.well_formed(),
            self.admits_push(),
        ensures
            self.push(item).well_formed(),
    {
        Self::empty().lemma_push_all_push(self.items, item);
    }
}

} // verus!
