//! The executable vector, verified against the model.

use vstd::prelude::*;
use vstd::arithmetic::div_mod::{lemma_fundamental_div_mod, lemma_mod_bound};
use crate::model::{MyVecView, GROWTH_FACTOR, INITIAL_CAPACITY};

verus! {

/// A growable vector of `T`.
///
/// The elements live in one buffer that the vector alone owns. `capacity` is
/// the number of slots that the growth rule has asked for so far: the buffer
/// is reserved to that size whenever the rule changes it, and it never
/// shrinks. A reference handed out by [`MyVec::get`] borrows the vector, so
/// none is left when an append moves the buffer.
///
/// When the vector is dropped, its elements are dropped in index order, each
/// once, and then the buffer is released whole, at the size it was allocated
/// with.
pub struct MyVec<T> {
    data: Vec<T>,
    capacity: usize,
}

/// `count` slots of `size` bytes each are within `limit` bytes exactly when
/// `count` is at most the number of whole slots that go into `limit`.
proof fn lemma_count_within_limit(count: nat, size: nat, limit: nat)
    requires
        size > 0,
    ensures
        count * size <= limit <==> count <= limit / size,
{
    let whole: nat = limit / size;
    let rest: nat = limit % size;
    lemma_fundamental_div_mod(limit as int, size as int);
    lemma_mod_bound(limit as int, size as int);
    assert(count * size <= limit <==> count <= whole) by (nonlinear_arith)
        requires
            limit == size * whole + rest,
            0 <= rest < size,
    ;
}

impl<T> MyVec<T> {
    /// The elements and the capacity.
    pub closed spec fn view(&self) -> MyVecView<T> {
        MyVecView { items: self.data@, capacity: self.capacity as nat }
    }

    #[verifier::type_invariant]
    spec fn inv(&self) -> bool {
        self@.well_formed()
    }

    /// An empty vector. Nothing is allocated.
    pub fn new() -> (v: Self)
        ensures
            v@ == MyVecView::<T>::empty(),
    {
        MyVec { data: Vec::new(), capacity: 0 }
    }

    /// The number of slots in the buffer, zero before the first append.
    pub fn capacity(&self) -> (c: usize)
        ensures
            c == self@.capacity,
            self@.well_formed(),
    {
        proof {
            use_type_invariant(self);
        }
        self.capacity
    }

    /// The number of elements.
    pub fn length(&self) -> (n: usize)
        ensures
            n == self@.len(),
            self@.well_formed(),
    {
        proof {
            use_type_invariant(self);
        }
        self.data.len()
    }

    /// Whether [`MyVec::push`] may be called: `T` has a size other than zero,
    /// and the buffer that the append leaves is within `isize::MAX` bytes.
    pub fn can_push(&self) -> (ok: bool)
        ensures
            ok == self@.admits_push(),
            self@.well_formed(),
    {
        proof {
            use_type_invariant(self);
            self@.lemma_reachable();
        }
        let size: usize = core::mem::size_of::<T>();
        if size == 0 {
            return false;
        }
        let limit: usize = isize::MAX as usize / size;
        proof {
            lemma_count_within_limit(self@.capacity_after_push(), size as nat, isize::MAX as nat);
        }
        if self.capacity == 0 {
            INITIAL_CAPACITY <= limit
        } else if self.data.len() < self.capacity {
            true
        } else {
            self.capacity <= limit / GROWTH_FACTOR
        }
    }

    /// Appends `item` as the new last element. The first append allocates the
    /// initial capacity. An append that finds a free slot leaves the buffer
    /// as it is. An append to a full buffer doubles it first, which may move
    /// the elements but leaves each of them as it is.
    ///
    /// The vector cannot hold elements without size, nor a buffer of more
    /// than `isize::MAX` bytes. [`MyVec::can_push`] tests both at run time;
    /// in a proof, the size of a primitive type is known from
    /// `vstd::layout::layout_of_primitives`.
    pub fn push(&mut self, item: T)
        requires
            old(self)@.admits_push(),
        ensures
            final(self)@ == old(self)@.push(item),
    {
        proof {
            use_type_invariant(&*self);
            self@.lemma_reachable();
            self@.lemma_push_well_formed(item);
        }
        assert(self@.capacity_after_push() <= isize::MAX) by (nonlinear_arith)
            requires
                self@.capacity_after_push() * vstd::layout::size_of::<T>() <= isize::MAX,
                vstd::layout::size_of::<T>() != 0,
        ;
        // The vector is taken apart and put together again in one step, so
        // that it is never seen with its elements and its capacity out of
        // step.
        let mut taken = MyVec::new();
        core::mem::swap(self, &mut taken);
        let MyVec { mut data, capacity } = taken;
        let new_capacity: usize = if capacity == 0 {
            data = Vec::with_capacity(INITIAL_CAPACITY);
            INITIAL_CAPACITY
        } else if data.len() < capacity {
            capacity
        } else {
            data.reserve(capacity);
            capacity * GROWTH_FACTOR
        };
        data.push(item);
        *self = MyVec { data, capacity: new_capacity };
    }

    /// The element at `index`, or `None` where `index` is not below the
    /// length.
    pub fn get(&self, index: usize) -> (r: Option<&T>)
        ensures
            match r {
                Some(element) => self@.get(index as int) == Some(*element),
                None => self@.get(index as int) is None,
            },
    {
        if index < self.data.len() {
            Some(&self.data[index])
        } else {
            None
        }
    }
}

} // verus!
