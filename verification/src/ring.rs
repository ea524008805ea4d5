//! Fixed-capacity FIFO ring: insertion order is preserved and the oldest
//! element is evicted first once the capacity is reached.

use vstd::prelude::*;

verus! {

/// A vector bounded by `MAX_SIZE` elements; pushing to a full one evicts the
/// oldest element.
pub struct MaxSizedVector<T, const MAX_SIZE: usize> {
    data: Vec<T>,
}

/// One push step of the ring model: append, dropping the oldest element first
/// when the buffer is at capacity.
pub open spec fn ring_push<T>(cap: nat, s: Seq<T>, x: T) -> Seq<T> {
    if s.len() >= cap {
        s.skip(1).push(x)
    } else {
        s.push(x)
    }
}

/// The contents of a ring of capacity `cap` after pushing every element of
/// `items`, in order, into an empty ring.
pub open spec fn ring_fill<T>(cap: nat, items: Seq<T>) -> Seq<T>
    decreases items.len(),
{
    if items.len() == 0 {
        Seq::empty()
    } else {
        ring_push(cap, ring_fill(cap, items.drop_last()), items.last())
    }
}

impl<T, const MAX_SIZE: usize> MaxSizedVector<T, MAX_SIZE> {
    /// The stored elements, oldest first.
    pub closed spec fn view(&self) -> Seq<T> {
        self.data@
    }

    /// Structural invariant: never more than `MAX_SIZE` elements.
    pub open spec fn inv(&self) -> bool {
        self@.len() <= MAX_SIZE
    }

    /// Constructs a new MaxSizedVector with a specified maximum size
    pub fn new() -> (r: Self)
        ensures
            r@ == Seq::<T>::empty(),
            r.inv(),
    {
        Self { data: Vec::with_capacity(MAX_SIZE) }
    }

    /// Adds an element to the vector, removing the oldest if at max capacity
    pub fn push(&mut self, item: T)
        requires
            old(self).inv(),
            MAX_SIZE >= 1,
        ensures
            final(self)@ == ring_push(MAX_SIZE as nat, old(self)@, item),
            final(self).inv(),
    {
        if self.data.len() == MAX_SIZE {
            self.data.remove(0);
            proof {
                assert(self.data@ =~= old(self)@.skip(1));
            }
        }
        self.data.push(item);
    }

    /// Returns a reference to the element at the given index if it exists
    pub fn get(&self, index: usize) -> (r: Option<&T>)
        ensures
            index < self@.len() ==> r == Some(&self@[index as int]),
            index >= self@.len() ==> r is None,
    {
        if index < self.data.len() {
            Some(&self.data[index])
        } else {
            None
        }
    }

    /// Checks if the vector is at its maximum capacity
    pub fn is_full(&self) -> (r: bool)
        ensures
            r == (self@.len() == MAX_SIZE),
    {
        self.data.len() == MAX_SIZE
    }

    /// Returns the number of elements currently in the vector
    pub fn len(&self) -> (r: usize)
        ensures
            r == self@.len(),
    {
        self.data.len()
    }

    /// Removes all elements from the vector
    pub fn clear(&mut self)
        ensures
            final(self)@ == Seq::<T>::empty(),
            final(self).inv(),
    {
        self.data.clear();
    }

    /// Provides read access to the elements of the vector, oldest first.
    pub fn iter(&self) -> (r: &[T])
        ensures
            r@ == self@,
    {
        self.data.as_slice()
    }

    /// Extracts a slice containing the entire vector.
    pub fn as_slice(&self) -> (r: &[T])
        ensures
            r@ == self@,
    {
        self.data.as_slice()
    }
}

/// The length of a filled ring: all of `items` while they fit, `cap` after.
pub proof fn lemma_ring_fill_len<T>(cap: nat, items: Seq<T>)
    requires
        cap >= 1,
    ensures
        ring_fill(cap, items).len() == if items.len() <= cap {
            items.len()
        } else {
            cap
        },
    decreases items.len(),
{
    if items.len() > 0 {
        lemma_ring_fill_len(cap, items.drop_last());
    }
}

/// Law of the ring: after any sequence of pushes into an empty ring of
/// capacity `cap >= 1`, the ring holds exactly the pushed elements in
/// insertion order while they fit, and exactly the most recent `cap` of
/// them, still in insertion order, once they no longer do.
pub proof fn lemma_ring_fill_is_suffix<T>(cap: nat, items: Seq<T>)
    requires
        cap >= 1,
    ensures
        ring_fill(cap, items) == if items.len() <= cap {
            items
        } else {
            items.skip(items.len() - cap)
        },
    decreases items.len(),
{
    if items.len() == 0 {
        assert(ring_fill(cap, items) =~= items);
    } else {
        let prefix = items.drop_last();
        lemma_ring_fill_is_suffix(cap, prefix);
        lemma_ring_fill_len(cap, prefix);
        if prefix.len() < cap {
            assert(ring_fill(cap, items) =~= if items.len() <= cap {
                items
            } else {
                items.skip(items.len() - cap)
            });
        } else {
            assert(ring_fill(cap, items) =~= prefix.skip(prefix.len() - cap).skip(1).push(
                items.last(),
            ));
            assert(ring_fill(cap, items) =~= items.skip(items.len() - cap));
        }
    }
}

} // verus!
