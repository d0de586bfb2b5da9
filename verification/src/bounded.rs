//! A fixed-capacity append-evict sequence (ring-buffer semantics): the
//! foundation for every other telemetry component. When an insert would push
//! the length past the capacity, the oldest elements are evicted silently.

use vstd::prelude::*;

verus! {

/// The retained window of a push history: the last `capacity` pushed elements
/// (all of them while the history is still shorter than the capacity).
pub open spec fn retained<T>(pushed: Seq<T>, capacity: nat) -> Seq<T> {
    if pushed.len() <= capacity {
        pushed
    } else {
        pushed.skip(pushed.len() - capacity)
    }
}

/// An ordered sequence of `T` with a fixed maximum length, oldest first.
/// Eviction is FIFO and silent: it is routine memory bounding, not data loss
/// a caller should react to.
pub struct BoundedSeries<T> {
    items: Vec<T>,
    capacity: usize,
    pushed: Ghost<Seq<T>>,
}

impl<T> View for BoundedSeries<T> {
    type V = Seq<T>;

    closed spec fn view(&self) -> Seq<T> {
        self.items@
    }
}

impl<T> BoundedSeries<T> {
    /// The capacity fixed at construction; always positive.
    pub closed spec fn cap(&self) -> nat {
        self.capacity as nat
    }

    /// Every element ever pushed since construction (or the last `clear`),
    /// in push order. Ghost bookkeeping: the retained window is always the
    /// suffix of this history that fits the capacity.
    pub closed spec fn history(&self) -> Seq<T> {
        self.pushed@
    }

    /// Well-formedness: the capacity is positive and the retained window is
    /// exactly the suffix of the push history that fits it. Constructors
    /// establish it and every method preserves it.
    pub closed spec fn well_formed(&self) -> bool {
        &&& self.capacity >= 1
        &&& self.items@ == retained(self.pushed@, self.capacity as nat)
    }

    pub fn new(capacity: usize) -> (s: Self)
        requires
            capacity >= 1,
        ensures
            s.well_formed(),
            s@ == Seq::<T>::empty(),
            s.history() == Seq::<T>::empty(),
            s.cap() == capacity,
    {
        BoundedSeries { items: Vec::new(), capacity, pushed: Ghost(Seq::empty()) }
    }

    pub fn len(&self) -> (n: usize)
        ensures
            n == self@.len(),
    {
        self.items.len()
    }

    /// The fixed capacity.
    pub fn capacity(&self) -> (c: usize)
        requires
            self.well_formed(),
        ensures
            c == self.cap(),
            c >= 1,
    {
        self.capacity
    }

    pub fn get(&self, i: usize) -> (r: &T)
        requires
            i < self@.len(),
        ensures
            *r == self@[i as int],
    {
        &self.items[i]
    }

    /// Appends one element, evicting the oldest when the series is full.
    pub fn push(&mut self, item: T)
        requires
            old(self).well_formed(),
        ensures
            final(self).well_formed(),
            final(self).cap() == old(self).cap(),
            final(self).history() == old(self).history().push(item),
            final(self)@ == retained(final(self).history(), final(self).cap()),
            final(self)@ == if old(self)@.len() < old(self).cap() {
                old(self)@.push(item)
            } else {
                old(self)@.drop_first().push(item)
            },
    {
        let ghost old_pushed = self.pushed@;
        self.items.push(item);
        if self.items.len() > self.capacity {
            self.items.remove(0);
        }
        proof {
            self.pushed@ = old_pushed.push(item);
            assert(self.items@ =~= retained(self.pushed@, self.capacity as nat));
        }
    }

    /// Appends a whole batch, then trims the excess once (batch eviction:
    /// one trim instead of one shift per element).
    pub fn push_batch(&mut self, batch: Vec<T>)
        requires
            old(self).well_formed(),
        ensures
            final(self).well_formed(),
            final(self).cap() == old(self).cap(),
            final(self).history() == old(self).history() + batch@,
            final(self)@ == retained(final(self).history(), final(self).cap()),
            final(self)@ == retained(old(self)@ + batch@, old(self).cap()),
    {
        let ghost old_pushed = self.pushed@;
        let ghost old_items = self.items@;
        let ghost b = batch@;
        let mut batch = batch;
        self.items.append(&mut batch);
        if self.items.len() > self.capacity {
            let excess = self.items.len() - self.capacity;
            let kept = self.items.split_off(excess);
            self.items = kept;
        }
        proof {
            self.pushed@ = old_pushed + b;
            assert(self.items@ =~= retained(self.pushed@, self.capacity as nat)) by {
                lemma_retained_of_suffix(old_pushed, old_items, b, self.capacity as nat);
            }
            assert(retained(old_items + b, self.capacity as nat) =~= retained(
                self.pushed@,
                self.capacity as nat,
            )) by {
                lemma_retained_of_suffix(old_pushed, old_items, b, self.capacity as nat);
            }
        }
    }

    /// Removes every element; the capacity and the eviction rule are unchanged.
    pub fn clear(&mut self)
        requires
            old(self).well_formed(),
        ensures
            final(self).well_formed(),
            final(self).cap() == old(self).cap(),
            final(self)@ == Seq::<T>::empty(),
            final(self).history() == Seq::<T>::empty(),
    {
        self.items.clear();
        proof {
            self.pushed@ = Seq::empty();
        }
    }
}

/// Retaining a window commutes with appending: the window of `pushed + b`
/// equals the window of `retained(pushed) + b`.
proof fn lemma_retained_of_suffix<T>(pushed: Seq<T>, items: Seq<T>, b: Seq<T>, capacity: nat)
    requires
        items == retained(pushed, capacity),
    ensures
        retained(pushed + b, capacity) =~= retained(items + b, capacity),
{
}

/// A well-formed series never holds more elements than its capacity.
pub proof fn lemma_well_formed_len_bounded<T>(s: &BoundedSeries<T>)
    requires
        s.well_formed(),
    ensures
        s@.len() <= s.cap(),
{
}

/// Law: after any prefix of `n` pushes into a series of capacity `c`, the
/// retained window holds exactly `min(n, c)` elements.
pub proof fn lemma_retained_len<T>(pushed: Seq<T>, capacity: nat)
    ensures
        retained(pushed, capacity).len() == if pushed.len() <= capacity {
            pushed.len()
        } else {
            capacity
        },
{
}

/// Law: the retained window is exactly the most recent pushes, in push order:
/// element `i` of the window is element `n - min(n, c) + i` of the history.
pub proof fn lemma_retained_is_recent_suffix<T>(pushed: Seq<T>, capacity: nat)
    ensures
        forall|i: int|
            0 <= i < retained(pushed, capacity).len() ==> retained(pushed, capacity)[i] == pushed[
                pushed.len() - retained(pushed, capacity).len() + i
            ],
{
}

} // verus!
