//! A bounded, ordered log: the newest entries up to a fixed capacity, the
//! oldest leaving first.

use vstd::prelude::*;
use std::collections::VecDeque;

verus! {

/// What a log holds after one more entry: the entry is appended, and if
/// the log was full its oldest entry leaves to make room.
pub open spec fn appended<T>(entries: Seq<T>, capacity: nat, entry: T) -> Seq<T> {
    if capacity == 0 {
        entries
    } else if entries.len() < capacity {
        entries.push(entry)
    } else {
        entries.skip(1).push(entry)
    }
}

/// The log after a run of entries, appended in order.
pub open spec fn appended_all<T>(entries: Seq<T>, capacity: nat, more: Seq<T>) -> Seq<T>
    decreases more.len(),
{
    if more.len() == 0 {
        entries
    } else {
        appended(appended_all(entries, capacity, more.drop_last()), capacity, more.last())
    }
}

/// An ordered log of at most `capacity` entries, oldest first.
pub struct BoundedLog<T> {
    entries: VecDeque<T>,
    capacity: usize,
}

impl<T> View for BoundedLog<T> {
    type V = Seq<T>;

    closed spec fn view(&self) -> Seq<T> {
        self.entries@
    }
}

impl<T> BoundedLog<T> {
    /// The log's invariant: it holds no more than its capacity.
    pub closed spec fn wf(self) -> bool {
        self.entries@.len() <= self.capacity
    }

    /// The most entries this log keeps.
    pub closed spec fn limit(self) -> nat {
        self.capacity as nat
    }

    /// An empty log.
    pub fn new(capacity: usize) -> (r: Self)
        ensures
            r.wf(),
            r@ == Seq::<T>::empty(),
            r.limit() == capacity,
    {
        BoundedLog { entries: VecDeque::new(), capacity }
    }

    /// The most entries this log keeps.
    pub fn capacity(&self) -> (r: usize)
        ensures
            r == self.limit(),
    {
        self.capacity
    }

    /// The number of entries, never more than the capacity.
    pub fn len(&self) -> (r: usize)
        requires
            self.wf(),
        ensures
            r == self@.len(),
            r <= self.limit(),
    {
        self.entries.len()
    }

    /// Whether the log holds nothing.
    pub fn is_empty(&self) -> (r: bool)
        ensures
            r == (self@.len() == 0),
    {
        self.entries.len() == 0
    }

    /// The entry at a place, counted from the oldest.
    pub fn get(&self, at: usize) -> (r: Option<&T>)
        ensures
            at < self@.len() ==> r == Some(&self@[at as int]),
            at >= self@.len() ==> r is None,
    {
        if at < self.entries.len() {
            Some(&self.entries[at])
        } else {
            None
        }
    }

    /// The newest entry.
    pub fn newest(&self) -> (r: Option<&T>)
        ensures
            self@.len() > 0 ==> r == Some(&self@.last()),
            self@.len() == 0 ==> r is None,
    {
        let n = self.entries.len();
        if n > 0 {
            Some(&self.entries[n - 1])
        } else {
            None
        }
    }

    /// Appends an entry. A full log first gives up its oldest entry, and
    /// only that one; the others keep their order.
    pub fn push(&mut self, entry: T)
        requires
            old(self).wf(),
        ensures
            final(self).wf(),
            final(self)@ == appended(old(self)@, old(self).limit(), entry),
            final(self).limit() == old(self).limit(),
            final(self)@.len() <= final(self).limit(),
    {
        if self.capacity == 0 {
            return ;
        }
        if self.entries.len() >= self.capacity {
            let _ = self.entries.pop_front();
        }
        self.entries.push_back(entry);
    }

    /// Empties the log.
    pub fn clear(&mut self)
        ensures
            final(self).wf(),
            final(self)@ == Seq::<T>::empty(),
            final(self).limit() == old(self).limit(),
    {
        self.entries.clear();
    }
}

/// A well-formed log holds no more than its capacity.
pub proof fn lemma_log_within_capacity<T>(log: BoundedLog<T>)
    requires
        log.wf(),
    ensures
        log@.len() <= log.limit(),
{
}

/// A log never holds more than its capacity, whatever is appended.
pub proof fn lemma_append_keeps_bound<T>(entries: Seq<T>, capacity: nat, entry: T)
    requires
        entries.len() <= capacity,
    ensures
        appended(entries, capacity, entry).len() <= capacity,
        appended(entries, capacity, entry).len() == if entries.len() < capacity {
            entries.len() + 1
        } else {
            entries.len()
        },
{
}

/// Appending to a full log drops exactly the oldest entry: every other
/// entry moves one place towards the front, and the new entry is last.
pub proof fn lemma_append_evicts_oldest<T>(entries: Seq<T>, capacity: nat, entry: T)
    requires
        capacity > 0,
        entries.len() == capacity,
    ensures
        appended(entries, capacity, entry).len() == capacity,
        appended(entries, capacity, entry).last() == entry,
        forall|i: int|
            0 <= i < capacity - 1 ==> #[trigger] appended(entries, capacity, entry)[i] == entries[i
                + 1],
{
}

/// Appending to a log that has room keeps every entry in its place.
pub proof fn lemma_append_with_room<T>(entries: Seq<T>, capacity: nat, entry: T)
    requires
        entries.len() < capacity,
    ensures
        appended(entries, capacity, entry) == entries.push(entry),
{
}

/// After any run of appends the log is within its capacity and holds the
/// newest entries: the tail of everything it was ever given.
pub proof fn lemma_log_holds_newest<T>(entries: Seq<T>, capacity: nat, more: Seq<T>)
    requires
        capacity > 0,
        entries.len() <= capacity,
    ensures
        appended_all(entries, capacity, more).len() <= capacity,
        appended_all(entries, capacity, more).len() == if entries.len() + more.len() <= capacity {
            entries.len() + more.len()
        } else {
            capacity
        },
        appended_all(entries, capacity, more) == (entries + more).skip(
            (entries + more).len() - appended_all(entries, capacity, more).len(),
        ),
    decreases more.len(),
{
    if more.len() == 0 {
        assert(entries + more =~= entries);
        assert(entries.skip(0) =~= entries);
    } else {
        let head = more.drop_last();
        lemma_log_holds_newest(entries, capacity, head);
        let before = appended_all(entries, capacity, head);
        let after = appended_all(entries, capacity, more);
        let all_before = entries + head;
        let all = entries + more;
        assert(all =~= all_before.push(more.last()));
        assert(after =~= all.skip(all.len() - after.len()));
    }
}

} // verus!
