//! The growable collection a poll call drains kernel events into.

use vstd::prelude::*;
use crate::epoll::OsEvent;
use crate::event::Event;

verus! {

/// An ordered sequence of kernel event records with a caller-reserved
/// capacity. Before a wait the collection is cleared; afterwards it
/// holds exactly the records the kernel delivered, in delivery order,
/// and nothing else is ever exposed. The view is that sequence;
/// clearing and filling never lose the reserved capacity.
pub struct Events {
    inner: Vec<OsEvent>,
    cap: usize,
}

impl View for Events {
    type V = Seq<OsEvent>;

    closed spec fn view(&self) -> Seq<OsEvent> {
        self.inner@
    }
}

impl Events {
    /// The number of record slots the caller reserved.
    pub closed spec fn spec_capacity(&self) -> usize {
        self.cap
    }

    /// An empty collection with `capacity` record slots reserved.
    pub fn with_capacity(capacity: usize) -> (e: Events)
        ensures
            e@ == Seq::<OsEvent>::empty(),
            e.spec_capacity() == capacity,
    {
        Events { inner: Vec::with_capacity(capacity), cap: capacity }
    }

    /// The reserved number of record slots.
    pub fn capacity(&self) -> (c: usize)
        ensures
            c == self.spec_capacity(),
    {
        self.cap
    }

    /// How many records the collection holds.
    pub fn len(&self) -> (n: usize)
        ensures
            n == self@.len(),
    {
        self.inner.len()
    }

    /// Whether the collection holds no record.
    pub fn is_empty(&self) -> (r: bool)
        ensures
            r == (self@.len() == 0),
    {
        self.inner.len() == 0
    }

    /// Drops every record; the reserved capacity stays.
    pub fn clear(&mut self)
        ensures
            final(self)@ == Seq::<OsEvent>::empty(),
            final(self).spec_capacity() == old(self).spec_capacity(),
    {
        self.inner.clear();
    }

    /// Appends one delivered record at the back.
    pub fn push(&mut self, record: OsEvent)
        ensures
            final(self)@ == old(self)@.push(record),
            final(self).spec_capacity() == old(self).spec_capacity(),
    {
        self.inner.push(record);
    }

    /// A non-consuming cursor over the records, front to back.
    pub fn iter(&self) -> (it: Iter<'_>)
        ensures
            it.spec_events() == self@,
            it.spec_pos() == 0,
    {
        Iter { events: self, pos: 0 }
    }

    /// A consuming cursor that yields each record, front to back.
    pub fn into_iter(self) -> (it: IntoIter)
        ensures
            it@ == self@,
    {
        IntoIter { events: self }
    }
}

/// A consuming cursor over an event collection. Its view is the
/// sequence of records not yet yielded.
pub struct IntoIter {
    events: Events,
}

impl View for IntoIter {
    type V = Seq<OsEvent>;

    closed spec fn view(&self) -> Seq<OsEvent> {
        self.events@
    }
}

impl IntoIter {
    /// Yields the front record, wrapped, or `None` once every record
    /// has been yielded.
    pub fn next(&mut self) -> (r: Option<Event>)
        ensures
            old(self)@.len() == 0 ==> r is None && final(self)@ == old(self)@,
            old(self)@.len() > 0 ==> (r matches Some(e) && e@ == old(self)@[0] && final(self)@
                == old(self)@.remove(0)),
    {
        if self.events.inner.len() == 0 {
            None
        } else {
            let record = self.events.inner.remove(0);
            Some(Event::new(record))
        }
    }
}

/// A borrowing cursor over an event collection: the collection cannot
/// change while the cursor lives.
pub struct Iter<'a> {
    events: &'a Events,
    pos: usize,
}

impl<'a> Iter<'a> {
    /// The records of the borrowed collection.
    pub closed spec fn spec_events(&self) -> Seq<OsEvent> {
        self.events@
    }

    /// How many records were already yielded.
    pub closed spec fn spec_pos(&self) -> usize {
        self.pos
    }

    /// Yields the next record, wrapped, or `None` past the end. The
    /// collection itself is never changed.
    pub fn next(&mut self) -> (r: Option<Event>)
        ensures
            final(self).spec_events() == old(self).spec_events(),
            old(self).spec_pos() < old(self).spec_events().len() ==> (r matches Some(e) && e@
                == old(self).spec_events()[old(self).spec_pos() as int] && final(self).spec_pos()
                == old(self).spec_pos() + 1),
            old(self).spec_pos() >= old(self).spec_events().len() ==> r is None
                && final(self).spec_pos() == old(self).spec_pos(),
    {
        if self.pos < self.events.inner.len() {
            let record = self.events.inner[self.pos];
            self.pos = self.pos + 1;
            Some(Event::new(record))
        } else {
            None
        }
    }
}

} // verus!
