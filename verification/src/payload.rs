//! The payload cell: a typed slot for state that a filter keeps through one
//! invocation, from the check through the transformation to the cleanup.

use vstd::prelude::*;

verus! {

/// A cell that holds nothing or exactly one payload of type `P`. The engine
/// keeps the slot between the callbacks of one invocation; the cell is the
/// host's typed handle on it for the duration of one callback.
#[derive(Debug)]
pub struct FilterPayload<P> {
    data: Option<Box<P>>,
}

/// The payload in a slot, if the slot is not null.
pub open spec fn payload_in<P>(slot: Option<Box<P>>) -> Option<P> {
    match slot {
        Some(b) => Some(*b),
        None => None,
    }
}

/// The slot that publishes a payload: null for none.
pub open spec fn slot_for<P>(payload: Option<P>) -> Option<Box<P>> {
    match payload {
        Some(p) => Some(Box::new(p)),
        None => None,
    }
}

impl<P> View for FilterPayload<P> {
    type V = Option<P>;

    closed spec fn view(&self) -> Option<P> {
        payload_in(self.data)
    }
}

impl<P> FilterPayload<P> {
    /// The cell that opening on `slot` gives.
    pub closed spec fn opened(slot: Option<Box<P>>) -> FilterPayload<P> {
        FilterPayload { data: slot }
    }

    /// A cell is known by what it holds.
    pub proof fn lemma_opened(self)
        ensures
            self == Self::opened(slot_for(self@)),
            forall|slot: Option<Box<P>>| #[trigger] Self::opened(slot)@ == payload_in(slot),
    {
    }

    /// Opens the cell on the engine's slot: a null slot gives an empty
    /// cell, any other a cell that owns the payload found there.
    pub fn from_raw(slot: Option<Box<P>>) -> (cell: FilterPayload<P>)
        ensures
            cell == Self::opened(slot),
            cell@ == payload_in(slot),
    {
        FilterPayload { data: slot }
    }

    /// Closes the cell and gives what it holds back to the engine's slot.
    pub fn into_raw(self) -> (slot: Option<Box<P>>)
        ensures
            slot == slot_for(self@),
            payload_in(slot) == self@,
    {
        self.data
    }

    /// The payload, if the cell holds one.
    pub fn inner(&self) -> (inner: Option<&Box<P>>)
        ensures
            inner is Some <==> self@ is Some,
            inner is Some ==> **inner->Some_0 == self@->Some_0,
    {
        match &self.data {
            Some(data) => Some(data),
            None => None,
        }
    }

    /// The payload, open for writing, if the cell holds one. The cell ends
    /// up holding whatever the caller leaves there.
    pub fn inner_mut(&mut self) -> (inner: Option<&mut Box<P>>)
        ensures
            inner is Some <==> old(self)@ is Some,
            inner is Some ==> **inner->Some_0 == old(self)@->Some_0,
            inner is Some ==> final(self)@ == Some(**final(inner->Some_0)),
            inner is None ==> final(self)@ == old(self)@,
    {
        match &mut self.data {
            Some(data) => Some(data),
            None => None,
        }
    }

    /// Installs `data` in the cell and drops what the cell held before.
    pub fn replace(&mut self, data: P)
        ensures
            final(self)@ == Some(data),
    {
        let _ = self.take();
        self.data = Some(Box::new(data));
    }

    /// Takes the payload out of the cell and hands it to the caller, who
    /// owns it from then on. The cell is left empty.
    pub fn take(&mut self) -> (data: Option<Box<P>>)
        ensures
            data == slot_for(old(self)@),
            payload_in(data) == old(self)@,
            final(self)@ is None,
    {
        self.data.take()
    }
}

/// A payload that one callback installs reaches the next callback of the
/// invocation unchanged: closing a cell onto the slot and opening a cell on
/// that slot again gives a cell with the same content, and taking from it
/// hands over exactly that payload; an empty cell comes back empty.
pub proof fn lemma_payload_continuity<P>(
    closed: FilterPayload<P>,
    slot: Option<Box<P>>,
    opened: FilterPayload<P>,
)
    requires
        slot == slot_for(closed@),
        opened@ == payload_in(slot),
    ensures
        opened@ == closed@,
        slot_for(opened@) == slot,
        closed@ is None <==> slot is None,
{
}

} // verus!
