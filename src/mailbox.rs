use vstd::prelude::*;

verus! {

/// The id a published image gets: the clock reading if it is past the last
/// id, otherwise one more than the last id, so that ids strictly increase.
pub open spec fn next_id(last: u128, now: u128) -> u128 {
    if now > last {
        now
    } else {
        (last + 1) as u128
    }
}

/// Single-slot, last-write-wins hand-off of encoded images to the display.
pub struct Mailbox {
    slot: Option<(u128, Vec<u8>)>,
    last_id: u128,
}

impl Mailbox {
    /// What the slot holds: the id and the bytes of the image not yet taken.
    pub closed spec fn spec_slot(&self) -> Option<(u128, Seq<u8>)> {
        match self.slot {
            Some(entry) => Some((entry.0, entry.1@)),
            None => None,
        }
    }

    /// The id of the last image published, 0 before any.
    pub closed spec fn spec_last_id(&self) -> u128 {
        self.last_id
    }

    pub fn new() -> (m: Self)
        ensures
            m.spec_slot() is None,
            m.spec_last_id() == 0,
    {
        Mailbox { slot: None, last_id: 0 }
    }

    pub fn last_id(&self) -> (r: u128)
        ensures
            r == self.spec_last_id(),
    {
        self.last_id
    }

    pub fn is_empty(&self) -> (r: bool)
        ensures
            r == self.spec_slot() is None,
    {
        self.slot.is_none()
    }

    /// Overwrites the slot with `image`, under an id above every earlier one,
    /// taken from `now` where that is past the last id. Returns the id, or
    /// `None`, leaving the mailbox as it was, when no larger id is left.
    pub fn publish(&mut self, now: u128, image: Vec<u8>) -> (r: Option<u128>)
        ensures
            old(self).spec_last_id() == u128::MAX && now <= old(self).spec_last_id() ==> {
                &&& r is None
                &&& final(self).spec_slot() == old(self).spec_slot()
                &&& final(self).spec_last_id() == old(self).spec_last_id()
            },
            !(old(self).spec_last_id() == u128::MAX && now <= old(self).spec_last_id()) ==> {
                let id = next_id(old(self).spec_last_id(), now);
                &&& r == Some(id)
                &&& id > old(self).spec_last_id()
                &&& final(self).spec_slot() == Some((id, image@))
                &&& final(self).spec_last_id() == id
            },
    {
        let id: u128;
        if now > self.last_id {
            id = now;
        } else if self.last_id < u128::MAX {
            id = self.last_id + 1;
        } else {
            return None;
        }
        self.last_id = id;
        self.slot = Some((id, image));
        Some(id)
    }

    /// Hands out the image waiting in the slot, if any, and empties the slot.
    pub fn take(&mut self) -> (r: Option<(u128, Vec<u8>)>)
        ensures
            final(self).spec_slot() is None,
            final(self).spec_last_id() == old(self).spec_last_id(),
            old(self).spec_slot() == match r {
                Some(entry) => Some((entry.0, entry.1@)),
                None => None::<(u128, Seq<u8>)>,
            },
    {
        self.slot.take()
    }
}

} // verus!
