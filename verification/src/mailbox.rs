//! Single-slot mailbox that hands the latest encoded frame from the capture
//! callback to the polling consumer.

use vstd::prelude::*;

verus! {

/// Holder of at most one encoded frame. A write replaces whatever was there;
/// a read copies the frame out and leaves it in place.
pub struct FrameMailbox {
    slot: Option<Vec<u8>>,
}

impl View for FrameMailbox {
    type V = Option<Seq<u8>>;

    closed spec fn view(&self) -> Option<Seq<u8>> {
        match self.slot {
            Some(bytes) => Some(bytes@),
            None => None,
        }
    }
}

/// What a consumer at the boundary sees of a slot: the frame, or no bytes at
/// all while the slot is empty.
pub open spec fn frame_or_empty(slot: Option<Seq<u8>>) -> Seq<u8> {
    match slot {
        Some(bytes) => bytes,
        None => Seq::empty(),
    }
}

impl FrameMailbox {
    /// An empty mailbox.
    pub fn new() -> (mailbox: Self)
        ensures
            mailbox@ is None,
    {
        FrameMailbox { slot: None }
    }

    /// Stores `bytes` as the latest frame, discarding any earlier one.
    pub fn publish(&mut self, bytes: Vec<u8>)
        ensures
            final(self)@ == Some(bytes@),
    {
        self.slot = Some(bytes);
    }

    /// Copies the latest frame out; the mailbox keeps it.
    pub fn read(&self) -> (frame: Option<Vec<u8>>)
        ensures
            frame is Some == self@ is Some,
            frame matches Some(bytes) ==> self@ == Some(bytes@),
    {
        match &self.slot {
            Some(bytes) => {
                let copy = bytes.clone();
                assert(copy@ =~= bytes@);
                Some(copy)
            },
            None => None,
        }
    }

    /// The latest frame, or a zero-length result while there is none.
    pub fn read_or_empty(&self) -> (bytes: Vec<u8>)
        ensures
            bytes@ == frame_or_empty(self@),
    {
        match self.read() {
            Some(bytes) => bytes,
            None => Vec::new(),
        }
    }

    /// Empties the mailbox.
    pub fn clear(&mut self)
        ensures
            final(self)@ is None,
    {
        self.slot = None;
    }

    /// Whether no frame is held.
    pub fn is_empty(&self) -> (empty: bool)
        ensures
            empty == (self@ is None),
    {
        self.slot.is_none()
    }
}

} // verus!
