//! The single-slot mailbox that carries the latest decoded remote-control code
//! from the sampling interrupt to the main loop.

use vstd::prelude::*;

verus! {

/// The remote-control protocols that the node understands.
#[derive(Copy, Clone, Debug, PartialEq, Eq, Structural)]
pub enum IrType {
    Nec,
}

/// One decoded button press.
#[derive(Copy, Clone, Debug, PartialEq, Eq, Structural)]
pub struct IrCode {
    pub protocol: IrType,
    pub addr: u8,
    pub cmd: u8,
}

/// What the slot holds after an event was recorded: a repeat marker leaves the
/// slot as it was, any other code replaces what was there.
pub open spec fn slot_after_record(slot: Option<IrCode>, code: IrCode, repeat: bool) -> Option<
    IrCode,
> {
    if repeat {
        slot
    } else {
        Some(code)
    }
}

/// What a poll of the slot reports, and what the slot holds afterwards.
pub open spec fn slot_after_poll(slot: Option<IrCode>) -> (Option<IrCode>, Option<IrCode>) {
    (slot, None)
}

/// The mailbox. It holds at most one unread code; codes are never queued.
///
/// The interrupt handler calls `record`, the main loop calls `poll`; the owner
/// runs both with interrupts masked, so that neither call sees the other half
/// done.
#[derive(Debug)]
pub struct IrDevice {
    slot: Option<IrCode>,
}

impl IrDevice {
    /// The unread code, if there is one.
    pub closed spec fn pending(&self) -> Option<IrCode> {
        self.slot
    }

    /// An empty mailbox.
    pub fn new() -> (dev: IrDevice)
        ensures
            dev.pending() is None,
    {
        IrDevice { slot: None }
    }

    /// Stores a freshly decoded code. A repeat marker is dropped and an unread
    /// code stays; any other code overwrites the slot unconditionally.
    pub fn record(&mut self, code: IrCode, repeat: bool)
        ensures
            final(self).pending() == slot_after_record(old(self).pending(), code, repeat),
    {
        if !repeat {
            self.slot = Some(code);
        }
    }

    /// Takes the unread code out of the mailbox, leaving it empty.
    pub fn poll(&mut self) -> (code: Option<IrCode>)
        ensures
            code == old(self).pending(),
            final(self).pending() is None,
            (code, final(self).pending()) == slot_after_poll(old(self).pending()),
    {
        let result = self.slot;
        self.slot = None;
        result
    }
}

/// Of two codes recorded without a poll between them, only the second is ever
/// reported: the next poll returns it, and the poll after that returns nothing.
pub proof fn lemma_latest_code_wins(slot: Option<IrCode>, first: IrCode, second: IrCode)
    ensures
        ({
            let filled = slot_after_record(slot_after_record(slot, first, false), second, false);
            let (reported, left) = slot_after_poll(filled);
            &&& reported == Some(second)
            &&& slot_after_poll(left).0 is None
        }),
{
}

/// A repeat marker never replaces an unread code: the next poll still reports
/// the code that was pending before it.
pub proof fn lemma_repeat_keeps_pending(pending: IrCode, marker: IrCode)
    ensures
        slot_after_poll(slot_after_record(Some(pending), marker, true)).0 == Some(pending),
{
}

} // verus!
