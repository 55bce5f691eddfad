//! The error channel: one process-wide slot holding the most recent failure.
//!
//! The slot is overwrite-on-write and consumed-on-read: a failing operation
//! replaces whatever was stored, a successful operation never touches it,
//! and reading the message removes the record, so a second read with no
//! intervening failure returns empty text.

use vstd::prelude::*;

use crate::errors::{ErrorRecord, RecordView};

verus! {

/// The slot behind `last_error_message`. The unverified shell wraps one
/// value of this type in a process-wide lock; under concurrent failures
/// the stored record is whichever write came last.
pub struct ErrorSlot {
    last: Option<ErrorRecord>,
}

impl ErrorSlot {
    /// The record currently stored, if any.
    pub closed spec fn stored(self) -> Option<RecordView> {
        match self.last {
            Some(record) => Some(record@),
            None => None,
        }
    }

    /// The text a read returns: the stored message, or empty text when no
    /// failure is pending.
    pub open spec fn message_view(self) -> Seq<char> {
        match self.stored() {
            Some(view) => view.message,
            None => Seq::<char>::empty(),
        }
    }

    /// A slot with no failure pending.
    pub fn empty() -> (slot: ErrorSlot)
        ensures
            slot.stored() is None,
    {
        ErrorSlot { last: None }
    }

    /// Stores `record` as the most recent failure, unconditionally
    /// overwriting any previous record.
    pub fn record(&mut self, record: ErrorRecord)
        ensures
            final(self).stored() == Some(record@),
    {
        self.last = Some(record);
    }

    /// Removes and returns the most recent record, leaving the slot empty.
    pub fn take(&mut self) -> (taken: Option<ErrorRecord>)
        ensures
            final(self).stored() is None,
            taken is Some <==> old(self).stored() is Some,
            taken matches Some(record) ==> old(self).stored() == Some(record@),
    {
        let mut out: Option<ErrorRecord> = None;
        core::mem::swap(&mut self.last, &mut out);
        out
    }

    /// The destructive read behind `last_error_message`: returns the stored
    /// message, or empty text when no failure is pending, and clears the
    /// slot either way.
    pub fn read_message(&mut self) -> (text: String)
        ensures
            text@ == old(self).message_view(),
            final(self).stored() is None,
    {
        match self.take() {
            Some(record) => record.message,
            None => String::new(),
        }
    }
}

/// Law: reading consumes the record. After any read the slot is empty, and
/// the message of an empty slot is empty text, so a second read with no
/// intervening failure returns empty text.
pub proof fn lemma_second_read_is_empty(slot: ErrorSlot)
    requires
        slot.stored() is None,
    ensures
        slot.message_view() == Seq::<char>::empty(),
{
}

} // verus!
