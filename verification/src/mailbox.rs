//! Notification mailbox: a single-slot, last-write-wins message box.
//!
//! Workers post their completion message here; the frame driver drains the
//! slot at most once per frame. A post that lands before the previous
//! message was drained silently discards the previous message — the
//! consumer only needs the latest notification, not history. The host keeps
//! the slot behind its own lock; the operations here are the value logic
//! performed under that lock.

use vstd::prelude::*;

verus! {

/// The single undelivered message, if any.
pub struct Mailbox {
    pub slot: Option<String>,
}

/// The slot contents after a post, whatever was there before: the new
/// message alone. This is the last-write-wins rule.
pub open spec fn mailbox_after_post(slot: Option<Seq<char>>, msg: Seq<char>) -> Option<
    Seq<char>,
> {
    Some(msg)
}

impl Mailbox {
    /// A fresh mailbox holds no message.
    pub fn new() -> (m: Mailbox)
        ensures
            m.slot is None,
    {
        Mailbox { slot: None }
    }

    /// Overwrites the slot with `msg`, discarding any undelivered message.
    pub fn post(&mut self, msg: String)
        ensures
            final(self).slot == Some(msg),
            final(self).slot.deep_view() == mailbox_after_post(
                old(self).slot.deep_view(),
                msg@,
            ),
    {
        self.slot = Some(msg);
    }

    /// Takes the undelivered message out, leaving the slot empty. Returns
    /// `None` when there was nothing to deliver. A message is delivered at
    /// most once: a second drain with no post in between returns `None`.
    pub fn drain(&mut self) -> (msg: Option<String>)
        ensures
            msg == old(self).slot,
            final(self).slot is None,
    {
        self.slot.take()
    }

    /// Read-only query: whether a message waits to be delivered.
    pub fn has_message(&self) -> (r: bool)
        ensures
            r == (self.slot is Some),
    {
        self.slot.is_some()
    }
}

/// Last-write-wins: a second post with no drain in between leaves exactly
/// what a single post of the second message would have left, so the first
/// message is never observed.
pub proof fn lemma_mailbox_last_write_wins(
    slot: Option<Seq<char>>,
    first: Seq<char>,
    second: Seq<char>,
)
    ensures
        mailbox_after_post(mailbox_after_post(slot, first), second) == mailbox_after_post(
            slot,
            second,
        ),
        mailbox_after_post(slot, second) == Some(second),
{
}

} // verus!
