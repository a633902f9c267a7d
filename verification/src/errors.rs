//! Per-thread error channel.
//!
//! A foreign caller has no exception channel, so every fallible operation
//! stores its diagnostic text in an [`ErrorSlot`] and returns a null-like
//! sentinel.  The caller then recovers the text through [`last_error_length`]
//! and [`last_error_message`].  Reading the message consumes it (read-once
//! semantics), even when the caller's buffer turns out to be too small.

use vstd::prelude::*;

verus! {

/// Holds at most one pending error message, as raw UTF-8 bytes.
///
/// The surrounding (unverified) boundary keeps one slot per calling thread;
/// here the slot is an explicit value so that every transition is checked.
pub struct ErrorSlot {
    message: Option<Vec<u8>>,
}

impl View for ErrorSlot {
    type V = Option<Seq<u8>>;

    closed spec fn view(&self) -> Option<Seq<u8>> {
        match self.message {
            Some(m) => Some(m@),
            None => None,
        }
    }
}

impl ErrorSlot {
    /// A fresh slot with no pending error.
    pub fn new() -> (slot: ErrorSlot)
        ensures
            slot@ is None,
    {
        ErrorSlot { message: None }
    }
}

/// Stores `err` as the pending error, overwriting any unread one.
pub fn update_last_error(slot: &mut ErrorSlot, err: Vec<u8>)
    ensures
        final(slot)@ == Some(err@),
{
    slot.message = Some(err);
}

/// Removes and returns the pending error, leaving the slot empty.
pub fn take_last_error(slot: &mut ErrorSlot) -> (r: Option<Vec<u8>>)
    ensures
        final(slot)@ is None,
        old(slot)@ is None ==> r is None,
        old(slot)@ matches Some(m) ==> (r matches Some(v) && v@ == m),
{
    slot.message.take()
}

/// The value reported for a peek at the slot: the stored message's byte length
/// plus one terminator byte (saturated to `i32::MAX`), or 0 when nothing is
/// stored.
pub open spec fn error_length_spec(s: Option<Seq<u8>>) -> int {
    match s {
        None => 0,
        Some(m) => if m.len() + 1 <= i32::MAX { m.len() as int + 1 } else { i32::MAX as int },
    }
}

/// Reports the length of the pending message including its terminator, or 0.
/// This is a peek: the slot is not consumed.
pub fn last_error_length(slot: &ErrorSlot) -> (r: i32)
    ensures
        r == error_length_spec(slot@),
{
    match &slot.message {
        None => 0,
        Some(m) => {
            let n = m.len();
            if n < i32::MAX as usize {
                n as i32 + 1
            } else {
                i32::MAX
            }
        },
    }
}

/// The value a read returns: 0 when nothing is stored, the message length when
/// the message plus terminator fits the capacity, and -1 otherwise.
pub open spec fn read_error_result(s: Option<Seq<u8>>, cap: nat) -> int {
    match s {
        None => 0,
        Some(m) => if m.len() < cap {
            m.len() as int
        } else {
            -1
        },
    }
}

/// The slot after a read attempt: always empty.  A read consumes the pending
/// message even when the caller's buffer was too small.
pub open spec fn read_error_slot_after(s: Option<Seq<u8>>) -> Option<Seq<u8>> {
    None
}

/// The caller's buffer after a read attempt: on success the message bytes
/// followed by one zero byte, with the rest untouched; otherwise unchanged.
pub open spec fn read_error_buffer_after(s: Option<Seq<u8>>, buf: Seq<u8>) -> Seq<u8> {
    match s {
        Some(m) => if m.len() < buf.len() {
            m + seq![0u8] + buf.skip(m.len() as int + 1)
        } else {
            buf
        },
        None => buf,
    }
}

/// Writes the pending message into `buffer`, clearing the slot.
///
/// Returns 0 when no error is stored (no write happens), -1 when the message
/// plus its zero terminator does not fit `buffer` (the slot is still cleared),
/// and otherwise the number of message bytes written, excluding the
/// terminator.  The capacity is `buffer`'s length; it must fit an `i32`, as it
/// does for every buffer a foreign caller can describe with a 32-bit count.
pub fn last_error_message(slot: &mut ErrorSlot, buffer: &mut Vec<u8>) -> (r: i32)
    requires
        old(buffer)@.len() <= i32::MAX,
    ensures
        r == read_error_result(old(slot)@, old(buffer)@.len() as nat),
        final(slot)@ == read_error_slot_after(old(slot)@),
        final(buffer)@ == read_error_buffer_after(old(slot)@, old(buffer)@),
{
    let msg = take_last_error(slot);
    match msg {
        None => 0,
        Some(m) => {
            if m.len() >= buffer.len() {
                return -1;
            }
            let ghost buf0 = buffer@;
            let mut i: usize = 0;
            while i < m.len()
                invariant
                    i <= m@.len(),
                    m@.len() < buf0.len(),
                    buffer@.len() == buf0.len(),
                    forall|j: int| 0 <= j < i ==> buffer@[j] == m@[j],
                    forall|j: int| i <= j < buf0.len() ==> buffer@[j] == buf0[j],
                decreases m@.len() - i,
            {
                buffer[i] = m[i];
                i = i + 1;
            }
            buffer[m.len()] = 0u8;
            proof {
                assert(buffer@ =~= m@ + seq![0u8] + buf0.skip(m@.len() as int + 1));
            }
            m.len() as i32
        },
    }
}

/// Read-once law: when the stored message fits, a read returns its length and
/// a second read with no intervening failure returns 0, whatever capacity the
/// second read offers.
pub proof fn lemma_read_once(s: Option<Seq<u8>>, cap1: nat, cap2: nat)
    requires
        s matches Some(m) && m.len() < cap1,
    ensures
        s matches Some(m) ==> read_error_result(s, cap1) == m.len(),
        read_error_result(read_error_slot_after(s), cap2) == 0,
{
}

/// Overflow still consumes: a read whose capacity is at most the stored
/// message's length (that is, smaller than the length the peek reports)
/// returns -1, and the slot afterwards reports length 0.
pub proof fn lemma_overflow_read_clears(s: Option<Seq<u8>>, cap: nat)
    requires
        s matches Some(m) && cap <= m.len(),
    ensures
        read_error_result(s, cap) == -1,
        error_length_spec(read_error_slot_after(s)) == 0,
{
}

} // verus!
