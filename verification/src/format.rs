//! The two-phase convention of the runtimes' formatting calls.
//!
//! A formatting call writes into a buffer of a given capacity and always
//! answers with the number of bytes the whole text needs. The caller holds
//! that number against the capacity it offered: a number that is not smaller
//! means the text was cut. The caller then offers a buffer of one byte more
//! than the number and calls once more. The first buffer is a scratch buffer
//! of fixed size; there is never a third call.
use crate::text::{is_text_end, lemma_text_end_unique, text_bytes};
use vstd::prelude::*;

verus! {

/// Bytes in the scratch buffer of the first call.
pub const SCRATCH_CAPACITY: usize = 1024;

/// Where a formatting exchange stands.
#[derive(Clone, Copy, Debug, PartialEq, Eq, Structural)]
pub enum Phase {
    /// The first call, into the scratch buffer, is due.
    Measure,
    /// The text was cut; one call into a larger buffer is due.
    Retry,
    /// No call is due: the buffer of the last call is to be decoded.
    Done,
}

/// A formatting exchange: its phase, and the capacity of the buffer that the
/// call now due writes into or, once done, that the last call wrote into.
#[derive(Clone, Copy, Debug, PartialEq, Eq, Structural)]
pub struct Exchange {
    pub phase: Phase,
    pub capacity: usize,
}

/// Whether a call that offered `capacity` bytes and was answered with
/// `needed` left a text that is cut short.
pub open spec fn spec_truncated(capacity: usize, needed: usize) -> bool {
    needed >= capacity
}

/// Whether a call that offered `capacity` bytes and was answered with
/// `needed` left a text that is cut short.
#[verifier::when_used_as_spec(spec_truncated)]
pub fn truncated(capacity: usize, needed: usize) -> (cut: bool)
    ensures
        cut == spec_truncated(capacity, needed),
{
    needed >= capacity
}

impl Exchange {
    /// What holds of every exchange that began with `start`: the first call
    /// has the scratch buffer, a retry has a larger one, and the last buffer
    /// is one of the two.
    pub open spec fn wf(self) -> bool {
        match self.phase {
            Phase::Measure => self.capacity == SCRATCH_CAPACITY,
            Phase::Retry => self.capacity > SCRATCH_CAPACITY,
            Phase::Done => self.capacity >= SCRATCH_CAPACITY,
        }
    }

    /// The exchange before any call.
    pub open spec fn spec_start() -> Exchange {
        Exchange { phase: Phase::Measure, capacity: SCRATCH_CAPACITY }
    }

    /// The exchange after the call that was due has answered `needed`.
    pub open spec fn spec_reply(self, needed: usize) -> Exchange {
        match self.phase {
            Phase::Measure => if spec_truncated(self.capacity, needed) {
                Exchange { phase: Phase::Retry, capacity: (needed + 1) as usize }
            } else {
                Exchange { phase: Phase::Done, capacity: self.capacity }
            },
            Phase::Retry => Exchange { phase: Phase::Done, capacity: self.capacity },
            Phase::Done => self,
        }
    }

    /// Whether `needed` can be taken as an answer: a retry buffer of one byte
    /// more must have a size.
    pub open spec fn accepts(self, needed: usize) -> bool {
        self.phase == Phase::Measure ==> needed < usize::MAX
    }

    /// Begins an exchange: the first call writes into the scratch buffer.
    pub fn start() -> (exchange: Exchange)
        ensures
            exchange == Exchange::spec_start(),
            exchange.wf(),
    {
        Exchange { phase: Phase::Measure, capacity: SCRATCH_CAPACITY }
    }

    /// Whether a call is due, into a buffer of `self.capacity` bytes.
    pub fn call_due(&self) -> (due: bool)
        ensures
            due == (self.phase != Phase::Done),
    {
        match self.phase {
            Phase::Done => false,
            _ => true,
        }
    }

    /// Whether `needed` can be taken as an answer by `reply`.
    pub fn can_reply(&self, needed: usize) -> (ok: bool)
        ensures
            ok == self.accepts(needed),
    {
        match self.phase {
            Phase::Measure => needed < usize::MAX,
            _ => true,
        }
    }

    /// Takes the answer of the call that was due and decides what follows:
    /// after a first call that cut the text, a retry with `needed + 1` bytes;
    /// after any other call, nothing.
    pub fn reply(self, needed: usize) -> (next: Exchange)
        requires
            self.accepts(needed),
        ensures
            next == self.spec_reply(needed),
            self.wf() ==> next.wf(),
    {
        match self.phase {
            Phase::Measure => {
                if truncated(self.capacity, needed) {
                    Exchange { phase: Phase::Retry, capacity: needed + 1 }
                } else {
                    Exchange { phase: Phase::Done, capacity: self.capacity }
                }
            },
            Phase::Retry => Exchange { phase: Phase::Done, capacity: self.capacity },
            Phase::Done => self,
        }
    }
}

/// An exchange makes at most two calls: whatever the two answers are, no call
/// is due after the second, and none after the first exactly when the text
/// fitted the scratch buffer.
pub proof fn lemma_at_most_two_calls(first: usize, second: usize)
    requires
        first < usize::MAX,
    ensures
        Exchange::spec_start().spec_reply(first).spec_reply(second).phase == Phase::Done,
        Exchange::spec_start().spec_reply(first).phase == Phase::Done <==> first
            < SCRATCH_CAPACITY,
        Exchange::spec_start().spec_reply(first).phase == Phase::Retry <==> first
            >= SCRATCH_CAPACITY,
{
}

/// The buffer an exchange ends with is large enough for the length that the
/// first call answered: a runtime that answers the retry as it answered the
/// first call has not cut the text.
pub proof fn lemma_last_buffer_fits(needed: usize, again: usize)
    requires
        needed < usize::MAX,
    ensures
        !spec_truncated(Exchange::spec_start().spec_reply(needed).capacity, needed),
        Exchange::spec_start().spec_reply(needed).spec_reply(again).capacity
            == Exchange::spec_start().spec_reply(needed).capacity,
        Exchange::spec_start().spec_reply(needed).capacity == if needed < SCRATCH_CAPACITY {
            SCRATCH_CAPACITY as int
        } else {
            needed + 1
        },
{
}

/// How much of a text of `len` bytes a buffer of `capacity` bytes keeps: all
/// of it where a closing NUL still fits behind it, else what fits before the
/// NUL.
pub open spec fn kept_len(len: int, capacity: int) -> int {
    if len < capacity {
        len
    } else {
        capacity - 1
    }
}

/// Whether `buffer` is what a formatting call that follows the convention
/// leaves behind for `text`: as much of the text as the buffer keeps, then a
/// NUL. What lies behind the NUL is open.
pub open spec fn holds_formatted(buffer: Seq<u8>, text: Seq<u8>) -> bool {
    let kept = kept_len(text.len() as int, buffer.len() as int);
    &&& buffer.len() > 0
    &&& buffer.take(kept) == text.take(kept)
    &&& buffer[kept] == 0
}

/// The C string in a buffer that a formatting call left behind is the part of
/// the text that the buffer keeps.
pub proof fn lemma_formatted_text(buffer: Seq<u8>, text: Seq<u8>)
    requires
        !text.contains(0u8),
        holds_formatted(buffer, text),
    ensures
        text_bytes(buffer) == text.take(kept_len(text.len() as int, buffer.len() as int)),
        text.len() < buffer.len() ==> text_bytes(buffer) == text,
{
    let kept = kept_len(text.len() as int, buffer.len() as int);
    assert forall|i: int| 0 <= i < kept implies buffer[i] != 0 by {
        assert(buffer[i] == buffer.take(kept)[i]);
        assert(text.take(kept)[i] == text[i]);
        assert(text.contains(text[i]));
    }
    assert(is_text_end(buffer, kept));
    lemma_text_end_unique(buffer, kept);
    if text.len() < buffer.len() {
        assert(text.take(kept) =~= text);
    }
}

/// An exchange with a runtime that follows the convention ends with the whole
/// text: it has no NUL of its own, `first` is what the first call left in
/// the scratch buffer, and `second` is what the retry, where one was due, left
/// in its buffer. The buffer of the last call then holds the text, uncut.
pub proof fn lemma_exchange_recovers_text(text: Seq<u8>, first: Seq<u8>, second: Seq<u8>)
    requires
        !text.contains(0u8),
        text.len() < usize::MAX,
        first.len() == SCRATCH_CAPACITY,
        holds_formatted(first, text),
        Exchange::spec_start().spec_reply(text.len() as usize).phase == Phase::Retry ==> {
            &&& second.len() == Exchange::spec_start().spec_reply(text.len() as usize).capacity
            &&& holds_formatted(second, text)
        },
    ensures
        text_bytes(
            if Exchange::spec_start().spec_reply(text.len() as usize).phase == Phase::Done {
                first
            } else {
                second
            },
        ) == text,
{
    if Exchange::spec_start().spec_reply(text.len() as usize).phase == Phase::Done {
        lemma_formatted_text(first, text);
    } else {
        lemma_formatted_text(second, text);
    }
}

} // verus!
