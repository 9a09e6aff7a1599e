//! The budget of one open: how often and how much the book file may be read.
use vstd::prelude::*;

verus! {

/// The most one read takes.
pub const EPUB_READ_AT_CHUNK_BYTES: usize = 8192;

pub const EPUB_OPEN_READ_OP_LIMIT: u32 = 65_536;

pub const EPUB_OPEN_READ_BYTE_LIMIT: u32 = 67_108_864;

/// How often a read is tried before it counts as failed.
pub const READ_ATTEMPTS: u8 = 3;

/// What an open has read so far.
#[derive(Clone, Copy, PartialEq, Eq, Structural, Debug)]
pub struct ReadBudget {
    pub read_ops: u32,
    pub read_bytes: u32,
}

pub open spec fn least(a: int, b: int) -> int {
    if a <= b { a } else { b }
}

/// How much of a request may be read: no more than a chunk, and no more than
/// the budget has left. `None` when that is nothing.
pub open spec fn allowed(budget: ReadBudget, requested: int) -> Option<int> {
    if budget.read_ops >= EPUB_OPEN_READ_OP_LIMIT || budget.read_bytes
        >= EPUB_OPEN_READ_BYTE_LIMIT || requested == 0 {
        None
    } else {
        Some(
            least(
                least(requested, EPUB_READ_AT_CHUNK_BYTES as int),
                EPUB_OPEN_READ_BYTE_LIMIT - budget.read_bytes,
            ),
        )
    }
}

/// What a try came to.
#[derive(Clone, Copy, PartialEq, Eq, Structural, Debug)]
pub enum ReadTry {
    /// The seek failed.
    SeekFailed,
    ReadFailed,
    /// This many bytes were read.
    Read(usize),
}

/// What follows a try.
#[derive(Clone, Copy, PartialEq, Eq, Structural, Debug)]
pub enum ReadNext {
    /// Try again.
    Again { attempt: u8 },
    Done(usize),
    Failed,
}

impl ReadBudget {
    pub fn new() -> (budget: ReadBudget)
        ensures
            budget == (ReadBudget { read_ops: 0, read_bytes: 0 }),
    {
        ReadBudget { read_ops: 0, read_bytes: 0 }
    }

    /// How much of a request may be read now.
    pub fn allow(&self, requested: usize) -> (len: Option<usize>)
        ensures
            match len {
                Some(len) => allowed(*self, requested as int) == Some(len as int) && len > 0,
                None => allowed(*self, requested as int) is None,
            },
    {
        if self.read_ops >= EPUB_OPEN_READ_OP_LIMIT || self.read_bytes
            >= EPUB_OPEN_READ_BYTE_LIMIT {
            return None;
        }
        let remaining: usize = EPUB_OPEN_READ_BYTE_LIMIT.saturating_sub(self.read_bytes) as usize;
        let mut len: usize = requested;
        if len > EPUB_READ_AT_CHUNK_BYTES {
            len = EPUB_READ_AT_CHUNK_BYTES;
        }
        if len > remaining {
            len = remaining;
        }
        if len == 0 {
            None
        } else {
            Some(len)
        }
    }

    /// What follows the try numbered `attempt`, counted from zero. Only a read
    /// that came back is charged.
    pub fn tried(&mut self, attempt: u8, outcome: ReadTry) -> (next: ReadNext)
        requires
            outcome matches ReadTry::Read(count) ==> count <= u32::MAX,
        ensures
            (*final(self), next) == after_try(*old(self), attempt, outcome),
            match outcome {
                ReadTry::Read(count) => {
                    &&& next == ReadNext::Done(count)
                    &&& *final(self) == (ReadBudget {
                        read_ops: least(old(self).read_ops + 1, u32::MAX as int) as u32,
                        read_bytes: least(old(self).read_bytes + count, u32::MAX as int) as u32,
                    })
                },
                _ => {
                    &&& *final(self) == *old(self)
                    &&& next == if attempt + 1 < READ_ATTEMPTS {
                        (ReadNext::Again { attempt: (attempt + 1) as u8 })
                    } else {
                        ReadNext::Failed
                    }
                },
            },
    {
        match outcome {
            ReadTry::Read(count) => {
                self.read_ops = self.read_ops.saturating_add(1);
                self.read_bytes = self.read_bytes.saturating_add(count as u32);
                ReadNext::Done(count)
            },
            ReadTry::SeekFailed | ReadTry::ReadFailed => {
                if attempt < READ_ATTEMPTS - 1 {
                    ReadNext::Again { attempt: attempt + 1 }
                } else {
                    ReadNext::Failed
                }
            },
        }
    }
}

/// An open never reads past its budget: a read of what was allowed leaves the
/// bytes within the limit, so sooner or later every book is read or given up.
pub proof fn law_budget_is_never_passed(budget: ReadBudget, requested: int, count: int)
    requires
        requested >= 0,
        allowed(budget, requested) is Some,
        0 <= count <= allowed(budget, requested)->0,
    ensures
        allowed(budget, requested)->0 > 0,
        budget.read_bytes + count <= EPUB_OPEN_READ_BYTE_LIMIT,
        budget.read_ops + 1 <= EPUB_OPEN_READ_OP_LIMIT,
{
}

/// What may be read is the longest piece that is within the request, a chunk
/// and the budget: it is within each, and it meets one of them.
pub proof fn law_longest_piece_is_allowed(budget: ReadBudget, requested: int)
    requires
        requested >= 0,
    ensures
        allowed(budget, requested) matches Some(len) ==> {
            let left = 67_108_864 - budget.read_bytes;
            &&& len <= requested && len <= 8192 && len <= left
            &&& len == requested || len == 8192 || len == left
        },
        allowed(budget, requested) is None <==> requested == 0 || budget.read_ops >= 65_536
            || budget.read_bytes >= 67_108_864,
{
}

pub open spec fn after_try(budget: ReadBudget, attempt: u8, outcome: ReadTry) -> (ReadBudget, ReadNext) {
    match outcome {
        ReadTry::Read(count) => (
            ReadBudget {
                read_ops: least(budget.read_ops + 1, u32::MAX as int) as u32,
                read_bytes: least(budget.read_bytes + count, u32::MAX as int) as u32,
            },
            ReadNext::Done(count),
        ),
        _ => (
            budget,
            if attempt + 1 < READ_ATTEMPTS {
                ReadNext::Again { attempt: (attempt + 1) as u8 }
            } else {
                ReadNext::Failed
            },
        ),
    }
}

/// A read that went is charged once and for what it brought; one that did not
/// is not charged, and is made again until its attempts are used up.
pub proof fn law_read_is_charged_for_what_it_brought(budget: ReadBudget, attempt: u8, count: usize, outcome: ReadTry)
    requires
        budget.read_ops < u32::MAX,
        budget.read_bytes + count <= u32::MAX,
        attempt < READ_ATTEMPTS,
    ensures
        ({
            let (charged, next) = after_try(budget, attempt, ReadTry::Read(count));
            &&& charged.read_ops == budget.read_ops + 1
            &&& charged.read_bytes == budget.read_bytes + count
            &&& next == ReadNext::Done(count)
        }),
        !(outcome is Read) ==> {
            let (charged, next) = after_try(budget, attempt, outcome);
            &&& charged == budget
            &&& next is Failed <==> attempt + 1 == READ_ATTEMPTS
            &&& !(next is Failed) ==> next == (ReadNext::Again { attempt: (attempt + 1) as u8 })
        },
{
}

} // verus!
