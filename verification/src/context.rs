//! What a vessel calls while it runs: the replies to its four polls.
use crate::failure::{Failure, FailureReport, ReportView};
use crate::wakeup::Wakeups;
use std::task::Waker;
use vstd::prelude::*;

verus! {

/// Where an operation stands after it was polled.
pub enum Progress<T, E> {
    Pending,
    Ready(T),
    Failed(E),
}

/// What a vessel reads as "not now". A failed operation gets this reply too: its error goes to
/// the vessel's future.
pub const NOT_READY: i32 = 0;

/// What a vessel reads as "done", where there is no count to give.
pub const DONE: i32 = 1;

/// The address that a vessel means by a 32-bit word, which reaches the host as a signed number.
pub open spec fn address(word: i32) -> int {
    if word >= 0 {
        word as int
    } else {
        word + 0x1_0000_0000
    }
}

/// The signed 32-bit number whose bits are the low bits of `value`.
pub open spec fn low_word(value: int) -> int {
    let low = value % 0x1_0000_0000;
    if low < 0x8000_0000 {
        low
    } else {
        low - 0x1_0000_0000
    }
}

/// What a vessel is told of `count` bytes moved: one more, so that none differs from
/// [`NOT_READY`].
pub open spec fn count_status(count: int) -> int {
    low_word(count + 1)
}

/// The address that `word` stands for.
fn to_address(word: i32) -> (at: u32)
    ensures
        at == address(word),
{
    assert(word >= 0 ==> #[verifier::truncate] (word as u32) == word) by (bit_vector);
    assert(word < 0 ==> #[verifier::truncate] (word as u32) == word + 0x1_0000_0000) by (bit_vector);
    #[verifier::truncate]
    let at: u32 = word as u32;
    at
}

/// The status that stands for `count` bytes.
fn to_status(count: usize) -> (status: i32)
    requires
        count < usize::MAX,
    ensures
        status == count_status(count as int),
{
    let moved: u64 = (count + 1) as u64;
    assert(moved % 0x1_0000_0000 < 0x8000_0000 ==> #[verifier::truncate] (moved as i32) == moved
        % 0x1_0000_0000) by (bit_vector);
    assert(moved % 0x1_0000_0000 >= 0x8000_0000 ==> #[verifier::truncate] (moved as i32) == moved
        % 0x1_0000_0000 - 0x1_0000_0000) by (bit_vector);
    #[verifier::truncate]
    let status: i32 = moved as i32;
    status
}

/// The buffer that the reader fills when a vessel asks for up to `len` bytes.
pub fn read_buffer(len: i32) -> (buffer: Vec<u8>)
    requires
        len >= 0,
    ensures
        buffer@ == Seq::new(len as nat, |i: int| 0u8),
{
    let buffer: Vec<u8> = vec![0u8; len as usize];
    assert(buffer@ =~= Seq::new(len as nat, |i: int| 0u8));
    buffer
}

/// A part of a vessel's memory: from `begin` up to, but not with, `end`.
pub struct Span {
    pub begin: u32,
    pub end: u32,
}

/// The part of its memory that a vessel asks to have written when it names `len` bytes at `ptr`.
pub fn write_span(ptr: i32, len: i32) -> (span: Span)
    requires
        address(ptr) + address(len) <= u32::MAX,
    ensures
        span.begin == address(ptr),
        span.end == address(ptr) + address(len),
        ptr >= 0 ==> span.begin == ptr,
        ptr < 0 ==> span.begin == ptr + 0x1_0000_0000,
        len >= 0 ==> span.end - span.begin == len,
        len < 0 ==> span.end - span.begin == len + 0x1_0000_0000,
{
    let begin: u32 = to_address(ptr);
    let end: u32 = begin + to_address(len);
    Span { begin, end }
}

/// Bytes to store in a vessel's memory, from `offset` on.
pub struct Transfer {
    pub offset: u32,
    pub bytes: Vec<u8>,
}

/// The answer to a vessel that asked for bytes.
pub struct ReadReply {
    /// What the vessel's call returns.
    pub status: i32,
    /// What is stored in the vessel's memory before the call returns.
    pub transfer: Option<Transfer>,
    /// Who is woken before the call returns.
    pub wake: Option<Waker>,
}

/// The answer to a vessel that asked the writer for something.
pub struct WriteReply {
    /// What the vessel's call returns.
    pub status: i32,
    /// Who is woken before the call returns.
    pub wake: Option<Waker>,
}

/// What can be said of a [`VesselContext`].
pub struct ContextView<M, R, W, F, C> {
    /// The first failure of the reader or the writer.
    pub report: ReportView<Failure<R, W, F, C>>,
    /// The vessel's memory, once the vessel exists.
    pub memory: Option<M>,
}

impl<M, R, W, F, C> ContextView<M, R, W, F, C> {
    /// The context after an operation failed.
    pub open spec fn fail(self, failure: Failure<R, W, F, C>) -> ContextView<M, R, W, F, C> {
        ContextView { report: self.report.report(failure), ..self }
    }
}

/// What the functions that a vessel calls have in common. `M` is the host's handle on the
/// vessel's memory; the other parameters are the errors of reading, writing, flushing and closing.
pub struct VesselContext<M, R, W, F, C> {
    report: FailureReport<R, W, F, C>,
    memory: Option<M>,
}

impl<M, R, W, F, C> View for VesselContext<M, R, W, F, C> {
    type V = ContextView<M, R, W, F, C>;

    closed spec fn view(&self) -> ContextView<M, R, W, F, C> {
        ContextView { report: self.report@, memory: self.memory }
    }
}

impl<M, R, W, F, C> VesselContext<M, R, W, F, C> {
    /// The report of failures is well formed.
    pub closed spec fn wf(&self) -> bool {
        self.report.wf()
    }

    /// A context without a failure and without a vessel's memory.
    pub fn new() -> (context: VesselContext<M, R, W, F, C>)
        ensures
            context.wf(),
            context@ == (ContextView::<M, R, W, F, C> {
                report: ReportView::fresh(),
                memory: None,
            }),
    {
        VesselContext { report: FailureReport::new(), memory: None }
    }

    /// Makes the memory of the vessel known.
    pub fn attach(&mut self, memory: M)
        requires
            old(self).wf(),
        ensures
            final(self).wf(),
            final(self)@ == (ContextView { memory: Some(memory), ..old(self)@ }),
    {
        self.memory = Some(memory);
    }

    /// The memory of the vessel, once it is known.
    pub fn memory(&self) -> (memory: Option<&M>)
        ensures
            match memory {
                Some(attached) => self@.memory == Some(*attached),
                None => self@.memory is None,
            },
    {
        match &self.memory {
            Some(attached) => Some(attached),
            None => None,
        }
    }

    /// Reports a failure. The waker that comes back is to be woken, now that the failure waits.
    fn fail(&mut self, wakeups: &mut Wakeups, failure: Failure<R, W, F, C>) -> (wake: Option<Waker>)
        requires
            old(self).wf(),
        ensures
            final(self).wf(),
            final(self)@ == old(self)@.fail(failure),
            final(self)@.report == old(self)@.report.report(failure),
            final(self)@.memory == old(self)@.memory,
            wake == old(wakeups)@.waiting,
            final(wakeups)@ == old(wakeups)@.wake(),
    {
        self.report.report(failure);
        wakeups.wake()
    }

    /// Receives the failure that was reported, once.
    pub fn receive(&mut self) -> (received: Option<Failure<R, W, F, C>>)
        requires
            old(self).wf(),
        ensures
            final(self).wf(),
            received == old(self)@.report.pending,
            final(self)@ == (ContextView { report: old(self)@.report.receive(), ..old(self)@ }),
    {
        self.report.receive()
    }

    /// Answers a vessel that asked for bytes at `ptr`. `buffer` is what the reader had to fill,
    /// and `outcome` what it made of it: the bytes that it filled come first in the buffer.
    pub fn vessel_poll_read(
        &mut self,
        wakeups: &mut Wakeups,
        ptr: i32,
        buffer: Vec<u8>,
        outcome: Progress<usize, R>,
    ) -> (reply: ReadReply)
        requires
            old(self).wf(),
            buffer@.len() <= i32::MAX,
            outcome matches Progress::Ready(count) ==> count <= buffer@.len()
                && old(self)@.memory is Some,
        ensures
            final(self).wf(),
            match outcome {
                Progress::Pending => {
                    &&& reply.status == NOT_READY
                    &&& reply.transfer is None
                    &&& reply.wake is None
                    &&& final(self)@ == old(self)@
                    &&& final(wakeups)@ == old(wakeups)@
                },
                Progress::Ready(count) => {
                    &&& reply.status == count_status(count as int)
                    &&& count < i32::MAX ==> reply.status == count + 1
                    &&& reply.transfer matches Some(transfer) && transfer.offset == address(ptr)
                        && transfer.bytes@ == buffer@.take(count as int)
                        && (ptr >= 0 ==> transfer.offset == ptr) && (ptr < 0 ==> transfer.offset
                        == ptr + 0x1_0000_0000)
                    &&& reply.wake is None
                    &&& final(self)@ == old(self)@
                    &&& final(wakeups)@ == old(wakeups)@
                },
                Progress::Failed(error) => {
                    &&& reply.status == NOT_READY
                    &&& reply.transfer is None
                    &&& reply.wake == old(wakeups)@.waiting
                    &&& final(self)@ == old(self)@.fail(Failure::Read(error))
                    &&& final(self)@.report == old(self)@.report.report(Failure::Read(error))
                    &&& final(self)@.memory == old(self)@.memory
                    &&& final(wakeups)@ == old(wakeups)@.wake()
                },
            },
    {
        match outcome {
            Progress::Pending => ReadReply { status: NOT_READY, transfer: None, wake: None },
            Progress::Ready(count) => {
                let mut bytes: Vec<u8> = buffer;
                bytes.truncate(count);
                let offset: u32 = to_address(ptr);
                ReadReply {
                    status: to_status(count),
                    transfer: Some(Transfer { offset, bytes }),
                    wake: None,
                }
            },
            Progress::Failed(error) => {
                let wake = self.fail(wakeups, Failure::Read(error));
                ReadReply { status: NOT_READY, transfer: None, wake }
            },
        }
    }

    /// Answers a vessel that asked to have bytes written. `outcome` is what the writer made of
    /// the bytes of the vessel's [`write_span`].
    pub fn vessel_poll_write(
        &mut self,
        wakeups: &mut Wakeups,
        outcome: Progress<usize, W>,
    ) -> (reply: WriteReply)
        requires
            old(self).wf(),
            outcome matches Progress::Ready(count) ==> count < usize::MAX,
        ensures
            final(self).wf(),
            match outcome {
                Progress::Pending => {
                    &&& reply.status == NOT_READY
                    &&& reply.wake is None
                    &&& final(self)@ == old(self)@
                    &&& final(wakeups)@ == old(wakeups)@
                },
                Progress::Ready(count) => {
                    &&& reply.status == count_status(count as int)
                    &&& count < i32::MAX ==> reply.status == count + 1
                    &&& reply.wake is None
                    &&& final(self)@ == old(self)@
                    &&& final(wakeups)@ == old(wakeups)@
                },
                Progress::Failed(error) => {
                    &&& reply.status == NOT_READY
                    &&& reply.wake == old(wakeups)@.waiting
                    &&& final(self)@ == old(self)@.fail(Failure::Write(error))
                    &&& final(self)@.report == old(self)@.report.report(Failure::Write(error))
                    &&& final(self)@.memory == old(self)@.memory
                    &&& final(wakeups)@ == old(wakeups)@.wake()
                },
            },
    {
        match outcome {
            Progress::Pending => WriteReply { status: NOT_READY, wake: None },
            Progress::Ready(count) => WriteReply { status: to_status(count), wake: None },
            Progress::Failed(error) => {
                let wake = self.fail(wakeups, Failure::Write(error));
                WriteReply { status: NOT_READY, wake }
            },
        }
    }

    /// Answers a vessel that asked to have the writer flushed.
    pub fn vessel_poll_flush(
        &mut self,
        wakeups: &mut Wakeups,
        outcome: Progress<(), F>,
    ) -> (reply: WriteReply)
        requires
            old(self).wf(),
        ensures
            final(self).wf(),
            match outcome {
                Progress::Pending => {
                    &&& reply.status == NOT_READY
                    &&& reply.wake is None
                    &&& final(self)@ == old(self)@
                    &&& final(wakeups)@ == old(wakeups)@
                },
                Progress::Ready(_) => {
                    &&& reply.status == DONE
                    &&& reply.wake is None
                    &&& final(self)@ == old(self)@
                    &&& final(wakeups)@ == old(wakeups)@
                },
                Progress::Failed(error) => {
                    &&& reply.status == NOT_READY
                    &&& reply.wake == old(wakeups)@.waiting
                    &&& final(self)@ == old(self)@.fail(Failure::Flush(error))
                    &&& final(self)@.report == old(self)@.report.report(Failure::Flush(error))
                    &&& final(self)@.memory == old(self)@.memory
                    &&& final(wakeups)@ == old(wakeups)@.wake()
                },
            },
    {
        match outcome {
            Progress::Pending => WriteReply { status: NOT_READY, wake: None },
            Progress::Ready(_) => WriteReply { status: DONE, wake: None },
            Progress::Failed(error) => {
                let wake = self.fail(wakeups, Failure::Flush(error));
                WriteReply { status: NOT_READY, wake }
            },
        }
    }

    /// Answers a vessel that asked to have the writer closed.
    pub fn vessel_poll_close(
        &mut self,
        wakeups: &mut Wakeups,
        outcome: Progress<(), C>,
    ) -> (reply: WriteReply)
        requires
            old(self).wf(),
        ensures
            final(self).wf(),
            match outcome {
                Progress::Pending => {
                    &&& reply.status == NOT_READY
                    &&& reply.wake is None
                    &&& final(self)@ == old(self)@
                    &&& final(wakeups)@ == old(wakeups)@
                },
                Progress::Ready(_) => {
                    &&& reply.status == DONE
                    &&& reply.wake is None
                    &&& final(self)@ == old(self)@
                    &&& final(wakeups)@ == old(wakeups)@
                },
                Progress::Failed(error) => {
                    &&& reply.status == NOT_READY
                    &&& reply.wake == old(wakeups)@.waiting
                    &&& final(self)@ == old(self)@.fail(Failure::Close(error))
                    &&& final(self)@.report == old(self)@.report.report(Failure::Close(error))
                    &&& final(self)@.memory == old(self)@.memory
                    &&& final(wakeups)@ == old(wakeups)@.wake()
                },
            },
    {
        match outcome {
            Progress::Pending => WriteReply { status: NOT_READY, wake: None },
            Progress::Ready(_) => WriteReply { status: DONE, wake: None },
            Progress::Failed(error) => {
                let wake = self.fail(wakeups, Failure::Close(error));
                WriteReply { status: NOT_READY, wake }
            },
        }
    }
}

} // verus!
