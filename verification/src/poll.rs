//! Polling a vessel: which of its functions to call, and what its answers amount to.
use crate::context::{ContextView, Progress, VesselContext};
use crate::failure::{Failure, ReportView};
use crate::operation::Operation;
use crate::startup::Export;
use crate::wakeup::{Wakeups, WakeupsView};
use std::task::Waker;
use vstd::prelude::*;

verus! {

/// Why a vessel ended before its time. `J` is what a call into the vessel throws; the other
/// parameters are the errors of reading, writing, flushing and closing.
pub enum PollError<J, R, W, F, C> {
    Runtime(J),
    Read(R),
    Write(W),
    Flush(F),
    Close(C),
}

impl<J, R, W, F, C> PollError<J, R, W, F, C> {
    /// The error that a failed operation ends its vessel with.
    pub open spec fn of(failure: Failure<R, W, F, C>) -> PollError<J, R, W, F, C> {
        match failure {
            Failure::Read(error) => PollError::Read(error),
            Failure::Write(error) => PollError::Write(error),
            Failure::Flush(error) => PollError::Flush(error),
            Failure::Close(error) => PollError::Close(error),
        }
    }

    fn from_failure(failure: Failure<R, W, F, C>) -> (error: PollError<J, R, W, F, C>)
        ensures
            error == Self::of(failure),
    {
        match failure {
            Failure::Read(error) => PollError::Read(error),
            Failure::Write(error) => PollError::Write(error),
            Failure::Flush(error) => PollError::Flush(error),
            Failure::Close(error) => PollError::Close(error),
        }
    }
}

/// What comes next in a poll of a vessel.
pub enum Step<J, R, W, F, C> {
    /// Call the vessel's function that learns that an operation can go on, and hand what came of
    /// it to [`WebFuture::woke`].
    Wake(Operation),
    /// Call the vessel's function that makes it go on, and hand what it returned to
    /// [`WebFuture::polled`].
    Poll,
    /// The vessel has ended.
    Done(PollError<J, R, W, F, C>),
}

impl<J, R, W, F, C> Step<J, R, W, F, C> {
    /// The step that a poll begins with: a failure that was reported ends the vessel, else the
    /// flags are served from the first on.
    pub open spec fn first(
        report: ReportView<Failure<R, W, F, C>>,
        wakeups: WakeupsView,
    ) -> Step<J, R, W, F, C> {
        match report.pending {
            Some(failure) => Step::Done(PollError::of(failure)),
            None => Self::behind(wakeups, None),
        }
    }

    /// The step for the first flag behind `after` that is up; where none is, the vessel's turn.
    pub open spec fn behind(wakeups: WakeupsView, after: Option<Operation>) -> Step<J, R, W, F, C> {
        match wakeups.next_raised(after) {
            Some(operation) => Step::Wake(operation),
            None => Step::Poll,
        }
    }
}

/// The wakeups once the step behind `after` is chosen: the flag that it serves is down.
pub open spec fn served(wakeups: WakeupsView, after: Option<Operation>) -> WakeupsView {
    match wakeups.next_raised(after) {
        Some(operation) => wakeups.lower(operation),
        None => wakeups,
    }
}

/// The wakeups once a poll by the task of `waker` has begun.
pub open spec fn begun<E>(
    report: ReportView<E>,
    wakeups: WakeupsView,
    waker: Waker,
) -> WakeupsView {
    match report.pending {
        Some(_) => wakeups.register(waker),
        None => served(wakeups.register(waker), None),
    }
}

/// What a poll comes to by what the vessel returned or threw when it was made to go on.
pub open spec fn progress_of<J, R, W, F, C>(outcome: Result<i32, J>) -> Progress<
    (),
    PollError<J, R, W, F, C>,
> {
    match outcome {
        Err(thrown) => Progress::Failed(PollError::Runtime(thrown)),
        Ok(status) => if status != 0 {
            Progress::Pending
        } else {
            Progress::Ready(())
        },
    }
}

/// What can be said of a [`WebFuture`].
pub struct FutureView<I, G> {
    /// The vessel's instance.
    pub instance: I,
    /// The functions of the vessel that its polls call.
    pub functions: Map<Export, G>,
}

impl<I, G> FutureView<I, G> {
    /// All functions that a poll calls are there, and no others.
    pub open spec fn wf(self) -> bool {
        forall|export: Export| #[trigger]
            self.functions.contains_key(export) <==> export == Export::Poll || export is Wake
    }
}

/// A running vessel. A poll begins with [`poll`](WebFuture::poll), goes on as long as the steps
/// say so, and ends with [`polled`](WebFuture::polled) or with a step that is done. `I` is the
/// vessel's instance and `G` a function of it.
pub struct WebFuture<I, G> {
    instance: I,
    vessel_poll: G,
    vessel_wake_reader: G,
    vessel_wake_writer_write: G,
    vessel_wake_writer_flush: G,
    vessel_wake_writer_close: G,
}

impl<I, G> View for WebFuture<I, G> {
    type V = FutureView<I, G>;

    closed spec fn view(&self) -> FutureView<I, G> {
        FutureView {
            instance: self.instance,
            functions: Map::new(
                |export: Export| export == Export::Poll || export is Wake,
                |export: Export|
                    match export {
                        Export::Wake(Operation::Read) => self.vessel_wake_reader,
                        Export::Wake(Operation::Write) => self.vessel_wake_writer_write,
                        Export::Wake(Operation::Flush) => self.vessel_wake_writer_flush,
                        Export::Wake(Operation::Close) => self.vessel_wake_writer_close,
                        _ => self.vessel_poll,
                    },
            ),
        }
    }
}

impl<I, G> WebFuture<I, G> {
    /// A vessel that was started.
    pub(crate) fn new(
        instance: I,
        vessel_poll: G,
        vessel_wake_reader: G,
        vessel_wake_writer_write: G,
        vessel_wake_writer_flush: G,
        vessel_wake_writer_close: G,
    ) -> (future: WebFuture<I, G>)
        ensures
            future@.wf(),
            future@.instance == instance,
            future@.functions[Export::Poll] == vessel_poll,
            future@.functions[Export::Wake(Operation::Read)] == vessel_wake_reader,
            future@.functions[Export::Wake(Operation::Write)] == vessel_wake_writer_write,
            future@.functions[Export::Wake(Operation::Flush)] == vessel_wake_writer_flush,
            future@.functions[Export::Wake(Operation::Close)] == vessel_wake_writer_close,
    {
        WebFuture {
            instance,
            vessel_poll,
            vessel_wake_reader,
            vessel_wake_writer_write,
            vessel_wake_writer_flush,
            vessel_wake_writer_close,
        }
    }

    /// The vessel's instance.
    pub fn instance(&self) -> (instance: &I)
        ensures
            *instance == self@.instance,
    {
        &self.instance
    }

    /// The function to call at [`Step::Poll`].
    pub fn poll_function(&self) -> (function: &G)
        ensures
            *function == self@.functions[Export::Poll],
    {
        &self.vessel_poll
    }

    /// The function to call at [`Step::Wake`].
    pub fn wake_function(&self, operation: Operation) -> (function: &G)
        ensures
            *function == self@.functions[Export::Wake(operation)],
    {
        match operation {
            Operation::Read => &self.vessel_wake_reader,
            Operation::Write => &self.vessel_wake_writer_write,
            Operation::Flush => &self.vessel_wake_writer_flush,
            Operation::Close => &self.vessel_wake_writer_close,
        }
    }

    /// Begins a poll by the task of `waker`. That is the one to wake from now on, and no earlier
    /// one. A failure that was reported ends the vessel; else the flags are served.
    pub fn poll<M, J, R, W, F, C>(
        &self,
        context: &mut VesselContext<M, R, W, F, C>,
        wakeups: &mut Wakeups,
        waker: &Waker,
    ) -> (step: Step<J, R, W, F, C>)
        requires
            old(context).wf(),
        ensures
            final(context).wf(),
            final(context)@ == (ContextView {
                report: old(context)@.report.receive(),
                ..old(context)@
            }),
            step == Step::<J, R, W, F, C>::first(old(context)@.report, old(wakeups)@),
            final(wakeups)@ == begun(old(context)@.report, old(wakeups)@, *waker),
    {
        wakeups.register(waker);
        match context.receive() {
            Some(failure) => Step::Done(PollError::from_failure(failure)),
            None => Self::serve(wakeups, None),
        }
    }

    /// Serves the first flag behind `after` that is up.
    fn serve<J, R, W, F, C>(wakeups: &mut Wakeups, after: Option<Operation>) -> (step: Step<
        J,
        R,
        W,
        F,
        C,
    >)
        ensures
            step == Step::<J, R, W, F, C>::behind(old(wakeups)@, after),
            final(wakeups)@ == served(old(wakeups)@, after),
    {
        match wakeups.take_next(after) {
            Some(operation) => Step::Wake(operation),
            None => Step::Poll,
        }
    }

    /// Goes on after the vessel was told that `operation` can go on: what the call threw ends
    /// the vessel, else the flags behind `operation` are served.
    pub fn woke<J, R, W, F, C>(
        &self,
        wakeups: &mut Wakeups,
        operation: Operation,
        outcome: Result<(), J>,
    ) -> (step: Step<J, R, W, F, C>)
        ensures
            match outcome {
                Err(thrown) => {
                    &&& step == Step::<J, R, W, F, C>::Done(PollError::Runtime(thrown))
                    &&& final(wakeups)@ == old(wakeups)@
                },
                Ok(_) => {
                    &&& step == Step::<J, R, W, F, C>::behind(old(wakeups)@, Some(operation))
                    &&& final(wakeups)@ == served(old(wakeups)@, Some(operation))
                },
            },
    {
        match outcome {
            Err(thrown) => Step::Done(PollError::Runtime(thrown)),
            Ok(_) => Self::serve(wakeups, Some(operation)),
        }
    }

    /// Ends a poll with what the vessel returned when it was made to go on: zero once it has
    /// run to its end. What the call threw, or returned that is not a number, ends the vessel.
    pub fn polled<J, R, W, F, C>(&self, outcome: Result<i32, J>) -> (progress: Progress<
        (),
        PollError<J, R, W, F, C>,
    >)
        ensures
            progress == progress_of::<J, R, W, F, C>(outcome),
    {
        match outcome {
            Err(thrown) => Progress::Failed(PollError::Runtime(thrown)),
            Ok(status) => if status != 0 {
                Progress::Pending
            } else {
                Progress::Ready(())
            },
        }
    }
}

} // verus!
