//! Failures of the reader and the writer, and how the first of them reaches the vessel's future.
use crate::operation::Operation;
use futures::channel::oneshot::{Canceled, Receiver, Sender};
use vstd::prelude::*;

verus! {

/// The sending half of a `futures::channel::oneshot` channel.
#[verifier::external_type_specification]
#[verifier::external_body]
#[verifier::reject_recursive_types(T)]
pub struct ExSender<T>(futures::channel::oneshot::Sender<T>);

/// The receiving half of a `futures::channel::oneshot` channel.
#[verifier::external_type_specification]
#[verifier::external_body]
#[verifier::reject_recursive_types(T)]
pub struct ExReceiver<T>(futures::channel::oneshot::Receiver<T>);

/// The error of a receiving half whose channel holds nothing and whose sending half is gone.
#[verifier::external_type_specification]
#[verifier::external_body]
pub struct ExCanceled(futures::channel::oneshot::Canceled);

/// What was sent to a receiving half and not yet received by it.
pub uninterp spec fn queued(receiver: Receiver<Operation>) -> Seq<Operation>;

/// Whether the two are the halves of one open channel, in which neither half is closed or gone.
pub uninterp spec fn connected(sender: Sender<Operation>, receiver: Receiver<Operation>) -> bool;

/// `futures::channel::oneshot::channel`: the two halves of a channel that holds nothing.
#[verifier::external_body]
fn channel() -> (halves: (Sender<Operation>, Receiver<Operation>))
    ensures
        connected(halves.0, halves.1),
        queued(halves.1) == Seq::<Operation>::empty(),
{
    futures::channel::oneshot::channel()
}

/// `Sender::send`: while the receiving half exists and was not closed, the value waits in the
/// channel from then on. That half is borrowed here because what waits in the channel is told of
/// it; no function of this crate closes it.
#[allow(unused_variables)]
#[verifier::external_body]
fn send(
    sender: Sender<Operation>,
    receiver: &mut Receiver<Operation>,
    operation: Operation,
) -> (sent: Result<(), Operation>)
    requires
        connected(sender, *old(receiver)),
        queued(*old(receiver)) == Seq::<Operation>::empty(),
    ensures
        sent is Ok,
        queued(*final(receiver)) == seq![operation],
{
    sender.send(operation)
}

/// `Receiver::try_recv`: takes what waits in the channel. Where nothing does, the result is
/// `Ok(None)` as long as the sending half exists and `Canceled` after that; which of the two is
/// not claimed.
#[verifier::external_body]
fn try_recv(receiver: &mut Receiver<Operation>) -> (received: Result<Option<Operation>, Canceled>)
    ensures
        match received {
            Ok(Some(operation)) => queued(*old(receiver)) == seq![operation],
            _ => queued(*old(receiver)) == Seq::<Operation>::empty(),
        },
        queued(*final(receiver)) == Seq::<Operation>::empty(),
        forall|sender: Sender<Operation>| #[trigger]
            connected(sender, *final(receiver)) == connected(sender, *old(receiver)),
{
    receiver.try_recv()
}

/// An operation that failed, with the error of the reader or the writer.
pub enum Failure<R, W, F, C> {
    Read(R),
    Write(W),
    Flush(F),
    Close(C),
}

impl<R, W, F, C> Failure<R, W, F, C> {
    /// Which operation failed.
    pub open spec fn spec_operation(&self) -> Operation {
        match self {
            Failure::Read(_) => Operation::Read,
            Failure::Write(_) => Operation::Write,
            Failure::Flush(_) => Operation::Flush,
            Failure::Close(_) => Operation::Close,
        }
    }

    /// Which operation failed.
    pub fn operation(&self) -> (operation: Operation)
        ensures
            operation == self.spec_operation(),
    {
        match self {
            Failure::Read(_) => Operation::Read,
            Failure::Write(_) => Operation::Write,
            Failure::Flush(_) => Operation::Flush,
            Failure::Close(_) => Operation::Close,
        }
    }
}

/// What can be said of a [`FailureReport`].
pub struct ReportView<E> {
    /// Whether no failure was reported yet.
    pub armed: bool,
    /// The failure that was reported and not yet received.
    pub pending: Option<E>,
}

impl<E> ReportView<E> {
    /// Nothing reported yet.
    pub open spec fn fresh() -> ReportView<E> {
        ReportView { armed: true, pending: None }
    }

    /// The report after a failure: the first one is kept, any other dropped.
    pub open spec fn report(self, failure: E) -> ReportView<E> {
        if self.armed {
            ReportView { armed: false, pending: Some(failure) }
        } else {
            self
        }
    }

    /// The report after several failures, one after the other.
    pub open spec fn report_all(self, failures: Seq<E>) -> ReportView<E>
        decreases failures.len(),
    {
        if failures.len() == 0 {
            self
        } else {
            self.report_all(failures.drop_last()).report(failures.last())
        }
    }

    /// The report after the failure that waited was received.
    pub open spec fn receive(self) -> ReportView<E> {
        ReportView { pending: None, ..self }
    }
}

/// Carries the first failure of the reader or the writer to the vessel's future. The operation
/// that failed goes through a channel; the error waits beside it.
pub struct FailureReport<R, W, F, C> {
    error_sender: Option<Sender<Operation>>,
    error: Receiver<Operation>,
    detail: Option<Failure<R, W, F, C>>,
}

impl<R, W, F, C> View for FailureReport<R, W, F, C> {
    type V = ReportView<Failure<R, W, F, C>>;

    closed spec fn view(&self) -> ReportView<Failure<R, W, F, C>> {
        ReportView {
            armed: self.error_sender is Some,
            pending: if queued(self.error).len() == 0 {
                None
            } else {
                self.detail
            },
        }
    }
}

impl<R, W, F, C> FailureReport<R, W, F, C> {
    /// The sending half, until it is used, belongs to a channel that holds nothing; and an error
    /// waits exactly while its operation is in the channel.
    pub closed spec fn wf(&self) -> bool {
        &&& self.error_sender matches Some(sender) ==> {
            &&& connected(sender, self.error)
            &&& queued(self.error) == Seq::<Operation>::empty()
        }
        &&& match self.detail {
            Some(failure) => queued(self.error) == seq![failure.spec_operation()],
            None => queued(self.error) == Seq::<Operation>::empty(),
        }
    }

    /// A report of nothing yet.
    pub fn new() -> (report: FailureReport<R, W, F, C>)
        ensures
            report.wf(),
            report@ == ReportView::<Failure<R, W, F, C>>::fresh(),
    {
        let (error_sender, error) = channel();
        FailureReport { error_sender: Some(error_sender), error, detail: None }
    }

    /// Reports a failure. Only the first one is kept.
    pub fn report(&mut self, failure: Failure<R, W, F, C>)
        requires
            old(self).wf(),
        ensures
            final(self).wf(),
            final(self)@ == old(self)@.report(failure),
    {
        if let Some(error_sender) = self.error_sender.take() {
            let operation = failure.operation();
            let _ = send(error_sender, &mut self.error, operation);
            self.detail = Some(failure);
        }
    }

    /// Receives the failure that was reported, once.
    pub fn receive(&mut self) -> (received: Option<Failure<R, W, F, C>>)
        requires
            old(self).wf(),
        ensures
            final(self).wf(),
            received == old(self)@.pending,
            final(self)@ == old(self)@.receive(),
    {
        match try_recv(&mut self.error) {
            Ok(Some(_)) => self.detail.take(),
            _ => None,
        }
    }
}

} // verus!
