//! The life of a vessel, from its start to its end, as a sequence of events.
use crate::context::Progress;
use crate::failure::{Failure, ReportView};
use crate::operation::Operation;
use crate::poll::{begun, progress_of, served, PollError, Step};
use crate::startup::{Action, Outcome, StartupError, StartupView};
use crate::wakeup::{VesselWaker, WakeupsView};
use std::task::Waker;
use vstd::prelude::*;

verus! {

/// Why a vessel did not end well.
pub enum Cause<J, A, B, R, W, F, C> {
    /// It was not started.
    Startup(StartupError<J, A, B>),
    /// It ended before its time.
    Poll(PollError<J, R, W, F, C>),
}

/// How far a vessel's life has come.
pub enum Phase<N, D, S, I, G, J, A, B, R, W, F, C> {
    /// It is being started.
    Starting(StartupView<N, D, S, I, G>),
    /// It runs, and no task is polling it.
    Between,
    /// It is being polled: this step is to be done.
    At(Step<J, R, W, F, C>),
    /// It has ended.
    Ended(Result<(), Cause<J, A, B, R, W, F, C>>),
}

/// What happens in a vessel's life.
pub enum Event<N, D, S, I, G, J, A, B, R, W, F, C> {
    /// The next action of the start came to this.
    Did(Outcome<N, D, S, I, G, J, A, B>),
    /// The task of this waker begins to poll.
    Begin(Waker),
    /// The vessel was told of a flag, at [`Step::Wake`].
    Told(Result<(), J>),
    /// The vessel was made to go on, at [`Step::Poll`].
    WentOn(Result<i32, J>),
    /// An operation that the vessel asked for failed.
    Failed(Failure<R, W, F, C>),
    /// The reader or the writer says that an operation can go on.
    Raised(Operation),
    /// The vessel asks to have its task go on.
    Woken,
}

impl<N, D, S, I, G, J, A, B, R, W, F, C> Event<N, D, S, I, G, J, A, B, R, W, F, C> {
    /// Whether the task is woken at this.
    pub open spec fn wakes(self) -> bool {
        self is Failed || self is Raised || self is Woken
    }

    /// Whether this belongs to a poll.
    pub open spec fn polls(self) -> bool {
        self is Begin || self is Told || self is WentOn
    }

    /// Whether this raises `flag`.
    pub open spec fn raises(self, flag: Operation) -> bool {
        self matches Event::Raised(operation) && VesselWaker::flag_of(operation) == flag
    }
}

/// A vessel's life so far, as the parts of this library know it.
pub struct Life<N, D, S, I, G, J, A, B, R, W, F, C> {
    pub phase: Phase<N, D, S, I, G, J, A, B, R, W, F, C>,
    pub report: ReportView<Failure<R, W, F, C>>,
    pub wakeups: WakeupsView,
}

impl<N, D, S, I, G, J, A, B, R, W, F, C> Life<N, D, S, I, G, J, A, B, R, W, F, C> {
    /// A vessel about to be started.
    pub open spec fn begin() -> Life<N, D, S, I, G, J, A, B, R, W, F, C> {
        Life {
            phase: Phase::Starting(StartupView::fresh()),
            report: ReportView::fresh(),
            wakeups: WakeupsView { raised: Set::empty(), waiting: None },
        }
    }

    /// Whether `event` can happen next. An action of the start is done while there is one to do;
    /// a poll begins when the vessel runs and none is going on; the vessel is called as the steps
    /// of the poll say. The reader, the writer and the vessel itself may have their say at any
    /// time.
    pub open spec fn admits(self, event: Event<N, D, S, I, G, J, A, B, R, W, F, C>) -> bool {
        match event {
            Event::Did(outcome) => self.phase matches Phase::Starting(startup) && outcome.answers(
                startup.action(),
            ),
            Event::Begin(_) => self.phase is Between || (self.phase matches Phase::Starting(startup)
                && startup.action() == Action::Run),
            Event::Told(_) => self.phase matches Phase::At(step) && step is Wake,
            Event::WentOn(_) => self.phase matches Phase::At(step) && step is Poll,
            _ => true,
        }
    }

    /// The life after `event`, by what the functions that belong to it say.
    pub open spec fn after(self, event: Event<N, D, S, I, G, J, A, B, R, W, F, C>) -> Life<N, D, S, I, G, J, A, B, R, W, F, C> {
        match event {
            Event::Did(outcome) => Life {
                phase: match self.phase {
                    Phase::Starting(startup) => match startup.after(outcome) {
                        Ok(next) => Phase::Starting(next),
                        Err(error) => Phase::Ended(Err(Cause::Startup(error))),
                    },
                    phase => phase,
                },
                ..self
            },
            Event::Begin(waker) => Life {
                phase: match Step::first(self.report, self.wakeups) {
                    Step::Done(error) => Phase::Ended(Err(Cause::Poll(error))),
                    step => Phase::At(step),
                },
                report: self.report.receive(),
                wakeups: begun(self.report, self.wakeups, waker),
            },
            Event::Told(outcome) => match self.phase {
                Phase::At(Step::Wake(operation)) => match outcome {
                    Err(thrown) => Life {
                        phase: Phase::Ended(Err(Cause::Poll(PollError::Runtime(thrown)))),
                        ..self
                    },
                    Ok(_) => Life {
                        phase: Phase::At(Step::behind(self.wakeups, Some(operation))),
                        wakeups: served(self.wakeups, Some(operation)),
                        ..self
                    },
                },
                _ => self,
            },
            Event::WentOn(outcome) => Life {
                phase: match progress_of::<J, R, W, F, C>(outcome) {
                    Progress::Pending => Phase::Between,
                    Progress::Ready(_) => Phase::Ended(Ok(())),
                    Progress::Failed(error) => Phase::Ended(Err(Cause::Poll(error))),
                },
                ..self
            },
            Event::Failed(failure) => Life {
                report: self.report.report(failure),
                wakeups: self.wakeups.wake(),
                ..self
            },
            Event::Raised(operation) => Life {
                wakeups: self.wakeups.raise(VesselWaker::flag_of(operation)),
                ..self
            },
            Event::Woken => Life { wakeups: self.wakeups.wake(), ..self },
        }
    }

    /// Who is woken at `event`.
    pub open spec fn woken_by(self, event: Event<N, D, S, I, G, J, A, B, R, W, F, C>) -> Option<Waker> {
        if event.wakes() {
            self.wakeups.waiting
        } else {
            None
        }
    }

    /// The life after several events.
    pub open spec fn after_all(self, events: Seq<Event<N, D, S, I, G, J, A, B, R, W, F, C>>) -> Life<N, D, S, I, G, J, A, B, R, W, F, C>
        decreases events.len(),
    {
        if events.len() == 0 {
            self
        } else {
            self.after_all(events.drop_last()).after(events.last())
        }
    }

    /// Whether the events can happen, one after the other.
    pub open spec fn admits_all(self, events: Seq<Event<N, D, S, I, G, J, A, B, R, W, F, C>>) -> bool
        decreases events.len(),
    {
        events.len() == 0 || self.admits_all(events.drop_last()) && self.after_all(
            events.drop_last(),
        ).admits(events.last())
    }

    /// How often the vessel was entered in the life that begins with `events`.
    pub open spec fn entries(events: Seq<Event<N, D, S, I, G, J, A, B, R, W, F, C>>) -> nat
        decreases events.len(),
    {
        if events.len() == 0 {
            0
        } else {
            let before = Self::begin().after_all(events.drop_last());
            let entered = events.last() is Did && (before.phase matches Phase::Starting(startup)
                && startup.action() == Action::Enter);
            Self::entries(events.drop_last()) + if entered {
                1nat
            } else {
                0nat
            }
        }
    }

    /// The first failure among the events.
    pub open spec fn first_failure(events: Seq<Event<N, D, S, I, G, J, A, B, R, W, F, C>>) -> Option<Failure<R, W, F, C>>
        decreases events.len(),
    {
        if events.len() == 0 {
            None
        } else {
            match Self::first_failure(events.drop_last()) {
                Some(failure) => Some(failure),
                None => match events.last() {
                    Event::Failed(failure) => Some(failure),
                    _ => None,
                },
            }
        }
    }

    /// What came of making the vessel go on, each time.
    pub open spec fn statuses(events: Seq<Event<N, D, S, I, G, J, A, B, R, W, F, C>>) -> Seq<Result<i32, J>>
        decreases events.len(),
    {
        if events.len() == 0 {
            Seq::empty()
        } else {
            match events.last() {
                Event::WentOn(outcome) => Self::statuses(events.drop_last()).push(outcome),
                _ => Self::statuses(events.drop_last()),
            }
        }
    }

    /// How often, along the events, a poll comes to tell the vessel of `flag`.
    pub open spec fn turns(self, events: Seq<Event<N, D, S, I, G, J, A, B, R, W, F, C>>, flag: Operation) -> nat
        decreases events.len(),
    {
        if events.len() == 0 {
            0
        } else {
            let came = (events.last() is Begin || events.last() is Told) && self.after_all(
                events,
            ).phase == Phase::<N, D, S, I, G, J, A, B, R, W, F, C>::At(Step::Wake(flag));
            self.turns(events.drop_last(), flag) + if came {
                1nat
            } else {
                0nat
            }
        }
    }

    /// The events before the last poll.
    pub open spec fn before_last_poll(events: Seq<Event<N, D, S, I, G, J, A, B, R, W, F, C>>) -> Seq<Event<N, D, S, I, G, J, A, B, R, W, F, C>>
        decreases events.len(),
    {
        if events.len() == 0 {
            events
        } else if events.last() is Begin {
            events.drop_last()
        } else {
            Self::before_last_poll(events.drop_last())
        }
    }
}

} // verus!
