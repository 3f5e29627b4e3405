//! The runtime of a web page.
use crate::context::{ContextView, VesselContext};
use crate::failure::ReportView;
use crate::operation::Operation;
use crate::startup::{Startup, StartupView};
use crate::wakeup::{VesselWaker, Wakeups, WakeupsView};
use vstd::prelude::*;

verus! {

/// Runs vessels in a web page.
pub struct WebRuntime;

/// A vessel about to be started, with all that its parts have in common. The parameters are those
/// of [`Startup`] and of [`VesselContext`].
pub struct Launch<N, D, S, I, G, M, R, W, F, C> {
    /// What is to be done to start it.
    pub startup: Startup<N, D, S, I, G>,
    /// What the functions that it calls work on.
    pub context: VesselContext<M, R, W, F, C>,
    /// Which of the operations that it waits for can go on, and whom to wake.
    pub wakeups: Wakeups,
    /// The waker to poll its reader with.
    pub reader_waker: VesselWaker,
    /// The waker to poll its writer with when bytes are written.
    pub writer_write_waker: VesselWaker,
    /// The waker to poll its writer with when that is flushed.
    pub writer_flush_waker: VesselWaker,
    /// The waker to poll its writer with when that is closed.
    pub writer_close_waker: VesselWaker,
}

impl WebRuntime {
    /// Prepares a vessel. Nothing is done yet, no flag is up, no task has polled and nothing has
    /// failed.
    pub fn instantiate<N, D, S, I, G, M, R, W, F, C>(&mut self) -> (launch: Launch<
        N,
        D,
        S,
        I,
        G,
        M,
        R,
        W,
        F,
        C,
    >)
        ensures
            launch.startup@.wf(),
            launch.startup@ == StartupView::<N, D, S, I, G>::fresh(),
            launch.context.wf(),
            launch.wakeups@ == (WakeupsView { raised: Set::empty(), waiting: None }),
            launch.context@ == (ContextView::<M, R, W, F, C> {
                report: ReportView::fresh(),
                memory: None,
            }),
            launch.reader_waker.operation() == Operation::Read,
            launch.writer_write_waker.operation() == Operation::Write,
            launch.writer_flush_waker.operation() == Operation::Flush,
            launch.writer_close_waker.operation() == Operation::Close,
    {
        Launch {
            startup: Startup::new(),
            context: VesselContext::new(),
            wakeups: Wakeups::new(),
            reader_waker: VesselWaker::new(Operation::Read),
            writer_write_waker: VesselWaker::new(Operation::Write),
            writer_flush_waker: VesselWaker::new(Operation::Flush),
            writer_close_waker: VesselWaker::new(Operation::Close),
        }
    }
}

} // verus!
