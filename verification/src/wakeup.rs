//! Wakeups: which of the operations that a vessel waits for can go on.
use crate::operation::Operation;
use crate::task::TaskWaker;
use std::task::Waker;
use vstd::prelude::*;

verus! {

/// What can be said of [`Wakeups`].
pub struct WakeupsView {
    /// The operations whose flag is up.
    pub raised: Set<Operation>,
    /// The waker of the task that polled last, until it is taken to be woken.
    pub waiting: Option<Waker>,
}

impl WakeupsView {
    /// The wakeups after a task polled.
    pub open spec fn register(self, waker: Waker) -> WakeupsView {
        WakeupsView { waiting: Some(waker), ..self }
    }

    /// The wakeups after the waker was taken to be woken.
    pub open spec fn wake(self) -> WakeupsView {
        WakeupsView { waiting: None, ..self }
    }

    /// The wakeups after the flag of `operation` was raised and the waker taken to be woken.
    pub open spec fn raise(self, operation: Operation) -> WakeupsView {
        WakeupsView { raised: self.raised.insert(operation), waiting: None }
    }

    /// The wakeups with the flag of `operation` down.
    pub open spec fn lower(self, operation: Operation) -> WakeupsView {
        WakeupsView { raised: self.raised.remove(operation), ..self }
    }

    /// The first operation behind `after` whose flag is up; behind nothing, the first of all.
    pub open spec fn next_raised(self, after: Option<Operation>) -> Option<Operation> {
        let from = match after {
            Some(operation) => operation.rank() + 1,
            None => 0,
        };
        if from <= Operation::Read.rank() && self.raised.contains(Operation::Read) {
            Some(Operation::Read)
        } else if from <= Operation::Write.rank() && self.raised.contains(Operation::Write) {
            Some(Operation::Write)
        } else if from <= Operation::Flush.rank() && self.raised.contains(Operation::Flush) {
            Some(Operation::Flush)
        } else if from <= Operation::Close.rank() && self.raised.contains(Operation::Close) {
            Some(Operation::Close)
        } else {
            None
        }
    }
}

/// A flag for each operation, and the waker of the task to wake when one is raised.
pub struct Wakeups {
    reader: bool,
    writer_write: bool,
    writer_flush: bool,
    writer_close: bool,
    task: TaskWaker,
}

impl View for Wakeups {
    type V = WakeupsView;

    closed spec fn view(&self) -> WakeupsView {
        WakeupsView {
            raised: Set::new(
                |operation: Operation|
                    match operation {
                        Operation::Read => self.reader,
                        Operation::Write => self.writer_write,
                        Operation::Flush => self.writer_flush,
                        Operation::Close => self.writer_close,
                    },
            ),
            waiting: self.task@,
        }
    }
}

impl Wakeups {
    /// All flags down, and no task has polled yet.
    pub fn new() -> (wakeups: Wakeups)
        ensures
            wakeups@ == (WakeupsView { raised: Set::empty(), waiting: None }),
    {
        let wakeups = Wakeups {
            reader: false,
            writer_write: false,
            writer_flush: false,
            writer_close: false,
            task: TaskWaker::new(),
        };
        assert(wakeups@.raised =~= Set::empty());
        wakeups
    }

    /// Makes `waker` the one to wake from now on, and no earlier one.
    pub fn register(&mut self, waker: &Waker)
        ensures
            final(self)@ == old(self)@.register(*waker),
    {
        self.task.register(waker);
        assert(self@.raised =~= old(self)@.raised);
    }

    /// Has the task go on: a vessel calls for that, and a failure does. The waker that comes back
    /// is to be woken.
    pub fn wake(&mut self) -> (wake: Option<Waker>)
        ensures
            wake == old(self)@.waiting,
            final(self)@ == old(self)@.wake(),
    {
        let wake = self.task.take();
        assert(self@.raised =~= old(self)@.raised);
        wake
    }

    /// Raises the flag of `operation`. The waker that comes back is to be woken, now that the
    /// flag is up.
    pub fn raise(&mut self, operation: Operation) -> (wake: Option<Waker>)
        ensures
            wake == old(self)@.waiting,
            final(self)@ == old(self)@.raise(operation),
    {
        match operation {
            Operation::Read => self.reader = true,
            Operation::Write => self.writer_write = true,
            Operation::Flush => self.writer_flush = true,
            Operation::Close => self.writer_close = true,
        }
        let wake = self.task.take();
        assert(self@.raised =~= old(self)@.raised.insert(operation));
        wake
    }

    /// Lowers the flag of `operation` and says whether it was up.
    pub fn take(&mut self, operation: Operation) -> (raised: bool)
        ensures
            raised == old(self)@.raised.contains(operation),
            final(self)@ == old(self)@.lower(operation),
    {
        let raised: bool;
        match operation {
            Operation::Read => {
                raised = self.reader;
                self.reader = false;
            },
            Operation::Write => {
                raised = self.writer_write;
                self.writer_write = false;
            },
            Operation::Flush => {
                raised = self.writer_flush;
                self.writer_flush = false;
            },
            Operation::Close => {
                raised = self.writer_close;
                self.writer_close = false;
            },
        }
        assert(self@.raised =~= old(self)@.raised.remove(operation));
        raised
    }

    /// Finds the first operation behind `after` whose flag is up, and lowers that flag.
    pub fn take_next(&mut self, after: Option<Operation>) -> (next: Option<Operation>)
        ensures
            next == old(self)@.next_raised(after),
            final(self)@ == (match next {
                Some(operation) => old(self)@.lower(operation),
                None => old(self)@,
            }),
    {
        let from: u8 = match after {
            None => 0,
            Some(Operation::Read) => 1,
            Some(Operation::Write) => 2,
            Some(Operation::Flush) => 3,
            Some(Operation::Close) => 4,
        };
        if from <= 0 && self.take(Operation::Read) {
            return Some(Operation::Read);
        }
        assert(self@.raised =~= old(self)@.raised);
        if from <= 1 && self.take(Operation::Write) {
            return Some(Operation::Write);
        }
        assert(self@.raised =~= old(self)@.raised);
        if from <= 2 && self.take(Operation::Flush) {
            return Some(Operation::Flush);
        }
        assert(self@.raised =~= old(self)@.raised);
        if from <= 3 && self.take(Operation::Close) {
            return Some(Operation::Close);
        }
        assert(self@.raised =~= old(self)@.raised);
        None
    }
}

/// What the reader or the writer calls when an operation that it held up can go on.
pub struct VesselWaker {
    operation: Operation,
}

impl VesselWaker {
    /// The operation that was held up.
    pub closed spec fn operation(&self) -> Operation {
        self.operation
    }

    /// The flag that stands for an operation. The writer has one for all it does.
    pub open spec fn flag_of(operation: Operation) -> Operation {
        match operation {
            Operation::Read => Operation::Read,
            Operation::Write | Operation::Flush | Operation::Close => Operation::Write,
        }
    }

    /// The waker to hand to the reader or the writer for one operation.
    pub fn new(operation: Operation) -> (waker: VesselWaker)
        ensures
            waker.operation() == operation,
    {
        VesselWaker { operation }
    }

    /// Raises the flag that stands for the operation. The waker that comes back is to be woken,
    /// now that the flag is up.
    pub fn wake_by_ref(&self, wakeups: &mut Wakeups) -> (wake: Option<Waker>)
        ensures
            wake == old(wakeups)@.waiting,
            final(wakeups)@ == old(wakeups)@.raise(Self::flag_of(self.operation())),
    {
        match self.operation {
            Operation::Read => wakeups.raise(Operation::Read),
            Operation::Write | Operation::Flush | Operation::Close => wakeups.raise(
                Operation::Write,
            ),
        }
    }
}

} // verus!
