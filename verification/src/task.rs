//! The task that drives a vessel, and the waker by which it is told to go on.
use futures::task::AtomicWaker;
use std::task::Waker;
use vstd::prelude::*;

verus! {

/// `futures::task::AtomicWaker`, the cell that holds the waker of the task to wake.
#[verifier::external_type_specification]
#[verifier::external_body]
pub struct ExAtomicWaker(futures::task::AtomicWaker);

/// `std::task::Waker`, the handle by which an executor is told that a task can go on. Two wakers
/// count as equal when they wake the same task.
#[verifier::external_type_specification]
#[verifier::external_body]
pub struct ExWaker(std::task::Waker);

/// The waker in the cell, if there is one: a sequence of none or one.
pub uninterp spec fn held(cell: AtomicWaker) -> Seq<Waker>;

/// `AtomicWaker::new`: a cell without a waker.
#[verifier::external_body]
fn new_cell() -> (cell: AtomicWaker)
    ensures
        held(cell) == Seq::<Waker>::empty(),
{
    AtomicWaker::new()
}

/// `AtomicWaker::register`: the cell holds the waker, in place of an earlier one. The cell is
/// borrowed for this call alone, so nobody takes the waker out meanwhile. Where the earlier one
/// wakes the same task, the cell keeps that.
#[verifier::external_body]
fn register_in(cell: &mut AtomicWaker, waker: &Waker)
    ensures
        held(*final(cell)) == seq![*waker],
{
    cell.register(waker)
}

/// `AtomicWaker::take`: takes the waker out of the cell. The cell is borrowed for this call alone,
/// so that it is not in use by another.
#[verifier::external_body]
fn take_from(cell: &mut AtomicWaker) -> (taken: Option<Waker>)
    ensures
        match taken {
            Some(waker) => held(*old(cell)) == seq![waker],
            None => held(*old(cell)) == Seq::<Waker>::empty(),
        },
        held(*final(cell)) == Seq::<Waker>::empty(),
{
    cell.take()
}

/// Holds the waker of the task that polled last, until it is taken to be woken.
pub struct TaskWaker {
    cell: AtomicWaker,
}

impl View for TaskWaker {
    type V = Option<Waker>;

    closed spec fn view(&self) -> Option<Waker> {
        if held(self.cell).len() == 0 {
            None
        } else {
            Some(held(self.cell)[0])
        }
    }
}

impl TaskWaker {
    /// No task has polled yet.
    pub fn new() -> (task: TaskWaker)
        ensures
            task@ is None,
    {
        TaskWaker { cell: new_cell() }
    }

    /// Holds `waker` from now on, in place of an earlier one.
    pub fn register(&mut self, waker: &Waker)
        ensures
            final(self)@ == Some(*waker),
    {
        register_in(&mut self.cell, waker);
    }

    /// Takes the waker out, for the caller to wake.
    pub fn take(&mut self) -> (taken: Option<Waker>)
        ensures
            taken == old(self)@,
            final(self)@ is None,
    {
        take_from(&mut self.cell)
    }
}

} // verus!
