//! What holds of the library as a whole.
use crate::context::{address, count_status, ContextView, Progress, NOT_READY};
use crate::failure::{Failure, ReportView};
use crate::life::{Cause, Event, Life, Phase};
use crate::operation::Operation;
use crate::poll::{begun, progress_of, served, PollError, Step};
use crate::startup::{place, plan, Action, Export, Import, Outcome, StartupError, StartupView};
use crate::wakeup::{VesselWaker, WakeupsView};
use std::task::Waker;
use vstd::prelude::*;

verus! {

/// Once a failure was reported, no later one changes the report.
pub proof fn law_later_failures_are_dropped<E>(report: ReportView<E>, failures: Seq<E>)
    requires
        !report.armed,
    ensures
        report.report_all(failures) == report,
    decreases failures.len(),
{
    if failures.len() > 0 {
        law_later_failures_are_dropped(report, failures.drop_last());
    }
}

/// Of all failures that are reported, the first is the one that waits to be received.
pub proof fn law_first_failure_is_kept<E>(report: ReportView<E>, failures: Seq<E>)
    requires
        report.armed,
        failures.len() > 0,
    ensures
        report.report_all(failures) == report.report(failures[0]),
        report.report_all(failures).pending == Some(failures[0]),
    decreases failures.len(),
{
    if failures.len() > 1 {
        law_first_failure_is_kept(report, failures.drop_last());
    } else {
        assert(failures.drop_last() =~= Seq::<E>::empty());
        assert(report.report_all(failures.drop_last()) == report);
    }
}

/// A failure is received once: whatever is reported after that, nothing waits any more.
pub proof fn law_failure_is_received_once<E>(report: ReportView<E>, failures: Seq<E>)
    requires
        !report.armed,
    ensures
        report.receive().report_all(failures).pending is None,
{
    law_later_failures_are_dropped(report.receive(), failures);
}

/// The first failure waits from the moment it is reported. Another one, reported later, leaves it
/// waiting.
pub proof fn law_reported_failure_waits<E>(report: ReportView<E>, first: E, second: E)
    requires
        report.armed,
    ensures
        report.report(first).pending == Some(first),
        !report.report(first).armed,
        report.report(first).report(second).pending == Some(first),
        !report.report(first).report(second).armed,
        ReportView::<E>::fresh().armed,
        ReportView::<E>::fresh().pending is None,
{
}

/// To receive takes away what waits, and does nothing else: the first failure is still to be
/// reported afterwards if it was so before.
pub proof fn law_receiving_takes_only_what_waits<E>(report: ReportView<E>, failure: E)
    ensures
        report.receive().pending is None,
        report.receive().armed == report.armed,
        report.armed ==> report.receive().report(failure).pending == Some(failure),
        !report.armed ==> report.receive().report(failure).pending is None,
{
}

/// A failure names the operation whose error it holds, whatever the error.
pub proof fn law_failure_names_its_operation<R, W, F, C>(failure: Failure<R, W, F, C>)
    ensures
        failure.spec_operation() == Operation::Read <==> failure is Read,
        failure.spec_operation() == Operation::Write <==> failure is Write,
        failure.spec_operation() == Operation::Flush <==> failure is Flush,
        failure.spec_operation() == Operation::Close <==> failure is Close,
{
}

/// The context after several operations failed, one after the other.
pub open spec fn failed_all<M, R, W, F, C>(
    context: ContextView<M, R, W, F, C>,
    failures: Seq<Failure<R, W, F, C>>,
) -> ContextView<M, R, W, F, C>
    decreases failures.len(),
{
    if failures.len() == 0 {
        context
    } else {
        failed_all(context, failures.drop_last()).fail(failures.last())
    }
}

/// A failed operation reports its failure, and leaves the vessel's memory known as it was.
pub proof fn law_failed_operation_is_reported<M, R, W, F, C>(
    context: ContextView<M, R, W, F, C>,
    failure: Failure<R, W, F, C>,
)
    ensures
        context.fail(failure).report == context.report.report(failure),
        context.fail(failure).memory == context.memory,
        context.report.armed ==> context.fail(failure).report.pending == Some(failure),
        !context.report.armed ==> context.fail(failure) == context,
        !context.fail(failure).report.armed,
{
}

/// However many operations fail, and whichever, the first one's failure is what the next poll
/// receives; the vessel's memory stays known as it was.
pub proof fn law_first_failed_operation_is_received<M, R, W, F, C>(
    context: ContextView<M, R, W, F, C>,
    failures: Seq<Failure<R, W, F, C>>,
)
    requires
        context.report.armed,
        failures.len() > 0,
    ensures
        failed_all(context, failures).report.pending == Some(failures[0]),
        !failed_all(context, failures).report.armed,
        failed_all(context, failures).memory == context.memory,
    decreases failures.len(),
{
    let fewer = failures.drop_last();
    if fewer.len() > 0 {
        law_first_failed_operation_is_received(context, fewer);
    } else {
        assert(failed_all(context, fewer) == context);
    }
}

/// Once an operation has failed, no later failure changes what is received, be it that the first
/// one still waits or that it was received already.
pub proof fn law_later_failed_operations_change_nothing<M, R, W, F, C>(
    context: ContextView<M, R, W, F, C>,
    failures: Seq<Failure<R, W, F, C>>,
)
    requires
        !context.report.armed,
    ensures
        failed_all(context, failures) == context,
    decreases failures.len(),
{
    if failures.len() > 0 {
        law_later_failed_operations_change_nothing(context, failures.drop_last());
    }
}

/// The poll after some operations failed ends the vessel with the error of the first of them, told
/// as an error of the operation that it came from, whatever flags are up.
pub proof fn law_vessel_ends_with_the_error_of_the_first<M, J, R, W, F, C>(
    context: ContextView<M, R, W, F, C>,
    failures: Seq<Failure<R, W, F, C>>,
    wakeups: WakeupsView,
)
    requires
        context.report.armed,
        failures.len() > 0,
    ensures
        Step::<J, R, W, F, C>::first(failed_all(context, failures).report, wakeups) matches Step::Done(
            error,
        ) && match failures[0] {
            Failure::Read(cause) => error == PollError::<J, R, W, F, C>::Read(cause),
            Failure::Write(cause) => error == PollError::<J, R, W, F, C>::Write(cause),
            Failure::Flush(cause) => error == PollError::<J, R, W, F, C>::Flush(cause),
            Failure::Close(cause) => error == PollError::<J, R, W, F, C>::Close(cause),
        },
{
    law_first_failed_operation_is_received(context, failures);
}

/// The operations are ranked as a poll serves them: reading first, closing last, no two alike.
pub proof fn law_operations_are_ranked(left: Operation, right: Operation)
    ensures
        Operation::Read.rank() < Operation::Write.rank() < Operation::Flush.rank()
            < Operation::Close.rank(),
        left.rank() == right.rank() <==> left == right,
        0 <= left.rank() <= 3,
{
}

/// A task that polls is the one to wake from then on, in place of any other; no flag changes.
pub proof fn law_polling_task_is_the_one_to_wake(wakeups: WakeupsView, waker: Waker)
    ensures
        wakeups.register(waker).waiting == Some(waker),
        wakeups.register(waker).raised == wakeups.raised,
{
}

/// A wake empties the place of the one to wake and changes no flag.
pub proof fn law_wake_changes_no_flag(wakeups: WakeupsView)
    ensures
        wakeups.wake().waiting is None,
        wakeups.wake().raised == wakeups.raised,
{
}

/// To raise a flag puts up that one and no other, lowers none, and takes the one to wake.
pub proof fn law_raising_changes_one_flag(
    wakeups: WakeupsView,
    operation: Operation,
    other: Operation,
)
    ensures
        wakeups.raise(operation).raised.contains(operation),
        other != operation ==> (wakeups.raise(operation).raised.contains(other)
            <==> wakeups.raised.contains(other)),
        wakeups.raise(operation).waiting is None,
{
}

/// To lower a flag takes down that one and no other, raises none, and leaves the one to wake.
pub proof fn law_lowering_changes_one_flag(
    wakeups: WakeupsView,
    operation: Operation,
    other: Operation,
)
    ensures
        !wakeups.lower(operation).raised.contains(operation),
        other != operation ==> (wakeups.lower(operation).raised.contains(other)
            <==> wakeups.raised.contains(other)),
        wakeups.lower(operation).waiting == wakeups.waiting,
{
}

/// The flag that a poll serves next is the first one behind `after` that is up: none that is up
/// lies between. Where it serves none, none behind `after` is up.
pub proof fn law_next_raised_is_the_first(wakeups: WakeupsView, after: Option<Operation>)
    ensures
        match wakeups.next_raised(after) {
            Some(next) => {
                &&& wakeups.raised.contains(next)
                &&& lies_behind(next, after)
                &&& forall|other: Operation| #[trigger]
                    wakeups.raised.contains(other) && lies_behind(other, after) ==> next.rank()
                        <= other.rank()
            },
            None => forall|other: Operation| #[trigger]
                wakeups.raised.contains(other) ==> !lies_behind(other, after),
        },
{
}

/// A step of a poll tells of a flag exactly where that is up, lies behind `after` and has none that
/// is up between; else it makes the vessel go on. The flag that it tells of goes down; no other flag
/// changes, and neither does the one to wake.
pub proof fn law_step_serves_the_first_flag<J, R, W, F, C>(
    wakeups: WakeupsView,
    after: Option<Operation>,
    operation: Operation,
)
    ensures
        Step::<J, R, W, F, C>::behind(wakeups, after) == Step::<J, R, W, F, C>::Wake(operation) <==> {
            &&& wakeups.raised.contains(operation)
            &&& lies_behind(operation, after)
            &&& forall|other: Operation| #[trigger]
                wakeups.raised.contains(other) && lies_behind(other, after) ==> operation.rank()
                    <= other.rank()
        },
        Step::<J, R, W, F, C>::behind(wakeups, after) is Poll <==> forall|other: Operation|
            #[trigger] wakeups.raised.contains(other) ==> !lies_behind(other, after),
        !(Step::<J, R, W, F, C>::behind(wakeups, after) is Done),
        served(wakeups, after).raised.contains(operation) <==> wakeups.raised.contains(operation)
            && Step::<J, R, W, F, C>::behind(wakeups, after) != Step::<J, R, W, F, C>::Wake(
            operation,
        ),
        served(wakeups, after).waiting == wakeups.waiting,
{
    law_next_raised_is_the_first(wakeups, after);
    law_operations_are_ranked(operation, operation);
    if let Some(next) = wakeups.next_raised(after) {
        law_operations_are_ranked(operation, next);
    }
}

/// A poll that begins makes its task the one to wake. A failure that waits ends the vessel, and all
/// flags stay as they are. Else the first step is that of the first flag of all, which goes down, and
/// no other flag changes.
pub proof fn law_poll_begins<J, R, W, F, C>(
    report: ReportView<Failure<R, W, F, C>>,
    wakeups: WakeupsView,
    waker: Waker,
    operation: Operation,
)
    ensures
        begun(report, wakeups, waker).waiting == Some(waker),
        Step::<J, R, W, F, C>::first(report, wakeups) is Done <==> report.pending is Some,
        report.pending is Some ==> begun(report, wakeups, waker).raised == wakeups.raised,
        report.pending is None ==> (begun(report, wakeups, waker).raised.contains(operation)
            <==> wakeups.raised.contains(operation) && Step::<J, R, W, F, C>::first(report, wakeups)
            != Step::<J, R, W, F, C>::Wake(operation)),
        report.pending is None ==> (Step::<J, R, W, F, C>::first(report, wakeups) == Step::<
            J,
            R,
            W,
            F,
            C,
        >::Wake(operation) <==> wakeups.raised.contains(operation) && forall|other: Operation|
            #[trigger] wakeups.raised.contains(other) ==> operation.rank() <= other.rank()),
        report.pending is None ==> (Step::<J, R, W, F, C>::first(report, wakeups) is Poll
            <==> forall|other: Operation| !#[trigger] wakeups.raised.contains(other)),
{
    law_step_serves_the_first_flag::<J, R, W, F, C>(wakeups, None, operation);
    law_step_serves_the_first_flag::<J, R, W, F, C>(wakeups.register(waker), None, operation);
}

/// A vessel that was made to go on has run to its end exactly when it returned zero. With any other
/// number it waits; what it throws, and nothing else, ends it before its time.
pub proof fn law_zero_alone_ends_the_vessel<J, R, W, F, C>(status: i32, thrown: J)
    ensures
        progress_of::<J, R, W, F, C>(Ok(status)) is Ready <==> status == 0,
        progress_of::<J, R, W, F, C>(Ok(status)) is Pending <==> status != 0,
        progress_of::<J, R, W, F, C>(Err(thrown)) matches Progress::Failed(PollError::Runtime(error))
            && error == thrown,
{
}

/// A poll goes forward: after it told the vessel of one flag, it tells of one further behind, or
/// it makes the vessel go on. So it tells of each flag once at most, and comes to its end.
pub proof fn law_poll_goes_forward<J, R, W, F, C>(wakeups: WakeupsView, after: Operation)
    ensures
        match Step::<J, R, W, F, C>::behind(wakeups, Some(after)) {
            Step::Wake(next) => after.rank() < next.rank() <= Operation::Close.rank(),
            Step::Poll => true,
            Step::Done(_) => false,
        },
{
}

/// No wakeup is lost: a flag stays up until the vessel is told of it.
pub proof fn law_flag_stays_up_until_served<J, R, W, F, C>(
    wakeups: WakeupsView,
    after: Option<Operation>,
    operation: Operation,
)
    requires
        wakeups.raised.contains(operation),
    ensures
        served(wakeups, after).raised.contains(operation) || Step::<J, R, W, F, C>::behind(
            wakeups,
            after,
        ) == Step::<J, R, W, F, C>::Wake(operation),
{
}

/// How many operations lie behind `after`.
pub open spec fn left(after: Option<Operation>) -> int {
    match after {
        Some(operation) => Operation::Close.rank() - operation.rank(),
        None => Operation::Close.rank() + 1,
    }
}

/// What a poll tells the vessel of behind `after`, if no flag is raised meanwhile and no call
/// throws.
pub open spec fn told(wakeups: WakeupsView, after: Option<Operation>) -> Seq<Operation>
    decreases left(after),
{
    match wakeups.next_raised(after) {
        Some(operation) => seq![operation] + told(served(wakeups, after), Some(operation)),
        None => Seq::empty(),
    }
}

/// The wakeups when such a poll makes the vessel go on.
pub open spec fn told_out(wakeups: WakeupsView, after: Option<Operation>) -> WakeupsView
    decreases left(after),
{
    match wakeups.next_raised(after) {
        Some(operation) => told_out(served(wakeups, after), Some(operation)),
        None => wakeups,
    }
}

/// Whether `operation` lies behind `after`.
pub open spec fn lies_behind(operation: Operation, after: Option<Operation>) -> bool {
    match after {
        Some(before) => before.rank() < operation.rank(),
        None => true,
    }
}

/// If no flag is raised meanwhile and no call throws, a poll tells the vessel of exactly the flags
/// behind `after` that are up, each once and in order, and leaves exactly the others up.
pub proof fn law_poll_tells_of_all_flags(wakeups: WakeupsView, after: Option<Operation>)
    ensures
        forall|operation: Operation| #[trigger]
            told(wakeups, after).contains(operation) <==> wakeups.raised.contains(operation)
                && lies_behind(operation, after),
        forall|i: int, j: int|
            0 <= i < j < told(wakeups, after).len() ==> (#[trigger] told(wakeups, after)[i]).rank()
                < (#[trigger] told(wakeups, after)[j]).rank(),
        forall|operation: Operation| #[trigger]
            told_out(wakeups, after).raised.contains(operation) <==> wakeups.raised.contains(
                operation,
            ) && !lies_behind(operation, after),
        told_out(wakeups, after).waiting == wakeups.waiting,
    decreases left(after),
{
    match wakeups.next_raised(after) {
        Some(next) => {
            let rest = served(wakeups, after);
            let tail = told(rest, Some(next));
            law_poll_tells_of_all_flags(rest, Some(next));
            assert(told(wakeups, after) =~= seq![next] + tail);
            assert forall|operation: Operation| #[trigger]
                told(wakeups, after).contains(operation) <==> wakeups.raised.contains(operation)
                    && lies_behind(operation, after) by {
                if told(wakeups, after).contains(operation) {
                    let i = choose|i: int|
                        0 <= i < told(wakeups, after).len() && told(wakeups, after)[i] == operation;
                    if i > 0 {
                        assert(tail[i - 1] == operation);
                        assert(tail.contains(operation));
                    }
                }
                if wakeups.raised.contains(operation) && lies_behind(operation, after) {
                    if operation == next {
                        assert(told(wakeups, after)[0] == operation);
                    } else {
                        assert(tail.contains(operation));
                        let i = choose|i: int| 0 <= i < tail.len() && tail[i] == operation;
                        assert(told(wakeups, after)[i + 1] == operation);
                    }
                }
            }
            assert forall|i: int, j: int|
                0 <= i < j < told(wakeups, after).len() implies (#[trigger] told(
                wakeups,
                after,
            )[i]).rank() < (#[trigger] told(wakeups, after)[j]).rank() by {
                assert(told(wakeups, after)[j] == tail[j - 1]);
                if i == 0 {
                    assert(tail.contains(tail[j - 1]));
                } else {
                    assert(told(wakeups, after)[i] == tail[i - 1]);
                }
            }
        },
        None => {},
    }
}

/// Whether only the flags of reading and writing may be up.
pub open spec fn only_read_and_write(wakeups: WakeupsView) -> bool {
    !wakeups.raised.contains(Operation::Flush) && !wakeups.raised.contains(Operation::Close)
}

/// The writer has one flag for all it does: no wakeup raises the flag of flushing or closing, so
/// no poll serves either.
pub proof fn law_writer_has_one_flag(
    wakeups: WakeupsView,
    operation: Operation,
    after: Option<Operation>,
)
    requires
        only_read_and_write(wakeups),
    ensures
        only_read_and_write(wakeups.raise(VesselWaker::flag_of(operation))),
        only_read_and_write(served(wakeups, after)),
        wakeups.next_raised(after) != Some(Operation::Flush),
        wakeups.next_raised(after) != Some(Operation::Close),
{
}

/// Reading has a flag of its own. All that the writer does has one flag, which is that of writing.
pub proof fn law_reader_and_writer_have_a_flag_each(left: Operation, right: Operation)
    ensures
        VesselWaker::flag_of(left) == VesselWaker::flag_of(right) <==> (left == Operation::Read
            <==> right == Operation::Read),
        VesselWaker::flag_of(left) == Operation::Read <==> left == Operation::Read,
        VesselWaker::flag_of(left) == Operation::Write <==> left != Operation::Read,
{
}

/// The address that a vessel means by a word is the word itself where that is not negative, and lies
/// in the upper half of all addresses where it is.
pub proof fn law_address_is_the_word(word: i32)
    ensures
        word >= 0 ==> address(word) == word,
        word < 0 ==> address(word) == word + 0x1_0000_0000,
        0 <= address(word) < 0x1_0000_0000,
        (address(word) - word) % 0x1_0000_0000 == 0,
{
}

/// Different words stand for different addresses, as far apart as the words are, around the end of
/// all addresses.
pub proof fn law_addresses_are_as_far_apart_as_words(left: i32, right: i32)
    ensures
        (address(left) - address(right)) % 0x1_0000_0000 == (left - right) % 0x1_0000_0000,
        address(left) == address(right) <==> left == right,
{
}

/// Every address can be named by a word.
pub proof fn law_every_address_has_a_word(at: int) -> (word: i32)
    requires
        0 <= at < 0x1_0000_0000,
    ensures
        address(word) == at,
{
    if at < 0x8000_0000 {
        at as i32
    } else {
        (at - 0x1_0000_0000) as i32
    }
}

/// A vessel's memory once `bytes` are stored in it from `offset` on.
pub open spec fn stored(memory: Seq<u8>, offset: int, bytes: Seq<u8>) -> Seq<u8> {
    memory.take(offset) + bytes + memory.skip(offset + bytes.len())
}

/// The bytes of a read are found in the vessel's memory at the pointer that the vessel gave, one
/// after the other, and no other byte of the memory changes. `at` is the pointer, taken without a
/// sign.
pub proof fn law_read_bytes_land_at_the_pointer(memory: Seq<u8>, ptr: i32, at: int, bytes: Seq<u8>)
    requires
        0 <= at < 0x1_0000_0000,
        (at - ptr) % 0x1_0000_0000 == 0,
        at + bytes.len() <= memory.len(),
    ensures
        stored(memory, address(ptr), bytes).len() == memory.len(),
        forall|i: int|
            0 <= i < bytes.len() ==> #[trigger] stored(memory, address(ptr), bytes)[at + i] == bytes[i],
        forall|i: int|
            0 <= i < at || at + bytes.len() <= i < memory.len() ==> #[trigger] stored(
                memory,
                address(ptr),
                bytes,
            )[i] == memory[i],
{
    assert(address(ptr) == at);
}

/// What a vessel has read it can write again: the span of a write, of as many bytes and at the same
/// pointer, holds exactly the bytes that the read stored.
pub proof fn law_write_takes_what_was_read(
    memory: Seq<u8>,
    ptr: i32,
    at: int,
    bytes: Seq<u8>,
    len: i32,
)
    requires
        0 <= at < 0x1_0000_0000,
        (at - ptr) % 0x1_0000_0000 == 0,
        at + bytes.len() <= memory.len(),
        bytes.len() == len,
    ensures
        stored(memory, address(ptr), bytes).subrange(
            address(ptr),
            address(ptr) + address(len),
        ) == bytes,
{
    law_read_bytes_land_at_the_pointer(memory, ptr, at, bytes);
    assert(address(ptr) == at);
    assert(stored(memory, address(ptr), bytes).subrange(address(ptr), address(ptr) + address(len))
        =~= bytes) by {
        assert forall|i: int| 0 <= i < bytes.len() implies stored(memory, address(ptr), bytes)[at + i]
            == #[trigger] bytes[i] by {}
    }
}

/// The bytes that a vessel asks to have written are those at its pointer, in order and as many as it
/// named. `at` and `count` are the pointer and the length, taken without a sign.
pub proof fn law_write_takes_the_bytes_at_the_pointer(
    memory: Seq<u8>,
    ptr: i32,
    len: i32,
    at: int,
    count: int,
)
    requires
        0 <= at < 0x1_0000_0000,
        (at - ptr) % 0x1_0000_0000 == 0,
        0 <= count < 0x1_0000_0000,
        (count - len) % 0x1_0000_0000 == 0,
        at + count <= memory.len(),
    ensures
        memory.subrange(address(ptr), address(ptr) + address(len)).len() == count,
        forall|i: int|
            0 <= i < count ==> #[trigger] memory.subrange(
                address(ptr),
                address(ptr) + address(len),
            )[i] == memory[at + i],
{
    assert(address(ptr) == at);
    assert(address(len) == count);
}

/// The status of any count, however great, is the one signed 32-bit number that differs from one more
/// than the count by whole turns of 32 bits.
pub proof fn law_status_is_one_more_in_32_bits(count: int)
    ensures
        i32::MIN <= count_status(count) <= i32::MAX,
        (count_status(count) - (count + 1)) % 0x1_0000_0000 == 0,
{
}

/// A count of bytes is never mistaken for [`NOT_READY`], up to the most that a vessel can ask
/// for.
pub proof fn law_count_is_not_mistaken_for_not_ready(count: int)
    requires
        0 <= count <= i32::MAX,
    ensures
        count_status(count) != NOT_READY,
{
}

/// A vessel can tell how many bytes were moved: the status is one more than their count. Only the
/// greatest count of all does not fit.
pub proof fn law_count_can_be_told(count: int)
    requires
        0 <= count < i32::MAX,
    ensures
        count_status(count) == count + 1,
        count_status(count) > NOT_READY,
{
}

/// Different counts give different statuses, up to the most that a vessel can ask for.
pub proof fn law_counts_differ(left: int, right: int)
    requires
        0 <= left <= i32::MAX,
        0 <= right <= i32::MAX,
        left != right,
    ensures
        count_status(left) != count_status(right),
{
}

/// Whether the outcomes are those of the first actions of the plan.
pub open spec fn follow_the_plan<N, D, S, I, G, J, A, B>(
    outcomes: Seq<Outcome<N, D, S, I, G, J, A, B>>,
) -> bool {
    &&& outcomes.len() < plan().len()
    &&& forall|i: int|
        0 <= i < outcomes.len() ==> (#[trigger] outcomes[i]).answers(plan()[i])
}

/// As long as no action fails, the start goes on with the next action of the plan.
pub proof fn law_start_goes_on<N, D, S, I, G, J, A, B>(
    outcomes: Seq<Outcome<N, D, S, I, G, J, A, B>>,
)
    requires
        follow_the_plan(outcomes),
        forall|i: int| 0 <= i < outcomes.len() ==> (#[trigger] outcomes[i]).error() is None,
    ensures
        StartupView::<N, D, S, I, G>::fresh().after_all(outcomes) matches Ok(startup)
            && startup.wf() && startup.position == outcomes.len(),
    decreases outcomes.len(),
{
    if outcomes.len() > 0 {
        let fewer = outcomes.drop_last();
        assert forall|i: int| 0 <= i < fewer.len() implies (#[trigger] fewer[i]).error() is None
            && fewer[i].answers(plan()[i]) by {
            assert(fewer[i] == outcomes[i]);
        }
        law_start_goes_on(fewer);
        let before = StartupView::<N, D, S, I, G>::fresh().after_all(fewer)->Ok_0;
        let last = outcomes[outcomes.len() - 1];
        assert(last.answers(before.action()) && last.error() is None);
        assert(before.with(last).wf());
    }
}

/// The first action that fails ends the start with its error, whatever the later ones would do.
pub proof fn law_first_failed_action_ends_the_start<N, D, S, I, G, J, A, B>(
    outcomes: Seq<Outcome<N, D, S, I, G, J, A, B>>,
    failed: int,
)
    requires
        follow_the_plan(outcomes),
        0 <= failed < outcomes.len(),
        forall|i: int| 0 <= i < failed ==> (#[trigger] outcomes[i]).error() is None,
        outcomes[failed].error() is Some,
    ensures
        StartupView::<N, D, S, I, G>::fresh().after_all(outcomes) == Err::<
            StartupView<N, D, S, I, G>,
            StartupError<J, A, B>,
        >(outcomes[failed].error()->0),
    decreases outcomes.len(),
{
    let fewer = outcomes.drop_last();
    assert forall|i: int| 0 <= i < fewer.len() implies #[trigger] fewer[i] == outcomes[i] by {}
    if failed == outcomes.len() - 1 {
        law_start_goes_on(fewer);
    } else {
        law_first_failed_action_ends_the_start(fewer, failed);
    }
}

/// What can come of an action comes of no other kind of action, and something comes of each but
/// [`Action::Run`].
pub proof fn law_outcomes_belong_to_their_actions<N, D, S, I, G, J, A, B>(
    outcome: Outcome<N, D, S, I, G, J, A, B>,
    action: Action,
)
    ensures
        outcome is Acquired ==> (outcome.answers(action) <==> action == Action::Acquire),
        outcome is Fetched ==> (outcome.answers(action) <==> action == Action::Fetch),
        outcome is Instantiated ==> (outcome.answers(action) <==> action == Action::Instantiate),
        outcome is GotInstance ==> (outcome.answers(action) <==> action == Action::GetInstance),
        outcome is GotFunction ==> (outcome.answers(action) <==> action is Get && action
            != Action::Get(Export::Memory)),
        outcome is Done ==> (outcome.answers(action) <==> action is Define || action
            == Action::Get(Export::Memory) || action == Action::Enter),
{
}

/// An action fails exactly when it gave an error or nothing. What the page threw, and the error of
/// acquiring or of fetching, is handed on as it is; where no resource manager or no binary is there,
/// the error says which.
pub proof fn law_errors_of_the_start_are_handed_on<N, D, S, I, G, J, A, B>(
    outcome: Outcome<N, D, S, I, G, J, A, B>,
)
    ensures
        match outcome {
            Outcome::Acquired(Ok(given)) => given is None <==> outcome.error()
                == Some(StartupError::<J, A, B>::NoResourceManager),
            Outcome::Fetched(Ok(given)) => given is None <==> outcome.error()
                == Some(StartupError::<J, A, B>::NoBinary),
            Outcome::Acquired(Err(error)) => outcome.error() == Some(
                StartupError::<J, A, B>::Acquire(error),
            ),
            Outcome::Fetched(Err(error)) => outcome.error() == Some(
                StartupError::<J, A, B>::Fetch(error),
            ),
            Outcome::Instantiated(Err(thrown)) => outcome.error() == Some(
                StartupError::<J, A, B>::Runtime(thrown),
            ),
            Outcome::GotInstance(Err(thrown)) => outcome.error() == Some(
                StartupError::<J, A, B>::Runtime(thrown),
            ),
            Outcome::GotFunction(Err(thrown)) => outcome.error() == Some(
                StartupError::<J, A, B>::Runtime(thrown),
            ),
            Outcome::Done(Err(thrown)) => outcome.error() == Some(
                StartupError::<J, A, B>::Runtime(thrown),
            ),
            _ => true,
        },
        outcome.error() is None <==> match outcome {
            Outcome::Acquired(result) => result matches Ok(given) && given is Some,
            Outcome::Fetched(result) => result matches Ok(given) && given is Some,
            Outcome::Instantiated(result) => result is Ok,
            Outcome::GotInstance(result) => result is Ok,
            Outcome::GotFunction(result) => result is Ok,
            Outcome::Done(result) => result is Ok,
        },
{
}

/// The start keeps what its actions gave, each thing in its place: the resource manager, the binary,
/// what came of instantiating it, the instance, and each function as the export it was got as.
pub proof fn law_start_keeps_what_its_actions_gave<N, D, S, I, G, J, A, B>(
    outcomes: Seq<Outcome<N, D, S, I, G, J, A, B>>,
)
    requires
        follow_the_plan(outcomes),
        forall|i: int| 0 <= i < outcomes.len() ==> (#[trigger] outcomes[i]).error() is None,
    ensures
        StartupView::<N, D, S, I, G>::fresh().after_all(outcomes) is Ok,
        forall|i: int|
            0 <= i < outcomes.len() ==> kept(
                StartupView::<N, D, S, I, G>::fresh().after_all(outcomes)->Ok_0,
                plan()[i],
                #[trigger] outcomes[i],
            ),
    decreases outcomes.len(),
{
    law_start_goes_on(outcomes);
    if outcomes.len() > 0 {
        let fewer = outcomes.drop_last();
        let last = outcomes.len() - 1;
        assert forall|i: int| 0 <= i < fewer.len() implies (#[trigger] fewer[i]).error() is None
            && fewer[i].answers(plan()[i]) by {
            assert(fewer[i] == outcomes[i]);
        }
        law_start_goes_on(fewer);
        law_start_keeps_what_its_actions_gave(fewer);
        let before = StartupView::<N, D, S, I, G>::fresh().after_all(fewer)->Ok_0;
        let startup = StartupView::<N, D, S, I, G>::fresh().after_all(outcomes)->Ok_0;
        assert(before.action() == plan()[last]);
        assert(outcomes[last].answers(plan()[last]));
        assert(startup == before.with(outcomes[last]));
        assert forall|i: int| 0 <= i < outcomes.len() implies kept(
            startup,
            plan()[i],
            #[trigger] outcomes[i],
        ) by {
            if i < last {
                assert(fewer[i] == outcomes[i]);
                assert(kept(before, plan()[i], fewer[i]));
                assert(outcomes[i].answers(plan()[i]));
                law_nothing_is_done_twice(i, last);
                law_outcomes_belong_to_their_actions(outcomes[i], plan()[i]);
                law_outcomes_belong_to_their_actions(outcomes[last], plan()[last]);
            }
        }
    }
}

/// Whether the start has what `outcome` gave, where `action` put it.
pub open spec fn kept<N, D, S, I, G, J, A, B>(
    startup: StartupView<N, D, S, I, G>,
    action: Action,
    outcome: Outcome<N, D, S, I, G, J, A, B>,
) -> bool {
    match outcome {
        Outcome::Acquired(result) => result == Ok::<Option<N>, A>(startup.manager),
        Outcome::Fetched(result) => result == Ok::<Option<D>, B>(startup.binary),
        Outcome::Instantiated(result) => startup.source matches Some(source) && result == Ok::<S, J>(
            source,
        ),
        Outcome::GotInstance(result) => startup.instance matches Some(instance) && result == Ok::<
            I,
            J,
        >(instance),
        Outcome::GotFunction(result) => action matches Action::Get(export)
            && startup.functions.contains_key(export) && result == Ok::<G, J>(
            startup.functions[export],
        ),
        Outcome::Done(_) => true,
    }
}

/// Each action finds what it needs when its turn comes.
pub proof fn law_each_action_finds_what_it_needs<N, D, S, I, G>(
    startup: StartupView<N, D, S, I, G>,
)
    requires
        startup.wf(),
    ensures
        startup.action() == Action::Fetch ==> startup.manager is Some,
        startup.action() == Action::Instantiate ==> startup.binary is Some,
        startup.action() == Action::GetInstance ==> startup.source is Some,
        startup.action() is Get ==> startup.instance is Some,
        startup.action() == Action::Enter ==> startup.functions.contains_key(Export::Entry),
{
}

/// When the vessel runs, its instance and all functions that a poll calls are there.
pub proof fn law_running_vessel_is_complete<N, D, S, I, G>(
    startup: StartupView<N, D, S, I, G>,
    operation: Operation,
)
    requires
        startup.wf(),
        startup.action() == Action::Run,
    ensures
        startup.instance is Some,
        startup.functions.contains_key(Export::Poll),
        startup.functions.contains_key(Export::Wake(operation)),
{
}

/// All imports are in place before the vessel is instantiated.
pub proof fn law_imports_come_before_the_instance(import: Import)
    ensures
        exists|i: int, j: int|
            0 <= i < j < plan().len() && #[trigger] plan()[i] == Action::Define(import)
                && #[trigger] plan()[j] == Action::Instantiate,
{
    assert(plan()[9] == Action::Instantiate);
    let i: int = match import {
        Import::Module => 2,
        Import::Env => 3,
        Import::Wake => 4,
        Import::PollRead => 5,
        Import::PollWrite => 6,
        Import::PollFlush => 7,
        Import::PollClose => 8,
    };
    assert(plan()[i] == Action::Define(import));
}

/// The vessel's memory and all functions that the host needs of it are known before the vessel is
/// entered.
pub proof fn law_exports_come_before_the_entry(export: Export)
    ensures
        exists|i: int, j: int|
            0 <= i < j < plan().len() && #[trigger] plan()[i] == Action::Get(export)
                && #[trigger] plan()[j] == Action::Enter,
{
    assert(plan()[18] == Action::Enter);
    assert(plan()[place(export)] == Action::Get(export));
}

/// Nothing is done twice.
pub proof fn law_nothing_is_done_twice(i: int, j: int)
    requires
        0 <= i < j < plan().len(),
    ensures
        plan()[i] != plan()[j],
{
}

/// No two imports share a name.
pub proof fn law_import_names_differ(left: Import, right: Import)
    requires
        left != right,
    ensures
        left.spec_name() != right.spec_name(),
{
    reveal_strlit("module");
    reveal_strlit("env");
    reveal_strlit("_vessel_wake");
    reveal_strlit("_vessel_poll_read");
    reveal_strlit("_vessel_poll_write");
    reveal_strlit("_vessel_poll_flush");
    reveal_strlit("_vessel_poll_close");
    assert("_vessel_poll_write"@[13] == 'w');
    assert("_vessel_poll_flush"@[13] == 'f');
    assert("_vessel_poll_close"@[13] == 'c');
    if left.spec_name() == right.spec_name() {
        assert(left.spec_name().len() == right.spec_name().len());
        assert(left.spec_name()[13] == right.spec_name()[13]);
        assert(false);
    }
}

/// No two exports share a name.
pub proof fn law_export_names_differ(left: Export, right: Export)
    requires
        left != right,
    ensures
        left.spec_name() != right.spec_name(),
{
    reveal_strlit("memory");
    reveal_strlit("_vessel_entry");
    reveal_strlit("_vessel_poll");
    reveal_strlit("_vessel_wake_reader");
    reveal_strlit("_vessel_wake_writer_write");
    reveal_strlit("_vessel_wake_writer_flush");
    reveal_strlit("_vessel_wake_writer_close");
    assert("_vessel_wake_writer_write"@[20] == 'w');
    assert("_vessel_wake_writer_flush"@[20] == 'f');
    assert("_vessel_wake_writer_close"@[20] == 'c');
    if left.spec_name() == right.spec_name() {
        assert(left.spec_name().len() == right.spec_name().len());
        assert(left.spec_name()[20] == right.spec_name()[20]);
        assert(false);
    }
}

/// What is known of a vessel's life while it has not ended, and of one that ended well.
spec fn known<N, D, S, I, G, J, A, B, R, W, F, C>(events: Seq<Event<N, D, S, I, G, J, A, B, R, W, F, C>>) -> bool {
    let life = Life::<N, D, S, I, G, J, A, B, R, W, F, C>::begin().after_all(events);
    let statuses = Life::<N, D, S, I, G, J, A, B, R, W, F, C>::statuses(events);
    let calm = forall|i: int|
        0 <= i < statuses.len() ==> (#[trigger] statuses[i] matches Ok(status) && status != 0);
    &&& forall|i: int|
        0 <= i < events.len() && (#[trigger] events[i]).polls() ==> Life::<N, D, S, I, G, J, A, B, R, W, F, C>::entries(
            events.take(i),
        ) == 1
    &&& match life.phase {
        Phase::Starting(startup) => {
            &&& startup.wf()
            &&& Life::<N, D, S, I, G, J, A, B, R, W, F, C>::entries(events) == if startup.position > 18 {
                1nat
            } else {
                0nat
            }
        },
        Phase::Ended(Err(_)) => true,
        _ => {
            &&& Life::<N, D, S, I, G, J, A, B, R, W, F, C>::entries(events) == 1
            &&& Life::<N, D, S, I, G, J, A, B, R, W, F, C>::first_failure(Life::<N, D, S, I, G, J, A, B, R, W, F, C>::before_last_poll(events)) is None
        },
    }
    &&& match life.phase {
        Phase::Ended(Err(_)) => true,
        Phase::Ended(Ok(_)) => {
            &&& statuses.len() > 0
            &&& statuses.last() == Ok::<i32, J>(0)
            &&& forall|i: int|
                0 <= i < statuses.len() - 1 ==> (#[trigger] statuses[i] matches Ok(status)
                    && status != 0)
        },
        _ => {
            &&& calm
            &&& life.report.pending == Life::<N, D, S, I, G, J, A, B, R, W, F, C>::first_failure(events)
            &&& life.report.armed <==> Life::<N, D, S, I, G, J, A, B, R, W, F, C>::first_failure(events) is None
        },
    }
    &&& !(life.phase matches Phase::Ended(Err(_))) ==> forall|i: int|
        0 <= i < events.len() ==> (#[trigger] events[i] matches Event::Told(outcome) ==> outcome is Ok)
    &&& !(life.phase matches Phase::Ended(Err(_))) ==> forall|i: int|
        0 <= i < events.len() ==> (#[trigger] events[i] matches Event::Did(outcome)
            ==> outcome.error() is None)
}

#[verifier::spinoff_prover]
#[verifier::rlimit(50)]
proof fn lemma_known<N, D, S, I, G, J, A, B, R, W, F, C>(events: Seq<Event<N, D, S, I, G, J, A, B, R, W, F, C>>)
    requires
        Life::<N, D, S, I, G, J, A, B, R, W, F, C>::begin().admits_all(events),
    ensures
        known(events),
    decreases events.len(),
{
    if events.len() > 0 {
        let fewer = events.drop_last();
        let last = events.last();
        lemma_known(fewer);
        let before = Life::<N, D, S, I, G, J, A, B, R, W, F, C>::begin().after_all(fewer);
        let life = Life::<N, D, S, I, G, J, A, B, R, W, F, C>::begin().after_all(events);
        assert(life == before.after(last));
        assert(before.admits(last));
        assert forall|i: int| 0 <= i < events.len() && (#[trigger] events[i]).polls() implies Life::<
            N, D, S, I, G, J, A, B, R, W, F, C
        >::entries(events.take(i)) == 1 by {
            if i < fewer.len() {
                assert(fewer[i] == events[i]);
                assert(fewer.take(i) =~= events.take(i));
            } else {
                assert(events.take(i) =~= fewer);
            }
        }
        assert forall|i: int| 0 <= i < fewer.len() implies #[trigger] events[i] == fewer[i] by {}
        match last {
            Event::Did(_) => assert(known(events)),
            Event::Begin(_) => assert(known(events)),
            Event::Told(_) => assert(known(events)),
            Event::WentOn(_) => assert(known(events)),
            Event::Failed(_) => assert(known(events)),
            Event::Raised(_) => assert(known(events)),
            Event::Woken => assert(known(events)),
        }
    }
}

/// A vessel that ended well was entered once, before any poll. It was made to go on at least once:
/// the last time it returned zero, and each time before that another number. No action of its start
/// failed, no call into it threw, and no operation had failed before its last poll began.
pub proof fn law_run_that_ends_well<N, D, S, I, G, J, A, B, R, W, F, C>(events: Seq<Event<N, D, S, I, G, J, A, B, R, W, F, C>>)
    requires
        Life::<N, D, S, I, G, J, A, B, R, W, F, C>::begin().admits_all(events),
        Life::<N, D, S, I, G, J, A, B, R, W, F, C>::begin().after_all(events).phase == Phase::<N, D, S, I, G, J, A, B, R, W, F, C>::Ended(Ok(())),
    ensures
        Life::<N, D, S, I, G, J, A, B, R, W, F, C>::entries(events) == 1,
        forall|i: int|
            0 <= i < events.len() && (#[trigger] events[i]).polls() ==> Life::<N, D, S, I, G, J, A, B, R, W, F, C>::entries(
                events.take(i),
            ) == 1,
        Life::<N, D, S, I, G, J, A, B, R, W, F, C>::statuses(events).len() > 0,
        Life::<N, D, S, I, G, J, A, B, R, W, F, C>::statuses(events).last() == Ok::<i32, J>(0),
        forall|i: int|
            0 <= i < Life::<N, D, S, I, G, J, A, B, R, W, F, C>::statuses(events).len() - 1 ==> (#[trigger] Life::<
                N, D, S, I, G, J, A, B, R, W, F, C
            >::statuses(events)[i] matches Ok(status) && status != 0),
        forall|i: int|
            0 <= i < events.len() ==> (#[trigger] events[i] matches Event::Told(outcome)
                ==> outcome is Ok),
        forall|i: int|
            0 <= i < events.len() ==> (#[trigger] events[i] matches Event::Did(outcome)
                ==> outcome.error() is None),
        Life::<N, D, S, I, G, J, A, B, R, W, F, C>::first_failure(Life::<N, D, S, I, G, J, A, B, R, W, F, C>::before_last_poll(events)) is None,
{
    lemma_known(events);
}

/// The first failure ends the vessel at the next poll that begins, with its own error and before
/// any function of the vessel is called; later failures change nothing. Without a failure, the
/// flags are served.
pub proof fn law_first_failure_ends_the_vessel<N, D, S, I, G, J, A, B, R, W, F, C>(events: Seq<Event<N, D, S, I, G, J, A, B, R, W, F, C>>, waker: Waker)
    requires
        Life::<N, D, S, I, G, J, A, B, R, W, F, C>::begin().admits_all(events),
        Life::<N, D, S, I, G, J, A, B, R, W, F, C>::begin().after_all(events).admits(Event::Begin(waker)),
    ensures
        Life::<N, D, S, I, G, J, A, B, R, W, F, C>::begin().after_all(events).after(Event::Begin(waker)).phase == (
        match Life::<N, D, S, I, G, J, A, B, R, W, F, C>::first_failure(events) {
            Some(failure) => Phase::<N, D, S, I, G, J, A, B, R, W, F, C>::Ended(Err(Cause::Poll(PollError::of(failure)))),
            None => Phase::<N, D, S, I, G, J, A, B, R, W, F, C>::At(
                Step::behind(Life::<N, D, S, I, G, J, A, B, R, W, F, C>::begin().after_all(events).wakeups, None),
            ),
        }),
{
    lemma_known(events);
}

/// A wake, whatever it comes from, reaches the task that began the last poll, and no earlier one,
/// unless that task was woken already; it is woken once.
pub proof fn law_wake_reaches_the_last_poll<N, D, S, I, G, J, A, B, R, W, F, C>(
    life: Life<N, D, S, I, G, J, A, B, R, W, F, C>,
    events: Seq<Event<N, D, S, I, G, J, A, B, R, W, F, C>>,
    polled: int,
    waker: Waker,
    event: Event<N, D, S, I, G, J, A, B, R, W, F, C>,
)
    requires
        0 <= polled < events.len(),
        events[polled] == Event::<N, D, S, I, G, J, A, B, R, W, F, C>::Begin(waker),
        forall|j: int|
            polled < j < events.len() ==> !((#[trigger] events[j]) is Begin) && !events[j].wakes(),
        event.wakes(),
    ensures
        life.after_all(events).woken_by(event) == Some(waker),
        life.after_all(events).after(event).wakeups.waiting is None,
    decreases events.len(),
{
    let fewer = events.drop_last();
    if polled < fewer.len() {
        assert(events[fewer.len() as int] == events.last());
        assert forall|j: int| polled < j < fewer.len() implies !((#[trigger] fewer[j]) is Begin)
            && !fewer[j].wakes() by {
            assert(fewer[j] == events[j]);
        }
        law_wake_reaches_the_last_poll(life, fewer, polled, waker, event);
    }
}

/// Once the task of the last poll was woken, a wake reaches nobody until a task polls again.
pub proof fn law_nobody_is_woken_twice<N, D, S, I, G, J, A, B, R, W, F, C>(
    life: Life<N, D, S, I, G, J, A, B, R, W, F, C>,
    events: Seq<Event<N, D, S, I, G, J, A, B, R, W, F, C>>,
    woken: int,
    event: Event<N, D, S, I, G, J, A, B, R, W, F, C>,
)
    requires
        0 <= woken < events.len(),
        events[woken].wakes(),
        forall|j: int| woken < j < events.len() ==> !((#[trigger] events[j]) is Begin),
    ensures
        life.after_all(events).woken_by(event) is None,
        life.after_all(events).wakeups.waiting is None,
    decreases events.len(),
{
    let fewer = events.drop_last();
    if woken < fewer.len() {
        assert(events[fewer.len() as int] == events.last());
        assert forall|j: int| woken < j < fewer.len() implies !((#[trigger] fewer[j]) is Begin) by {
            assert(fewer[j] == events[j]);
        }
        law_nobody_is_woken_twice(life, fewer, woken, event);
    }
}

/// Before any task polls, a wake reaches nobody.
pub proof fn law_nobody_is_woken_before_a_poll<N, D, S, I, G, J, A, B, R, W, F, C>(
    events: Seq<Event<N, D, S, I, G, J, A, B, R, W, F, C>>,
    event: Event<N, D, S, I, G, J, A, B, R, W, F, C>,
)
    requires
        forall|j: int| 0 <= j < events.len() ==> !((#[trigger] events[j]) is Begin),
    ensures
        Life::<N, D, S, I, G, J, A, B, R, W, F, C>::begin().after_all(events).woken_by(event) is None,
        Life::<N, D, S, I, G, J, A, B, R, W, F, C>::begin().after_all(events).wakeups.waiting is None,
    decreases events.len(),
{
    if events.len() > 0 {
        let fewer = events.drop_last();
        assert(events[fewer.len() as int] == events.last());
        assert forall|j: int| 0 <= j < fewer.len() implies !((#[trigger] fewer[j]) is Begin) by {
            assert(fewer[j] == events[j]);
        }
        law_nobody_is_woken_before_a_poll(fewer, event);
    }
}

proof fn lemma_before_last_poll<N, D, S, I, G, J, A, B, R, W, F, C>(
    before: Seq<Event<N, D, S, I, G, J, A, B, R, W, F, C>>,
    waker: Waker,
    inner: Seq<Event<N, D, S, I, G, J, A, B, R, W, F, C>>,
)
    requires
        forall|j: int| 0 <= j < inner.len() ==> !((#[trigger] inner[j]) is Begin),
    ensures
        Life::<N, D, S, I, G, J, A, B, R, W, F, C>::before_last_poll(before.push(Event::Begin(waker)) + inner) == before,
    decreases inner.len(),
{
    let events = before.push(Event::<N, D, S, I, G, J, A, B, R, W, F, C>::Begin(waker)) + inner;
    if inner.len() == 0 {
        assert(events.drop_last() =~= before);
        assert(events.last() is Begin);
    } else {
        let fewer = inner.drop_last();
        assert forall|j: int| 0 <= j < fewer.len() implies !((#[trigger] fewer[j]) is Begin) by {
            assert(fewer[j] == inner[j]);
        }
        lemma_before_last_poll(before, waker, fewer);
        assert(events.drop_last() =~= before.push(Event::Begin(waker)) + fewer);
        assert(events.last() == inner[inner.len() - 1]);
    }
}

proof fn lemma_failure_inside<N, D, S, I, G, J, A, B, R, W, F, C>(
    begun: Seq<Event<N, D, S, I, G, J, A, B, R, W, F, C>>,
    inner: Seq<Event<N, D, S, I, G, J, A, B, R, W, F, C>>,
) -> (failed: int)
    requires
        Life::<N, D, S, I, G, J, A, B, R, W, F, C>::first_failure(begun) is None,
        Life::<N, D, S, I, G, J, A, B, R, W, F, C>::first_failure(begun + inner) is Some,
    ensures
        0 <= failed < inner.len(),
        inner[failed] is Failed,
    decreases inner.len(),
{
    let events = begun + inner;
    if inner.len() == 0 {
        assert(events =~= begun);
        0
    } else {
        let fewer = inner.drop_last();
        assert(events.drop_last() =~= begun + fewer);
        assert(events.last() == inner[inner.len() - 1]);
        if Life::<N, D, S, I, G, J, A, B, R, W, F, C>::first_failure(begun + fewer) is Some {
            let failed = lemma_failure_inside(begun, fewer);
            assert(fewer[failed] == inner[failed]);
            failed
        } else {
            inner.len() - 1
        }
    }
}

proof fn lemma_first_wake<N, D, S, I, G, J, A, B, R, W, F, C>(inner: Seq<Event<N, D, S, I, G, J, A, B, R, W, F, C>>, some: int) -> (first: int)
    requires
        0 <= some < inner.len(),
        inner[some].wakes(),
    ensures
        0 <= first < inner.len(),
        inner[first].wakes(),
        forall|j: int| 0 <= j < first ==> !(#[trigger] inner[j]).wakes(),
    decreases some,
{
    if exists|j: int| 0 <= j < some && (#[trigger] inner[j]).wakes() {
        let earlier = choose|j: int| 0 <= j < some && (#[trigger] inner[j]).wakes();
        lemma_first_wake(inner, earlier)
    } else {
        some
    }
}

/// An operation that fails for the first time while a poll goes on does not change what that poll
/// comes to, which is told by the vessel's status alone. But its task is woken, and the poll after
/// it ends the vessel with the failure before any function of the vessel is called.
pub proof fn law_failure_in_a_poll_ends_the_next<N, D, S, I, G, J, A, B, R, W, F, C>(
    before: Seq<Event<N, D, S, I, G, J, A, B, R, W, F, C>>,
    waker: Waker,
    inner: Seq<Event<N, D, S, I, G, J, A, B, R, W, F, C>>,
    failure: Failure<R, W, F, C>,
    status: i32,
    next: Waker,
)
    requires
        Life::<N, D, S, I, G, J, A, B, R, W, F, C>::begin().admits_all(before.push(Event::Begin(waker)) + inner),
        forall|j: int| 0 <= j < inner.len() ==> !((#[trigger] inner[j]) is Begin),
        Life::<N, D, S, I, G, J, A, B, R, W, F, C>::begin().after_all(before.push(Event::Begin(waker)) + inner).phase == Phase::<
            N, D, S, I, G, J, A, B, R, W, F, C
        >::At(Step::Poll),
        Life::<N, D, S, I, G, J, A, B, R, W, F, C>::first_failure(before.push(Event::Begin(waker)) + inner) == Some(failure),
    ensures
        ({
            let polled = Life::<N, D, S, I, G, J, A, B, R, W, F, C>::begin().after_all(
                before.push(Event::Begin(waker)) + inner,
            ).after(Event::WentOn(Ok(status)));
            &&& polled.phase == if status == 0 {
                Phase::<N, D, S, I, G, J, A, B, R, W, F, C>::Ended(Ok(()))
            } else {
                Phase::<N, D, S, I, G, J, A, B, R, W, F, C>::Between
            }
            &&& polled.after(Event::Begin(next)).phase == Phase::<N, D, S, I, G, J, A, B, R, W, F, C>::Ended(
                Err(Cause::Poll(PollError::of(failure))),
            )
        }),
        exists|k: int|
            0 <= k < inner.len() && Life::<N, D, S, I, G, J, A, B, R, W, F, C>::begin().after_all(
                before.push(Event::Begin(waker)) + inner.take(k),
            ).woken_by(#[trigger] inner[k]) == Some(waker),
{
    let begun = before.push(Event::<N, D, S, I, G, J, A, B, R, W, F, C>::Begin(waker));
    lemma_known(begun + inner);
    lemma_before_last_poll(before, waker, inner);
    assert(begun.drop_last() =~= before);
    assert(begun.last() is Begin);
    assert(Life::<N, D, S, I, G, J, A, B, R, W, F, C>::first_failure(begun) is None);
    let failed = lemma_failure_inside(begun, inner);
    let first = lemma_first_wake(inner, failed);
    let until = begun + inner.take(first);
    assert(until[before.len() as int] == Event::<N, D, S, I, G, J, A, B, R, W, F, C>::Begin(waker));
    assert forall|j: int| before.len() < j < until.len() implies !((#[trigger] until[j]) is Begin)
        && !until[j].wakes() by {
        assert(until[j] == inner[j - before.len() - 1]);
    }
    law_wake_reaches_the_last_poll(
        Life::<N, D, S, I, G, J, A, B, R, W, F, C>::begin(),
        until,
        before.len() as int,
        waker,
        inner[first],
    );
}

/// Whether a poll that has come to `phase` serves the flag of `flag` no more.
pub open spec fn past<N, D, S, I, G, J, A, B, R, W, F, C>(phase: Phase<N, D, S, I, G, J, A, B, R, W, F, C>, flag: Operation) -> bool {
    match phase {
        Phase::At(Step::Wake(operation)) => flag.rank() <= operation.rank(),
        _ => true,
    }
}

/// Whether the turn of `flag` is still to come: in the poll that goes on, or in the next where none
/// does.
pub open spec fn to_come<N, D, S, I, G, J, A, B, R, W, F, C>(phase: Phase<N, D, S, I, G, J, A, B, R, W, F, C>, flag: Operation) -> bool {
    match phase {
        Phase::At(Step::Wake(operation)) => operation.rank() < flag.rank(),
        Phase::At(_) => false,
        Phase::Ended(_) => false,
        _ => true,
    }
}

/// A flag that is up while no poll goes on is told to the vessel once, and before the vessel is made
/// to go on, however many polls follow and whatever other flags go up before or in them. A flag that
/// is down is not told. Both hold until that flag is raised.
pub proof fn law_raised_flag_is_told_once<N, D, S, I, G, J, A, B, R, W, F, C>(
    life: Life<N, D, S, I, G, J, A, B, R, W, F, C>,
    events: Seq<Event<N, D, S, I, G, J, A, B, R, W, F, C>>,
    flag: Operation,
    outcome: Result<i32, J>,
)
    requires
        !(life.phase is At),
        life.admits_all(events),
        forall|j: int| 0 <= j < events.len() ==> !(#[trigger] events[j]).raises(flag),
    ensures
        life.wakeups.raised.contains(flag) ==> life.turns(events, flag) <= 1,
        !life.wakeups.raised.contains(flag) ==> life.turns(events, flag) == 0,
        life.wakeups.raised.contains(flag) && life.after_all(events).admits(Event::WentOn(outcome))
            ==> life.turns(events, flag) == 1,
{
    lemma_told_or_up(life, events, flag);
}

proof fn lemma_told_or_up<N, D, S, I, G, J, A, B, R, W, F, C>(
    life: Life<N, D, S, I, G, J, A, B, R, W, F, C>,
    events: Seq<Event<N, D, S, I, G, J, A, B, R, W, F, C>>,
    flag: Operation,
)
    requires
        !(life.phase is At),
        life.admits_all(events),
        forall|j: int| 0 <= j < events.len() ==> !(#[trigger] events[j]).raises(flag),
    ensures
        life.wakeups.raised.contains(flag) <==> (life.turns(events, flag) == 1
            || life.after_all(events).wakeups.raised.contains(flag)),
        life.turns(events, flag) <= 1,
        life.after_all(events).wakeups.raised.contains(flag) ==> life.turns(events, flag) == 0,
        life.after_all(events).phase is At && life.after_all(events).wakeups.raised.contains(flag)
            ==> to_come(life.after_all(events).phase, flag),
    decreases events.len(),
{
    if events.len() > 0 {
        let fewer = events.drop_last();
        assert(!events[fewer.len() as int].raises(flag));
        assert forall|j: int| 0 <= j < fewer.len() implies !(#[trigger] fewer[j]).raises(flag) by {
            assert(fewer[j] == events[j]);
        }
        lemma_told_or_up(life, fewer, flag);
        assert(life.after_all(events) == life.after_all(fewer).after(events.last()));
    }
}

/// A poll tells the vessel, exactly once and before it makes the vessel go on, of each flag that is
/// up before its turn, whatever is raised meanwhile.
pub proof fn law_poll_tells_of_a_flag_in_its_turn<N, D, S, I, G, J, A, B, R, W, F, C>(
    life: Life<N, D, S, I, G, J, A, B, R, W, F, C>,
    events: Seq<Event<N, D, S, I, G, J, A, B, R, W, F, C>>,
    flag: Operation,
    outcome: Result<i32, J>,
)
    requires
        to_come(life.phase, flag),
        life.wakeups.raised.contains(flag),
        life.admits_all(events),
        forall|j: int| 0 < j < events.len() ==> !((#[trigger] events[j]) is Begin),
    ensures
        life.turns(events, flag) <= 1,
        life.after_all(events).admits(Event::WentOn(outcome)) ==> life.turns(events, flag) == 1,
{
    lemma_turn(life, events, flag);
}

/// A poll tells the vessel of no flag twice, whatever is raised meanwhile.
pub proof fn law_poll_tells_of_no_flag_twice<N, D, S, I, G, J, A, B, R, W, F, C>(
    life: Life<N, D, S, I, G, J, A, B, R, W, F, C>,
    events: Seq<Event<N, D, S, I, G, J, A, B, R, W, F, C>>,
    flag: Operation,
)
    requires
        life.admits_all(events),
        forall|j: int| 0 < j < events.len() ==> !((#[trigger] events[j]) is Begin),
    ensures
        life.turns(events, flag) <= 1,
        life.phase == Phase::<N, D, S, I, G, J, A, B, R, W, F, C>::At(Step::Wake(flag)) ==> life.turns(events, flag) == 0,
{
    lemma_turn(life, events, flag);
}

proof fn lemma_turn<N, D, S, I, G, J, A, B, R, W, F, C>(
    life: Life<N, D, S, I, G, J, A, B, R, W, F, C>,
    events: Seq<Event<N, D, S, I, G, J, A, B, R, W, F, C>>,
    flag: Operation,
)
    requires
        life.admits_all(events),
        forall|j: int| 0 < j < events.len() ==> !((#[trigger] events[j]) is Begin),
    ensures
        life.turns(events, flag) <= 1,
        life.turns(events, flag) == 1 ==> past(life.after_all(events).phase, flag),
        life.phase is At && past(life.phase, flag) ==> past(life.after_all(events).phase, flag)
            && life.turns(events, flag) == 0,
        life.phase is Ended ==> life.after_all(events).phase is Ended,
        to_come(life.phase, flag) && life.wakeups.raised.contains(flag) && life.turns(events, flag)
            == 0 ==> life.after_all(events).wakeups.raised.contains(flag) && (
        life.after_all(events).phase is Ended || to_come(life.after_all(events).phase, flag)),
    decreases events.len(),
{
    if events.len() > 0 {
        let fewer = events.drop_last();
        assert(events[fewer.len() as int] == events.last());
        assert forall|j: int| 0 < j < fewer.len() implies !((#[trigger] fewer[j]) is Begin) by {
            assert(fewer[j] == events[j]);
        }
        lemma_turn(life, fewer, flag);
        assert(life.after_all(events) == life.after_all(fewer).after(events.last()));
        assert(life.admits_all(fewer) && life.after_all(fewer).admits(events.last()));
        if fewer.len() == 0 {
            assert(life.after_all(fewer) == life);
        }
    }
}

/// When the reader or the writer says that an operation can go on, and the turn of the flag that
/// stands for the operation is still to come, the vessel is told of the flag: in the poll that goes
/// on, or in the next where none does. It is told once, before it is made to go on.
pub proof fn law_wakeup_reaches_the_vessel<N, D, S, I, G, J, A, B, R, W, F, C>(
    life: Life<N, D, S, I, G, J, A, B, R, W, F, C>,
    operation: Operation,
    events: Seq<Event<N, D, S, I, G, J, A, B, R, W, F, C>>,
    outcome: Result<i32, J>,
)
    requires
        to_come(life.phase, VesselWaker::flag_of(operation)),
        life.after(Event::Raised(operation)).admits_all(events),
        forall|j: int| 0 < j < events.len() ==> !((#[trigger] events[j]) is Begin),
    ensures
        life.after(Event::Raised(operation)).turns(events, VesselWaker::flag_of(operation)) <= 1,
        life.after(Event::Raised(operation)).after_all(events).admits(Event::WentOn(outcome))
            ==> life.after(Event::Raised(operation)).turns(events, VesselWaker::flag_of(operation))
            == 1,
{
    law_poll_tells_of_a_flag_in_its_turn(
        life.after(Event::Raised(operation)),
        events,
        VesselWaker::flag_of(operation),
        outcome,
    );
}

/// A poll tells the vessel of the flags in their order, whatever is raised meanwhile.
pub proof fn law_poll_keeps_the_order<N, D, S, I, G, J, A, B, R, W, F, C>(
    life: Life<N, D, S, I, G, J, A, B, R, W, F, C>,
    events: Seq<Event<N, D, S, I, G, J, A, B, R, W, F, C>>,
    earlier: Operation,
    told: int,
    later: Operation,
)
    requires
        life.phase == Phase::<N, D, S, I, G, J, A, B, R, W, F, C>::At(Step::Wake(earlier)),
        life.admits_all(events),
        forall|j: int| 0 <= j < events.len() ==> !((#[trigger] events[j]) is Begin),
        0 <= told < events.len(),
        events[told] is Told,
        life.after_all(events).phase == Phase::<N, D, S, I, G, J, A, B, R, W, F, C>::At(Step::Wake(later)),
    ensures
        earlier.rank() < later.rank(),
    decreases events.len(),
{
    let fewer = events.drop_last();
    assert(events[fewer.len() as int] == events.last());
    assert forall|j: int| 0 <= j < fewer.len() implies !((#[trigger] fewer[j]) is Begin) by {
        assert(fewer[j] == events[j]);
    }
    lemma_turn(life, fewer, earlier);
    assert(life.after_all(events) == life.after_all(fewer).after(events.last()));
    if told < fewer.len() {
        assert(fewer[told] == events[told]);
        if let Phase::At(Step::Wake(before)) = life.after_all(fewer).phase {
            law_poll_keeps_the_order(life, fewer, earlier, told, before);
        }
    }
}

/// A flag that is raised while the vessel is told of it, or later in the same poll, is not lost:
/// that poll does not serve it again, it stays up, and the next poll, unless that ends the vessel,
/// tells of it, exactly once and before it makes the vessel go on.
pub proof fn law_flag_raised_in_its_turn_waits<N, D, S, I, G, J, A, B, R, W, F, C>(
    life: Life<N, D, S, I, G, J, A, B, R, W, F, C>,
    events: Seq<Event<N, D, S, I, G, J, A, B, R, W, F, C>>,
    flag: Operation,
    waker: Waker,
    next: Seq<Event<N, D, S, I, G, J, A, B, R, W, F, C>>,
    outcome: Result<i32, J>,
)
    requires
        life.phase is At,
        past(life.phase, flag),
        life.wakeups.raised.contains(flag),
        life.admits_all(events),
        forall|j: int| 0 <= j < events.len() ==> !((#[trigger] events[j]) is Begin),
    ensures
        life.after_all(events).wakeups.raised.contains(flag),
        past(life.after_all(events).phase, flag),
        forall|j: int|
            0 <= j < events.len() && (#[trigger] events[j]) is Told ==> life.after_all(
                events.take(j + 1),
            ).phase != Phase::<N, D, S, I, G, J, A, B, R, W, F, C>::At(Step::Wake(flag)),
        life.after_all(events).admits_all(next) && !(life.after_all(events).phase is At) && (forall|j: int|
            0 < j < next.len() ==> !((#[trigger] next[j]) is Begin)) && life.after_all(events).after_all(
            next,
        ).admits(Event::WentOn(outcome)) ==> life.after_all(events).turns(next, flag) == 1,
        life.after_all(events).report.pending is None && flag == Operation::Read
            ==> life.after_all(events).after(Event::Begin(waker)).phase == Phase::<N, D, S, I, G, J, A, B, R, W, F, C>::At(
            Step::Wake(flag),
        ),
    decreases events.len(),
{
    if events.len() > 0 {
        let fewer = events.drop_last();
        assert(events[fewer.len() as int] == events.last());
        assert forall|j: int| 0 <= j < fewer.len() implies !((#[trigger] fewer[j]) is Begin) by {
            assert(fewer[j] == events[j]);
        }
        law_flag_raised_in_its_turn_waits(life, fewer, flag, waker, next, outcome);
        assert forall|j: int| 0 <= j < events.len() && (#[trigger] events[j]) is Told implies
            life.after_all(events.take(j + 1)).phase != Phase::<N, D, S, I, G, J, A, B, R, W, F, C>::At(Step::Wake(flag)) by {
            if j < fewer.len() {
                assert(fewer[j] == events[j]);
                assert(fewer.take(j + 1) =~= events.take(j + 1));
            } else {
                assert(events.take(j + 1) =~= events);
            }
        }
    }
    if life.after_all(events).admits_all(next) && forall|j: int|
        0 < j < next.len() ==> !((#[trigger] next[j]) is Begin) {
        lemma_turn(life.after_all(events), next, flag);
    }
}

} // verus!
