use futures::task::{noop_waker, waker, ArcWake};
use std::sync::atomic::{AtomicUsize, Ordering};
use std::sync::Arc;
use vessels_web::context::{Progress, VesselContext};
use vessels_web::operation::Operation;
use vessels_web::poll::{PollError, Step, WebFuture};
use vessels_web::startup::{Action, Export, Import, Startup, StartupError, INSTANCE};
use vessels_web::wakeup::{VesselWaker, Wakeups};
use vessels_web::WebRuntime;

type Steps = Step<&'static str, u8, u16, u32, u64>;
type Polled = Progress<(), PollError<&'static str, u8, u16, u32, u64>>;
type Starting = Startup<&'static str, Vec<u8>, &'static str, &'static str, &'static str>;
type Refusal = StartupError<&'static str, u8, u16>;
type Outcome = Result<Starting, Refusal>;
type Context = VesselContext<&'static str, u8, u16, u32, u64>;
type Running = WebFuture<&'static str, &'static str>;

struct Count(AtomicUsize);

impl ArcWake for Count {
    fn wake_by_ref(arc_self: &Arc<Self>) {
        arc_self.0.fetch_add(1, Ordering::SeqCst);
    }
}

struct Vessel {
    context: Context,
    wakeups: Wakeups,
    reader_waker: VesselWaker,
    writer_flush_waker: VesselWaker,
    writer_close_waker: VesselWaker,
    future: Running,
}

fn launch() -> Vessel {
    let launch = WebRuntime.instantiate();
    let mut context: Context = launch.context;
    let startup = after(&mut context, launch.startup, 19);
    Vessel {
        context,
        wakeups: launch.wakeups,
        reader_waker: launch.reader_waker,
        writer_flush_waker: launch.writer_flush_waker,
        writer_close_waker: launch.writer_close_waker,
        future: startup.run(),
    }
}

/// Does the next action with success.
fn advance(context: &mut Context, startup: Starting) -> Starting {
    let outcome: Outcome = match startup.action() {
        Action::Acquire => startup.acquired(Ok(Some("manager"))),
        Action::Fetch => startup.fetched(Ok(Some(vec![0, 97, 115, 109]))),
        Action::Define(_) => startup.done(Ok(())),
        Action::Instantiate => startup.instantiated(Ok("source")),
        Action::GetInstance => startup.got_instance(Ok("instance")),
        Action::Get(Export::Memory) => startup.got_memory(context, Ok("memory")),
        Action::Get(export) => startup.got_function(Ok(export.name())),
        Action::Enter => startup.done(Ok(())),
        Action::Run => panic!("the vessel runs"),
    };
    match outcome {
        Ok(startup) => startup,
        Err(_) => panic!("the start ended"),
    }
}

/// Lets the next action fail with what the page throws.
fn fail(context: &mut Context, startup: Starting) -> Refusal {
    let outcome: Outcome = match startup.action() {
        Action::Define(_) => startup.done(Err("trap")),
        Action::Instantiate => startup.instantiated(Err("trap")),
        Action::GetInstance => startup.got_instance(Err("trap")),
        Action::Get(Export::Memory) => startup.got_memory(context, Err("trap")),
        Action::Get(_) => startup.got_function(Err("trap")),
        Action::Enter => startup.done(Err("trap")),
        _ => panic!("the page has no part in this"),
    };
    refusal(outcome)
}

fn refusal(outcome: Outcome) -> Refusal {
    match outcome {
        Ok(_) => panic!("the start went on"),
        Err(error) => error,
    }
}

fn after(context: &mut Context, startup: Starting, actions: usize) -> Starting {
    let mut startup = startup;
    for _ in 0..actions {
        startup = advance(context, startup);
    }
    startup
}

fn begun(actions: usize) -> (Context, Starting) {
    let launch = WebRuntime.instantiate();
    let mut context: Context = launch.context;
    let startup = after(&mut context, launch.startup, actions);
    (context, startup)
}

#[test]
fn quiet_poll_makes_the_vessel_go_on() {
    let mut launch = launch();
    let step: Steps = launch.future.poll(&mut launch.context, &mut launch.wakeups, &noop_waker());
    assert!(matches!(step, Step::Poll));
}

#[test]
fn poll_serves_all_flags_in_order() {
    let mut launch = launch();
    launch.wakeups.raise(Operation::Close);
    launch.wakeups.raise(Operation::Flush);
    launch.wakeups.raise(Operation::Write);
    launch.wakeups.raise(Operation::Read);
    let step: Steps = launch.future.poll(&mut launch.context, &mut launch.wakeups, &noop_waker());
    assert!(matches!(step, Step::Wake(Operation::Read)));
    let step: Steps = launch.future.woke(&mut launch.wakeups, Operation::Read, Ok(()));
    assert!(matches!(step, Step::Wake(Operation::Write)));
    let step: Steps = launch.future.woke(&mut launch.wakeups, Operation::Write, Ok(()));
    assert!(matches!(step, Step::Wake(Operation::Flush)));
    let step: Steps = launch.future.woke(&mut launch.wakeups, Operation::Flush, Ok(()));
    assert!(matches!(step, Step::Wake(Operation::Close)));
    let step: Steps = launch.future.woke(&mut launch.wakeups, Operation::Close, Ok(()));
    assert!(matches!(step, Step::Poll));
    let step: Steps = launch.future.poll(&mut launch.context, &mut launch.wakeups, &noop_waker());
    assert!(matches!(step, Step::Poll));
}

#[test]
fn flag_raised_meanwhile_is_served_if_its_turn_is_to_come() {
    let mut launch = launch();
    launch.wakeups.raise(Operation::Read);
    let step: Steps = launch.future.poll(&mut launch.context, &mut launch.wakeups, &noop_waker());
    assert!(matches!(step, Step::Wake(Operation::Read)));
    launch.reader_waker.wake_by_ref(&mut launch.wakeups);
    launch.writer_flush_waker.wake_by_ref(&mut launch.wakeups);
    let step: Steps = launch.future.woke(&mut launch.wakeups, Operation::Read, Ok(()));
    assert!(matches!(step, Step::Wake(Operation::Write)));
    let step: Steps = launch.future.woke(&mut launch.wakeups, Operation::Write, Ok(()));
    assert!(matches!(step, Step::Poll));
    let step: Steps = launch.future.poll(&mut launch.context, &mut launch.wakeups, &noop_waker());
    assert!(matches!(step, Step::Wake(Operation::Read)));
}

#[test]
fn throwing_wakeup_ends_the_vessel_and_keeps_the_other_flags() {
    let mut launch = launch();
    launch.wakeups.raise(Operation::Read);
    launch.wakeups.raise(Operation::Write);
    let step: Steps = launch.future.poll(&mut launch.context, &mut launch.wakeups, &noop_waker());
    assert!(matches!(step, Step::Wake(Operation::Read)));
    let step: Steps = launch.future.woke(&mut launch.wakeups, Operation::Read, Err("trap"));
    assert!(matches!(step, Step::Done(PollError::Runtime("trap"))));
    assert!(launch.wakeups.take(Operation::Write));
}

#[test]
fn first_failure_ends_the_vessel_before_any_flag_is_served() {
    let mut launch = launch();
    launch.wakeups.raise(Operation::Read);
    launch.context.vessel_poll_flush(&mut launch.wakeups, Progress::Failed(7));
    launch.context.vessel_poll_write(&mut launch.wakeups, Progress::Failed(8));
    let step: Steps = launch.future.poll(&mut launch.context, &mut launch.wakeups, &noop_waker());
    assert!(matches!(step, Step::Done(PollError::Flush(7))));
    assert!(launch.wakeups.take(Operation::Read));
}

#[test]
fn each_operation_has_its_error() {
    let mut first = launch();
    first.context.vessel_poll_read(&mut first.wakeups, 0, vec![0], Progress::Failed(1));
    let step: Steps = first.future.poll(&mut first.context, &mut first.wakeups, &noop_waker());
    assert!(matches!(step, Step::Done(PollError::Read(1))));
    let mut second = launch();
    second.context.vessel_poll_write(&mut second.wakeups, Progress::Failed(2));
    let step: Steps = second.future.poll(&mut second.context, &mut second.wakeups, &noop_waker());
    assert!(matches!(step, Step::Done(PollError::Write(2))));
    let mut third = launch();
    third.context.vessel_poll_close(&mut third.wakeups, Progress::Failed(4));
    let step: Steps = third.future.poll(&mut third.context, &mut third.wakeups, &noop_waker());
    assert!(matches!(step, Step::Done(PollError::Close(4))));
}

#[test]
fn status_of_the_vessel() {
    let launch = launch();
    let polled: Polled = launch.future.polled(Ok(0));
    assert!(matches!(polled, Progress::Ready(())));
    let polled: Polled = launch.future.polled(Ok(1));
    assert!(matches!(polled, Progress::Pending));
    let polled: Polled = launch.future.polled(Ok(-1));
    assert!(matches!(polled, Progress::Pending));
    let polled: Polled = launch.future.polled(Err("trap"));
    assert!(matches!(polled, Progress::Failed(PollError::Runtime("trap"))));
}

#[test]
fn all_parts_wake_the_task_of_the_last_poll() {
    let earlier = Arc::new(Count(AtomicUsize::new(0)));
    let count = Arc::new(Count(AtomicUsize::new(0)));
    let mut launch = launch();
    let task = waker(earlier.clone());
    let _: Steps = launch.future.poll(&mut launch.context, &mut launch.wakeups, &task);
    let task = waker(count.clone());
    let _: Steps = launch.future.poll(&mut launch.context, &mut launch.wakeups, &task);
    launch.wakeups.wake().unwrap().wake();
    assert_eq!(count.0.load(Ordering::SeqCst), 1);
    let _: Steps = launch.future.poll(&mut launch.context, &mut launch.wakeups, &task);
    launch.writer_close_waker.wake_by_ref(&mut launch.wakeups).unwrap().wake();
    assert_eq!(count.0.load(Ordering::SeqCst), 2);
    let _: Steps = launch.future.poll(&mut launch.context, &mut launch.wakeups, &task);
    let reply = launch.context.vessel_poll_close(&mut launch.wakeups, Progress::Failed(4));
    reply.wake.unwrap().wake();
    assert_eq!(count.0.load(Ordering::SeqCst), 3);
    assert_eq!(earlier.0.load(Ordering::SeqCst), 0);
}

#[test]
fn poll_that_ends_the_vessel_registers_its_task() {
    let count = Arc::new(Count(AtomicUsize::new(0)));
    let task = waker(count.clone());
    let mut launch = launch();
    launch.context.vessel_poll_close(&mut launch.wakeups, Progress::Failed(4));
    let step: Steps = launch.future.poll(&mut launch.context, &mut launch.wakeups, &task);
    assert!(matches!(step, Step::Done(PollError::Close(4))));
    launch.wakeups.wake().unwrap().wake();
    assert_eq!(count.0.load(Ordering::SeqCst), 1);
}

#[test]
fn failure_in_a_poll_ends_the_next() {
    let count = Arc::new(Count(AtomicUsize::new(0)));
    let task = waker(count.clone());
    let mut launch = launch();
    let step: Steps = launch.future.poll(&mut launch.context, &mut launch.wakeups, &task);
    assert!(matches!(step, Step::Poll));
    let reply = launch.context.vessel_poll_read(&mut launch.wakeups, 0, vec![0], Progress::Failed(5));
    assert_eq!(reply.status, 0);
    reply.wake.unwrap().wake();
    assert_eq!(count.0.load(Ordering::SeqCst), 1);
    let polled: Polled = launch.future.polled(Ok(1));
    assert!(matches!(polled, Progress::Pending));
    let step: Steps = launch.future.poll(&mut launch.context, &mut launch.wakeups, &task);
    assert!(matches!(step, Step::Done(PollError::Read(5))));
}

#[test]
fn flag_raised_in_its_turn_waits_for_the_next_poll() {
    let count = Arc::new(Count(AtomicUsize::new(0)));
    let task = waker(count.clone());
    let mut launch = launch();
    launch.reader_waker.wake_by_ref(&mut launch.wakeups);
    let step: Steps = launch.future.poll(&mut launch.context, &mut launch.wakeups, &task);
    assert!(matches!(step, Step::Wake(Operation::Read)));
    launch.reader_waker.wake_by_ref(&mut launch.wakeups).unwrap().wake();
    assert_eq!(count.0.load(Ordering::SeqCst), 1);
    let step: Steps = launch.future.woke(&mut launch.wakeups, Operation::Read, Ok(()));
    assert!(matches!(step, Step::Poll));
    let polled: Polled = launch.future.polled(Ok(1));
    assert!(matches!(polled, Progress::Pending));
    let step: Steps = launch.future.poll(&mut launch.context, &mut launch.wakeups, &task);
    assert!(matches!(step, Step::Wake(Operation::Read)));
}

#[test]
fn raised_flag_is_told_once_whatever_else_is_raised() {
    let mut launch = launch();
    launch.wakeups.raise(Operation::Write);
    launch.reader_waker.wake_by_ref(&mut launch.wakeups);
    let step: Steps = launch.future.poll(&mut launch.context, &mut launch.wakeups, &noop_waker());
    assert!(matches!(step, Step::Wake(Operation::Read)));
    launch.reader_waker.wake_by_ref(&mut launch.wakeups);
    let step: Steps = launch.future.woke(&mut launch.wakeups, Operation::Read, Ok(()));
    assert!(matches!(step, Step::Wake(Operation::Write)));
    launch.reader_waker.wake_by_ref(&mut launch.wakeups);
    let step: Steps = launch.future.woke(&mut launch.wakeups, Operation::Write, Ok(()));
    assert!(matches!(step, Step::Poll));
    let polled: Polled = launch.future.polled(Ok(1));
    assert!(matches!(polled, Progress::Pending));
    let step: Steps = launch.future.poll(&mut launch.context, &mut launch.wakeups, &noop_waker());
    assert!(matches!(step, Step::Wake(Operation::Read)));
    let step: Steps = launch.future.woke(&mut launch.wakeups, Operation::Read, Ok(()));
    assert!(matches!(step, Step::Poll));
}

#[test]
fn flag_raised_twice_before_its_turn_is_told_once() {
    let mut launch = launch();
    launch.reader_waker.wake_by_ref(&mut launch.wakeups);
    let step: Steps = launch.future.poll(&mut launch.context, &mut launch.wakeups, &noop_waker());
    assert!(matches!(step, Step::Wake(Operation::Read)));
    launch.writer_close_waker.wake_by_ref(&mut launch.wakeups);
    launch.writer_flush_waker.wake_by_ref(&mut launch.wakeups);
    let step: Steps = launch.future.woke(&mut launch.wakeups, Operation::Read, Ok(()));
    assert!(matches!(step, Step::Wake(Operation::Write)));
    let step: Steps = launch.future.woke(&mut launch.wakeups, Operation::Write, Ok(()));
    assert!(matches!(step, Step::Poll));
    let step: Steps = launch.future.poll(&mut launch.context, &mut launch.wakeups, &noop_waker());
    assert!(matches!(step, Step::Poll));
}

#[test]
fn throwing_entry_ends_the_start() {
    let (mut context, startup) = begun(18);
    assert_eq!(startup.action(), Action::Enter);
    assert!(matches!(fail(&mut context, startup), StartupError::Runtime("trap")));
}

#[test]
fn run_that_ends_well() {
    let mut launch = launch();
    for status in [7, -1, 1] {
        let step: Steps =
            launch.future.poll(&mut launch.context, &mut launch.wakeups, &noop_waker());
        assert!(matches!(step, Step::Poll));
        let polled: Polled = launch.future.polled(Ok(status));
        assert!(matches!(polled, Progress::Pending));
    }
    let step: Steps = launch.future.poll(&mut launch.context, &mut launch.wakeups, &noop_waker());
    assert!(matches!(step, Step::Poll));
    let polled: Polled = launch.future.polled(Ok(0));
    assert!(matches!(polled, Progress::Ready(())));
}

#[test]
fn start_follows_the_plan() {
    let plan = [
        Action::Acquire,
        Action::Fetch,
        Action::Define(Import::Module),
        Action::Define(Import::Env),
        Action::Define(Import::Wake),
        Action::Define(Import::PollRead),
        Action::Define(Import::PollWrite),
        Action::Define(Import::PollFlush),
        Action::Define(Import::PollClose),
        Action::Instantiate,
        Action::GetInstance,
        Action::Get(Export::Memory),
        Action::Get(Export::Entry),
        Action::Get(Export::Poll),
        Action::Get(Export::Wake(Operation::Read)),
        Action::Get(Export::Wake(Operation::Write)),
        Action::Get(Export::Wake(Operation::Flush)),
        Action::Get(Export::Wake(Operation::Close)),
        Action::Enter,
        Action::Run,
    ];
    for (position, action) in plan.iter().enumerate() {
        assert_eq!(begun(position).1.action(), *action);
    }
}

#[test]
fn missing_manager_and_missing_binary() {
    let outcome: Outcome = begun(0).1.acquired(Ok(None));
    assert!(matches!(refusal(outcome), StartupError::NoResourceManager));
    let outcome: Outcome = begun(1).1.fetched(Ok(None));
    assert!(matches!(refusal(outcome), StartupError::NoBinary));
}

#[test]
fn failed_acquire_and_failed_fetch() {
    let outcome: Outcome = begun(0).1.acquired(Err(3));
    assert!(matches!(refusal(outcome), StartupError::Acquire(3)));
    let outcome: Outcome = begun(1).1.fetched(Err(4));
    assert!(matches!(refusal(outcome), StartupError::Fetch(4)));
}

#[test]
fn thrown_values_end_the_start() {
    for actions in 2..19 {
        let (mut context, startup) = begun(actions);
        assert!(matches!(fail(&mut context, startup), StartupError::Runtime("trap")));
    }
}

#[test]
fn start_keeps_what_the_actions_gave() {
    let (_, startup) = begun(0);
    assert!(startup.manager().is_none());
    assert!(startup.binary().is_none());
    assert!(startup.source().is_none());
    assert!(startup.instance().is_none());
    assert!(startup.entrypoint().is_none());
    let (context, startup) = begun(18);
    assert_eq!(startup.manager(), Some(&"manager"));
    assert_eq!(startup.binary(), Some(&vec![0u8, 97, 115, 109]));
    assert_eq!(startup.source(), Some(&"source"));
    assert_eq!(startup.instance(), Some(&"instance"));
    assert_eq!(startup.entrypoint(), Some(&"_vessel_entry"));
    assert_eq!(context.memory(), Some(&"memory"));
}

#[test]
fn memory_is_not_known_when_the_page_throws() {
    let (mut context, startup) = begun(11);
    assert!(matches!(fail(&mut context, startup), StartupError::Runtime("trap")));
    assert!(context.memory().is_none());
}

#[test]
fn running_vessel_has_its_functions() {
    let vessel = launch();
    assert_eq!(vessel.future.instance(), &"instance");
    assert_eq!(vessel.future.poll_function(), &"_vessel_poll");
    for operation in [Operation::Read, Operation::Write, Operation::Flush, Operation::Close] {
        assert_eq!(vessel.future.wake_function(operation), &Export::Wake(operation).name());
    }
}

#[test]
fn names_of_imports() {
    assert_eq!(Import::Module.name(), "module");
    assert_eq!(Import::Env.name(), "env");
    assert_eq!(Import::Wake.name(), "_vessel_wake");
    assert_eq!(Import::PollRead.name(), "_vessel_poll_read");
    assert_eq!(Import::PollWrite.name(), "_vessel_poll_write");
    assert_eq!(Import::PollFlush.name(), "_vessel_poll_flush");
    assert_eq!(Import::PollClose.name(), "_vessel_poll_close");
}

#[test]
fn places_of_imports() {
    assert!(!Import::Module.in_env());
    assert!(!Import::Env.in_env());
    assert!(Import::Wake.in_env());
    assert!(Import::PollRead.in_env());
    assert!(Import::PollWrite.in_env());
    assert!(Import::PollFlush.in_env());
    assert!(Import::PollClose.in_env());
}

#[test]
fn names_of_exports() {
    assert_eq!(INSTANCE, "instance");
    assert_eq!(Export::Memory.name(), "memory");
    assert_eq!(Export::Entry.name(), "_vessel_entry");
    assert_eq!(Export::Poll.name(), "_vessel_poll");
    assert_eq!(Export::Wake(Operation::Read).name(), "_vessel_wake_reader");
    assert_eq!(Export::Wake(Operation::Write).name(), "_vessel_wake_writer_write");
    assert_eq!(Export::Wake(Operation::Flush).name(), "_vessel_wake_writer_flush");
    assert_eq!(Export::Wake(Operation::Close).name(), "_vessel_wake_writer_close");
}
