use futures::task::{waker, ArcWake};
use std::sync::atomic::{AtomicUsize, Ordering};
use std::sync::Arc;
use vessels_web::context::{read_buffer, write_span, Progress, VesselContext};
use vessels_web::failure::{Failure, FailureReport};
use vessels_web::operation::Operation;
use vessels_web::wakeup::Wakeups;

type Context = VesselContext<&'static str, u8, u16, u32, u64>;

struct Count(AtomicUsize);

impl ArcWake for Count {
    fn wake_by_ref(arc_self: &Arc<Self>) {
        arc_self.0.fetch_add(1, Ordering::SeqCst);
    }
}

fn attached() -> Context {
    let mut context: Context = VesselContext::new();
    context.attach("memory");
    context
}

#[test]
fn report_of_nothing() {
    let mut report: FailureReport<u8, u16, u32, u64> = FailureReport::new();
    assert!(report.receive().is_none());
}

#[test]
fn report_gives_the_first_failure_once() {
    let mut report: FailureReport<u8, u16, u32, u64> = FailureReport::new();
    report.report(Failure::Flush(7));
    report.report(Failure::Read(8));
    assert!(matches!(report.receive(), Some(Failure::Flush(7))));
    assert!(report.receive().is_none());
    report.report(Failure::Close(9));
    assert!(report.receive().is_none());
}

#[test]
fn report_after_an_empty_receive() {
    let mut report: FailureReport<u8, u16, u32, u64> = FailureReport::new();
    assert!(report.receive().is_none());
    report.report(Failure::Write(3));
    assert!(matches!(report.receive(), Some(Failure::Write(3))));
}

#[test]
fn failure_names_its_operation() {
    let read: Failure<u8, u16, u32, u64> = Failure::Read(1);
    let write: Failure<u8, u16, u32, u64> = Failure::Write(1);
    let flush: Failure<u8, u16, u32, u64> = Failure::Flush(1);
    let close: Failure<u8, u16, u32, u64> = Failure::Close(1);
    assert_eq!(read.operation(), Operation::Read);
    assert_eq!(write.operation(), Operation::Write);
    assert_eq!(flush.operation(), Operation::Flush);
    assert_eq!(close.operation(), Operation::Close);
}

#[test]
fn buffer_is_zeroed() {
    assert_eq!(read_buffer(0), Vec::<u8>::new());
    assert_eq!(read_buffer(3), vec![0u8, 0, 0]);
}

#[test]
fn memory_is_known_once_attached() {
    let mut context: Context = VesselContext::new();
    assert!(context.memory().is_none());
    context.attach("memory");
    assert_eq!(context.memory(), Some(&"memory"));
}

#[test]
fn read_pending() {
    let mut context: Context = VesselContext::new();
    let reply = context.vessel_poll_read(&mut Wakeups::new(), 16, read_buffer(4), Progress::Pending);
    assert_eq!(reply.status, 0);
    assert!(reply.transfer.is_none());
    assert!(context.receive().is_none());
}

#[test]
fn read_moves_what_was_filled() {
    let mut context = attached();
    let reply = context.vessel_poll_read(&mut Wakeups::new(), 16, vec![1, 2, 3, 0], Progress::Ready(3));
    assert_eq!(reply.status, 4);
    let transfer = reply.transfer.unwrap();
    assert_eq!(transfer.offset, 16);
    assert_eq!(transfer.bytes, vec![1, 2, 3]);
}

#[test]
fn read_of_nothing_is_not_pending() {
    let mut context = attached();
    let reply = context.vessel_poll_read(&mut Wakeups::new(), 16, read_buffer(4), Progress::Ready(0));
    assert_eq!(reply.status, 1);
    assert_eq!(reply.transfer.unwrap().bytes, Vec::<u8>::new());
}

#[test]
fn read_at_a_high_address() {
    let mut context = attached();
    let reply = context.vessel_poll_read(&mut Wakeups::new(), -16, vec![9], Progress::Ready(1));
    assert_eq!(reply.transfer.unwrap().offset, 0xffff_fff0);
}

#[test]
fn read_failed() {
    let mut context = attached();
    let reply = context.vessel_poll_read(&mut Wakeups::new(), 16, read_buffer(4), Progress::Failed(5));
    assert_eq!(reply.status, 0);
    assert!(reply.transfer.is_none());
    assert!(matches!(context.receive(), Some(Failure::Read(5))));
}

#[test]
fn span_of_a_write() {
    let span = write_span(16, 4);
    assert_eq!((span.begin, span.end), (16, 20));
    let span = write_span(-16, 4);
    assert_eq!((span.begin, span.end), (0xffff_fff0, 0xffff_fff4));
    let span = write_span(0, -1);
    assert_eq!((span.begin, span.end), (0, 0xffff_ffff));
}

#[test]
fn write_replies() {
    let mut context = attached();
    assert_eq!(context.vessel_poll_write(&mut Wakeups::new(), Progress::Pending).status, 0);
    assert_eq!(context.vessel_poll_write(&mut Wakeups::new(), Progress::Ready(0)).status, 1);
    assert_eq!(context.vessel_poll_write(&mut Wakeups::new(), Progress::Ready(20)).status, 21);
    assert!(context.receive().is_none());
    assert_eq!(context.vessel_poll_write(&mut Wakeups::new(), Progress::Failed(6)).status, 0);
    assert!(matches!(context.receive(), Some(Failure::Write(6))));
}

#[test]
fn greatest_count_does_not_fit() {
    let mut context = attached();
    assert_eq!(context.vessel_poll_write(&mut Wakeups::new(), Progress::Ready(0x7fff_fffe)).status, 0x7fff_ffff);
    assert_eq!(context.vessel_poll_write(&mut Wakeups::new(), Progress::Ready(0x7fff_ffff)).status, i32::MIN);
}

#[test]
fn flush_replies() {
    let mut context = attached();
    assert_eq!(context.vessel_poll_flush(&mut Wakeups::new(), Progress::Pending).status, 0);
    assert_eq!(context.vessel_poll_flush(&mut Wakeups::new(), Progress::Ready(())).status, 1);
    assert!(context.receive().is_none());
    assert_eq!(context.vessel_poll_flush(&mut Wakeups::new(), Progress::Failed(7)).status, 0);
    assert!(matches!(context.receive(), Some(Failure::Flush(7))));
}

#[test]
fn close_replies() {
    let mut context = attached();
    assert_eq!(context.vessel_poll_close(&mut Wakeups::new(), Progress::Pending).status, 0);
    assert_eq!(context.vessel_poll_close(&mut Wakeups::new(), Progress::Ready(())).status, 1);
    assert!(context.receive().is_none());
    assert_eq!(context.vessel_poll_close(&mut Wakeups::new(), Progress::Failed(8)).status, 0);
    assert!(matches!(context.receive(), Some(Failure::Close(8))));
}

#[test]
fn failure_wakes_the_waiting_task_once_and_the_first_is_kept() {
    let count = Arc::new(Count(AtomicUsize::new(0)));
    let waker = waker(count.clone());
    let mut context: Context = VesselContext::new();
    let mut wakeups = Wakeups::new();
    wakeups.register(&waker);
    let reply = context.vessel_poll_write(&mut wakeups, Progress::Failed(1));
    reply.wake.unwrap().wake();
    assert_eq!(count.0.load(Ordering::SeqCst), 1);
    let reply = context.vessel_poll_close(&mut wakeups, Progress::Failed(2));
    assert!(reply.wake.is_none());
    wakeups.register(&waker);
    let reply = context.vessel_poll_read(&mut wakeups, 0, read_buffer(1), Progress::Failed(3));
    reply.wake.unwrap().wake();
    assert_eq!(count.0.load(Ordering::SeqCst), 2);
    assert!(matches!(context.receive(), Some(Failure::Write(1))));
    assert!(context.receive().is_none());
}

#[test]
fn success_wakes_nobody() {
    let count = Arc::new(Count(AtomicUsize::new(0)));
    let waker = waker(count.clone());
    let mut context = attached();
    let mut wakeups = Wakeups::new();
    wakeups.register(&waker);
    assert!(context.vessel_poll_write(&mut wakeups, Progress::Ready(1)).wake.is_none());
    assert!(context.vessel_poll_flush(&mut wakeups, Progress::Pending).wake.is_none());
    assert!(context.vessel_poll_close(&mut wakeups, Progress::Ready(())).wake.is_none());
    let reply = context.vessel_poll_read(&mut wakeups, 0, vec![1], Progress::Ready(1));
    assert!(reply.wake.is_none());
    assert!(wakeups.wake().is_some());
}
