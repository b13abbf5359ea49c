use ntex::error::{IoError, IoErrorKind};
use ntex::io::state::{EncodeFault, IoState, MemoryPool, NextStep};
use ntex::io::tokio_impl::{
    FlushStep, FlushTask, ReadEvent, ReadStep, ReadTask, WriteEvent, WriteStep, WriteTask,
};
use ntex::io::WriteReadiness;
use ntex::time::Seconds;

fn pool() -> MemoryPool {
    MemoryPool { read_high: 16, write_high: 16 }
}

fn io_error(text: &str) -> IoError {
    IoError { kind: IoErrorKind::Other, text: text.to_string() }
}

#[test]
fn a_new_state_is_open_and_empty() {
    let st = IoState::with_memory_pool(pool());
    assert!(st.is_open());
    assert!(!st.is_io_err());
    assert!(!st.is_keepalive());
    assert!(!st.is_dispatcher_stopped());
    assert!(!st.read().is_full(&st));
    assert!(!st.write().is_full(&st));
    assert!(st.write_handle().get().is_ready(&st));
}

#[test]
fn closing_stops_the_dispatcher() {
    let mut st = IoState::with_memory_pool(pool());
    let wake = st.force_close();
    assert!(st.flags().dsp_stop);
    assert!(st.flags().io_shutdown);
    assert!(wake.read && wake.write && wake.dispatch);
    assert!(!st.is_open());
}

#[test]
fn an_error_is_handed_out_once() {
    let mut st = IoState::with_memory_pool(pool());
    st.flags.io_err = true;
    st.flags.dsp_stop = true;
    st.error = Some(io_error("err"));
    assert!(matches!(st.next(), NextStep::Failed(e) if e.text == "err"));
    assert!(st.take_io_error().is_none());
    assert!(matches!(st.next(), NextStep::End));
    assert!(st.is_io_err());
}

#[test]
fn what_is_sent_waits_to_be_written() {
    let mut st = IoState::with_memory_pool(pool());
    let wake = st.send(b"test");
    assert!(wake.write);
    assert_eq!(st.write_buf, b"test");
    assert!(st.poll_sent().is_none());
    st.write_buf.clear();
    st.flags.wr_wait = false;
    assert!(matches!(st.poll_sent(), Some(Ok(()))));
    st.flags.io_err = true;
    st.error = Some(io_error("err"));
    assert!(matches!(st.poll_sent(), Some(Err(e)) if e.text == "err"));
}

#[test]
fn encoding_reports_room() {
    let mut st = IoState::with_memory_pool(pool());
    let wr = st.write();
    let (res, _) = wr.encode::<()>(&mut st, b"0123456789", Ok(()));
    assert_eq!(res, Ok(true));
    let (res, _) = wr.encode::<()>(&mut st, b"0123456789", Ok(()));
    assert_eq!(res, Ok(false));
    assert!(wr.is_full(&st));
    assert!(!wr.is_ready(&st) || st.write_buf.len() == 20);
    wr.enable_backpressure(&mut st);
    assert!(st.flags().wr_backpressure);
    let (res, _) = wr.encode_result::<&str, ()>(&mut st, Err("stop"));
    assert!(matches!(res, Err(EncodeFault::Dispatcher("stop"))));
}

#[test]
fn reading_pauses_and_resumes() {
    let mut st = IoState::with_memory_pool(pool());
    let rd = st.read();
    rd.pause(&mut st);
    assert!(st.flags().rd_paused);
    assert!(rd.resume(&mut st));
    assert!(!st.flags().rd_paused);
    assert!(!rd.resume(&mut st));
    st.flags.rd_ready = true;
    st.flags.rd_buf_full = true;
    assert!(rd.is_ready(&st));
    let wake = rd.wake(&mut st);
    assert!(wake.read);
    assert!(!st.flags().rd_ready && !st.flags().rd_buf_full);
}

#[test]
fn listeners_hear_of_a_disconnect() {
    let mut st = IoState::with_memory_pool(pool());
    let waiter = st.on_disconnect();
    assert!(!waiter.poll_ready(&mut st));
    let second = waiter.another(&mut st);
    assert!(!second.poll_ready(&mut st));
    st.notify_disconnect();
    assert!(waiter.poll_ready(&mut st));
    assert!(second.poll_ready(&mut st));
    waiter.close(&mut st);
    second.close(&mut st);

    // one who comes late is told at once
    st.flags.io_err = true;
    let late = st.on_disconnect();
    assert!(late.poll_ready(&mut st));
}

#[test]
fn a_read_task_makes_room_and_stops_when_full() {
    assert_eq!(ReadTask::room(100, 10, 200), None);
    assert_eq!(ReadTask::room(5, 10, 200), Some(195));
    let mut task = ReadTask::new();
    assert!(matches!(task.on_read(ReadEvent::Data(4), 4, 16), ReadStep::Again));
    assert_eq!(task.new_bytes, 4);
    assert!(matches!(task.on_read(ReadEvent::Data(20), 24, 16), ReadStep::Wait));
    assert!(matches!(task.on_read(ReadEvent::Pending, 24, 16), ReadStep::Wait));
    assert!(matches!(task.on_read(ReadEvent::Data(0), 24, 16), ReadStep::Close(None)));
    assert!(matches!(
        task.on_read(ReadEvent::Failed(io_error("x")), 24, 16),
        ReadStep::Close(Some(e)) if e.text == "x"
    ));
}

#[test]
fn a_flush_task_writes_everything() {
    assert!(FlushTask::new(Vec::new()).is_none());
    let mut task = FlushTask::new(b"0123456789".to_vec()).unwrap();
    assert!(matches!(task.on_write(WriteEvent::Wrote(4)), FlushStep::Again));
    assert!(matches!(
        task.on_write(WriteEvent::Pending),
        FlushStep::Pending(rest) if rest == b"456789"
    ));
    let mut task = FlushTask::new(b"0123456789".to_vec()).unwrap();
    assert!(matches!(task.on_write(WriteEvent::Wrote(10)), FlushStep::Flushed));
    let mut task = FlushTask::new(b"0123456789".to_vec()).unwrap();
    assert!(matches!(
        task.on_write(WriteEvent::Wrote(0)),
        FlushStep::Close(e) if e.kind == IoErrorKind::WriteZero
    ));
    let mut task = FlushTask::new(b"0".to_vec()).unwrap();
    assert!(matches!(
        task.on_write(WriteEvent::Failed(io_error("x"))),
        FlushStep::Close(e) if e.text == "x"
    ));
}

#[test]
fn a_write_task_shuts_down_in_order() {
    let mut task = WriteTask::new();
    assert!(matches!(task.on_ready(Some(Ok(())), Seconds(5)), WriteStep::Flush));
    assert!(matches!(task.on_ready(None, Seconds(5)), WriteStep::Wait));
    assert!(matches!(
        task.on_ready(Some(Err(WriteReadiness::Terminate)), Seconds(5)),
        WriteStep::Terminate
    ));
    let mut task = WriteTask::new();
    assert!(matches!(
        task.on_ready(Some(Err(WriteReadiness::Shutdown)), Seconds(5)),
        WriteStep::StartShutdown(Some(Seconds(5)))
    ));
}

#[test]
fn buffers_are_reached_through_closures() {
    let mut st = IoState::with_memory_pool(pool());
    let wr = st.write();
    let (n, wake) = wr.with_buf(&mut st, |buf| {
        buf.extend_from_slice(b"abc");
        buf.len()
    });
    assert_eq!(n, 3);
    assert!(wake.write);
    let (_, wake) = wr.with_buf(&mut st, |buf| buf.push(b'd'));
    assert!(!wake.write);
    assert_eq!(st.write_buf, b"abcd");
    let rd = st.read();
    rd.with_buf(&mut st, |buf| buf.extend_from_slice(b"in"));
    assert_eq!(st.read_buf, b"in");
}

#[test]
fn an_item_is_handed_on() {
    let mut st = IoState::with_memory_pool(pool());
    assert!(matches!(st.poll_next::<u8, ()>(Ok(Some(7))).0, Some(Ok(7))));
    assert!(matches!(st.poll_next::<u8, &str>(Err("bad")).0, Some(Err("bad"))));
    st.flags.rd_paused = true;
    let (item, wake) = st.poll_next::<u8, ()>(Ok(None));
    assert!(item.is_none() && wake.read);
    assert!(!st.flags.rd_paused);
}

#[test]
fn a_woken_write_task_goes_on() {
    let mut task = WriteTask::new();
    assert!(matches!(task.on_wake(), WriteStep::Ready));
    let _ = task.on_ready(Some(Err(WriteReadiness::Shutdown)), Seconds(0));
    assert!(matches!(task.on_wake(), WriteStep::Flush));
    assert!(matches!(task.on_flush(None), WriteStep::CheckDelay));
    assert!(matches!(task.on_delay(Some(false)), WriteStep::Wait));
    assert!(matches!(task.on_flush(Some(true)), WriteStep::ShutdownWrite));
    assert!(matches!(task.on_shutdown(Some(Ok(()))), WriteStep::Drain));
    assert!(matches!(task.on_drain(ReadEvent::Data(5)), WriteStep::Drain));
    assert!(matches!(task.on_drain(ReadEvent::Data(0)), WriteStep::Close(None)));
    assert!(matches!(task.on_delay(None), WriteStep::Close(None)));
}
