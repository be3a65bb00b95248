use rloop::interest::Interest;
use rloop::tcp::{
    read_into_step, read_loop_next, IoOutcome, LostCause, ReadIntoStep, ReadNext, TCPTransport, TransportAction,
    TransportError, WritePhase, WritePlan, WriteStep, DEFAULT_WATER_HI, DEFAULT_WATER_LO,
};

fn plain() -> TCPTransport {
    TCPTransport::new(9, Some(3), false, 1000)
}

/// Flushes the whole buffer with a writer that accepts at most `max` bytes
/// per call; returns the bytes written and what the flush reported.
fn flush_with(t: &mut TCPTransport, max: usize) -> (Vec<u8>, Option<usize>) {
    let mut sent = Vec::new();
    let (mut sess, mut step) = t.write_begin();
    loop {
        match step {
            WriteStep::Send(b) => {
                let n = b.len().min(max);
                sent.extend_from_slice(&b[..n]);
                step = t.write_sent(&mut sess, IoOutcome::Done(n));
            }
            WriteStep::Finish(r) => return (sent, r),
        }
    }
}

#[test]
fn new_transport_defaults() {
    let t = plain();
    assert_eq!(t.fd(), 9);
    assert_eq!(t.lfd(), Some(3));
    assert!(!t.proto_buffered());
    assert!(!t.is_closing());
    assert!(t.is_reading());
    assert!(!t.is_tls());
    assert!(t.can_write_eof());
    assert_eq!(t.get_write_buffer_size(), 0);
    assert_eq!(t.get_write_buffer_limits(), (DEFAULT_WATER_LO, DEFAULT_WATER_HI));
    assert_eq!(t.get_write_buffer_limits(), (16384, 65536));
    assert!(t.attach_calls_connection_made());
    assert_eq!(t.set_protocol(), Err(TransportError::ProtocolChange));
}

#[test]
fn write_plan_decisions() {
    let mut t = plain();
    assert_eq!(t.write_plan(0), Ok(WritePlan::Skip));
    assert_eq!(t.write_plan(5), Ok(WritePlan::Direct));
    t.write_buffered(b"abc");
    assert_eq!(t.write_plan(5), Ok(WritePlan::Buffer));
    t.write_eof();
    assert_eq!(t.write_plan(5), Err(TransportError::WriteAfterEof));
}

#[test]
fn direct_write_partial_buffers_the_rest() {
    let mut t = plain();
    let acts = t.write_direct_done(b"hello world", IoOutcome::Done(6));
    assert_eq!(acts, vec![TransportAction::AddInterest(Interest::writable())]);
    assert_eq!(t.get_write_buffer_size(), 5);
    let (sent, r) = flush_with(&mut t, 100);
    assert_eq!(sent, b"world".to_vec());
    assert_eq!(r, Some(5));
    assert_eq!(t.get_write_buffer_size(), 0);
}

#[test]
fn direct_write_complete_or_blocked() {
    let mut t = plain();
    assert!(t.write_direct_done(b"abc", IoOutcome::Done(3)).is_empty());
    assert_eq!(t.get_write_buffer_size(), 0);
    let acts = t.write_direct_done(b"abc", IoOutcome::WouldBlock);
    assert_eq!(acts, vec![TransportAction::AddInterest(Interest::writable())]);
    assert_eq!(t.get_write_buffer_size(), 3);
    let mut u = plain();
    u.write_direct_done(b"xy", IoOutcome::Interrupted);
    assert_eq!(u.get_write_buffer_size(), 2);
}

#[test]
fn direct_write_failure_closes() {
    let mut t = plain();
    let acts = t.write_direct_done(b"abc", IoOutcome::Failed);
    assert_eq!(
        acts,
        vec![
            TransportAction::RemoveInterest(Interest::readable()),
            TransportAction::ConnectionLost(LostCause::WriteError),
            TransportAction::StreamClose,
        ]
    );
    assert!(t.is_closing());
    assert_eq!(t.get_write_buffer_size(), 0);
}

#[test]
fn buffered_bytes_come_out_in_order_across_partial_writes() {
    let mut t = plain();
    t.write_buffered(b"abcd");
    t.write_buffered(b"ef");
    t.write_buffered(b"ghijk");
    assert_eq!(t.get_write_buffer_size(), 11);
    let mut all = Vec::new();
    let mut rounds = 0;
    while t.get_write_buffer_size() > 0 {
        let (sent, r) = flush_with(&mut t, 3);
        assert_eq!(r, Some(sent.len()));
        all.extend(sent);
        rounds += 1;
    }
    assert_eq!(all, b"abcdefghijk".to_vec());
    assert!(rounds > 1);
}

#[test]
fn flush_interrupted_retries_and_would_block_stops() {
    let mut t = plain();
    t.write_buffered(b"abc");
    let (mut sess, step) = t.write_begin();
    assert_eq!(sess.phase, WritePhase::Plain);
    assert_eq!(step, WriteStep::Send(b"abc".to_vec()));
    let step = t.write_sent(&mut sess, IoOutcome::Interrupted);
    assert_eq!(step, WriteStep::Send(b"abc".to_vec()));
    let step = t.write_sent(&mut sess, IoOutcome::WouldBlock);
    assert_eq!(step, WriteStep::Finish(Some(0)));
    assert_eq!(t.get_write_buffer_size(), 3);
}

#[test]
fn flush_failure_drops_the_buffer() {
    let mut t = plain();
    t.write_buffered(b"abc");
    t.write_buffered(b"def");
    let (mut sess, _) = t.write_begin();
    assert_eq!(t.write_sent(&mut sess, IoOutcome::Failed), WriteStep::Finish(None));
    assert_eq!(t.get_write_buffer_size(), 0);
}

#[test]
fn flush_of_empty_buffer() {
    let mut t = plain();
    let (_, step) = t.write_begin();
    assert_eq!(step, WriteStep::Finish(Some(0)));
}

#[test]
fn flow_control_pauses_and_resumes() {
    let mut t = plain();
    t.set_write_buffer_limits(Some(8), Some(2)).unwrap();
    let acts = t.write_buffered(b"12345");
    assert_eq!(acts, vec![TransportAction::AddInterest(Interest::writable())]);
    let acts = t.write_buffered(b"6789");
    assert_eq!(acts, vec![TransportAction::PauseWriting]);
    assert!(t.write_buffered(b"0").is_empty());
    let (sent, r) = flush_with(&mut t, 4);
    assert_eq!(sent, b"1234".to_vec());
    assert_eq!(r, Some(4));
    assert_eq!(t.get_write_buffer_size(), 6);
    assert!(t.write_buf_size_decr().is_empty());
    let (sent, r) = flush_with(&mut t, 4);
    assert_eq!(sent, b"567890".to_vec());
    assert_eq!(r, Some(6));
    assert_eq!(t.get_write_buffer_size(), 0);
    assert_eq!(t.write_buf_size_decr(), vec![TransportAction::ResumeWriting]);
    assert!(t.write_buf_size_decr().is_empty());
}

#[test]
fn write_buffer_limits() {
    let mut t = plain();
    assert!(t.set_write_buffer_limits(None, None).unwrap().is_empty());
    assert_eq!(t.get_write_buffer_limits(), (16384, 65536));
    t.set_write_buffer_limits(None, Some(100)).unwrap();
    assert_eq!(t.get_write_buffer_limits(), (100, 400));
    t.set_write_buffer_limits(Some(1000), None).unwrap();
    assert_eq!(t.get_write_buffer_limits(), (250, 1000));
    assert_eq!(t.set_write_buffer_limits(Some(10), Some(20)), Err(TransportError::BadWaterMarks));
    assert_eq!(t.get_write_buffer_limits(), (250, 1000));
    t.write_buffered(b"abcdef");
    assert_eq!(t.set_write_buffer_limits(Some(4), Some(1)), Ok(vec![TransportAction::PauseWriting]));
}

#[test]
fn pause_and_resume_reading() {
    let mut t = plain();
    assert_eq!(t.pause_reading(), vec![TransportAction::RemoveInterest(Interest::readable())]);
    assert!(!t.is_reading());
    assert!(t.pause_reading().is_empty());
    assert_eq!(t.resume_reading(), vec![TransportAction::AddInterest(Interest::readable())]);
    assert!(t.resume_reading().is_empty());
    assert!(t.is_reading());
    t.abort();
    assert!(t.pause_reading().is_empty());
    assert!(!t.is_reading());
}

#[test]
fn write_eof_shuts_down_when_nothing_buffered() {
    let mut t = plain();
    assert_eq!(t.write_eof(), vec![TransportAction::ShutdownWrite]);
    assert!(!t.can_write_eof());
    assert!(t.write_eof().is_empty());
    let mut u = plain();
    u.write_buffered(b"x");
    assert!(u.write_eof().is_empty());
    assert!(!u.can_write_eof());
}

#[test]
fn abort_reports_the_loss_each_time() {
    let mut t = plain();
    t.write_buffered(b"x");
    assert_eq!(
        t.abort(),
        vec![
            TransportAction::RemoveInterest(Interest::writable()),
            TransportAction::RemoveInterest(Interest::readable()),
            TransportAction::ConnectionLost(LostCause::Clean),
            TransportAction::StreamClose,
        ]
    );
    assert_eq!(
        t.abort(),
        vec![
            TransportAction::RemoveInterest(Interest::writable()),
            TransportAction::ConnectionLost(LostCause::Clean),
            TransportAction::StreamClose,
        ]
    );
}

#[test]
fn close_plain_transport() {
    let mut t = plain();
    assert_eq!(
        t.close(0),
        vec![
            TransportAction::RemoveInterest(Interest::readable()),
            TransportAction::RemoveInterest(Interest::writable()),
            TransportAction::ConnectionLost(LostCause::Clean),
            TransportAction::StreamClose,
        ]
    );
    assert!(t.is_closing());
    assert!(t.close(0).is_empty());
    let mut u = plain();
    u.write_buffered(b"pending");
    assert_eq!(u.close(0), vec![TransportAction::RemoveInterest(Interest::readable())]);
    assert_eq!(
        u.call_connection_lost(),
        vec![TransportAction::ConnectionLost(LostCause::Clean), TransportAction::StreamClose]
    );
}

#[test]
fn close_from_read_handle_waits_for_buffered_data() {
    let mut t = plain();
    t.write_buffered(b"abc");
    assert_eq!(t.close_from_read_handle(), (vec![], false));
    assert!(t.is_closing());
    assert_eq!(t.close_from_read_handle(), (vec![], false));
    let mut u = plain();
    assert_eq!(
        u.close_from_read_handle(),
        (
            vec![
                TransportAction::RemoveInterest(Interest::writable()),
                TransportAction::ConnectionLost(LostCause::Clean),
            ],
            true
        )
    );
}

#[test]
fn close_from_write_handle_outcomes() {
    let mut t = plain();
    assert_eq!(t.close_from_write_handle(false), (vec![], None));
    t.write_eof();
    assert_eq!(t.close_from_write_handle(false), (vec![], Some(false)));
    t.abort();
    assert_eq!(
        t.close_from_write_handle(true),
        (vec![TransportAction::ConnectionLost(LostCause::TransportFailed)], Some(true))
    );
    assert_eq!(
        t.close_from_write_handle(false),
        (vec![TransportAction::ConnectionLost(LostCause::Clean)], Some(true))
    );
}

#[test]
fn recv_eof_outcomes() {
    let mut t = plain();
    assert_eq!(t.recv_eof(true), (vec![], false));
    assert!(!t.is_closing());
    assert_eq!(
        t.recv_eof(false),
        (
            vec![
                TransportAction::RemoveInterest(Interest::writable()),
                TransportAction::ConnectionLost(LostCause::Clean),
            ],
            true
        )
    );
}

#[test]
fn write_handle_done_outcomes() {
    let mut t = plain();
    // Flushed everything on an open transport: stop polling for writes.
    assert_eq!(t.write_handle_done(Some(0), 0), vec![TransportAction::RemoveInterest(Interest::writable())]);
    // After a write EOF the writing half is shut down.
    t.write_eof();
    assert_eq!(
        t.write_handle_done(Some(0), 0),
        vec![TransportAction::RemoveInterest(Interest::writable()), TransportAction::ShutdownWrite]
    );
    // Data still buffered: nothing to do.
    let mut u = plain();
    u.write_buffered(b"abc");
    assert!(u.write_handle_done(Some(0), 0).is_empty());
    // A failed flush of a closing transport reports the failure and drops it.
    u.abort();
    assert_eq!(
        u.write_handle_done(None, 0),
        vec![TransportAction::ConnectionLost(LostCause::TransportFailed), TransportAction::StreamClose]
    );
    // A flush that emptied a closing transport's buffer drops it.
    let mut v = plain();
    v.write_buffered(b"abc");
    v.close(0);
    flush_with(&mut v, 10);
    assert_eq!(
        v.write_handle_done(Some(3), 0),
        vec![
            TransportAction::ConnectionLost(LostCause::Clean),
            TransportAction::RemoveInterest(Interest::writable()),
            TransportAction::StreamClose,
        ]
    );
    assert_eq!(v.write_handle_timeout(u128::MAX), None);
}

#[test]
fn read_steps() {
    assert_eq!(read_into_step(0, 10, IoOutcome::Done(4)), ReadIntoStep::More(4));
    assert_eq!(read_into_step(4, 10, IoOutcome::Done(0)), ReadIntoStep::Stop(true));
    assert_eq!(read_into_step(10, 10, IoOutcome::Done(0)), ReadIntoStep::Stop(false));
    assert_eq!(read_into_step(4, 10, IoOutcome::Interrupted), ReadIntoStep::More(4));
    assert_eq!(read_into_step(4, 10, IoOutcome::WouldBlock), ReadIntoStep::Stop(false));
    assert_eq!(read_into_step(4, 10, IoOutcome::Failed), ReadIntoStep::Stop(false));
    assert_eq!(read_loop_next(5, false), ReadNext::DeliverAndAgain);
    assert_eq!(read_loop_next(5, true), ReadNext::DeliverThenEof);
    assert_eq!(read_loop_next(0, true), ReadNext::Eof);
    assert_eq!(read_loop_next(0, false), ReadNext::Stop);
}
