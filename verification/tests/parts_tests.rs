use std::collections::VecDeque;
use std::sync::Arc;

use rloop::config::{parse_u16, ssl_close_timeout_from};
use rloop::handles::{CBHandle, CBHandleCallType, TimerHandle};
use rloop::interest::Interest;
use rloop::streams::ListenerStreams;
use rloop::tcp::{IoOutcome, TCPTransport, TlsSetupError, TransportAction, WriteStep};
use rloop::timers::{Timer, TimerQueue};
use rloop::udp::{recv_step, send_result, SendError, UDPTransport, UdpRecvStep};

#[test]
fn interest_union_and_difference() {
    let r = Interest::readable();
    let w = Interest::writable();
    assert!(r.is_readable() && !r.is_writable());
    assert!(!w.is_readable() && w.is_writable());
    let rw = r.add(w);
    assert!(rw.is_readable() && rw.is_writable());
    assert_eq!(rw, w.add(r));
    assert_eq!(r.add(r), r);
    assert_eq!(rw.remove(w), Some(r));
    assert_eq!(rw.remove(r), Some(w));
    assert_eq!(r.remove(r), None);
    assert_eq!(r.remove(w), Some(r));
}

#[test]
fn callback_handle_constructors_and_cancel() {
    let mut h = CBHandle::new(1u32, 2u32, 3u32);
    assert_eq!(h.callback, 1);
    assert_eq!(h.context, 3);
    assert!(matches!(h.cbtype, CBHandleCallType::Full(2)));
    assert!(!h.cancelled());
    h.cancel();
    assert!(h.cancelled());
    h.cancel();
    assert!(h.cancelled());
    let h0 = CBHandle::new0(7u32, 8u32);
    assert!(matches!(h0.cbtype, CBHandleCallType::NoArgs));
    let h1 = CBHandle::new1(7u32, 9u32, 8u32);
    assert!(matches!(h1.cbtype, CBHandleCallType::OneArg(9)));
}

#[test]
fn callback_handle_run_reports_errors() {
    let h = CBHandle::new0(1u32, 2u32);
    assert!(h.run::<i32>(Ok(()), "<cb>").is_none());
    let r = h.run(Err(42i32), "<function f at 0x1>");
    assert_eq!(r, Some((42, "Exception in callback <function f at 0x1>".to_string())));
}

#[test]
fn timer_handle_keeps_its_due_time() {
    let t = TimerHandle::new("h", 1_500_000u128);
    assert_eq!(t.when_micros(), 1_500_000);
    assert_eq!(t.handle, "h");
}

#[test]
fn timer_queue_pops_due_timers_in_order() {
    let mut q: TimerQueue<u32> = TimerQueue::new();
    assert_eq!(q.peek_when(), None);
    q.push(Timer { handle: 1, when: 30 });
    q.push(Timer { handle: 2, when: 10 });
    q.push(Timer { handle: 3, when: 20 });
    q.push(Timer { handle: 4, when: 10 });
    assert_eq!(q.len(), 4);
    assert_eq!(q.peek_when(), Some(10));
    let mut out = VecDeque::new();
    assert_eq!(q.pop_due(20, &mut out), 3);
    assert_eq!(out.iter().copied().collect::<Vec<_>>(), vec![2, 4, 3]);
    assert_eq!(q.len(), 1);
    assert_eq!(q.peek_when(), Some(30));
    assert_eq!(q.pop_due(29, &mut out), 0);
    assert_eq!(q.pop_due(30, &mut out), 1);
    assert_eq!(out.back(), Some(&1));
    assert_eq!(q.peek_when(), None);
}

#[test]
fn udp_transport_send_targets() {
    let t: UDPTransport<u32> = UDPTransport::new(5, Some(80));
    assert_eq!(t.fd(), 5);
    assert!(t.has_peer());
    assert!(!t.is_closing());
    assert_eq!(t.sendto_target::<&str>(None), Ok(80));
    assert_eq!(t.sendto_target::<&str>(Some(Ok(81))), Ok(81));
    assert_eq!(t.sendto_target(Some(Err("bad"))), Err(SendError::BadAddress("bad")));
    assert_eq!(t.set_protocol(), Err(()));
    let u: UDPTransport<u32> = UDPTransport::new(6, None);
    assert!(!u.has_peer());
    assert_eq!(u.sendto_target::<&str>(None), Err(SendError::NoRemoteAddress));
}

#[test]
fn udp_transport_close_once() {
    let mut t: UDPTransport<u32> = UDPTransport::new(5, None);
    assert!(t.close());
    assert!(t.is_closing());
    assert!(!t.close());
    assert!(!t.abort());
    assert_eq!(t.sendto_target::<&str>(Some(Ok(1))), Err(SendError::Closing));
    let mut u: UDPTransport<u32> = UDPTransport::new(7, None);
    assert!(u.abort());
    assert!(u.is_closing());
}

#[test]
fn udp_send_and_receive_outcomes() {
    assert_eq!(send_result::<()>(IoOutcome::Done(3)), Ok(()));
    assert_eq!(send_result::<()>(IoOutcome::WouldBlock), Err(SendError::WouldBlock));
    assert_eq!(send_result::<()>(IoOutcome::Failed), Err(SendError::Os));
    assert_eq!(send_result::<()>(IoOutcome::Interrupted), Err(SendError::Os));
    assert_eq!(recv_step(IoOutcome::Done(0)), UdpRecvStep::Deliver);
    assert_eq!(recv_step(IoOutcome::WouldBlock), UdpRecvStep::Stop);
    assert_eq!(recv_step(IoOutcome::Interrupted), UdpRecvStep::Again);
    assert_eq!(recv_step(IoOutcome::Failed), UdpRecvStep::ErrorAndClose);
}

#[test]
fn parse_u16_like_std() {
    for s in ["0", "1000", "+5", "65535", "007", "65536", "", "+", "-1", "12a", " 1", "99999999999", "+-1"] {
        assert_eq!(parse_u16(s), s.parse::<u16>().ok(), "input {:?}", s);
    }
    assert_eq!(parse_u16("1000"), Some(1000));
    assert_eq!(parse_u16("65536"), None);
}

#[test]
fn ssl_close_timeout_setting() {
    assert_eq!(ssl_close_timeout_from(None), 1000);
    assert_eq!(ssl_close_timeout_from(Some("250")), 250);
    assert_eq!(ssl_close_timeout_from(Some("abc")), 1000);
    assert_eq!(ssl_close_timeout_from(Some("70000")), 1000);
}

#[test]
fn listener_streams_membership() {
    let mut ls = ListenerStreams::new();
    assert!(!ls.has_listener(3));
    assert!(ls.streams_of(3).is_empty());
    ls.add_listener(3);
    assert!(ls.has_listener(3));
    ls.stream_accepted(3, 10);
    ls.stream_accepted(3, 11);
    ls.stream_accepted(3, 10);
    let mut s = ls.streams_of(3);
    s.sort();
    assert_eq!(s, vec![10, 11]);
    ls.stream_closed(Some(3), 10);
    ls.stream_closed(None, 11);
    ls.stream_closed(Some(4), 11);
    assert_eq!(ls.streams_of(3), vec![11]);
    ls.remove_listener(3);
    assert!(!ls.has_listener(3));
}

fn client_config() -> rustls::ClientConfig {
    let provider = Arc::new(rustls::crypto::ring::default_provider());
    rustls::ClientConfig::builder_with_provider(provider)
        .with_safe_default_protocol_versions()
        .unwrap()
        .with_root_certificates(rustls::RootCertStore::empty())
        .with_no_client_auth()
}

#[test]
fn tls_client_setup_and_hello() {
    let mut t = TCPTransport::new(9, None, false, 1000);
    assert_eq!(
        t.initialize_tls_client(client_config(), "not a name!".to_string()),
        Err(TlsSetupError::BadServerName)
    );
    assert!(!t.is_tls());
    let acts = t.initialize_tls_client(client_config(), "example.com".to_string()).unwrap();
    assert_eq!(acts, vec![TransportAction::AddInterest(Interest::writable())]);
    assert!(t.is_tls());
    assert!(!t.handshake_complete());
    assert!(!t.attach_calls_connection_made());
    let (_, step) = t.write_begin();
    match step {
        WriteStep::Send(hello) => {
            assert!(!hello.is_empty());
            assert_eq!(hello[0], 0x16);
        }
        other => panic!("expected the client hello, got {:?}", other),
    }
}

#[test]
fn tls_garbage_ends_the_stream() {
    let mut t = TCPTransport::new(9, None, false, 1000);
    t.initialize_tls_client(client_config(), "example.com".to_string()).unwrap();
    let empty = t.tls_recv(b"");
    assert!(empty.data.is_none());
    assert!(!empty.eof);
    let r = t.tls_recv(b"\x17\x03\x03\x00\x05hello, this is not tls at all");
    assert!(r.data.is_none());
    assert!(r.eof);
    assert!(!t.handshake_complete());
}

#[test]
fn tls_client_accepts_ip_addresses_as_names() {
    let mut t = TCPTransport::new(9, None, false, 1000);
    assert!(t.initialize_tls_client(client_config(), "127.0.0.1".to_string()).is_ok());
    assert!(t.is_tls());
    let mut u = TCPTransport::new(10, None, false, 1000);
    assert_eq!(u.initialize_tls_client(client_config(), "".to_string()), Err(TlsSetupError::BadServerName));
    assert!(!u.is_tls());
}

use rloop::address::address_text;
use rloop::event_loop::{EventLoop, EventLoopRunState};
use rloop::tcp::{tls_client_start_actions, tls_decide, tls_reads_plaintext, TlsIngest, WritePhase};

#[test]
fn tls_decisions_on_failure_and_close_alert() {
    let d = tls_decide(false, false, false, TlsIngest::Failed, b"x".to_vec());
    assert_eq!((d.data, d.eof, d.actions.len()), (None, true, 0));
    assert!(!d.handshake_complete && !d.connection_made_called && !d.close_received && !d.answer_close);
    let d = tls_decide(true, true, false, TlsIngest::PeerClosed, Vec::new());
    assert_eq!((d.data, d.eof, d.actions.len()), (None, true, 0));
    assert!(d.handshake_complete && d.connection_made_called && d.close_received && d.answer_close);
}

#[test]
fn tls_decisions_when_the_handshake_completes() {
    let ingest = TlsIngest::Processed { handshaking: false, wants_write: true };
    assert!(tls_reads_plaintext(false, ingest));
    let d = tls_decide(false, false, false, ingest, b"hello".to_vec());
    assert_eq!(d.data, Some(b"hello".to_vec()));
    assert!(!d.eof);
    assert_eq!(
        d.actions,
        vec![TransportAction::ScheduleConnectionMade, TransportAction::AddInterest(Interest::writable())]
    );
    assert!(d.handshake_complete && d.connection_made_called);
    let d = tls_decide(false, true, false, ingest, Vec::new());
    assert_eq!(d.actions, vec![TransportAction::AddInterest(Interest::writable())]);
    assert_eq!((d.data, d.eof), (None, false));
}

#[test]
fn tls_decisions_while_handshaking() {
    let ingest = TlsIngest::Processed { handshaking: true, wants_write: false };
    assert!(!tls_reads_plaintext(false, ingest));
    assert!(tls_reads_plaintext(true, ingest));
    let d = tls_decide(false, false, true, ingest, b"ignored".to_vec());
    assert_eq!((d.data, d.eof), (None, true));
    assert!(d.actions.is_empty());
    assert!(!d.handshake_complete && !d.connection_made_called);
}

#[test]
fn tls_client_start_asks_for_write_interest_when_wanted() {
    assert_eq!(tls_client_start_actions(true), vec![TransportAction::AddInterest(Interest::writable())]);
    assert!(tls_client_start_actions(false).is_empty());
}

#[test]
fn tls_flush_before_the_handshake_keeps_the_buffer() {
    let mut t = TCPTransport::new(9, None, false, 1000);
    t.initialize_tls_client(client_config(), "example.com".to_string()).unwrap();
    t.write_buffered(b"app data");
    let (mut sess, step) = t.write_begin();
    assert_eq!(sess.phase, WritePhase::TlsHandshake);
    let n = match step {
        WriteStep::Send(b) => b.len(),
        other => panic!("expected the client hello, got {:?}", other),
    };
    assert_eq!(t.write_sent(&mut sess, IoOutcome::Done(n)), WriteStep::Finish(Some(0)));
    assert_eq!(t.get_write_buffer_size(), 8);
}

#[test]
fn new_loop_flags_and_idle_plan() {
    let l: EventLoop<u32> = EventLoop::new();
    assert!(!l._get_closed());
    assert!(!l._get_stopping());
    assert!(!l._get_asyncgens_shutdown_called());
    assert!(!l._get_executor_shutdown_called());
    assert!(!l._get_sig_listening());
    assert_eq!(l._get_thread_id(), 0);
    let mut state = EventLoopRunState::new();
    state.tick_last = 500;
    let plan = l.poll_plan(&state, 100);
    assert_eq!(plan.timeout, None);
    assert!(!plan.skip_poll);
}

#[test]
fn peer_address_text() {
    assert_eq!(address_text("127.0.0.1", 8080), "127.0.0.1:8080");
    assert_eq!(address_text("::1", 0), "::1:0");
    assert_eq!(address_text("h", 65535), "h:65535");
}

#[test]
fn step_jobs_run_ready_then_io_then_due_timers() {
    let mut l: EventLoop<u32> = EventLoop::new();
    l.schedule_later0(30, 7);
    l.schedule_later0(10, 5);
    l.schedule_later0(99, 9);
    l.schedule0(1);
    let ready = l.take_ready();
    let io: VecDeque<u32> = VecDeque::from(vec![2, 3]);
    let q = l.step_jobs(ready, io, 50);
    assert_eq!(q.into_iter().collect::<Vec<_>>(), vec![1, 2, 3, 5, 7]);
    assert_eq!(l.ready_len(), 0);
    let rest = l.step_jobs(VecDeque::new(), VecDeque::new(), 100);
    assert_eq!(rest.into_iter().collect::<Vec<_>>(), vec![9]);
}

#[test]
fn tls_close_without_buffered_data_sends_the_alert() {
    let mut t = TCPTransport::new(9, None, false, 1000);
    t.initialize_tls_client(client_config(), "example.com".to_string()).unwrap();
    let acts = t.close(5);
    assert!(t.is_closing());
    assert_eq!(acts.last(), Some(&TransportAction::RemoveInterest(Interest::writable())));
    assert!(t.close(6).is_empty());
}
