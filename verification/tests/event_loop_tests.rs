use std::collections::VecDeque;

use rloop::event_loop::{EventLoop, EventLoopRunState, PollPlan, RunControl, SigAction, READ_BUF_LEN, WAKE_BUF_LEN};
use rloop::interest::Interest;
use rloop::registry::{EventAction, IoEntry, RegistryOp};

fn both() -> Interest {
    Interest::readable().add(Interest::writable())
}

#[test]
fn new_loop_is_empty() {
    let l: EventLoop<u32> = EventLoop::new();
    assert_eq!(l.ready_len(), 0);
    assert_eq!(l.wake_fd_get(), -1);
    assert!(!l._get_closed());
    assert!(!l._get_stopping());
    assert_eq!(l._get_thread_id(), 0);
    assert_eq!(l.io_registered(3), None);
}

#[test]
fn ready_queue_runs_in_order_and_counts() {
    let mut l: EventLoop<u32> = EventLoop::new();
    assert!(!l.schedule0(1));
    assert!(!l.schedule1(2));
    assert!(!l.schedule(3));
    l.call_soon(4);
    assert!(!l.call_soon_threadsafe(5));
    assert!(!l.schedule_handle(6, None));
    assert_eq!(l.ready_len(), 6);
    let q = l.take_ready();
    assert_eq!(q.into_iter().collect::<Vec<_>>(), vec![1, 2, 3, 4, 5, 6]);
    assert_eq!(l.ready_len(), 0);
}

#[test]
fn scheduling_wakes_an_idle_loop() {
    let mut l: EventLoop<u32> = EventLoop::new();
    let plan = PollPlan { timeout: None, skip_poll: false, idle_swap: true };
    l.poll_begin(&plan);
    assert!(l.schedule0(1));
    assert!(l.schedule_later0(10, 2));
    assert!(l.call_soon_threadsafe(3));
    let mut state = EventLoopRunState::new();
    l.poll_end(&plan, &mut state, 77);
    assert_eq!(state.tick_last, 77);
    assert!(!l.schedule0(4));
}

#[test]
fn run_state_buffers() {
    let s = EventLoopRunState::new();
    assert_eq!(s.buf.len(), WAKE_BUF_LEN);
    assert_eq!(s.read_buf.len(), READ_BUF_LEN);
    assert!(s.read_buf.iter().all(|b| *b == 0));
    assert_eq!(s.tick_last, 0);
}

#[test]
fn timers_fire_by_due_time_keeping_schedule_order() {
    let mut l: EventLoop<u32> = EventLoop::new();
    l.schedule_later(300, 1);
    l.schedule_later1(100, 2);
    l.schedule_later0(200, 3);
    l.schedule_handle(4, Some(100));
    let when = l._call_later(150, 50, 5);
    assert_eq!(when, 200);
    let mut out = VecDeque::new();
    out.push_back(0);
    let k = l.push_due_timers(200, &mut out);
    assert_eq!(k, 4);
    assert_eq!(out.into_iter().collect::<Vec<_>>(), vec![0, 2, 4, 3, 5]);
    let mut out2 = VecDeque::new();
    assert_eq!(l.push_due_timers(299, &mut out2), 0);
    assert!(out2.is_empty());
    assert_eq!(l.push_due_timers(300, &mut out2), 1);
    assert_eq!(out2.into_iter().collect::<Vec<_>>(), vec![1]);
}

#[test]
fn poll_plan_with_ready_work() {
    let mut l: EventLoop<u32> = EventLoop::new();
    l.schedule0(1);
    let mut state = EventLoopRunState::new();
    state.tick_last = 1000;
    let p = l.poll_plan(&state, 1100);
    assert_eq!(p, PollPlan { timeout: Some(0), skip_poll: true, idle_swap: false });
    let p = l.poll_plan(&state, 1250);
    assert_eq!(p, PollPlan { timeout: Some(0), skip_poll: false, idle_swap: false });
}

#[test]
fn poll_plan_waits_for_the_earliest_timer() {
    let mut l: EventLoop<u32> = EventLoop::new();
    let state = EventLoopRunState::new();
    assert_eq!(l.poll_plan(&state, 5), PollPlan { timeout: None, skip_poll: false, idle_swap: true });
    l.schedule_later(1_000, 1);
    l.schedule_later(400, 2);
    assert_eq!(l.poll_plan(&state, 100), PollPlan { timeout: Some(300), skip_poll: false, idle_swap: true });
    // A timer already due leaves the poll without a timeout.
    assert_eq!(l.poll_plan(&state, 400), PollPlan { timeout: None, skip_poll: false, idle_swap: true });
    // The wait is truncated to 64 bits of microseconds.
    let mut l2: EventLoop<u32> = EventLoop::new();
    l2.schedule_later(1u128 << 64, 1);
    assert_eq!(l2.poll_plan(&state, 0), PollPlan { timeout: Some(0), skip_poll: false, idle_swap: false });
}

#[test]
fn reader_and_writer_round_trip() {
    let mut l: EventLoop<u32> = EventLoop::new();
    assert_eq!(l.add_reader(7), RegistryOp::Register(Interest::readable()));
    assert_eq!(l.io_registered(7), Some(IoEntry::Py(Interest::readable())));
    assert_eq!(l.add_writer(7), RegistryOp::Reregister(Interest::readable()));
    assert_eq!(l.io_registered(7), Some(IoEntry::Py(both())));
    assert_eq!(l.remove_reader(7), (true, RegistryOp::Reregister(Interest::writable())));
    assert_eq!(l.io_registered(7), Some(IoEntry::Py(Interest::writable())));
    assert_eq!(l.remove_writer(7), (true, RegistryOp::Deregister));
    assert_eq!(l.io_registered(7), None);
    assert_eq!(l.remove_reader(7), (false, RegistryOp::Keep));
    assert_eq!(l.add_writer(8), RegistryOp::Register(Interest::writable()));
    assert_eq!(l.remove_writer(8), (true, RegistryOp::Deregister));
    assert_eq!(l.io_registered(8), None);
}

#[test]
fn remove_reader_of_a_writer_only_keeps_the_writer() {
    let mut l: EventLoop<u32> = EventLoop::new();
    l.add_writer(9);
    assert_eq!(l.remove_reader(9), (true, RegistryOp::Reregister(Interest::writable())));
    assert_eq!(l.io_registered(9), Some(IoEntry::Py(Interest::writable())));
}

#[test]
fn stream_interest_round_trip() {
    let mut l: EventLoop<u32> = EventLoop::new();
    assert_eq!(l.tcp_stream_add(5, Interest::readable()), RegistryOp::Register(Interest::readable()));
    assert_eq!(l.tcp_stream_add(5, Interest::readable()), RegistryOp::Keep);
    assert_eq!(l.tcp_stream_add(5, Interest::writable()), RegistryOp::Reregister(both()));
    assert_eq!(l.tcp_stream_rem(5, Interest::writable()), RegistryOp::Reregister(Interest::readable()));
    assert_eq!(l.io_registered(5), Some(IoEntry::TcpStream(Interest::readable())));
    assert_eq!(l.tcp_stream_rem(5, Interest::readable()), RegistryOp::Deregister);
    assert_eq!(l.io_registered(5), None);
    assert_eq!(l.tcp_stream_rem(5, Interest::readable()), RegistryOp::Keep);
}

#[test]
fn dispatch_by_entry() {
    let mut l: EventLoop<u32> = EventLoop::new();
    l.add_reader(3);
    l.tcp_stream_add(4, both());
    l.tcp_listener_add(5);
    l.run_pre(6, 60);
    l._ssock_set(7);
    assert_eq!(l.dispatch(3, true, true), EventAction::RunPy { reader: true, writer: false });
    assert_eq!(l.dispatch(3, false, true), EventAction::RunPy { reader: false, writer: false });
    assert_eq!(l.dispatch(4, true, true), EventAction::TcpRead);
    assert_eq!(l.dispatch(4, false, true), EventAction::TcpWrite);
    assert_eq!(l.dispatch(4, false, false), EventAction::Nothing);
    assert_eq!(l.dispatch(5, true, false), EventAction::Accept);
    assert_eq!(l.dispatch(6, true, false), EventAction::DrainWake);
    assert_eq!(l.dispatch(7, true, false), EventAction::ReadSignals);
    assert_eq!(l.dispatch(8, true, false), EventAction::Nothing);
    assert_eq!(l.wake_fd_get(), 60);
    l.run_post(6);
    assert_eq!(l.wake_fd_get(), -1);
    assert_eq!(l.io_registered(6), None);
    assert_eq!(l._ssock_del(7), RegistryOp::Deregister);
    assert_eq!(l._ssock_del(7), RegistryOp::Keep);
}

#[test]
fn listener_streams_bookkeeping() {
    let mut l: EventLoop<u32> = EventLoop::new();
    assert_eq!(l.tcp_listener_add(10), RegistryOp::Register(Interest::readable()));
    assert!(l.has_listener(10));
    assert!(l.tcp_listener_streams(10).is_empty());
    assert_eq!(l.tcp_stream_accepted(10, 11), RegistryOp::Register(Interest::readable()));
    assert_eq!(l.tcp_stream_accepted(10, 12), RegistryOp::Register(Interest::readable()));
    assert_eq!(l.io_registered(11), Some(IoEntry::TcpStream(Interest::readable())));
    let mut s = l.tcp_listener_streams(10);
    s.sort();
    assert_eq!(s, vec![11, 12]);
    l.tcp_stream_close(11, Some(10));
    l.tcp_stream_close(12, None);
    assert_eq!(l.tcp_listener_streams(10), vec![12]);
    assert_eq!(l.tcp_listener_rem(10), (true, RegistryOp::Deregister));
    assert!(!l.has_listener(10));
    assert!(l.tcp_listener_streams(10).is_empty());
    assert_eq!(l.tcp_listener_rem(10), (false, RegistryOp::Keep));
}

#[test]
fn signals_and_run_control() {
    let mut l: EventLoop<u32> = EventLoop::new();
    let buf = [2u8, 15, 9];
    assert!(l.signals_to_handle(&buf, 2).is_empty());
    l._set_sig_listening(true);
    assert!(l._get_sig_listening());
    assert_eq!(l.signals_to_handle(&buf, 2), vec![2, 15]);
    assert!(l.signals_to_handle(&buf, 0).is_empty());
    assert_eq!(l.step_failed(true), RunControl::Stop);
    assert_eq!(l.sig_handle(false, false), SigAction::Ignore);
    assert_eq!(l.step_failed(true), RunControl::Stop);
    assert_eq!(l.sig_handle(true, true), SigAction::Remove);
    assert_eq!(l.sig_handle(true, false), SigAction::Schedule);
    assert_eq!(l.step_failed(true), RunControl::Continue);
    assert_eq!(l.step_failed(true), RunControl::Stop);
    assert_eq!(l.step_failed(false), RunControl::Fail);
}

#[test]
fn flags_round_trip() {
    let mut l: EventLoop<u32> = EventLoop::new();
    l._set_thread_id(42);
    l._set_closed(true);
    l._set_stopping(true);
    l._set_asyncgens_shutdown_called(true);
    l._set_executor_shutdown_called(true);
    assert_eq!(l._get_thread_id(), 42);
    assert!(l._get_closed());
    assert!(l._get_stopping());
    assert!(l.should_stop());
    assert!(l._get_asyncgens_shutdown_called());
    assert!(l._get_executor_shutdown_called());
}
