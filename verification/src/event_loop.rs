use vstd::prelude::*;
use std::collections::VecDeque;
use crate::interest::{Interest, read_only};
use crate::registry::{
    IoRegistry, IoEntry, RegistryOp, EventAction, entry_at, event_action, listener_rem_allowed,
    stream_add_allowed, stream_rem_allowed, add_reader_allowed, add_writer_allowed,
    remove_reader_allowed, remove_writer_allowed, interests_valid,
};
use crate::streams::ListenerStreams;
use crate::timers::{Timer, TimerQueue, handles_of, inserted_in_order, sorted_by_when, is_least_due};

verus! {

/// Length of the scratch buffer for the wake-up and signal sockets.
pub const WAKE_BUF_LEN: usize = 4096;

/// Length of the buffer stream reads go into.
pub const READ_BUF_LEN: usize = 262144;

/// While handles are ready, polling is skipped when the last poll is more
/// recent than this many microseconds.
pub const POLL_SKIP_US: u128 = 250;

/// The state of one run of the loop that the loop's steps share.
pub struct EventLoopRunState {
    pub buf: Vec<u8>,
    pub read_buf: Vec<u8>,
    pub tick_last: u128,
}

/// A buffer of `n` zero bytes.
fn zeroed(n: usize) -> (v: Vec<u8>)
    ensures
        v@ == Seq::new(n as nat, |_i: int| 0u8),
{
    let mut v: Vec<u8> = Vec::with_capacity(n);
    let mut i: usize = 0;
    while i < n
        invariant
            i <= n,
            v@ == Seq::new(i as nat, |_i: int| 0u8),
        decreases n - i,
    {
        v.push(0u8);
        i = i + 1;
    }
    v
}

impl EventLoopRunState {
    /// Fresh buffers, and no poll yet.
    pub fn new() -> (s: Self)
        ensures
            s.buf@ == Seq::new(WAKE_BUF_LEN as nat, |_i: int| 0u8),
            s.read_buf@ == Seq::new(READ_BUF_LEN as nat, |_i: int| 0u8),
            s.tick_last == 0,
    {
        EventLoopRunState { buf: zeroed(WAKE_BUF_LEN), read_buf: zeroed(READ_BUF_LEN), tick_last: 0 }
    }
}

/// How one step of the loop polls.
#[derive(Clone, Copy, Debug, PartialEq, Eq, Structural)]
pub struct PollPlan {
    /// The poll timeout in microseconds; `None` waits without limit.
    pub timeout: Option<u64>,
    /// Skip polling in this step.
    pub skip_poll: bool,
    /// Mark the loop idle for the duration of the poll.
    pub idle_swap: bool,
}

/// The plan of a step, given the number of ready handles, the due time of the
/// earliest timer, the current loop time and the time of the last poll. With
/// ready work the poll does not wait, and is skipped within the skip window;
/// otherwise it waits until the earliest timer, truncated to 64 bits of
/// microseconds, and without limit when no timer is pending or the earliest
/// one is already due.
pub open spec fn poll_plan_spec(ready: nat, next_timer: Option<u128>, tick: u128, tick_last: u128) -> PollPlan {
    if ready > 0 {
        PollPlan { timeout: Some(0u64), skip_poll: tick - tick_last < POLL_SKIP_US, idle_swap: false }
    } else {
        let timeout = match next_timer {
            Some(w) => if w > tick {
                Some((w - tick) as u64)
            } else {
                None
            },
            None => None,
        };
        PollPlan { timeout, skip_poll: false, idle_swap: timeout != Some(0u64) }
    }
}

/// What the run loop does after a step that failed.
#[derive(Clone, Copy, Debug, PartialEq, Eq, Structural)]
pub enum RunControl {
    /// Go on with the next step.
    Continue,
    /// Leave the loop normally.
    Stop,
    /// Leave the loop with the step's error.
    Fail,
}

/// What happens to a signal number read from the signal socket.
#[derive(Clone, Copy, Debug, PartialEq, Eq, Structural)]
pub enum SigAction {
    /// No handler is set for it.
    Ignore,
    /// Its handler was cancelled: drop the handler.
    Remove,
    /// Queue its handler.
    Schedule,
}

/// The loop's flags and settings, as the loop's contracts speak of them.
pub struct LoopFlags {
    pub idle: bool,
    pub closed: bool,
    pub stopping: bool,
    pub sig_listening: bool,
    pub sig_loop_handled: bool,
    pub shutdown_called_asyncgens: bool,
    pub shutdown_called_executor: bool,
    pub thread_id: i64,
    pub wsock_fd: i32,
}

/// The loop's queues and tables. `H` is the type of a runnable handle.
pub struct EventLoop<H> {
    idle: bool,
    handles_io: IoRegistry,
    handles_ready: VecDeque<H>,
    handles_sched: TimerQueue<H>,
    counter_ready: usize,
    wsock_fd: i32,
    closed: bool,
    sig_listening: bool,
    sig_loop_handled: bool,
    stopping: bool,
    shutdown_called_asyncgens: bool,
    shutdown_called_executor: bool,
    tcp_lstreams: ListenerStreams,
    thread_id: i64,
}

impl<H> EventLoop<H> {
    /// The ready queue, in the order its handles run.
    pub closed spec fn ready(&self) -> Seq<H> {
        self.handles_ready@
    }

    /// The delayed handles, in the order in which they fall due.
    pub closed spec fn timers(&self) -> Seq<Timer<H>> {
        self.handles_sched.view()
    }

    /// The polled descriptors and what each is registered for.
    pub closed spec fn io(&self) -> Map<usize, IoEntry> {
        self.handles_io.view()
    }

    /// The streams accepted on each listener.
    pub closed spec fn lstreams(&self) -> Map<usize, Set<usize>> {
        self.tcp_lstreams.view()
    }

    /// The count of ready handles that the loop keeps.
    pub closed spec fn ready_count(&self) -> nat {
        self.counter_ready as nat
    }

    /// The loop's flags and settings.
    pub closed spec fn flags(&self) -> LoopFlags {
        LoopFlags {
            idle: self.idle,
            closed: self.closed,
            stopping: self.stopping,
            sig_listening: self.sig_listening,
            sig_loop_handled: self.sig_loop_handled,
            shutdown_called_asyncgens: self.shutdown_called_asyncgens,
            shutdown_called_executor: self.shutdown_called_executor,
            thread_id: self.thread_id,
            wsock_fd: self.wsock_fd,
        }
    }

    /// Queues and tables are those of `other`.
    pub open spec fn same_tables(&self, other: &Self) -> bool {
        &&& self.ready() == other.ready()
        &&& self.timers() == other.timers()
        &&& self.io() == other.io()
        &&& self.lstreams() == other.lstreams()
    }

    pub closed spec fn is_idle(&self) -> bool {
        self.idle
    }

    pub closed spec fn wake_fd(&self) -> i32 {
        self.wsock_fd
    }

    pub closed spec fn loop_handled_signal(&self) -> bool {
        self.sig_loop_handled
    }

    pub closed spec fn listening_signals(&self) -> bool {
        self.sig_listening
    }

    pub closed spec fn is_stopping(&self) -> bool {
        self.stopping
    }

    /// The loop's invariant: the ready count is the length of the ready
    /// queue, timers are ordered by due time, and interests are valid.
    pub closed spec fn wf(&self) -> bool {
        &&& self.counter_ready as nat == self.handles_ready@.len()
        &&& self.handles_sched.wf()
        &&& self.handles_io.wf()
    }

    /// A loop with empty queues and tables, not idle, not closed, not
    /// stopping, with no wake-up socket.
    pub fn new() -> (l: Self)
        ensures
            l.wf(),
            l.ready() == Seq::<H>::empty(),
            l.timers() == Seq::<Timer<H>>::empty(),
            l.io() == Map::<usize, IoEntry>::empty(),
            l.lstreams() == Map::<usize, Set<usize>>::empty(),
            l.flags() == (LoopFlags {
                idle: false,
                closed: false,
                stopping: false,
                sig_listening: false,
                sig_loop_handled: false,
                shutdown_called_asyncgens: false,
                shutdown_called_executor: false,
                thread_id: 0,
                wsock_fd: -1i32,
            }),
            !l.is_idle(),
            !l.is_stopping(),
            !l.listening_signals(),
            !l.loop_handled_signal(),
            l.wake_fd() == -1,
    {
        EventLoop {
            idle: false,
            handles_io: IoRegistry::new(),
            handles_ready: VecDeque::with_capacity(128),
            handles_sched: TimerQueue::new(),
            counter_ready: 0,
            wsock_fd: -1,
            closed: false,
            sig_listening: false,
            sig_loop_handled: false,
            stopping: false,
            shutdown_called_asyncgens: false,
            shutdown_called_executor: false,
            tcp_lstreams: ListenerStreams::new(),
            thread_id: 0,
        }
    }

    /// The number of ready handles.
    pub fn ready_len(&self) -> (n: usize)
        requires
            self.wf(),
        ensures
            n == self.ready().len(),
    {
        self.counter_ready
    }

    /// Records the wake-up socket pair once its reading end is registered.
    pub fn run_pre(&mut self, fd_r: usize, fd_w: i32)
        requires
            old(self).wf(),
        ensures
            final(self).wf(),
            final(self).io() == old(self).io().insert(fd_r, IoEntry::Internal),
            final(self).wake_fd() == fd_w,
            final(self).ready() == old(self).ready(),
            final(self).timers() == old(self).timers(),
    {
        self.handles_io.internal_add(fd_r);
        self.wsock_fd = fd_w;
    }

    /// Forgets the wake-up socket pair at the end of a run.
    pub fn run_post(&mut self, fd_r: usize)
        requires
            old(self).wf(),
        ensures
            final(self).wf(),
            final(self).io() == old(self).io().remove(fd_r),
            final(self).wake_fd() == -1,
            final(self).ready() == old(self).ready(),
            final(self).timers() == old(self).timers(),
    {
        self.wsock_fd = -1;
        self.handles_io.remove(fd_r);
    }

    /// The descriptor to write to for waking the loop up; -1 when none.
    pub fn wake_fd_get(&self) -> (fd: i32)
        ensures
            fd == self.wake_fd(),
    {
        self.wsock_fd
    }

    /// How the next step polls, at loop time `tick`.
    pub fn poll_plan(&self, state: &EventLoopRunState, tick: u128) -> (p: PollPlan)
        requires
            self.wf(),
            self.ready().len() > 0 ==> state.tick_last <= tick,
        ensures
            sorted_by_when(self.timers()),
            self.timers().len() == 0 ==> p == poll_plan_spec(self.ready().len(), None, tick, state.tick_last),
            forall|w: u128| #[trigger] is_least_due(self.timers(), w) ==> p == poll_plan_spec(
                self.ready().len(),
                Some(w),
                tick,
                state.tick_last,
            ),
            p == poll_plan_spec(
                self.ready().len(),
                if self.timers().len() > 0 {
                    Some(self.timers()[0].when)
                } else {
                    None
                },
                tick,
                state.tick_last,
            ),
    {
        proof {
            self.lemma_timers_sorted();
            assert forall|w: u128| #[trigger] is_least_due(self.timers(), w) implies w == self.timers()[0].when by {
                let i = choose|i: int| 0 <= i < self.timers().len() && #[trigger] self.timers()[i].when == w;
                assert(self.timers()[0].when <= self.timers()[i].when);
                assert(w <= self.timers()[0].when);
            }
        }
        if self.counter_ready > 0 {
            PollPlan { timeout: Some(0), skip_poll: tick - state.tick_last < POLL_SKIP_US, idle_swap: false }
        } else {
            let timeout = match self.handles_sched.peek_when() {
                Some(w) => if w > tick {
                    Some((w - tick) as u64)
                } else {
                    None
                },
                None => None,
            };
            let idle_swap = match timeout {
                Some(t) => t != 0,
                None => true,
            };
            PollPlan { timeout, skip_poll: false, idle_swap }
        }
    }

    /// Marks the loop idle for a poll that the plan asks to mark.
    pub fn poll_begin(&mut self, plan: &PollPlan)
        requires
            old(self).wf(),
        ensures
            final(self).wf(),
            plan.idle_swap ==> final(self).is_idle(),
            !plan.idle_swap ==> final(self).is_idle() == old(self).is_idle(),
            final(self).ready() == old(self).ready(),
            final(self).timers() == old(self).timers(),
            final(self).io() == old(self).io(),
    {
        if plan.idle_swap {
            self.idle = true;
        }
    }

    /// Clears the idle mark after the poll and records the time it ended.
    pub fn poll_end(&mut self, plan: &PollPlan, state: &mut EventLoopRunState, now: u128)
        requires
            old(self).wf(),
        ensures
            final(self).wf(),
            plan.idle_swap ==> !final(self).is_idle(),
            !plan.idle_swap ==> final(self).is_idle() == old(self).is_idle(),
            final(state).tick_last == now,
            final(state).buf == old(state).buf,
            final(state).read_buf == old(state).read_buf,
            final(self).ready() == old(self).ready(),
            final(self).timers() == old(self).timers(),
            final(self).io() == old(self).io(),
    {
        if plan.idle_swap {
            self.idle = false;
        }
        state.tick_last = now;
    }

    /// Takes every ready handle, in order, leaving the ready queue empty.
    pub fn take_ready(&mut self) -> (q: VecDeque<H>)
        requires
            old(self).wf(),
        ensures
            final(self).wf(),
            q@ == old(self).ready(),
            final(self).ready() == Seq::<H>::empty(),
            final(self).timers() == old(self).timers(),
            final(self).io() == old(self).io(),
            final(self).is_idle() == old(self).is_idle(),
    {
        let mut q: VecDeque<H> = VecDeque::with_capacity(128);
        std::mem::swap(&mut q, &mut self.handles_ready);
        self.counter_ready = self.counter_ready - q.len();
        q
    }

    /// What to do for a readiness event on a descriptor.
    pub fn dispatch(&self, fd: usize, readable: bool, writable: bool) -> (a: EventAction)
        ensures
            a == event_action(entry_at(self.io(), fd), readable, writable),
            entry_at(self.io(), fd) matches Some(IoEntry::Py(i)) ==> a == (EventAction::RunPy {
                reader: i.readable && readable,
                writer: i.writable && writable,
            }),
    {
        self.handles_io.dispatch(fd, readable, writable)
    }

    /// Moves every timer due at `tick` to the back of `out`, earliest first.
    pub fn push_due_timers(&mut self, tick: u128, out: &mut VecDeque<H>) -> (k: usize)
        requires
            old(self).wf(),
        ensures
            final(self).wf(),
            sorted_by_when(old(self).timers()),
            sorted_by_when(final(self).timers()),
            k <= old(self).timers().len(),
            forall|i: int| 0 <= i < k ==> #[trigger] old(self).timers()[i].when <= tick,
            final(self).timers() == old(self).timers().skip(k as int),
            forall|i: int| 0 <= i < final(self).timers().len() ==> #[trigger] final(self).timers()[i].when > tick,
            final(out)@ == old(out)@ + handles_of(old(self).timers().take(k as int)),
            final(self).ready() == old(self).ready(),
            final(self).io() == old(self).io(),
    {
        proof { self.lemma_timers_sorted(); }
        let k = self.handles_sched.pop_due(tick, out);
        proof { self.lemma_timers_sorted(); }
        k
    }

    /// Every interest in the loop's table is valid.
    pub proof fn lemma_interests_valid(&self)
        requires
            self.wf(),
        ensures
            interests_valid(self.io()),
    {
    }

    /// The jobs of one step, in the order in which they run: the handles
    /// that were ready when the step took them (`ready`, from `take_ready`),
    /// then those that the I/O events asked for, then the handles of every
    /// timer due at `tick`, earliest first; those timers leave the queue.
    pub fn step_jobs(&mut self, ready: VecDeque<H>, io_jobs: VecDeque<H>, tick: u128) -> (q: VecDeque<H>)
        requires
            old(self).wf(),
        ensures
            final(self).wf(),
            sorted_by_when(old(self).timers()),
            ({
                let k = old(self).timers().len() - final(self).timers().len();
                &&& 0 <= k
                &&& final(self).timers() == old(self).timers().skip(k)
                &&& forall|i: int| 0 <= i < k ==> #[trigger] old(self).timers()[i].when <= tick
                &&& q@ == ready@ + io_jobs@ + handles_of(old(self).timers().take(k))
            }),
            forall|i: int| 0 <= i < final(self).timers().len() ==> #[trigger] final(self).timers()[i].when > tick,
            final(self).ready() == old(self).ready(),
            final(self).io() == old(self).io(),
    {
        let mut q = ready;
        let mut io = io_jobs;
        let ghost r0 = q@;
        let ghost i0 = io@;
        q.append(&mut io);
        assert(q@ == r0 + i0);
        self.push_due_timers(tick, &mut q);
        q
    }

    /// The loop's timers are held in order of due time.
    pub proof fn lemma_timers_sorted(&self)
        requires
            self.wf(),
        ensures
            sorted_by_when(self.timers()),
    {
        self.handles_sched.lemma_sorted();
    }

    /// Appends a handle to the ready queue; returns whether the loop must be
    /// woken up because it is idle in a poll.
    fn push_ready(&mut self, handle: H) -> (wake: bool)
        requires
            old(self).wf(),
            old(self).ready().len() < usize::MAX,
        ensures
            final(self).wf(),
            final(self).ready() == old(self).ready().push(handle),
            final(self).timers() == old(self).timers(),
            final(self).io() == old(self).io(),
            final(self).is_idle() == old(self).is_idle(),
            wake == old(self).is_idle(),
    {
        self.handles_ready.push_back(handle);
        self.counter_ready = self.counter_ready + 1;
        self.idle
    }

    /// Adds a delayed handle; returns whether the loop must be woken up.
    fn push_timer(&mut self, when: u128, handle: H) -> (wake: bool)
        requires
            old(self).wf(),
        ensures
            final(self).wf(),
            exists|p: int| inserted_in_order(old(self).timers(), final(self).timers(), (Timer { handle, when }), p),
            final(self).ready() == old(self).ready(),
            final(self).io() == old(self).io(),
            final(self).is_idle() == old(self).is_idle(),
            wake == old(self).is_idle(),
    {
        let ghost t = Timer { handle, when };
        let ghost before = self.handles_sched.view();
        self.handles_sched.push(Timer { handle, when });
        proof {
            let p = choose|p: int| inserted_in_order(before, self.handles_sched.view(), t, p);
            assert(inserted_in_order(old(self).timers(), self.timers(), t, p));
        }
        self.idle
    }

    /// Queues a handle that calls its callback with no argument; returns
    /// whether the loop must be woken up.
    pub fn schedule0(&mut self, handle: H) -> (wake: bool)
        requires
            old(self).wf(),
            old(self).ready().len() < usize::MAX,
        ensures
            final(self).wf(),
            final(self).ready() == old(self).ready().push(handle),
            final(self).timers() == old(self).timers(),
            final(self).io() == old(self).io(),
            wake == old(self).is_idle(),
    {
        self.push_ready(handle)
    }

    /// Queues a handle that calls its callback with one argument; returns
    /// whether the loop must be woken up.
    pub fn schedule1(&mut self, handle: H) -> (wake: bool)
        requires
            old(self).wf(),
            old(self).ready().len() < usize::MAX,
        ensures
            final(self).wf(),
            final(self).ready() == old(self).ready().push(handle),
            final(self).timers() == old(self).timers(),
            final(self).io() == old(self).io(),
            wake == old(self).is_idle(),
    {
        self.push_ready(handle)
    }

    /// Queues a handle that calls its callback with an argument tuple;
    /// returns whether the loop must be woken up.
    pub fn schedule(&mut self, handle: H) -> (wake: bool)
        requires
            old(self).wf(),
            old(self).ready().len() < usize::MAX,
        ensures
            final(self).wf(),
            final(self).ready() == old(self).ready().push(handle),
            final(self).timers() == old(self).timers(),
            final(self).io() == old(self).io(),
            wake == old(self).is_idle(),
    {
        self.push_ready(handle)
    }

    /// Adds a handle, due at `when`, that calls its callback with no
    /// argument; returns whether the loop must be woken up.
    pub fn schedule_later0(&mut self, when: u128, handle: H) -> (wake: bool)
        requires
            old(self).wf(),
        ensures
            final(self).wf(),
            exists|p: int| inserted_in_order(old(self).timers(), final(self).timers(), (Timer { handle, when }), p),
            final(self).ready() == old(self).ready(),
            final(self).io() == old(self).io(),
            wake == old(self).is_idle(),
    {
        self.push_timer(when, handle)
    }

    /// Adds a handle, due at `when`, that calls its callback with one
    /// argument; returns whether the loop must be woken up.
    pub fn schedule_later1(&mut self, when: u128, handle: H) -> (wake: bool)
        requires
            old(self).wf(),
        ensures
            final(self).wf(),
            exists|p: int| inserted_in_order(old(self).timers(), final(self).timers(), (Timer { handle, when }), p),
            final(self).ready() == old(self).ready(),
            final(self).io() == old(self).io(),
            wake == old(self).is_idle(),
    {
        self.push_timer(when, handle)
    }

    /// Adds a handle, due at `when`, that calls its callback with an
    /// argument tuple; returns whether the loop must be woken up.
    pub fn schedule_later(&mut self, when: u128, handle: H) -> (wake: bool)
        requires
            old(self).wf(),
        ensures
            final(self).wf(),
            exists|p: int| inserted_in_order(old(self).timers(), final(self).timers(), (Timer { handle, when }), p),
            final(self).ready() == old(self).ready(),
            final(self).io() == old(self).io(),
            wake == old(self).is_idle(),
    {
        self.push_timer(when, handle)
    }

    /// Queues a handle now, or as a timer due at `when` when one is given;
    /// returns whether the loop must be woken up.
    pub fn schedule_handle(&mut self, handle: H, due: Option<u128>) -> (wake: bool)
        requires
            old(self).wf(),
            due is None ==> old(self).ready().len() < usize::MAX,
        ensures
            final(self).wf(),
            match due {
                Some(w) => (exists|p: int| inserted_in_order(old(self).timers(), final(self).timers(), (Timer { handle, when: w }), p))
                    && final(self).ready() == old(self).ready(),
                None => final(self).ready() == old(self).ready().push(handle)
                    && final(self).timers() == old(self).timers(),
            },
            final(self).io() == old(self).io(),
            wake == old(self).is_idle(),
    {
        match due {
            Some(w) => self.push_timer(w, handle),
            None => self.push_ready(handle),
        }
    }

    /// Queues a handle from the loop's own thread; the loop is not woken up.
    pub fn call_soon(&mut self, handle: H)
        requires
            old(self).wf(),
            old(self).ready().len() < usize::MAX,
        ensures
            final(self).wf(),
            final(self).ready() == old(self).ready().push(handle),
            final(self).timers() == old(self).timers(),
            final(self).io() == old(self).io(),
            final(self).is_idle() == old(self).is_idle(),
    {
        self.push_ready(handle);
    }

    /// Queues a handle from any thread; returns whether the loop must be
    /// woken up.
    pub fn call_soon_threadsafe(&mut self, handle: H) -> (wake: bool)
        requires
            old(self).wf(),
            old(self).ready().len() < usize::MAX,
        ensures
            final(self).wf(),
            final(self).ready() == old(self).ready().push(handle),
            final(self).timers() == old(self).timers(),
            final(self).io() == old(self).io(),
            wake == old(self).is_idle(),
    {
        self.push_ready(handle)
    }

    /// Adds a handle due `delay` microseconds after loop time `now`; returns
    /// the due time. The loop is not woken up.
    pub fn _call_later(&mut self, now: u128, delay: u64, handle: H) -> (due: u128)
        requires
            old(self).wf(),
            now + delay <= u128::MAX,
        ensures
            final(self).wf(),
            due == now + delay,
            exists|p: int| inserted_in_order(old(self).timers(), final(self).timers(), (Timer { handle, when: due }), p),
            final(self).ready() == old(self).ready(),
            final(self).io() == old(self).io(),
    {
        let when = now + delay as u128;
        self.push_timer(when, handle);
        when
    }
}


impl<H> EventLoop<H> {
    /// Records a server's listening socket, with no stream yet; the registry
    /// is told to poll it for reading.
    pub fn tcp_listener_add(&mut self, fd: usize) -> (op: RegistryOp)
        requires
            old(self).wf(),
        ensures
            final(self).wf(),
            final(self).io() == old(self).io().insert(fd, IoEntry::TcpListener),
            final(self).lstreams() == old(self).lstreams().insert(fd, Set::<usize>::empty()),
            op == RegistryOp::Register(read_only()),
            final(self).ready() == old(self).ready(),
            final(self).timers() == old(self).timers(),
    {
        self.tcp_lstreams.add_listener(fd);
        self.handles_io.listener_add(fd)
    }

    /// Forgets a listening socket and its streams; returns whether there was
    /// one.
    pub fn tcp_listener_rem(&mut self, fd: usize) -> (r: (bool, RegistryOp))
        requires
            old(self).wf(),
            listener_rem_allowed(old(self).io(), fd),
        ensures
            final(self).wf(),
            final(self).io() == old(self).io().remove(fd),
            r == (if old(self).io().dom().contains(fd) {
                (true, RegistryOp::Deregister)
            } else {
                (false, RegistryOp::Keep)
            }),
            old(self).io().dom().contains(fd) ==> final(self).lstreams() == old(self).lstreams().remove(fd),
            !old(self).io().dom().contains(fd) ==> final(self).lstreams() == old(self).lstreams(),
            final(self).ready() == old(self).ready(),
            final(self).timers() == old(self).timers(),
    {
        let r = self.handles_io.listener_rem(fd);
        if r.0 {
            self.tcp_lstreams.remove_listener(fd);
        }
        r
    }

    /// Records a stream accepted on a known listener; it is polled for
    /// reading.
    pub fn tcp_stream_accepted(&mut self, lfd: usize, fd: usize) -> (op: RegistryOp)
        requires
            old(self).wf(),
            old(self).lstreams().dom().contains(lfd),
        ensures
            final(self).wf(),
            final(self).io() == old(self).io().insert(fd, IoEntry::TcpStream(read_only())),
            final(self).lstreams() == old(self).lstreams().insert(lfd, old(self).lstreams()[lfd].insert(fd)),
            op == RegistryOp::Register(read_only()),
            final(self).ready() == old(self).ready(),
            final(self).timers() == old(self).timers(),
    {
        self.tcp_lstreams.stream_accepted(lfd, fd);
        self.handles_io.stream_accepted(fd)
    }

    /// Whether a listener is known.
    pub fn has_listener(&self, lfd: usize) -> (r: bool)
        ensures
            r == self.lstreams().dom().contains(lfd),
    {
        self.tcp_lstreams.has_listener(lfd)
    }

    /// The streams of a listener, each once.
    pub fn tcp_listener_streams(&self, lfd: usize) -> (r: Vec<usize>)
        ensures
            r@.no_duplicates(),
            self.lstreams().dom().contains(lfd) ==> r@.to_set() == self.lstreams()[lfd],
            !self.lstreams().dom().contains(lfd) ==> r@.len() == 0,
    {
        self.tcp_lstreams.streams_of(lfd)
    }

    /// Forgets a closed stream in its listener's set.
    pub fn tcp_stream_close(&mut self, fd: usize, lfd: Option<usize>)
        requires
            old(self).wf(),
        ensures
            final(self).wf(),
            match lfd {
                Some(l) => if old(self).lstreams().dom().contains(l) {
                    final(self).lstreams() == old(self).lstreams().insert(l, old(self).lstreams()[l].remove(fd))
                } else {
                    final(self).lstreams() == old(self).lstreams()
                },
                None => final(self).lstreams() == old(self).lstreams(),
            },
            final(self).io() == old(self).io(),
            final(self).ready() == old(self).ready(),
            final(self).timers() == old(self).timers(),
    {
        self.tcp_lstreams.stream_closed(lfd, fd);
    }

    /// Adds interest to a stream transport's socket.
    pub fn tcp_stream_add(&mut self, fd: usize, interest: Interest) -> (op: RegistryOp)
        requires
            old(self).wf(),
            interest.valid(),
            stream_add_allowed(old(self).io(), fd),
        ensures
            final(self).wf(),
            (final(self).io(), op) == crate::registry::stream_add_next(old(self).io(), fd, interest),
            final(self).lstreams() == old(self).lstreams(),
            final(self).ready() == old(self).ready(),
            final(self).timers() == old(self).timers(),
    {
        self.handles_io.stream_add(fd, interest)
    }

    /// Removes interest from a stream transport's socket.
    pub fn tcp_stream_rem(&mut self, fd: usize, interest: Interest) -> (op: RegistryOp)
        requires
            old(self).wf(),
            stream_rem_allowed(old(self).io(), fd, interest),
        ensures
            final(self).wf(),
            (final(self).io(), op) == crate::registry::stream_rem_next(old(self).io(), fd, interest),
            final(self).lstreams() == old(self).lstreams(),
            final(self).ready() == old(self).ready(),
            final(self).timers() == old(self).timers(),
    {
        self.handles_io.stream_rem(fd, interest)
    }

    /// Whether a descriptor has an entry in the I/O table.
    pub fn io_registered(&self, fd: usize) -> (r: Option<IoEntry>)
        ensures
            r == entry_at(self.io(), fd),
    {
        self.handles_io.get(fd)
    }

    /// Records the signal socket once it is registered for reading.
    pub fn _ssock_set(&mut self, fd_r: usize)
        requires
            old(self).wf(),
        ensures
            final(self).wf(),
            final(self).io() == old(self).io().insert(fd_r, IoEntry::Signals),
            final(self).ready() == old(self).ready(),
            final(self).timers() == old(self).timers(),
    {
        self.handles_io.signals_add(fd_r);
    }

    /// Forgets the signal socket's descriptor.
    pub fn _ssock_del(&mut self, fd_r: usize) -> (op: RegistryOp)
        requires
            old(self).wf(),
        ensures
            final(self).wf(),
            final(self).io() == old(self).io().remove(fd_r),
            op == (if entry_at(old(self).io(), fd_r) == Some(IoEntry::Signals) {
                RegistryOp::Deregister
            } else {
                RegistryOp::Keep
            }),
            final(self).ready() == old(self).ready(),
            final(self).timers() == old(self).timers(),
    {
        self.handles_io.signals_rem(fd_r)
    }

    /// Sets a reader callback on a descriptor.
    pub fn add_reader(&mut self, fd: usize) -> (op: RegistryOp)
        requires
            old(self).wf(),
            add_reader_allowed(old(self).io(), fd),
        ensures
            final(self).wf(),
            (final(self).io(), op) == crate::registry::add_reader_next(old(self).io(), fd),
            final(self).ready() == old(self).ready(),
            final(self).timers() == old(self).timers(),
    {
        self.handles_io.add_reader(fd)
    }

    /// Drops the reader callback of a descriptor.
    pub fn remove_reader(&mut self, fd: usize) -> (r: (bool, RegistryOp))
        requires
            old(self).wf(),
            remove_reader_allowed(old(self).io(), fd),
        ensures
            final(self).wf(),
            (final(self).io(), r) == crate::registry::remove_reader_next(old(self).io(), fd),
            final(self).ready() == old(self).ready(),
            final(self).timers() == old(self).timers(),
    {
        self.handles_io.remove_reader(fd)
    }

    /// Sets a writer callback on a descriptor.
    pub fn add_writer(&mut self, fd: usize) -> (op: RegistryOp)
        requires
            old(self).wf(),
            add_writer_allowed(old(self).io(), fd),
        ensures
            final(self).wf(),
            (final(self).io(), op) == crate::registry::add_writer_next(old(self).io(), fd),
            final(self).ready() == old(self).ready(),
            final(self).timers() == old(self).timers(),
    {
        self.handles_io.add_writer(fd)
    }

    /// Drops the writer callback of a descriptor.
    pub fn remove_writer(&mut self, fd: usize) -> (r: (bool, RegistryOp))
        requires
            old(self).wf(),
            remove_writer_allowed(old(self).io(), fd),
        ensures
            final(self).wf(),
            (final(self).io(), r) == crate::registry::remove_writer_next(old(self).io(), fd),
            final(self).ready() == old(self).ready(),
            final(self).timers() == old(self).timers(),
    {
        self.handles_io.remove_writer(fd)
    }
}


/// The signal numbers to handle among the `read` bytes that arrived: all of
/// them while the loop listens for signals, none otherwise.
pub open spec fn signals_to_handle_spec(buf: Seq<u8>, read: nat, listening: bool) -> Seq<u8> {
    if read > 0 && listening {
        buf.take(read as int)
    } else {
        Seq::empty()
    }
}

impl<H> EventLoop<H> {
    /// The signal numbers to handle among the bytes read from the signal
    /// socket into `buf`.
    pub fn signals_to_handle(&self, buf: &[u8], read: usize) -> (r: Vec<u8>)
        requires
            read <= buf@.len(),
        ensures
            r@ == signals_to_handle_spec(buf@, read as nat, self.listening_signals()),
    {
        let mut r: Vec<u8> = Vec::new();
        if read > 0 && self.sig_listening {
            let mut i: usize = 0;
            while i < read
                invariant
                    i <= read,
                    read <= buf@.len(),
                    r@ == buf@.take(i as int),
                decreases read - i,
            {
                r.push(buf[i]);
                assert(buf@.take(i + 1) == buf@.take(i as int).push(buf@[i as int]));
                i = i + 1;
            }
        }
        r
    }

    /// Handles one signal number: when a handler is set, the loop notes that
    /// it handled a signal, and the handler is dropped if cancelled or queued
    /// otherwise.
    pub fn sig_handle(&mut self, registered: bool, cancelled: bool) -> (a: SigAction)
        requires
            old(self).wf(),
        ensures
            final(self).wf(),
            a == (if !registered {
                SigAction::Ignore
            } else if cancelled {
                SigAction::Remove
            } else {
                SigAction::Schedule
            }),
            final(self).loop_handled_signal() == (registered || old(self).loop_handled_signal()),
            final(self).ready() == old(self).ready(),
            final(self).timers() == old(self).timers(),
            final(self).io() == old(self).io(),
    {
        if registered {
            self.sig_loop_handled = true;
            if cancelled {
                SigAction::Remove
            } else {
                SigAction::Schedule
            }
        } else {
            SigAction::Ignore
        }
    }

    /// Whether the run loop must stop before its next step.
    pub fn should_stop(&self) -> (r: bool)
        ensures
            r == self.is_stopping(),
    {
        self.stopping
    }

    /// What the run loop does after a failed step: an interrupted poll goes
    /// on when a signal was handled since (the mark is then cleared) and
    /// stops the loop otherwise; any other failure ends the run with it.
    pub fn step_failed(&mut self, interrupted: bool) -> (c: RunControl)
        requires
            old(self).wf(),
        ensures
            final(self).wf(),
            c == (if !interrupted {
                RunControl::Fail
            } else if old(self).loop_handled_signal() {
                RunControl::Continue
            } else {
                RunControl::Stop
            }),
            interrupted ==> !final(self).loop_handled_signal(),
            !interrupted ==> final(self).loop_handled_signal() == old(self).loop_handled_signal(),
            final(self).ready() == old(self).ready(),
            final(self).timers() == old(self).timers(),
            final(self).io() == old(self).io(),
    {
        if interrupted {
            let handled = self.sig_loop_handled;
            self.sig_loop_handled = false;
            if handled {
                RunControl::Continue
            } else {
                RunControl::Stop
            }
        } else {
            RunControl::Fail
        }
    }

    pub fn _get_thread_id(&self) -> (r: i64)
        ensures
            r == self.flags().thread_id,
    {
        self.thread_id
    }

    pub fn _set_thread_id(&mut self, val: i64)
        ensures
            final(self).wf() == old(self).wf(),
            final(self).flags() == (LoopFlags { thread_id: val, ..old(self).flags() }),
            final(self).same_tables(old(self)),
    {
        self.thread_id = val;
    }

    pub fn _get_closed(&self) -> (r: bool)
        ensures
            r == self.flags().closed,
    {
        self.closed
    }

    pub fn _set_closed(&mut self, val: bool)
        requires
            old(self).wf(),
        ensures
            final(self).wf(),
            final(self).flags() == (LoopFlags { closed: val, ..old(self).flags() }),
            final(self).same_tables(old(self)),
    {
        self.closed = val;
    }

    pub fn _get_stopping(&self) -> (r: bool)
        ensures
            r == self.flags().stopping,
    {
        self.stopping
    }

    pub fn _set_stopping(&mut self, val: bool)
        requires
            old(self).wf(),
        ensures
            final(self).wf(),
            final(self).flags() == (LoopFlags { stopping: val, ..old(self).flags() }),
            final(self).same_tables(old(self)),
    {
        self.stopping = val;
    }

    pub fn _get_asyncgens_shutdown_called(&self) -> (r: bool)
        ensures
            r == self.flags().shutdown_called_asyncgens,
    {
        self.shutdown_called_asyncgens
    }

    pub fn _set_asyncgens_shutdown_called(&mut self, val: bool)
        requires
            old(self).wf(),
        ensures
            final(self).wf(),
            final(self).flags() == (LoopFlags { shutdown_called_asyncgens: val, ..old(self).flags() }),
            final(self).same_tables(old(self)),
    {
        self.shutdown_called_asyncgens = val;
    }

    pub fn _get_executor_shutdown_called(&self) -> (r: bool)
        ensures
            r == self.flags().shutdown_called_executor,
    {
        self.shutdown_called_executor
    }

    pub fn _set_executor_shutdown_called(&mut self, val: bool)
        requires
            old(self).wf(),
        ensures
            final(self).wf(),
            final(self).flags() == (LoopFlags { shutdown_called_executor: val, ..old(self).flags() }),
            final(self).same_tables(old(self)),
    {
        self.shutdown_called_executor = val;
    }

    pub fn _get_sig_listening(&self) -> (r: bool)
        ensures
            r == self.flags().sig_listening,
    {
        self.sig_listening
    }

    pub fn _set_sig_listening(&mut self, val: bool)
        requires
            old(self).wf(),
        ensures
            final(self).wf(),
            final(self).flags() == (LoopFlags { sig_listening: val, ..old(self).flags() }),
            final(self).same_tables(old(self)),
    {
        self.sig_listening = val;
    }
}

/// Handles queued one after the other run in the order in which they were
/// queued, after every handle that was waiting before them.
pub proof fn law_ready_queue_keeps_order<H>(l0: EventLoop<H>, l1: EventLoop<H>, l2: EventLoop<H>, a: H, b: H)
    requires
        l1.ready() == l0.ready().push(a),
        l2.ready() == l1.ready().push(b),
    ensures
        l2.ready() == l0.ready() + seq![a, b],
        l2.ready().take(l0.ready().len() as int) == l0.ready(),
        l2.ready()[l0.ready().len() as int] == a,
        l2.ready()[l0.ready().len() + 1int] == b,
{
    assert(l2.ready() =~= l0.ready() + seq![a, b]);
    assert(l2.ready().take(l0.ready().len() as int) =~= l0.ready());
}

} // verus!
