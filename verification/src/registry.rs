use vstd::prelude::*;
use crate::interest::{Interest, read_only, write_only, union, difference};

verus! {

/// What the loop has registered with the poller for one file descriptor.
#[derive(Clone, Copy, Debug, PartialEq, Eq, Structural)]
pub enum IoEntry {
    /// The loop's own wake-up socket.
    Internal,
    /// A reader and/or writer callback added from Python; the interest holds
    /// readability exactly when a reader is set, writability exactly when a
    /// writer is set.
    Py(Interest),
    /// The socket on which signal numbers arrive.
    Signals,
    /// A listening stream socket of a server.
    TcpListener,
    /// A stream transport's socket, with the interest it is polled for.
    TcpStream(Interest),
}

/// What the poller's registry must be told after a change of the table.
#[derive(Clone, Copy, Debug, PartialEq, Eq, Structural)]
pub enum RegistryOp {
    Keep,
    Register(Interest),
    Reregister(Interest),
    Deregister,
}

/// What the loop does for one readiness event.
#[derive(Clone, Copy, Debug, PartialEq, Eq, Structural)]
pub enum EventAction {
    Nothing,
    /// Queue the descriptor's reader callback and/or writer callback.
    RunPy { reader: bool, writer: bool },
    /// Accept the pending connections of a listener.
    Accept,
    /// Queue a read of a stream transport.
    TcpRead,
    /// Queue a write of a stream transport.
    TcpWrite,
    /// Drain the wake-up socket.
    DrainWake,
    /// Read the signal numbers that arrived.
    ReadSignals,
}

/// The entries of an I/O table.
pub uninterp spec fn io_entries(m: papaya::HashMap<usize, IoEntry>) -> Map<usize, IoEntry>;

/// The entry of a descriptor, if the table has one.
pub open spec fn entry_at(m: Map<usize, IoEntry>, fd: usize) -> Option<IoEntry> {
    if m.dom().contains(fd) {
        Some(m[fd])
    } else {
        None
    }
}

/// The table with no entry.
pub open spec fn no_entries() -> Map<usize, IoEntry> {
    Map::empty()
}

/// Creates an empty table, as `papaya::HashMap::with_capacity` does.
#[verifier::external_body]
fn io_map_new() -> (r: papaya::HashMap<usize, IoEntry>)
    ensures
        io_entries(r) == no_entries(),
{
    papaya::HashMap::with_capacity(128)
}

/// Looks up a descriptor with `papaya::HashMapRef::get`, copying the entry out.
#[verifier::external_body]
fn io_map_get(m: &papaya::HashMap<usize, IoEntry>, fd: usize) -> (r: Option<IoEntry>)
    ensures
        r == entry_at(io_entries(*m), fd),
{
    m.pin().get(&fd).copied()
}

/// Sets the entry of a descriptor with `papaya::HashMapRef::insert`.
#[verifier::external_body]
fn io_map_insert(m: &mut papaya::HashMap<usize, IoEntry>, fd: usize, e: IoEntry)
    ensures
        io_entries(*final(m)) == io_entries(*old(m)).insert(fd, e),
{
    m.pin().insert(fd, e);
}

/// Removes the entry of a descriptor with `papaya::HashMapRef::remove`,
/// copying the removed entry out.
#[verifier::external_body]
fn io_map_remove(m: &mut papaya::HashMap<usize, IoEntry>, fd: usize) -> (r: Option<IoEntry>)
    ensures
        r == entry_at(io_entries(*old(m)), fd),
        io_entries(*final(m)) == io_entries(*old(m)).remove(fd),
{
    m.pin().remove(&fd).copied()
}

/// Every interest held by the table is valid.
pub open spec fn interests_valid(m: Map<usize, IoEntry>) -> bool {
    forall|fd: usize| #[trigger] m.dom().contains(fd) ==> match m[fd] {
        IoEntry::Py(i) => i.valid(),
        IoEntry::TcpStream(i) => i.valid(),
        _ => true,
    }
}

/// `add_reader` replaces a missing entry, or the entry of a descriptor that
/// has a writer.
pub open spec fn add_reader_allowed(m: Map<usize, IoEntry>, fd: usize) -> bool {
    match entry_at(m, fd) {
        None => true,
        Some(IoEntry::Py(i)) => i.writable,
        _ => false,
    }
}

/// `add_writer` replaces a missing entry, or the entry of a descriptor that
/// has a reader.
pub open spec fn add_writer_allowed(m: Map<usize, IoEntry>, fd: usize) -> bool {
    match entry_at(m, fd) {
        None => true,
        Some(IoEntry::Py(i)) => i.readable,
        _ => false,
    }
}

/// `remove_reader` applies to a missing entry, a reader alone, or an entry
/// with a writer.
pub open spec fn remove_reader_allowed(m: Map<usize, IoEntry>, fd: usize) -> bool {
    match entry_at(m, fd) {
        None => true,
        Some(IoEntry::Py(i)) => i == read_only() || i.writable,
        _ => false,
    }
}

/// `remove_writer` applies to a missing entry, a writer alone, or an entry
/// with a reader.
pub open spec fn remove_writer_allowed(m: Map<usize, IoEntry>, fd: usize) -> bool {
    match entry_at(m, fd) {
        None => true,
        Some(IoEntry::Py(i)) => i == write_only() || i.readable,
        _ => false,
    }
}

/// Adding stream interest applies to a missing entry or a stream entry.
pub open spec fn stream_add_allowed(m: Map<usize, IoEntry>, fd: usize) -> bool {
    match entry_at(m, fd) {
        None => true,
        Some(IoEntry::TcpStream(_)) => true,
        _ => false,
    }
}

/// Removing stream interest applies to a missing entry, or a stream entry
/// that holds exactly that interest or keeps some interest without it.
pub open spec fn stream_rem_allowed(m: Map<usize, IoEntry>, fd: usize, interest: Interest) -> bool {
    match entry_at(m, fd) {
        None => true,
        Some(IoEntry::TcpStream(e)) => e == interest || difference(e, interest) is Some,
        _ => false,
    }
}

/// Removing a listener applies to a missing entry or a listener entry.
pub open spec fn listener_rem_allowed(m: Map<usize, IoEntry>, fd: usize) -> bool {
    match entry_at(m, fd) {
        None => true,
        Some(IoEntry::TcpListener) => true,
        _ => false,
    }
}

/// The table and registry operation after adding stream interest.
pub open spec fn stream_add_next(m: Map<usize, IoEntry>, fd: usize, interest: Interest) -> (Map<usize, IoEntry>, RegistryOp) {
    match entry_at(m, fd) {
        Some(IoEntry::TcpStream(p)) => if p == interest {
            (m, RegistryOp::Keep)
        } else {
            (m.insert(fd, IoEntry::TcpStream(union(p, interest))), RegistryOp::Reregister(union(p, interest)))
        },
        _ => (m.insert(fd, IoEntry::TcpStream(interest)), RegistryOp::Register(interest)),
    }
}

/// The table and registry operation after removing stream interest.
pub open spec fn stream_rem_next(m: Map<usize, IoEntry>, fd: usize, interest: Interest) -> (Map<usize, IoEntry>, RegistryOp) {
    match entry_at(m, fd) {
        Some(IoEntry::TcpStream(e)) => if e == interest {
            (m.remove(fd), RegistryOp::Deregister)
        } else {
            match difference(e, interest) {
                Some(n) => (m.insert(fd, IoEntry::TcpStream(n)), RegistryOp::Reregister(n)),
                None => (m, RegistryOp::Keep),
            }
        },
        _ => (m, RegistryOp::Keep),
    }
}

/// The table and registry operation after setting a reader callback: the
/// registry is re-told the interest the descriptor had before.
pub open spec fn add_reader_next(m: Map<usize, IoEntry>, fd: usize) -> (Map<usize, IoEntry>, RegistryOp) {
    match entry_at(m, fd) {
        Some(IoEntry::Py(i)) => (m.insert(fd, IoEntry::Py(union(i, read_only()))), RegistryOp::Reregister(i)),
        _ => (m.insert(fd, IoEntry::Py(read_only())), RegistryOp::Register(read_only())),
    }
}

/// The table and registry operation after setting a writer callback: the
/// registry is re-told the interest the descriptor had before.
pub open spec fn add_writer_next(m: Map<usize, IoEntry>, fd: usize) -> (Map<usize, IoEntry>, RegistryOp) {
    match entry_at(m, fd) {
        Some(IoEntry::Py(i)) => (m.insert(fd, IoEntry::Py(union(i, write_only()))), RegistryOp::Reregister(i)),
        _ => (m.insert(fd, IoEntry::Py(write_only())), RegistryOp::Register(write_only())),
    }
}

/// The table, whether the descriptor had callbacks, and the registry
/// operation after dropping a reader callback.
pub open spec fn remove_reader_next(m: Map<usize, IoEntry>, fd: usize) -> (Map<usize, IoEntry>, (bool, RegistryOp)) {
    match entry_at(m, fd) {
        Some(IoEntry::Py(i)) => if i == read_only() {
            (m.remove(fd), (true, RegistryOp::Deregister))
        } else {
            (m.insert(fd, IoEntry::Py(write_only())), (true, RegistryOp::Reregister(write_only())))
        },
        _ => (m, (false, RegistryOp::Keep)),
    }
}

/// The table, whether the descriptor had callbacks, and the registry
/// operation after dropping a writer callback.
pub open spec fn remove_writer_next(m: Map<usize, IoEntry>, fd: usize) -> (Map<usize, IoEntry>, (bool, RegistryOp)) {
    match entry_at(m, fd) {
        Some(IoEntry::Py(i)) => if i == write_only() {
            (m.remove(fd), (true, RegistryOp::Deregister))
        } else {
            (m.insert(fd, IoEntry::Py(read_only())), (true, RegistryOp::Reregister(read_only())))
        },
        _ => (m, (false, RegistryOp::Keep)),
    }
}

/// The action for a readiness event on a descriptor with the given entry.
pub open spec fn event_action(e: Option<IoEntry>, readable: bool, writable: bool) -> EventAction {
    match e {
        None => EventAction::Nothing,
        Some(IoEntry::Py(i)) => EventAction::RunPy {
            reader: i.readable && readable,
            writer: i.writable && writable,
        },
        Some(IoEntry::TcpListener) => EventAction::Accept,
        Some(IoEntry::TcpStream(_)) => if readable {
            EventAction::TcpRead
        } else if writable {
            EventAction::TcpWrite
        } else {
            EventAction::Nothing
        },
        Some(IoEntry::Internal) => EventAction::DrainWake,
        Some(IoEntry::Signals) => EventAction::ReadSignals,
    }
}

/// The table of descriptors the loop polls, and what each is registered for.
pub struct IoRegistry {
    entries: papaya::HashMap<usize, IoEntry>,
}

impl IoRegistry {
    pub closed spec fn view(&self) -> Map<usize, IoEntry> {
        io_entries(self.entries)
    }

    pub open spec fn wf(&self) -> bool {
        interests_valid(self.view())
    }

    pub fn new() -> (r: Self)
        ensures
            r.wf(),
            r.view() == Map::<usize, IoEntry>::empty(),
    {
        IoRegistry { entries: io_map_new() }
    }

    pub fn get(&self, fd: usize) -> (r: Option<IoEntry>)
        ensures
            r == entry_at(self.view(), fd),
    {
        io_map_get(&self.entries, fd)
    }

    pub fn contains(&self, fd: usize) -> (r: bool)
        ensures
            r == self.view().dom().contains(fd),
    {
        io_map_get(&self.entries, fd).is_some()
    }

    /// Records the loop's wake-up socket; it is registered for reading.
    pub fn internal_add(&mut self, fd: usize) -> (op: RegistryOp)
        requires
            old(self).wf(),
        ensures
            final(self).wf(),
            final(self).view() == old(self).view().insert(fd, IoEntry::Internal),
            op == RegistryOp::Register(read_only()),
    {
        io_map_insert(&mut self.entries, fd, IoEntry::Internal);
        RegistryOp::Register(Interest::readable())
    }

    /// Forgets a descriptor, whatever its entry.
    pub fn remove(&mut self, fd: usize) -> (r: Option<IoEntry>)
        requires
            old(self).wf(),
        ensures
            final(self).wf(),
            r == entry_at(old(self).view(), fd),
            final(self).view() == old(self).view().remove(fd),
    {
        io_map_remove(&mut self.entries, fd)
    }

    /// Records the signal socket, once it has been registered for reading.
    pub fn signals_add(&mut self, fd: usize)
        requires
            old(self).wf(),
        ensures
            final(self).wf(),
            final(self).view() == old(self).view().insert(fd, IoEntry::Signals),
    {
        io_map_insert(&mut self.entries, fd, IoEntry::Signals);
    }

    /// Forgets the signal socket; the registry must drop the descriptor when
    /// its entry was the signal socket's.
    pub fn signals_rem(&mut self, fd: usize) -> (op: RegistryOp)
        requires
            old(self).wf(),
        ensures
            final(self).wf(),
            final(self).view() == old(self).view().remove(fd),
            op == (if entry_at(old(self).view(), fd) == Some(IoEntry::Signals) {
                RegistryOp::Deregister
            } else {
                RegistryOp::Keep
            }),
    {
        match io_map_remove(&mut self.entries, fd) {
            Some(IoEntry::Signals) => RegistryOp::Deregister,
            _ => RegistryOp::Keep,
        }
    }

    /// Records a server's listening socket, registered for reading.
    pub fn listener_add(&mut self, fd: usize) -> (op: RegistryOp)
        requires
            old(self).wf(),
        ensures
            final(self).wf(),
            final(self).view() == old(self).view().insert(fd, IoEntry::TcpListener),
            op == RegistryOp::Register(read_only()),
    {
        io_map_insert(&mut self.entries, fd, IoEntry::TcpListener);
        RegistryOp::Register(Interest::readable())
    }

    /// Forgets a listening socket; returns whether there was one.
    pub fn listener_rem(&mut self, fd: usize) -> (r: (bool, RegistryOp))
        requires
            old(self).wf(),
            listener_rem_allowed(old(self).view(), fd),
        ensures
            final(self).wf(),
            final(self).view() == old(self).view().remove(fd),
            r == (if old(self).view().dom().contains(fd) {
                (true, RegistryOp::Deregister)
            } else {
                (false, RegistryOp::Keep)
            }),
    {
        match io_map_remove(&mut self.entries, fd) {
            Some(_) => (true, RegistryOp::Deregister),
            None => (false, RegistryOp::Keep),
        }
    }

    /// Records a stream accepted by a listener, polled for reading.
    pub fn stream_accepted(&mut self, fd: usize) -> (op: RegistryOp)
        requires
            old(self).wf(),
        ensures
            final(self).wf(),
            final(self).view() == old(self).view().insert(fd, IoEntry::TcpStream(read_only())),
            op == RegistryOp::Register(read_only()),
    {
        let i = Interest::readable();
        io_map_insert(&mut self.entries, fd, IoEntry::TcpStream(i));
        RegistryOp::Register(i)
    }

    /// Adds interest to a stream transport's socket.
    pub fn stream_add(&mut self, fd: usize, interest: Interest) -> (op: RegistryOp)
        requires
            old(self).wf(),
            interest.valid(),
            stream_add_allowed(old(self).view(), fd),
        ensures
            final(self).wf(),
            (final(self).view(), op) == stream_add_next(old(self).view(), fd, interest),
    {
        match io_map_get(&self.entries, fd) {
            Some(IoEntry::TcpStream(prev)) => {
                if prev == interest {
                    RegistryOp::Keep
                } else {
                    let interests = prev.add(interest);
                    io_map_insert(&mut self.entries, fd, IoEntry::TcpStream(interests));
                    RegistryOp::Reregister(interests)
                }
            },
            _ => {
                io_map_insert(&mut self.entries, fd, IoEntry::TcpStream(interest));
                RegistryOp::Register(interest)
            },
        }
    }

    /// Removes interest from a stream transport's socket; the entry goes
    /// when it held exactly that interest.
    pub fn stream_rem(&mut self, fd: usize, interest: Interest) -> (op: RegistryOp)
        requires
            old(self).wf(),
            stream_rem_allowed(old(self).view(), fd, interest),
        ensures
            final(self).wf(),
            (final(self).view(), op) == stream_rem_next(old(self).view(), fd, interest),
    {
        match io_map_get(&self.entries, fd) {
            None => RegistryOp::Keep,
            Some(IoEntry::TcpStream(e)) => {
                if e == interest {
                    io_map_remove(&mut self.entries, fd);
                    RegistryOp::Deregister
                } else {
                    let rest = e.remove(interest);
                    match rest {
                        Some(n) => {
                            io_map_insert(&mut self.entries, fd, IoEntry::TcpStream(n));
                            RegistryOp::Reregister(n)
                        },
                        None => RegistryOp::Keep,
                    }
                }
            },
            Some(_) => RegistryOp::Keep,
        }
    }

    /// Sets a reader callback on a descriptor. When the descriptor already
    /// had callbacks, the registry is re-told the interest it had before.
    pub fn add_reader(&mut self, fd: usize) -> (op: RegistryOp)
        requires
            old(self).wf(),
            add_reader_allowed(old(self).view(), fd),
        ensures
            final(self).wf(),
            (final(self).view(), op) == add_reader_next(old(self).view(), fd),
    {
        match io_map_get(&self.entries, fd) {
            Some(IoEntry::Py(i)) => {
                io_map_insert(&mut self.entries, fd, IoEntry::Py(i.add(Interest::readable())));
                RegistryOp::Reregister(i)
            },
            _ => {
                let r = Interest::readable();
                io_map_insert(&mut self.entries, fd, IoEntry::Py(r));
                RegistryOp::Register(r)
            },
        }
    }

    /// Sets a writer callback on a descriptor. When the descriptor already
    /// had callbacks, the registry is re-told the interest it had before.
    pub fn add_writer(&mut self, fd: usize) -> (op: RegistryOp)
        requires
            old(self).wf(),
            add_writer_allowed(old(self).view(), fd),
        ensures
            final(self).wf(),
            (final(self).view(), op) == add_writer_next(old(self).view(), fd),
    {
        match io_map_get(&self.entries, fd) {
            Some(IoEntry::Py(i)) => {
                io_map_insert(&mut self.entries, fd, IoEntry::Py(i.add(Interest::writable())));
                RegistryOp::Reregister(i)
            },
            _ => {
                let w = Interest::writable();
                io_map_insert(&mut self.entries, fd, IoEntry::Py(w));
                RegistryOp::Register(w)
            },
        }
    }

    /// Drops the reader callback of a descriptor; returns whether the
    /// descriptor had callbacks. A writer that stays is polled alone.
    pub fn remove_reader(&mut self, fd: usize) -> (r: (bool, RegistryOp))
        requires
            old(self).wf(),
            remove_reader_allowed(old(self).view(), fd),
        ensures
            final(self).wf(),
            (final(self).view(), r) == remove_reader_next(old(self).view(), fd),
    {
        match io_map_get(&self.entries, fd) {
            None => (false, RegistryOp::Keep),
            Some(IoEntry::Py(i)) => {
                if i == Interest::readable() {
                    io_map_remove(&mut self.entries, fd);
                    (true, RegistryOp::Deregister)
                } else {
                    let w = Interest::writable();
                    io_map_insert(&mut self.entries, fd, IoEntry::Py(w));
                    (true, RegistryOp::Reregister(w))
                }
            },
            Some(_) => (false, RegistryOp::Keep),
        }
    }

    /// Drops the writer callback of a descriptor; returns whether the
    /// descriptor had callbacks. A reader that stays is polled alone.
    pub fn remove_writer(&mut self, fd: usize) -> (r: (bool, RegistryOp))
        requires
            old(self).wf(),
            remove_writer_allowed(old(self).view(), fd),
        ensures
            final(self).wf(),
            (final(self).view(), r) == remove_writer_next(old(self).view(), fd),
    {
        match io_map_get(&self.entries, fd) {
            None => (false, RegistryOp::Keep),
            Some(IoEntry::Py(i)) => {
                if i == Interest::writable() {
                    io_map_remove(&mut self.entries, fd);
                    (true, RegistryOp::Deregister)
                } else {
                    let r = Interest::readable();
                    io_map_insert(&mut self.entries, fd, IoEntry::Py(r));
                    (true, RegistryOp::Reregister(r))
                }
            },
            Some(_) => (false, RegistryOp::Keep),
        }
    }

    /// What to do for a readiness event on a descriptor.
    pub fn dispatch(&self, fd: usize, readable: bool, writable: bool) -> (a: EventAction)
        ensures
            a == event_action(entry_at(self.view(), fd), readable, writable),
            entry_at(self.view(), fd) matches Some(IoEntry::Py(i)) ==> a == (EventAction::RunPy {
                reader: i.readable && readable,
                writer: i.writable && writable,
            }),
    {
        match io_map_get(&self.entries, fd) {
            None => EventAction::Nothing,
            Some(IoEntry::Py(i)) => EventAction::RunPy {
                reader: i.readable && readable,
                writer: i.writable && writable,
            },
            Some(IoEntry::TcpListener) => EventAction::Accept,
            Some(IoEntry::TcpStream(_)) => {
                if readable {
                    EventAction::TcpRead
                } else if writable {
                    EventAction::TcpWrite
                } else {
                    EventAction::Nothing
                }
            },
            Some(IoEntry::Internal) => EventAction::DrainWake,
            Some(IoEntry::Signals) => EventAction::ReadSignals,
        }
    }
}


/// Setting a reader on a descriptor the table does not hold, then dropping
/// it, gives the table back; the registry is told to register the descriptor
/// for reading and then to drop it.
pub proof fn law_reader_round_trip(m: Map<usize, IoEntry>, fd: usize)
    requires
        !m.dom().contains(fd),
    ensures
        remove_reader_next(add_reader_next(m, fd).0, fd).0 == m,
        add_reader_next(m, fd).1 == RegistryOp::Register(read_only()),
        remove_reader_next(add_reader_next(m, fd).0, fd).1 == (true, RegistryOp::Deregister),
{
    assert(add_reader_next(m, fd).0.remove(fd) =~= m);
}

/// Setting a writer on a descriptor the table does not hold, then dropping
/// it, gives the table back.
pub proof fn law_writer_round_trip(m: Map<usize, IoEntry>, fd: usize)
    requires
        !m.dom().contains(fd),
    ensures
        remove_writer_next(add_writer_next(m, fd).0, fd).0 == m,
        add_writer_next(m, fd).1 == RegistryOp::Register(write_only()),
        remove_writer_next(add_writer_next(m, fd).0, fd).1 == (true, RegistryOp::Deregister),
{
    assert(add_writer_next(m, fd).0.remove(fd) =~= m);
}

/// With both a reader and a writer set on a new descriptor, dropping the
/// reader leaves the writer polled alone, and dropping the writer then gives
/// the table back.
pub proof fn law_reader_writer_independent(m: Map<usize, IoEntry>, fd: usize)
    requires
        !m.dom().contains(fd),
    ensures
        ({
            let m1 = add_reader_next(m, fd).0;
            let m2 = add_writer_next(m1, fd).0;
            let m3 = remove_reader_next(m2, fd).0;
            &&& m2[fd] == IoEntry::Py(Interest { readable: true, writable: true })
            &&& m3[fd] == IoEntry::Py(write_only())
            &&& remove_writer_next(m3, fd).0 == m
        }),
{
    let m1 = add_reader_next(m, fd).0;
    let m2 = add_writer_next(m1, fd).0;
    let m3 = remove_reader_next(m2, fd).0;
    assert(m3.remove(fd) =~= m);
}

/// Adding stream interest to a descriptor the table does not hold, then
/// removing the same interest, gives the table back.
pub proof fn law_stream_round_trip(m: Map<usize, IoEntry>, fd: usize, interest: Interest)
    requires
        !m.dom().contains(fd),
        interest.valid(),
    ensures
        stream_rem_next(stream_add_next(m, fd, interest).0, fd, interest).0 == m,
        stream_add_next(m, fd, interest).1 == RegistryOp::Register(interest),
        stream_rem_next(stream_add_next(m, fd, interest).0, fd, interest).1 == RegistryOp::Deregister,
{
    assert(stream_add_next(m, fd, interest).0.remove(fd) =~= m);
}

/// Adding write interest to a stream polled for reading, then removing it,
/// leaves the stream polled for reading alone.
pub proof fn law_stream_write_interest_undone(m: Map<usize, IoEntry>, fd: usize)
    requires
        entry_at(m, fd) == Some(IoEntry::TcpStream(read_only())),
    ensures
        stream_rem_next(stream_add_next(m, fd, write_only()).0, fd, write_only()).0 == m,
        stream_rem_next(stream_add_next(m, fd, write_only()).0, fd, write_only()).1
            == RegistryOp::Reregister(read_only()),
{
    let m1 = stream_add_next(m, fd, write_only()).0;
    assert(m1.insert(fd, IoEntry::TcpStream(read_only())) =~= m);
}

/// The transitions keep every interest of the table valid.
pub proof fn law_transitions_keep_interests_valid(m: Map<usize, IoEntry>, fd: usize, interest: Interest)
    requires
        interests_valid(m),
        interest.valid(),
    ensures
        interests_valid(stream_add_next(m, fd, interest).0),
        interests_valid(stream_rem_next(m, fd, interest).0),
        interests_valid(add_reader_next(m, fd).0),
        interests_valid(add_writer_next(m, fd).0),
        interests_valid(remove_reader_next(m, fd).0),
        interests_valid(remove_writer_next(m, fd).0),
{
}

/// An event on a descriptor with Python callbacks queues the reader exactly
/// when a reader is set and the descriptor is readable, and the writer
/// exactly when a writer is set and it is writable; each independently of
/// the other's readiness.
pub proof fn law_py_event_queues_each_ready_callback(i: Interest, r1: bool, w1: bool, r2: bool, w2: bool)
    ensures
        event_action(Some(IoEntry::Py(i)), r1, w1) matches EventAction::RunPy { reader, writer } && reader
            == (i.readable && r1) && writer == (i.writable && w1),
        w1 == w2 ==> event_action(Some(IoEntry::Py(i)), r1, w1)->writer == event_action(Some(IoEntry::Py(i)), r2, w2)->writer,
        r1 == r2 ==> event_action(Some(IoEntry::Py(i)), r1, w1)->reader == event_action(Some(IoEntry::Py(i)), r2, w2)->reader,
{
}

} // verus!
