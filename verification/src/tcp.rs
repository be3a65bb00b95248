use vstd::prelude::*;
use std::collections::VecDeque;
use std::sync::Arc;
use crate::interest::{Interest, read_only, write_only};
use crate::tls::{
    server_connection_new, server_name_try_from, client_connection_new, conn_read_tls,
    conn_process_new_packets, io_state_peer_has_closed, conn_send_close_notify, conn_is_handshaking,
    conn_wants_write, conn_read_plaintext, conn_write_plaintext, conn_write_tls, server_name_accepted, TlsSession,
};

verus! {


/// The high-water mark of a new transport's write buffer, in bytes.
pub const DEFAULT_WATER_HI: usize = 65536;

/// The low-water mark of a new transport's write buffer, in bytes.
pub const DEFAULT_WATER_LO: usize = 16384;

/// How long, in milliseconds, a closing TLS transport waits for the peer's
/// close alert unless configured otherwise.
pub const DEFAULT_SSL_CLOSE_TIMEOUT_MS: u16 = 1000;

/// The outcome of one read or write on a socket.
#[derive(Clone, Copy, Debug, PartialEq, Eq, Structural)]
pub enum IoOutcome {
    /// The call moved this many bytes (0 on a read means end of stream).
    Done(usize),
    /// The call was interrupted by a signal.
    Interrupted,
    /// The call would block.
    WouldBlock,
    /// The call failed otherwise.
    Failed,
}

/// Why the protocol is told that the connection is lost.
#[derive(Clone, Copy, Debug, PartialEq, Eq, Structural)]
pub enum LostCause {
    /// A clean close: no exception.
    Clean,
    /// A write on the socket failed: the exception carries the write's error.
    WriteError,
    /// Flushing the write buffer failed: "socket transport failed".
    TransportFailed,
}

/// An effect of a transport operation, to be carried out in order.
#[derive(Debug, PartialEq, Eq)]
pub enum TransportAction {
    /// Add interest for the transport's socket in the loop.
    AddInterest(Interest),
    /// Remove interest for the transport's socket in the loop.
    RemoveInterest(Interest),
    /// Call the protocol's `pause_writing`.
    PauseWriting,
    /// Call the protocol's `resume_writing`.
    ResumeWriting,
    /// Call the protocol's `connection_lost`.
    ConnectionLost(LostCause),
    /// Drop the transport from the loop's tables.
    StreamClose,
    /// Shut down the writing half of the socket.
    ShutdownWrite,
    /// Write these bytes to the socket once, whatever comes of it.
    SendRaw(Vec<u8>),
    /// Schedule the protocol's `connection_made` with the transport.
    ScheduleConnectionMade,
}

/// An error a transport operation reports to its caller.
#[derive(Clone, Copy, Debug, PartialEq, Eq, Structural)]
pub enum TransportError {
    /// "Cannot write after EOF".
    WriteAfterEof,
    /// "high must be >= low must be >= 0".
    BadWaterMarks,
    /// "TCPTransport protocol cannot be changed".
    ProtocolChange,
}

/// Why TLS could not be set up on a transport.
#[derive(Clone, Copy, Debug, PartialEq, Eq, Structural)]
pub enum TlsSetupError {
    /// The server name is not a valid DNS name or IP address.
    BadServerName,
    /// The TLS library refused to start the connection.
    Connection,
}

/// The flags and counters of a stream transport, as its contracts speak of
/// them.
pub struct TransportFlags {
    pub fd: usize,
    pub lfd: Option<usize>,
    pub proto_buffered: bool,
    pub closing: bool,
    pub paused: bool,
    pub weof: bool,
    pub proto_paused: bool,
    pub water_hi: usize,
    pub water_lo: usize,
    pub write_buf_dsize: usize,
    pub tls: bool,
    pub handshake_complete: bool,
    pub connection_made_called: bool,
    pub tls_close_sent: bool,
    pub tls_close_received: bool,
    pub tls_close_sent_time: Option<u128>,
    pub tls_pending_close: bool,
    pub ssl_close_timeout: u16,
}

/// The bytes held by each chunk of a write buffer.
pub open spec fn chunk_bytes(s: Seq<Vec<u8>>) -> Seq<Seq<u8>> {
    s.map_values(|v: Vec<u8>| v@)
}

/// The write buffer after one plain write of its first chunk ended as
/// `outcome`: written bytes leave the front, a failure drops everything.
pub open spec fn after_plain_write(chunks: Seq<Seq<u8>>, outcome: IoOutcome) -> Seq<Seq<u8>> {
    match outcome {
        IoOutcome::Done(n) => if n < chunks[0].len() {
            chunks.update(0, chunks[0].skip(n as int))
        } else {
            chunks.drop_first()
        },
        IoOutcome::Failed => Seq::empty(),
        _ => chunks,
    }
}

/// A stream (TCP) transport: its write buffer with flow control, its
/// reading and closing state, and its optional TLS session.
pub struct TCPTransport {
    fd: usize,
    lfd: Option<usize>,
    closing: bool,
    paused: bool,
    water_hi: usize,
    water_lo: usize,
    weof: bool,
    proto_buffered: bool,
    proto_paused: bool,
    write_buf: VecDeque<Vec<u8>>,
    write_buf_dsize: usize,
    tls_conn: Option<TlsSession>,
    handshake_complete: bool,
    connection_made_called: bool,
    tls_close_sent: bool,
    tls_close_received: bool,
    tls_close_sent_time: Option<u128>,
    tls_pending_close: bool,
    ssl_close_timeout: u16,
}

impl TCPTransport {
    /// The transport's flags and counters.
    pub closed spec fn flags(&self) -> TransportFlags {
        TransportFlags {
            fd: self.fd,
            lfd: self.lfd,
            proto_buffered: self.proto_buffered,
            closing: self.closing,
            paused: self.paused,
            weof: self.weof,
            proto_paused: self.proto_paused,
            water_hi: self.water_hi,
            water_lo: self.water_lo,
            write_buf_dsize: self.write_buf_dsize,
            tls: self.tls_conn is Some,
            handshake_complete: self.handshake_complete,
            connection_made_called: self.connection_made_called,
            tls_close_sent: self.tls_close_sent,
            tls_close_received: self.tls_close_received,
            tls_close_sent_time: self.tls_close_sent_time,
            tls_pending_close: self.tls_pending_close,
            ssl_close_timeout: self.ssl_close_timeout,
        }
    }

    /// The chunks of the write buffer, oldest first.
    pub closed spec fn chunks(&self) -> Seq<Seq<u8>> {
        chunk_bytes(self.write_buf@)
    }

    /// The plaintext chunks handed to the TLS session for encryption by the
    /// flushes so far, in order.
    pub closed spec fn tls_plaintext_fed(&self) -> Seq<Seq<u8>> {
        match self.tls_conn {
            Some(s) => s.plaintext_written(),
            None => Seq::empty(),
        }
    }

    /// The plaintext chunks handed to the TLS session's writer, in order.
    pub closed spec fn tls_plaintext_offered(&self) -> Seq<Seq<u8>> {
        match self.tls_conn {
            Some(s) => s.plaintext_offered(),
            None => Seq::empty(),
        }
    }

    /// The received TLS bytes handed to the TLS session, in order.
    pub closed spec fn tls_input_offered(&self) -> Seq<u8> {
        match self.tls_conn {
            Some(s) => s.input_offered(),
            None => Seq::empty(),
        }
    }

    /// The received TLS bytes that the TLS session took, in order.
    pub closed spec fn tls_input_taken(&self) -> Seq<u8> {
        match self.tls_conn {
            Some(s) => s.input_taken(),
            None => Seq::empty(),
        }
    }

    /// Whether the TLS session was asked to queue its close alert.
    pub closed spec fn tls_close_notify_requested(&self) -> bool {
        match self.tls_conn {
            Some(s) => s.close_notify_requested(),
            None => false,
        }
    }

    /// The answers the TLS session's `is_handshaking` gave, in order.
    pub closed spec fn tls_handshaking_answers(&self) -> Seq<bool> {
        match self.tls_conn {
            Some(s) => s.handshaking_answers(),
            None => Seq::empty(),
        }
    }

    /// The answers the TLS session's `wants_write` gave, in order.
    pub closed spec fn tls_wants_write_answers(&self) -> Seq<bool> {
        match self.tls_conn {
            Some(s) => s.wants_write_answers(),
            None => Seq::empty(),
        }
    }

    /// The TLS session's record is that of `old_t`.
    pub open spec fn same_session_record(&self, old_t: &Self) -> bool {
        &&& self.tls_plaintext_fed() == old_t.tls_plaintext_fed()
        &&& self.tls_plaintext_offered() == old_t.tls_plaintext_offered()
        &&& self.tls_input_offered() == old_t.tls_input_offered()
        &&& self.tls_input_taken() == old_t.tls_input_taken()
        &&& self.tls_close_notify_requested() == old_t.tls_close_notify_requested()
        &&& self.tls_handshaking_answers() == old_t.tls_handshaking_answers()
        &&& self.tls_wants_write_answers() == old_t.tls_wants_write_answers()
    }

    /// The chunks that left the front of `old_t`'s buffer were handed to the
    /// TLS session, whole and in order, and nothing else was.
    pub open spec fn fed_from_front(&self, old_t: &Self) -> bool {
        let j = old_t.chunks().len() - self.chunks().len();
        &&& 0 <= j
        &&& self.chunks() == old_t.chunks().skip(j)
        &&& self.tls_plaintext_fed() == old_t.tls_plaintext_fed() + old_t.chunks().take(j)
    }

    /// The bytes waiting to be written, in order.
    pub open spec fn pending(&self) -> Seq<u8> {
        self.chunks().flatten()
    }

    /// The transport's invariant: the buffered size counts the bytes waiting
    /// to be written, and the low-water mark is not above the high one.
    pub open spec fn wf(&self) -> bool {
        &&& self.flags().write_buf_dsize == self.pending().len()
        &&& self.flags().water_lo <= self.flags().water_hi
    }

    /// A new transport: not closing, reading, buffer empty, default water
    /// marks, no TLS session.
    pub fn new(fd: usize, lfd: Option<usize>, proto_buffered: bool, ssl_close_timeout: u16) -> (t: Self)
        ensures
            t.wf(),
            t.chunks() == Seq::<Seq<u8>>::empty(),
            t.flags() == (TransportFlags {
                fd,
                lfd,
                proto_buffered,
                closing: false,
                paused: false,
                weof: false,
                proto_paused: false,
                water_hi: DEFAULT_WATER_HI,
                water_lo: DEFAULT_WATER_LO,
                write_buf_dsize: 0,
                tls: false,
                handshake_complete: false,
                connection_made_called: false,
                tls_close_sent: false,
                tls_close_received: false,
                tls_close_sent_time: None,
                tls_pending_close: false,
                ssl_close_timeout,
            }),
    {
        let t = TCPTransport {
            fd,
            lfd,
            closing: false,
            paused: false,
            water_hi: DEFAULT_WATER_HI,
            water_lo: DEFAULT_WATER_LO,
            weof: false,
            proto_buffered,
            proto_paused: false,
            write_buf: VecDeque::new(),
            write_buf_dsize: 0,
            tls_conn: None,
            handshake_complete: false,
            connection_made_called: false,
            tls_close_sent: false,
            tls_close_received: false,
            tls_close_sent_time: None,
            tls_pending_close: false,
            ssl_close_timeout,
        };
        assert(t.chunks() =~= Seq::<Seq<u8>>::empty());
        t
    }

    pub fn fd(&self) -> (r: usize)
        ensures
            r == self.flags().fd,
    {
        self.fd
    }

    /// The listening socket the transport was accepted on, if any.
    pub fn lfd(&self) -> (r: Option<usize>)
        ensures
            r == self.flags().lfd,
    {
        self.lfd
    }

    /// Whether the protocol provides its own receive buffer.
    pub fn proto_buffered(&self) -> (r: bool)
        ensures
            r == self.flags().proto_buffered,
    {
        self.proto_buffered
    }

    pub fn is_closing(&self) -> (r: bool)
        ensures
            r == self.flags().closing,
    {
        self.closing
    }

    pub fn is_tls(&self) -> (r: bool)
        ensures
            r == self.flags().tls,
    {
        self.tls_conn.is_some()
    }

    /// Reading goes on unless the transport is closing or paused.
    pub fn is_reading(&self) -> (r: bool)
        ensures
            r == (!self.flags().closing && !self.flags().paused),
    {
        !self.closing && !self.paused
    }

    pub fn get_write_buffer_size(&self) -> (r: usize)
        ensures
            r == self.flags().write_buf_dsize,
    {
        self.write_buf_dsize
    }

    /// The water marks, low first.
    pub fn get_write_buffer_limits(&self) -> (r: (usize, usize))
        ensures
            r == (self.flags().water_lo, self.flags().water_hi),
    {
        (self.water_lo, self.water_hi)
    }

    /// `write_eof` can still be called when no write EOF was set.
    pub fn can_write_eof(&self) -> (r: bool)
        ensures
            r == !self.flags().weof,
    {
        !self.weof
    }

    pub fn handshake_complete(&self) -> (r: bool)
        ensures
            r == self.flags().handshake_complete,
    {
        self.handshake_complete
    }

    /// The protocol of a stream transport cannot be changed.
    pub fn set_protocol(&self) -> (r: Result<(), TransportError>)
        ensures
            r == Err::<(), TransportError>(TransportError::ProtocolChange),
    {
        Err(TransportError::ProtocolChange)
    }

    /// Whether attaching the protocol calls its `connection_made` now; a TLS
    /// transport calls it once its handshake completes.
    pub fn attach_calls_connection_made(&self) -> (r: bool)
        ensures
            r == !self.flags().tls,
    {
        self.tls_conn.is_none()
    }
}


/// Flattening a nonempty sequence of chunks puts its first chunk first.
proof fn lemma_flatten_front(s: Seq<Seq<u8>>)
    requires
        s.len() > 0,
    ensures
        s.flatten() == s[0] + s.drop_first().flatten(),
{
}

/// Dropping `n` bytes from the front of the first chunk drops the first `n`
/// bytes of the whole.
pub proof fn lemma_flatten_skip_front(s: Seq<Seq<u8>>, n: nat)
    requires
        s.len() > 0,
        n <= s[0].len(),
    ensures
        n < s[0].len() ==> s.update(0, s[0].skip(n as int)).flatten() == s.flatten().skip(n as int),
        n == s[0].len() ==> s.drop_first().flatten() == s.flatten().skip(n as int),
{
    lemma_flatten_front(s);
    if n < s[0].len() {
        let u = s.update(0, s[0].skip(n as int));
        lemma_flatten_front(u);
        assert(u.drop_first() =~= s.drop_first());
        assert(u.flatten() =~= s.flatten().skip(n as int));
    } else {
        assert(s.drop_first().flatten() =~= s.flatten().skip(n as int));
    }
}

/// A plain write of the first chunk that moved `n` bytes leaves the pending
/// bytes without their first `n`.
pub proof fn law_plain_write_drops_written_prefix(chunks: Seq<Seq<u8>>, n: usize)
    requires
        chunks.len() > 0,
        n <= chunks[0].len(),
    ensures
        after_plain_write(chunks, IoOutcome::Done(n)).flatten() == chunks.flatten().skip(n as int),
        chunks.flatten() == chunks[0].take(n as int) + after_plain_write(chunks, IoOutcome::Done(n)).flatten(),
{
    lemma_flatten_skip_front(chunks, n as nat);
    lemma_flatten_front(chunks);
    assert(chunks.flatten() =~= chunks[0].take(n as int) + chunks.flatten().skip(n as int));
}

proof fn lemma_chunk_bytes_push(v: Seq<Vec<u8>>, x: Vec<u8>)
    ensures
        chunk_bytes(v.push(x)) == chunk_bytes(v).push(x@),
{
    assert(chunk_bytes(v.push(x)) =~= chunk_bytes(v).push(x@));
}

proof fn lemma_chunk_bytes_drop_first(v: Seq<Vec<u8>>)
    requires
        v.len() > 0,
    ensures
        chunk_bytes(v.subrange(1, v.len() as int)) == chunk_bytes(v).drop_first(),
{
    assert(chunk_bytes(v.subrange(1, v.len() as int)) =~= chunk_bytes(v).drop_first());
}

proof fn lemma_chunk_bytes_push_front(v: Seq<Vec<u8>>, x: Vec<u8>)
    ensures
        chunk_bytes(seq![x] + v) == seq![x@] + chunk_bytes(v),
{
    assert(chunk_bytes(seq![x] + v) =~= seq![x@] + chunk_bytes(v));
}

/// The actions that follow adding `added` bytes to a write buffer that held
/// `old_dsize`: ask for writability when the buffer was empty, and pause the
/// protocol when the high-water mark is crossed and it is not paused yet.
pub open spec fn buffering_actions(old_dsize: nat, added: nat, water_hi: nat, proto_paused: bool) -> Seq<TransportAction> {
    (if old_dsize == 0 {
        seq![TransportAction::AddInterest(write_only())]
    } else {
        Seq::empty()
    }) + (if old_dsize + added > water_hi && !proto_paused {
        seq![TransportAction::PauseWriting]
    } else {
        Seq::empty()
    })
}

/// What a plan for `write` decides.
#[derive(Clone, Copy, Debug, PartialEq, Eq, Structural)]
pub enum WritePlan {
    /// Nothing to write.
    Skip,
    /// Append the data to the write buffer.
    Buffer,
    /// Try writing the data to the socket at once.
    Direct,
}

/// The plan for writing `len` bytes.
pub open spec fn write_plan_spec(f: TransportFlags, len: nat) -> Result<WritePlan, TransportError> {
    if f.weof {
        Err(TransportError::WriteAfterEof)
    } else if len == 0 {
        Ok(WritePlan::Skip)
    } else if f.tls {
        Ok(WritePlan::Buffer)
    } else if f.write_buf_dsize == 0 {
        Ok(WritePlan::Direct)
    } else {
        Ok(WritePlan::Buffer)
    }
}

impl TCPTransport {
    /// Appends a chunk to the write buffer.
    fn buffer_push(&mut self, data: Vec<u8>)
        requires
            old(self).wf(),
            old(self).flags().write_buf_dsize + data@.len() <= usize::MAX,
        ensures
            final(self).tls_plaintext_fed() == old(self).tls_plaintext_fed(),
            final(self).same_session_record(old(self)),
            final(self).wf(),
            final(self).chunks() == old(self).chunks().push(data@),
            final(self).pending() == old(self).pending() + data@,
            final(self).flags() == (TransportFlags {
                write_buf_dsize: (old(self).flags().write_buf_dsize + data@.len()) as usize,
                ..old(self).flags()
            }),
    {
        let ghost old_v = self.write_buf@;
        let n = data.len();
        self.write_buf.push_back(data);
        self.write_buf_dsize = self.write_buf_dsize + n;
        proof {
            lemma_chunk_bytes_push(old_v, self.write_buf@.last());
            chunk_bytes(old_v).lemma_flatten_push(self.write_buf@.last()@);
        }
    }

    /// Puts a chunk back at the front of the write buffer.
    fn buffer_push_front(&mut self, data: Vec<u8>)
        requires
            old(self).wf(),
            old(self).flags().write_buf_dsize + data@.len() <= usize::MAX,
        ensures
            final(self).tls_plaintext_fed() == old(self).tls_plaintext_fed(),
            final(self).same_session_record(old(self)),
            final(self).wf(),
            final(self).chunks() == seq![data@] + old(self).chunks(),
            final(self).pending() == data@ + old(self).pending(),
            final(self).flags() == (TransportFlags {
                write_buf_dsize: (old(self).flags().write_buf_dsize + data@.len()) as usize,
                ..old(self).flags()
            }),
    {
        let ghost old_v = self.write_buf@;
        let ghost d = data;
        let n = data.len();
        self.write_buf.push_front(data);
        self.write_buf_dsize = self.write_buf_dsize + n;
        proof {
            lemma_chunk_bytes_push_front(old_v, d);
            let c = seq![d@] + chunk_bytes(old_v);
            lemma_flatten_front(c);
            assert(c.drop_first() =~= chunk_bytes(old_v));
        }
    }

    /// Takes the first chunk off the write buffer.
    fn buffer_pop_front(&mut self) -> (v: Vec<u8>)
        requires
            old(self).wf(),
            old(self).chunks().len() > 0,
        ensures
            final(self).tls_plaintext_fed() == old(self).tls_plaintext_fed(),
            final(self).same_session_record(old(self)),
            final(self).wf(),
            v@ == old(self).chunks()[0],
            final(self).chunks() == old(self).chunks().drop_first(),
            final(self).pending() == old(self).pending().skip(v@.len() as int),
            final(self).flags() == (TransportFlags {
                write_buf_dsize: (old(self).flags().write_buf_dsize - v@.len()) as usize,
                ..old(self).flags()
            }),
    {
        let ghost old_v = self.write_buf@;
        proof {
            lemma_flatten_front(chunk_bytes(old_v));
        }
        let v = self.write_buf.pop_front().unwrap();
        proof {
            lemma_chunk_bytes_drop_first(old_v);
            lemma_flatten_skip_front(chunk_bytes(old_v), v@.len());
        }
        self.write_buf_dsize = self.write_buf_dsize - v.len();
        v
    }

    /// Empties the write buffer.
    fn buffer_clear(&mut self)
        requires
            old(self).wf(),
        ensures
            final(self).tls_plaintext_fed() == old(self).tls_plaintext_fed(),
            final(self).same_session_record(old(self)),
            final(self).wf(),
            final(self).chunks() == Seq::<Seq<u8>>::empty(),
            final(self).flags() == (TransportFlags { write_buf_dsize: 0, ..old(self).flags() }),
    {
        self.write_buf = VecDeque::new();
        self.write_buf_dsize = 0;
        assert(self.chunks() =~= Seq::<Seq<u8>>::empty());
    }

    /// Appends nonempty data to the write buffer, with the actions that
    /// follow (see `buffering_actions`).
    fn buffer_data(&mut self, data: Vec<u8>) -> (acts: Vec<TransportAction>)
        requires
            old(self).wf(),
            data@.len() > 0,
            old(self).flags().write_buf_dsize + data@.len() <= usize::MAX,
        ensures
            final(self).wf(),
            final(self).chunks() == old(self).chunks().push(data@),
            final(self).pending() == old(self).pending() + data@,
            final(self).flags() == (TransportFlags {
                write_buf_dsize: (old(self).flags().write_buf_dsize + data@.len()) as usize,
                proto_paused: old(self).flags().proto_paused
                    || old(self).flags().write_buf_dsize + data@.len() > old(self).flags().water_hi,
                ..old(self).flags()
            }),
            acts@ == buffering_actions(
                old(self).flags().write_buf_dsize as nat,
                data@.len(),
                old(self).flags().water_hi as nat,
                old(self).flags().proto_paused,
            ),
    {
        let ghost dlen = data@.len();
        let mut acts: Vec<TransportAction> = Vec::new();
        if self.write_buf_dsize == 0 {
            acts.push(TransportAction::AddInterest(Interest::writable()));
        }
        self.buffer_push(data);
        if self.write_buf_dsize > self.water_hi && !self.proto_paused {
            self.proto_paused = true;
            acts.push(TransportAction::PauseWriting);
        }
        assert(acts@ =~= buffering_actions(
            old(self).flags().write_buf_dsize as nat,
            dlen,
            old(self).flags().water_hi as nat,
            old(self).flags().proto_paused,
        ));
        acts
    }

    /// How `write` handles `len` bytes: refused after a write EOF, skipped
    /// when empty, buffered on a TLS transport or behind buffered data, and
    /// written at once otherwise.
    pub fn write_plan(&self, len: usize) -> (r: Result<WritePlan, TransportError>)
        ensures
            r == write_plan_spec(self.flags(), len as nat),
            self.flags().weof ==> r == Err::<WritePlan, TransportError>(TransportError::WriteAfterEof),
            !self.flags().weof && len == 0 ==> r == Ok::<WritePlan, TransportError>(WritePlan::Skip),
            self.flags().tls && !self.flags().weof && len > 0 ==> r == Ok::<WritePlan, TransportError>(WritePlan::Buffer),
            !self.flags().tls && !self.flags().weof && len > 0 ==> r == Ok::<WritePlan, TransportError>(
                if self.flags().write_buf_dsize == 0 { WritePlan::Direct } else { WritePlan::Buffer },
            ),
    {
        if self.weof {
            Err(TransportError::WriteAfterEof)
        } else if len == 0 {
            Ok(WritePlan::Skip)
        } else if self.tls_conn.is_some() {
            Ok(WritePlan::Buffer)
        } else if self.write_buf_dsize == 0 {
            Ok(WritePlan::Direct)
        } else {
            Ok(WritePlan::Buffer)
        }
    }

    /// Buffers data that `write` does not try to write at once.
    pub fn write_buffered(&mut self, data: &[u8]) -> (acts: Vec<TransportAction>)
        requires
            old(self).wf(),
            data@.len() > 0,
            old(self).flags().write_buf_dsize + data@.len() <= usize::MAX,
        ensures
            final(self).wf(),
            final(self).chunks() == old(self).chunks().push(data@),
            final(self).pending() == old(self).pending() + data@,
            final(self).flags() == (TransportFlags {
                write_buf_dsize: (old(self).flags().write_buf_dsize + data@.len()) as usize,
                proto_paused: old(self).flags().proto_paused
                    || old(self).flags().write_buf_dsize + data@.len() > old(self).flags().water_hi,
                ..old(self).flags()
            }),
            acts@ == buffering_actions(
                old(self).flags().write_buf_dsize as nat,
                data@.len(),
                old(self).flags().water_hi as nat,
                old(self).flags().proto_paused,
            ),
    {
        let v = slice_from(data, 0);
        assert(v@ =~= data@);
        self.buffer_data(v)
    }

    /// Completes a `write` that tried the socket at once, given how the write
    /// ended: what was not written is buffered; a failed write closes the
    /// transport and reports the loss with the write's error.
    pub fn write_direct_done(&mut self, data: &[u8], outcome: IoOutcome) -> (acts: Vec<TransportAction>)
        requires
            old(self).wf(),
            old(self).flags().write_buf_dsize == 0,
            data@.len() > 0,
            outcome matches IoOutcome::Done(n) ==> n <= data@.len(),
        ensures
            final(self).wf(),
            match outcome {
                IoOutcome::Done(n) => if n == data@.len() {
                    final(self).chunks() == old(self).chunks() && final(self).flags() == old(self).flags()
                        && acts@.len() == 0
                } else {
                    final(self).pending() == data@.skip(n as int)
                        && final(self).chunks() == old(self).chunks().push(data@.skip(n as int))
                        && final(self).flags() == (TransportFlags {
                        write_buf_dsize: (data@.len() - n) as usize,
                        proto_paused: old(self).flags().proto_paused || data@.len() - n
                            > old(self).flags().water_hi,
                        ..old(self).flags()
                    }) && acts@ == buffering_actions(0, (data@.len() - n) as nat, old(self).flags().water_hi as nat, old(self).flags().proto_paused)
                },
                IoOutcome::Failed => final(self).chunks() == old(self).chunks()
                    && final(self).flags() == (TransportFlags { closing: true, ..old(self).flags() })
                    && acts@ == (if old(self).flags().closing {
                    Seq::<TransportAction>::empty()
                } else {
                    seq![TransportAction::RemoveInterest(read_only())]
                }) + seq![TransportAction::ConnectionLost(LostCause::WriteError), TransportAction::StreamClose],
                _ => final(self).pending() == data@
                    && final(self).chunks() == old(self).chunks().push(data@)
                    && final(self).flags() == (TransportFlags {
                    write_buf_dsize: data@.len() as usize,
                    proto_paused: old(self).flags().proto_paused || data@.len() > old(self).flags().water_hi,
                    ..old(self).flags()
                }) && acts@ == buffering_actions(0, data@.len(), old(self).flags().water_hi as nat, old(self).flags().proto_paused),
            },
    {
        let dl = data.len();
        proof {
            assert(old(self).pending().len() == 0);
            assert(old(self).pending() =~= Seq::<u8>::empty());
            assert(dl as nat == data@.len());
        }
        match outcome {
            IoOutcome::Done(n) => {
                if n == data.len() {
                    Vec::new()
                } else {
                    let rest = slice_from(data, n);
                    self.buffer_data(rest)
                }
            },
            IoOutcome::Failed => {
                let mut acts: Vec<TransportAction> = Vec::new();
                if !self.closing {
                    self.closing = true;
                    acts.push(TransportAction::RemoveInterest(Interest::readable()));
                }
                acts.push(TransportAction::ConnectionLost(LostCause::WriteError));
                acts.push(TransportAction::StreamClose);
                proof {
                    assert(acts@ =~= (if old(self).flags().closing {
                        Seq::<TransportAction>::empty()
                    } else {
                        seq![TransportAction::RemoveInterest(read_only())]
                    }) + seq![TransportAction::ConnectionLost(LostCause::WriteError), TransportAction::StreamClose]);
                }
                acts
            },
            _ => {
                let v = slice_from(data, 0);
                assert(v@ =~= data@);
                self.buffer_data(v)
            },
        }
    }
}

/// The bytes of `data` from position `n` on.
fn slice_from(data: &[u8], n: usize) -> (r: Vec<u8>)
    requires
        n <= data@.len(),
    ensures
        r@ == data@.skip(n as int),
{
    let mut r: Vec<u8> = Vec::new();
    let mut i = n;
    while i < data.len()
        invariant
            n <= i <= data@.len(),
            r@ == data@.subrange(n as int, i as int),
        decreases data@.len() - i,
    {
        r.push(data[i]);
        assert(data@.subrange(n as int, i + 1) == data@.subrange(n as int, i as int).push(data@[i as int]));
        i = i + 1;
    }
    r
}


/// A paused protocol is due to resume: the buffer is at or below the
/// low-water mark.
pub open spec fn resume_due(f: TransportFlags) -> bool {
    f.write_buf_dsize <= f.water_lo && f.proto_paused
}

/// The high-water mark `set_write_buffer_limits` asks for: `high`, else four
/// times `low`, else the default.
pub open spec fn water_hi_spec(high: Option<usize>, low: Option<usize>) -> int {
    match high {
        Some(h) => h as int,
        None => match low {
            Some(l) => l * 4,
            None => DEFAULT_WATER_HI as int,
        },
    }
}

/// The low-water mark `set_write_buffer_limits` asks for: `low`, else a
/// quarter of the high mark.
pub open spec fn water_lo_spec(high: Option<usize>, low: Option<usize>) -> int {
    match low {
        Some(l) => l as int,
        None => water_hi_spec(high, low) / 4,
    }
}

/// The actions that tell the protocol the connection is lost and drop the
/// transport from the loop.
pub open spec fn conn_lost_actions(cause: LostCause) -> Seq<TransportAction> {
    seq![TransportAction::ConnectionLost(cause), TransportAction::StreamClose]
}

/// How a read loop goes on after a receive that got `read` bytes and saw
/// (or not) the end of the stream.
#[derive(Clone, Copy, Debug, PartialEq, Eq, Structural)]
pub enum ReadNext {
    /// Hand the data to the protocol and receive again.
    DeliverAndAgain,
    /// Hand the data to the protocol, then handle the end of stream.
    DeliverThenEof,
    /// Handle the end of stream.
    Eof,
    /// Stop reading for now.
    Stop,
}

/// The decision of a read loop after one receive.
pub fn read_loop_next(read: usize, eof: bool) -> (r: ReadNext)
    ensures
        r == (if read > 0 {
            if eof {
                ReadNext::DeliverThenEof
            } else {
                ReadNext::DeliverAndAgain
            }
        } else if eof {
            ReadNext::Eof
        } else {
            ReadNext::Stop
        }),
{
    if read > 0 {
        if eof {
            ReadNext::DeliverThenEof
        } else {
            ReadNext::DeliverAndAgain
        }
    } else if eof {
        ReadNext::Eof
    } else {
        ReadNext::Stop
    }
}

/// One round of reading from a socket into a buffer of `cap` bytes that
/// holds `len` already.
#[derive(Clone, Copy, Debug, PartialEq, Eq, Structural)]
pub enum ReadIntoStep {
    /// Read again; this many bytes are in the buffer.
    More(usize),
    /// Stop; whether the peer closed the stream.
    Stop(bool),
}

/// How a read into the rest of the buffer ended decides the next round: an
/// end of stream with room left in the buffer means the peer closed; data
/// or an interruption reads again; anything else stops.
pub fn read_into_step(len: usize, cap: usize, outcome: IoOutcome) -> (r: ReadIntoStep)
    requires
        len <= cap,
        outcome matches IoOutcome::Done(n) ==> len + n <= cap,
    ensures
        r == match outcome {
            IoOutcome::Done(n) => if n == 0 {
                ReadIntoStep::Stop(len < cap)
            } else {
                ReadIntoStep::More((len + n) as usize)
            },
            IoOutcome::Interrupted => ReadIntoStep::More(len),
            _ => ReadIntoStep::Stop(false),
        },
{
    match outcome {
        IoOutcome::Done(n) => {
            if n == 0 {
                ReadIntoStep::Stop(len < cap)
            } else {
                ReadIntoStep::More(len + n)
            }
        },
        IoOutcome::Interrupted => ReadIntoStep::More(len),
        _ => ReadIntoStep::Stop(false),
    }
}

impl TCPTransport {
    /// Sets the water marks; refused, with nothing changed, when the high
    /// mark would be below the low one. The protocol is paused when the
    /// buffer is already above the new high mark and it is not paused yet.
    #[verifier::rlimit(30)]
    pub fn set_write_buffer_limits(&mut self, high: Option<usize>, low: Option<usize>) -> (r: Result<Vec<TransportAction>, TransportError>)
        requires
            old(self).wf(),
            high is None && low is Some ==> low.unwrap() * 4 <= usize::MAX,
        ensures
            final(self).wf(),
            final(self).chunks() == old(self).chunks(),
            ({
                let wh = water_hi_spec(high, low);
                let wl = water_lo_spec(high, low);
                if wh < wl {
                    r == Err::<Vec<TransportAction>, TransportError>(TransportError::BadWaterMarks)
                        && final(self).flags() == old(self).flags()
                } else {
                    let pause = old(self).flags().write_buf_dsize > wh && !old(self).flags().proto_paused;
                    r matches Ok(acts) && acts@ == (if pause {
                        seq![TransportAction::PauseWriting]
                    } else {
                        Seq::empty()
                    }) && final(self).flags() == (TransportFlags {
                        water_hi: wh as usize,
                        water_lo: wl as usize,
                        proto_paused: old(self).flags().proto_paused || pause,
                        ..old(self).flags()
                    })
                }
            }),
    {
        let wh: usize = match high {
            None => match low {
                None => DEFAULT_WATER_HI,
                Some(v) => v * 4,
            },
            Some(v) => v,
        };
        let wl: usize = match low {
            None => wh / 4,
            Some(v) => v,
        };
        assert(wh == water_hi_spec(high, low));
        assert(wl == water_lo_spec(high, low));
        if wh < wl {
            return Err(TransportError::BadWaterMarks);
        }
        self.water_hi = wh;
        self.water_lo = wl;
        let mut acts: Vec<TransportAction> = Vec::new();
        if self.write_buf_dsize > wh && !self.proto_paused {
            self.proto_paused = true;
            acts.push(TransportAction::PauseWriting);
        }
        Ok(acts)
    }

    /// After bytes left the write buffer: a paused protocol is resumed once
    /// the buffer is at or below the low-water mark.
    pub fn write_buf_size_decr(&mut self) -> (acts: Vec<TransportAction>)
        requires
            old(self).wf(),
        ensures
            old(self).flags().proto_paused && old(self).flags().write_buf_dsize <= old(self).flags().water_lo ==> acts@
                == seq![TransportAction::ResumeWriting] && !final(self).flags().proto_paused,
            !(old(self).flags().proto_paused && old(self).flags().write_buf_dsize <= old(self).flags().water_lo) ==> acts@
                .len() == 0 && final(self).flags() == old(self).flags(),
            final(self).tls_plaintext_fed() == old(self).tls_plaintext_fed(),
            final(self).tls_close_notify_requested() == old(self).tls_close_notify_requested(),
            final(self).wf(),
            final(self).chunks() == old(self).chunks(),
            acts@ == (if resume_due(old(self).flags()) {
                seq![TransportAction::ResumeWriting]
            } else {
                Seq::empty()
            }),
            final(self).flags() == (TransportFlags {
                proto_paused: old(self).flags().proto_paused && !resume_due(old(self).flags()),
                ..old(self).flags()
            }),
    {
        let mut acts: Vec<TransportAction> = Vec::new();
        if self.write_buf_dsize <= self.water_lo && self.proto_paused {
            self.proto_paused = false;
            acts.push(TransportAction::ResumeWriting);
        }
        acts
    }

    /// Stops reading: the socket is no longer polled for reading, unless the
    /// transport is closing or already paused.
    pub fn pause_reading(&mut self) -> (acts: Vec<TransportAction>)
        requires
            old(self).wf(),
        ensures
            final(self).wf(),
            final(self).chunks() == old(self).chunks(),
            if old(self).flags().closing || old(self).flags().paused {
                final(self).flags() == old(self).flags() && acts@.len() == 0
            } else {
                final(self).flags() == (TransportFlags { paused: true, ..old(self).flags() })
                    && acts@ == seq![TransportAction::RemoveInterest(read_only())]
            },
    {
        let mut acts: Vec<TransportAction> = Vec::new();
        if self.closing || self.paused {
            return acts;
        }
        self.paused = true;
        acts.push(TransportAction::RemoveInterest(Interest::readable()));
        acts
    }

    /// Resumes reading: the socket is polled for reading again, unless the
    /// transport is closing or not paused.
    pub fn resume_reading(&mut self) -> (acts: Vec<TransportAction>)
        requires
            old(self).wf(),
        ensures
            final(self).wf(),
            final(self).chunks() == old(self).chunks(),
            if old(self).flags().closing || !old(self).flags().paused {
                final(self).flags() == old(self).flags() && acts@.len() == 0
            } else {
                final(self).flags() == (TransportFlags { paused: false, ..old(self).flags() })
                    && acts@ == seq![TransportAction::AddInterest(read_only())]
            },
    {
        let mut acts: Vec<TransportAction> = Vec::new();
        if self.closing || !self.paused {
            return acts;
        }
        self.paused = false;
        acts.push(TransportAction::AddInterest(Interest::readable()));
        acts
    }

    /// Marks the end of writing; the socket's writing half is shut down at
    /// once when nothing is buffered. Nothing happens on a closing transport
    /// or a second call.
    pub fn write_eof(&mut self) -> (acts: Vec<TransportAction>)
        requires
            old(self).wf(),
        ensures
            final(self).wf(),
            final(self).chunks() == old(self).chunks(),
            if old(self).flags().closing || old(self).flags().weof {
                final(self).flags() == old(self).flags() && acts@.len() == 0
            } else {
                final(self).flags() == (TransportFlags { weof: true, ..old(self).flags() })
                    && acts@ == (if old(self).flags().write_buf_dsize == 0 {
                    seq![TransportAction::ShutdownWrite]
                } else {
                    Seq::empty()
                })
            },
    {
        let mut acts: Vec<TransportAction> = Vec::new();
        if self.closing || self.weof {
            return acts;
        }
        self.weof = true;
        if self.write_buf_dsize == 0 {
            acts.push(TransportAction::ShutdownWrite);
        }
        acts
    }

    /// Closes at once: buffered data is no longer polled for, reading stops
    /// if the transport was not closing yet, and the loss is reported
    /// (again, if it was).
    pub fn abort(&mut self) -> (acts: Vec<TransportAction>)
        requires
            old(self).wf(),
        ensures
            final(self).wf(),
            final(self).chunks() == old(self).chunks(),
            final(self).flags() == (TransportFlags { closing: true, ..old(self).flags() }),
            acts@ == (if old(self).flags().write_buf_dsize > 0 {
                seq![TransportAction::RemoveInterest(write_only())]
            } else {
                Seq::empty()
            }) + (if !old(self).flags().closing {
                seq![TransportAction::RemoveInterest(read_only())]
            } else {
                Seq::empty()
            }) + conn_lost_actions(LostCause::Clean),
    {
        let mut acts: Vec<TransportAction> = Vec::new();
        if self.write_buf_dsize > 0 {
            acts.push(TransportAction::RemoveInterest(Interest::writable()));
        }
        if !self.closing {
            self.closing = true;
            acts.push(TransportAction::RemoveInterest(Interest::readable()));
        }
        acts.push(TransportAction::ConnectionLost(LostCause::Clean));
        acts.push(TransportAction::StreamClose);
        proof {
            assert(acts@ =~= (if old(self).flags().write_buf_dsize > 0 {
                seq![TransportAction::RemoveInterest(write_only())]
            } else {
                Seq::empty()
            }) + (if !old(self).flags().closing {
                seq![TransportAction::RemoveInterest(read_only())]
            } else {
                Seq::empty()
            }) + conn_lost_actions(LostCause::Clean));
        }
        acts
    }

    /// Reports the loss of the connection and drops the transport.
    pub fn call_connection_lost(&self) -> (acts: Vec<TransportAction>)
        ensures
            acts@ == conn_lost_actions(LostCause::Clean),
    {
        let mut acts: Vec<TransportAction> = Vec::new();
        acts.push(TransportAction::ConnectionLost(LostCause::Clean));
        acts.push(TransportAction::StreamClose);
        assert(acts@ =~= conn_lost_actions(LostCause::Clean));
        acts
    }

    /// Closes the transport, at loop time `now` (nanoseconds). A plain
    /// transport stops reading and, once nothing is buffered, reports the
    /// loss; a TLS transport with buffered data defers its close alert, and
    /// otherwise sends it now and waits for the peer's. Nothing happens when
    /// the transport is closing already.
    pub fn close(&mut self, now: u128) -> (acts: Vec<TransportAction>)
        requires
            old(self).wf(),
        ensures
            !old(self).flags().closing && old(self).flags().tls && old(self).chunks().len() == 0
                ==> final(self).tls_close_notify_requested(),
            final(self).tls_plaintext_fed() == old(self).tls_plaintext_fed(),
            final(self).wf(),
            final(self).chunks() == old(self).chunks(),
            if old(self).flags().closing {
                final(self).flags() == old(self).flags() && acts@.len() == 0
            } else if !old(self).flags().tls {
                final(self).flags() == (TransportFlags { closing: true, ..old(self).flags() })
                    && acts@ == seq![TransportAction::RemoveInterest(read_only())] + (if old(self).flags().write_buf_dsize == 0 {
                    seq![TransportAction::RemoveInterest(write_only())] + conn_lost_actions(LostCause::Clean)
                } else {
                    Seq::empty()
                })
            } else if old(self).chunks().len() > 0 {
                final(self).flags() == (TransportFlags { closing: true, tls_pending_close: true, ..old(self).flags() })
                    && acts@.len() == 0
            } else {
                final(self).flags() == (TransportFlags {
                    closing: true,
                    tls_close_sent: true,
                    tls_close_sent_time: Some(now),
                    ..old(self).flags()
                }) && acts@.len() >= 1 && acts@.last() == TransportAction::RemoveInterest(write_only())
                    && (acts@.len() == 1 || (acts@.len() == 2 && acts@[0] is SendRaw))
            },
    {
        let mut acts: Vec<TransportAction> = Vec::new();
        if self.closing {
            return acts;
        }
        self.closing = true;
        if self.tls_conn.is_some() {
            if self.write_buf.len() > 0 {
                self.tls_pending_close = true;
                return acts;
            }
            let bytes = self.tls_close_alert(now);
            if bytes.len() > 0 {
                acts.push(TransportAction::SendRaw(bytes));
            }
            acts.push(TransportAction::RemoveInterest(Interest::writable()));
            return acts;
        }
        acts.push(TransportAction::RemoveInterest(Interest::readable()));
        if self.write_buf_dsize == 0 {
            acts.push(TransportAction::RemoveInterest(Interest::writable()));
            acts.push(TransportAction::ConnectionLost(LostCause::Clean));
            acts.push(TransportAction::StreamClose);
        }
        proof {
            assert(acts@ =~= seq![TransportAction::RemoveInterest(read_only())] + (if old(self).flags().write_buf_dsize == 0 {
                seq![TransportAction::RemoveInterest(write_only())] + conn_lost_actions(LostCause::Clean)
            } else {
                Seq::empty()
            }));
        }
        acts
    }

    /// Queues the TLS close alert and takes the bytes to send for it; marks
    /// the alert sent at `now`.
    fn tls_close_alert(&mut self, now: u128) -> (bytes: Vec<u8>)
        requires
            old(self).wf(),
            old(self).flags().tls,
        ensures
            final(self).tls_close_notify_requested(),
            final(self).tls_plaintext_fed() == old(self).tls_plaintext_fed(),
            final(self).tls_input_offered() == old(self).tls_input_offered(),
            final(self).tls_input_taken() == old(self).tls_input_taken(),
            final(self).wf(),
            final(self).chunks() == old(self).chunks(),
            final(self).flags() == (TransportFlags {
                tls_close_sent: true,
                tls_close_sent_time: Some(now),
                ..old(self).flags()
            }),
    {
        let mut bytes: Vec<u8> = Vec::new();
        if let Some(conn) = &mut self.tls_conn {
            conn_send_close_notify(conn);
            let (b, _ok) = conn_write_tls(conn);
            bytes = b;
        }
        self.tls_close_sent = true;
        self.tls_close_sent_time = Some(now);
        bytes
    }

    /// Closing on the read side, when the peer ended the stream: nothing to
    /// do when already closing. A TLS transport is marked closing and done.
    /// A plain transport with buffered data waits for it to be written;
    /// otherwise it stops polling for writes and reports the loss. Returns
    /// whether the transport is to be dropped.
    pub fn close_from_read_handle(&mut self) -> (r: (Vec<TransportAction>, bool))
        requires
            old(self).wf(),
        ensures
            final(self).wf(),
            final(self).chunks() == old(self).chunks(),
            if old(self).flags().closing {
                final(self).flags() == old(self).flags() && r.0@.len() == 0 && !r.1
            } else {
                &&& final(self).flags() == (TransportFlags { closing: true, ..old(self).flags() })
                &&& if old(self).flags().tls {
                    r.0@.len() == 0 && r.1
                } else if old(self).chunks().len() > 0 {
                    r.0@.len() == 0 && !r.1
                } else {
                    r.0@ == seq![
                        TransportAction::RemoveInterest(write_only()),
                        TransportAction::ConnectionLost(LostCause::Clean),
                    ] && r.1
                }
            },
    {
        let mut acts: Vec<TransportAction> = Vec::new();
        if self.closing {
            return (acts, false);
        }
        self.closing = true;
        if self.tls_conn.is_some() {
            return (acts, true);
        }
        if self.write_buf.len() > 0 {
            return (acts, false);
        }
        acts.push(TransportAction::RemoveInterest(Interest::writable()));
        acts.push(TransportAction::ConnectionLost(LostCause::Clean));
        assert(acts@ =~= seq![
            TransportAction::RemoveInterest(write_only()),
            TransportAction::ConnectionLost(LostCause::Clean),
        ]);
        (acts, true)
    }

    /// Closing on the write side once the buffer is flushed (or flushing
    /// failed): a closing transport reports the loss (with "socket transport
    /// failed" after a failure) and is to be dropped; otherwise, after a write
    /// EOF, the socket's writing half is to be shut down.
    pub fn close_from_write_handle(&self, errored: bool) -> (r: (Vec<TransportAction>, Option<bool>))
        ensures
            if self.flags().closing {
                r.0@ == seq![TransportAction::ConnectionLost(
                    if errored {
                        LostCause::TransportFailed
                    } else {
                        LostCause::Clean
                    },
                )] && r.1 == Some(true)
            } else {
                r.0@.len() == 0 && r.1 == (if self.flags().weof {
                    Some(false)
                } else {
                    None
                })
            },
    {
        let mut acts: Vec<TransportAction> = Vec::new();
        if self.closing {
            let cause = if errored {
                LostCause::TransportFailed
            } else {
                LostCause::Clean
            };
            acts.push(TransportAction::ConnectionLost(cause));
            assert(acts@ =~= seq![TransportAction::ConnectionLost(cause)]);
            return (acts, Some(true));
        }
        if self.weof {
            (acts, Some(false))
        } else {
            (acts, None)
        }
    }

    /// The end of stream, after reading interest was removed and the
    /// protocol's `eof_received` asked to keep the transport open (or not):
    /// kept open, nothing more; a TLS transport that sent its close alert
    /// reports the loss; otherwise the read side closes. Returns whether the
    /// transport is to be dropped.
    pub fn recv_eof(&mut self, keep_open: bool) -> (r: (Vec<TransportAction>, bool))
        requires
            old(self).wf(),
        ensures
            final(self).wf(),
            final(self).chunks() == old(self).chunks(),
            keep_open ==> final(self).flags() == old(self).flags() && r.0@.len() == 0 && !r.1,
            !keep_open && old(self).flags().tls && old(self).flags().tls_close_sent ==> final(self).flags()
                == old(self).flags() && r.0@ == conn_lost_actions(LostCause::Clean) && r.1,
            !keep_open && !(old(self).flags().tls && old(self).flags().tls_close_sent) ==> (if old(self).flags().closing {
                final(self).flags() == old(self).flags() && r.0@.len() == 0 && !r.1
            } else {
                &&& final(self).flags() == (TransportFlags { closing: true, ..old(self).flags() })
                &&& if old(self).flags().tls {
                    r.0@.len() == 0 && r.1
                } else if old(self).chunks().len() > 0 {
                    r.0@.len() == 0 && !r.1
                } else {
                    r.0@ == seq![
                        TransportAction::RemoveInterest(write_only()),
                        TransportAction::ConnectionLost(LostCause::Clean),
                    ] && r.1
                }
            }),
    {
        if keep_open {
            return (Vec::new(), false);
        }
        if self.tls_conn.is_some() && self.tls_close_sent {
            return (self.call_connection_lost(), true);
        }
        self.close_from_read_handle()
    }
}


/// Where a flush of the write buffer stands.
#[derive(Clone, Copy, Debug, PartialEq, Eq, Structural)]
pub enum WritePhase {
    /// The first chunk of a plain transport is being written.
    Plain,
    /// TLS bytes queued before the application data are being written.
    TlsHandshake,
    /// TLS bytes that encrypt the buffered data are being written.
    TlsData,
    /// The flush is over.
    Done,
}

/// A flush of the write buffer in progress. `total` counts the buffered
/// bytes consumed so far, `in_flight` the bytes handed out to be written,
/// `start` the buffered bytes when the flush began.
#[derive(Clone, Copy, Debug, PartialEq, Eq, Structural)]
pub struct WriteSession {
    pub phase: WritePhase,
    pub total: usize,
    pub in_flight: usize,
    pub start: usize,
}

/// What a flush asks for next.
#[derive(Debug, PartialEq, Eq)]
pub enum WriteStep {
    /// Write these bytes to the socket and report how it went.
    Send(Vec<u8>),
    /// The flush is over: the buffered bytes it consumed, or `None` when it
    /// failed.
    Finish(Option<usize>),
}

impl TCPTransport {
    /// The session is the one of a flush of this transport, waiting for the
    /// outcome of the bytes it handed out.
    pub open spec fn session_ok(&self, sess: WriteSession) -> bool {
        &&& sess.total + self.flags().write_buf_dsize == sess.start
        &&& match sess.phase {
            WritePhase::Plain => !self.flags().tls && self.chunks().len() > 0 && self.chunks()[0].len()
                == sess.in_flight,
            WritePhase::TlsHandshake => self.flags().tls && sess.total == 0,
            WritePhase::TlsData => self.flags().tls && self.flags().handshake_complete && self.chunks().len() == 0,
            WritePhase::Done => false,
        }
    }

    /// The step a flush returns keeps it consistent: bytes handed out leave
    /// the session waiting for their outcome.
    pub open spec fn step_ok(&self, sess: WriteSession, step: WriteStep) -> bool {
        match step {
            WriteStep::Send(b) => self.session_ok(sess) && sess.in_flight == b@.len() && (sess.phase
                == WritePhase::Plain ==> b@ == self.chunks()[0]),
            WriteStep::Finish(r) => sess.phase == WritePhase::Done && (r matches Some(t) ==> t
                == sess.total),
        }
    }

    /// What the part of a TLS flush after the handshake bytes did. Before
    /// the handshake completes, nothing: the flush ends having consumed
    /// nothing. After it, the buffered chunks were handed to the session's
    /// writer whole and in order, until the writer refused one (the flush
    /// then fails, with that chunk left at the front) or took them all (the
    /// flush then sends the session's output, or ends having consumed all).
    pub open spec fn tls_flushed(&self, old_t: &Self, sess: WriteSession, step: WriteStep) -> bool {
        let c = old_t.chunks();
        if !old_t.flags().handshake_complete {
            &&& step == WriteStep::Finish(Some(0))
            &&& self.chunks() == c
            &&& sess.total == 0
            &&& self.same_session_record(old_t)
        } else if step == WriteStep::Finish(None) {
            exists|j: int|
                0 <= j < c.len() && self.chunks() == #[trigger] c.skip(j) && self.tls_plaintext_fed()
                    == old_t.tls_plaintext_fed() + c.take(j) && self.tls_plaintext_offered()
                    == old_t.tls_plaintext_offered() + c.take(j + 1)
        } else {
            &&& self.chunks().len() == 0
            &&& self.tls_plaintext_fed() == old_t.tls_plaintext_fed() + c
            &&& self.tls_plaintext_offered() == old_t.tls_plaintext_offered() + c
            &&& sess.total == sess.start
            &&& (step is Send ==> sess.phase == WritePhase::TlsData)
            &&& (step is Finish ==> step == WriteStep::Finish(Some(sess.total)))
        }
    }

    /// The buffer changed only by losing consumed bytes from its front.
    pub open spec fn consumed_from_front(&self, old_t: &Self, consumed: int) -> bool {
        &&& 0 <= consumed <= old_t.pending().len()
        &&& self.pending() == old_t.pending().skip(consumed)
        &&& self.flags() == (TransportFlags { write_buf_dsize: self.flags().write_buf_dsize, ..old_t.flags() })
    }

    /// A copy of the first chunk of the write buffer.
    fn front_copy(&self) -> (v: Vec<u8>)
        requires
            self.chunks().len() > 0,
        ensures
            v@ == self.chunks()[0],
    {
        slice_from(self.write_buf[0].as_slice(), 0)
    }

    /// Starts flushing the write buffer.
    pub fn write_begin(&mut self) -> (r: (WriteSession, WriteStep))
        requires
            old(self).wf(),
        ensures
            final(self).wf(),
            final(self).step_ok(r.0, r.1),
            final(self).consumed_from_front(old(self), r.0.total as int),
            r.0.start == old(self).flags().write_buf_dsize,
            !old(self).flags().tls ==> final(self).chunks() == old(self).chunks() && if old(self).chunks().len() == 0 {
                r.1 == WriteStep::Finish(Some(0))
            } else {
                r.1 is Send && r.0.phase == WritePhase::Plain
            },
            !old(self).flags().tls ==> final(self).tls_plaintext_fed() == old(self).tls_plaintext_fed(),
            old(self).flags().tls ==> final(self).fed_from_front(old(self)),
            old(self).flags().tls && !old(self).flags().handshake_complete ==> final(self).chunks() == old(self).chunks()
                && r.0.total == 0 && if r.1 is Send {
                r.0.phase == WritePhase::TlsHandshake
            } else {
                r.1 == WriteStep::Finish(Some(0))
            },
            old(self).flags().tls ==> (r.1 matches WriteStep::Finish(Some(t)) ==> t == 0 || (t == r.0.start
                && final(self).chunks().len() == 0)),
            old(self).flags().tls ==> (r.1 is Send && r.0.phase == WritePhase::TlsHandshake && r.0.total == 0
                && final(self).chunks() == old(self).chunks() && final(self).same_session_record(old(self)))
                || final(self).tls_flushed(old(self), r.0, r.1),
    {
        let mut sess = WriteSession {
            phase: WritePhase::Done,
            total: 0,
            in_flight: 0,
            start: self.write_buf_dsize,
        };
        proof {
            assert(old(self).pending().skip(0) =~= old(self).pending());
            assert(old(self).chunks().skip(0) =~= old(self).chunks());
        }
        if self.tls_conn.is_none() {
            if self.write_buf.len() == 0 {
                return (sess, WriteStep::Finish(Some(0)));
            }
            let b = self.front_copy();
            sess.phase = WritePhase::Plain;
            sess.in_flight = b.len();
            return (sess, WriteStep::Send(b));
        }
        let (bytes, ok) = self.tls_take_output();
        if !ok {
            return (sess, WriteStep::Finish(None));
        }
        if bytes.len() > 0 {
            sess.phase = WritePhase::TlsHandshake;
            sess.in_flight = bytes.len();
            return (sess, WriteStep::Send(bytes));
        }
        let step = self.tls_after_handshake(&mut sess);
        (sess, step)
    }

    /// The TLS bytes the connection has to send, and whether taking them
    /// succeeded.
    fn tls_take_output(&mut self) -> (r: (Vec<u8>, bool))
        requires
            old(self).wf(),
            old(self).flags().tls,
        ensures
            r.1,
            final(self).tls_plaintext_fed() == old(self).tls_plaintext_fed(),
            final(self).same_session_record(old(self)),
            final(self).wf(),
            final(self).chunks() == old(self).chunks(),
            final(self).flags() == old(self).flags(),
    {
        match &mut self.tls_conn {
            Some(conn) => conn_write_tls(conn),
            None => (Vec::new(), false),
        }
    }

    /// After the handshake bytes: unless the handshake is still going on,
    /// every buffered chunk is handed to the connection for encryption and
    /// the resulting TLS bytes are to be written.
    fn tls_after_handshake(&mut self, sess: &mut WriteSession) -> (step: WriteStep)
        requires
            old(self).wf(),
            old(self).flags().tls,
            old(sess).total + old(self).flags().write_buf_dsize == old(sess).start,
            old(sess).total == 0,
        ensures
            final(self).wf(),
            final(self).step_ok(*final(sess), step),
            final(self).consumed_from_front(old(self), final(sess).total - old(sess).total),
            final(sess).start == old(sess).start,
            final(sess).total >= old(sess).total,
            !old(self).flags().handshake_complete ==> step == WriteStep::Finish(Some(0)) && final(sess).total
                == old(sess).total && final(self).chunks() == old(self).chunks(),
            final(self).fed_from_front(old(self)),
            step matches WriteStep::Finish(Some(t)) ==> t == 0 || (t == final(sess).start && final(self).chunks().len()
                == 0),
            final(self).tls_flushed(old(self), *final(sess), step),
    {
        proof {
            assert(old(self).pending().skip(0) =~= old(self).pending());
            assert(old(self).chunks().skip(0) =~= old(self).chunks());
            assert(old(self).tls_plaintext_offered() + old(self).chunks().take(0) =~= old(self).tls_plaintext_offered());
        }
        if !self.handshake_complete {
            sess.phase = WritePhase::Done;
            return WriteStep::Finish(Some(0));
        }
        let ghost t0 = sess.total;
        let ghost c0 = self.chunks();
        let ghost p0 = self.pending();
        while self.write_buf.len() > 0
            invariant
                self.wf(),
                self.flags().tls,
                sess.total + self.flags().write_buf_dsize == sess.start,
                sess.start == old(sess).start,
                sess.total >= t0,
                t0 == old(sess).total,
                c0 == old(self).chunks(),
                p0 == old(self).pending(),
                old(self).flags().handshake_complete,
                self.consumed_from_front(old(self), sess.total - t0),
                self.fed_from_front(old(self)),
                self.tls_plaintext_offered() == old(self).tls_plaintext_offered() + c0.take(
                    c0.len() - self.chunks().len(),
                ),
            decreases self.write_buf@.len(),
        {
            let front = self.front_copy();
            let ghost j0 = c0.len() - self.chunks().len();
            proof {
                assert(self.chunks()[0] == c0[j0]);
                assert(c0.take(j0 + 1) =~= c0.take(j0).push(c0[j0]));
            }
            let ok = match &mut self.tls_conn {
                Some(conn) => conn_write_plaintext(conn, front.as_slice()),
                None => false,
            };
            if !ok {
                sess.phase = WritePhase::Done;
                proof {
                    assert(self.chunks() == c0.skip(j0));
                }
                return WriteStep::Finish(None);
            }
            let ghost before = self.pending();
            let ghost j = c0.len() - self.chunks().len();
            let ghost cs = self.chunks();
            let v = self.buffer_pop_front();
            sess.total = sess.total + v.len();
            proof {
                assert(self.pending() =~= old(self).pending().skip(sess.total - t0));
                assert(cs[0] == c0[j]);
                assert(c0.skip(j + 1) =~= c0.skip(j).drop_first());
                assert(c0.take(j + 1) =~= c0.take(j).push(c0[j]));
            }
        }
        proof {
            assert(c0.take(c0.len() as int) =~= c0);
        }
        let (bytes, ok) = self.tls_take_output();
        if !ok {
            sess.phase = WritePhase::Done;
            return WriteStep::Finish(None);
        }
        if bytes.len() == 0 {
            sess.phase = WritePhase::Done;
            return WriteStep::Finish(Some(sess.total));
        }
        sess.phase = WritePhase::TlsData;
        sess.in_flight = bytes.len();
        WriteStep::Send(bytes)
    }

    /// Continues a flush with the outcome of writing the bytes it handed
    /// out. On a plain transport the buffer becomes
    /// `after_plain_write(chunks, outcome)`: the written bytes leave its
    /// front, and a failure drops it all.
    pub fn write_sent(&mut self, sess: &mut WriteSession, outcome: IoOutcome) -> (step: WriteStep)
        requires
            old(self).wf(),
            old(self).session_ok(*old(sess)),
            outcome matches IoOutcome::Done(n) ==> n <= old(sess).in_flight,
        ensures
            final(self).wf(),
            final(self).step_ok(*final(sess), step),
            final(sess).start == old(sess).start,
            final(sess).total >= old(sess).total,
            old(sess).phase == WritePhase::Plain && outcome == IoOutcome::Failed ==> final(self).chunks().len() == 0
                && step == WriteStep::Finish(None)
                && final(self).flags() == (TransportFlags { write_buf_dsize: 0, ..old(self).flags() }),
            !(old(sess).phase == WritePhase::Plain && outcome == IoOutcome::Failed) ==> final(self).consumed_from_front(
                old(self),
                final(sess).total - old(sess).total,
            ),
            old(sess).phase == WritePhase::Plain ==> final(self).tls_plaintext_fed() == old(self).tls_plaintext_fed(),
            old(sess).phase != WritePhase::Plain ==> final(self).fed_from_front(old(self)),
            old(sess).phase != WritePhase::Plain && !old(self).flags().handshake_complete ==> final(self).chunks()
                == old(self).chunks() && final(sess).total == old(sess).total && (step is Finish ==> step
                == WriteStep::Finish(Some(0)) || step == WriteStep::Finish(None)),
            old(sess).phase != WritePhase::Plain ==> (step matches WriteStep::Finish(Some(t)) ==> t == 0 || (t
                == final(sess).start && final(self).chunks().len() == 0)),
            old(sess).phase == WritePhase::TlsHandshake ==> match outcome {
                IoOutcome::Done(n) => if n == old(sess).in_flight {
                    final(self).tls_flushed(old(self), *final(sess), step)
                } else {
                    step == WriteStep::Finish(None) && final(self).chunks() == old(self).chunks()
                        && final(self).same_session_record(old(self))
                },
                IoOutcome::WouldBlock => step == WriteStep::Finish(Some(0)) && final(self).chunks() == old(self).chunks()
                    && final(self).same_session_record(old(self)),
                _ => step == WriteStep::Finish(None) && final(self).chunks() == old(self).chunks()
                    && final(self).same_session_record(old(self)),
            },
            old(sess).phase == WritePhase::TlsData ==> final(self).chunks() == old(self).chunks()
                && final(self).same_session_record(old(self)) && step == match outcome {
                IoOutcome::Done(n) => if n == old(sess).in_flight {
                    WriteStep::Finish(Some(old(sess).total))
                } else {
                    WriteStep::Finish(None)
                },
                IoOutcome::WouldBlock => WriteStep::Finish(Some(old(sess).total)),
                _ => WriteStep::Finish(None),
            },
            old(sess).phase == WritePhase::Plain ==> final(self).chunks() == after_plain_write(old(self).chunks(), outcome)
                && match outcome {
                IoOutcome::Done(n) => final(sess).total == old(sess).total + n && if n < old(sess).in_flight
                    || final(self).chunks().len() == 0 {
                    step == WriteStep::Finish(Some(final(sess).total))
                } else {
                    step is Send
                },
                IoOutcome::Interrupted => final(sess).total == old(sess).total && step is Send,
                IoOutcome::WouldBlock => step == WriteStep::Finish(Some(old(sess).total)),
                IoOutcome::Failed => true,
            },
    {
        if sess.phase == WritePhase::Plain {
            let step = self.plain_sent(sess, outcome);
            return step;
        }
        match sess.phase {
            WritePhase::TlsHandshake => {
                match outcome {
                    IoOutcome::Done(n) => {
                        if n == sess.in_flight {
                            self.tls_after_handshake(sess)
                        } else {
                            proof { self.lemma_unchanged_consumed_nothing(); }
                            sess.phase = WritePhase::Done;
                            WriteStep::Finish(None)
                        }
                    },
                    IoOutcome::WouldBlock => {
                        proof { self.lemma_unchanged_consumed_nothing(); }
                        sess.phase = WritePhase::Done;
                        WriteStep::Finish(Some(0))
                    },
                    _ => {
                        proof { self.lemma_unchanged_consumed_nothing(); }
                        sess.phase = WritePhase::Done;
                        WriteStep::Finish(None)
                    },
                }
            },
            _ => {
                proof { self.lemma_unchanged_consumed_nothing(); }
                let r = match outcome {
                    IoOutcome::Done(n) => {
                        if n == sess.in_flight {
                            Some(sess.total)
                        } else {
                            None
                        }
                    },
                    IoOutcome::WouldBlock => Some(sess.total),
                    _ => None,
                };
                sess.phase = WritePhase::Done;
                WriteStep::Finish(r)
            },
        }
    }

    proof fn lemma_unchanged_consumed_nothing(&self)
        ensures
            self.consumed_from_front(self, 0),
            self.fed_from_front(self),
    {
        assert(self.pending().skip(0) =~= self.pending());
        assert(self.chunks().skip(0) =~= self.chunks());
        assert(self.tls_plaintext_fed() + self.chunks().take(0) =~= self.tls_plaintext_fed());
    }

    /// One plain write's outcome applied to the write buffer.
    fn plain_sent(&mut self, sess: &mut WriteSession, outcome: IoOutcome) -> (step: WriteStep)
        requires
            old(self).wf(),
            old(self).session_ok(*old(sess)),
            old(sess).phase == WritePhase::Plain,
            outcome matches IoOutcome::Done(n) ==> n <= old(sess).in_flight,
        ensures
            final(self).wf(),
            final(self).step_ok(*final(sess), step),
            final(sess).start == old(sess).start,
            final(sess).total >= old(sess).total,
            final(self).tls_plaintext_fed() == old(self).tls_plaintext_fed(),
            final(self).chunks() == after_plain_write(old(self).chunks(), outcome),
            outcome == IoOutcome::Failed ==> final(self).chunks().len() == 0 && step == WriteStep::Finish(None)
                && final(self).flags() == (TransportFlags { write_buf_dsize: 0, ..old(self).flags() }),
            outcome != IoOutcome::Failed ==> final(self).consumed_from_front(old(self), final(sess).total - old(sess).total),
            match outcome {
                IoOutcome::Done(n) => final(sess).total == old(sess).total + n && if n < old(sess).in_flight
                    || final(self).chunks().len() == 0 {
                    step == WriteStep::Finish(Some(final(sess).total))
                } else {
                    step is Send
                },
                IoOutcome::Interrupted => final(sess).total == old(sess).total && step is Send,
                IoOutcome::WouldBlock => step == WriteStep::Finish(Some(old(sess).total)),
                IoOutcome::Failed => true,
            },
    {
        match outcome {
            IoOutcome::Done(n) => {
                let ghost c0 = self.chunks();
                proof {
                    lemma_flatten_skip_front(c0, n as nat);
                }
                let v = self.buffer_pop_front();
                sess.total = sess.total + n;
                if n < v.len() {
                    let rest = slice_from(v.as_slice(), n);
                    self.buffer_push_front(rest);
                    proof {
                        assert(self.chunks() =~= c0.update(0, c0[0].skip(n as int)));
                        assert(self.pending() =~= old(self).pending().skip(n as int));
                    }
                    sess.phase = WritePhase::Done;
                    return WriteStep::Finish(Some(sess.total));
                }
                if self.write_buf.len() == 0 {
                    sess.phase = WritePhase::Done;
                    return WriteStep::Finish(Some(sess.total));
                }
                let b = self.front_copy();
                sess.in_flight = b.len();
                WriteStep::Send(b)
            },
            IoOutcome::Interrupted => {
                proof { self.lemma_unchanged_consumed_nothing(); }
                let b = self.front_copy();
                WriteStep::Send(b)
            },
            IoOutcome::WouldBlock => {
                proof { self.lemma_unchanged_consumed_nothing(); }
                sess.phase = WritePhase::Done;
                WriteStep::Finish(Some(sess.total))
            },
            IoOutcome::Failed => {
                self.buffer_clear();
                sess.phase = WritePhase::Done;
                WriteStep::Finish(None)
            },
        }
    }
}


/// Nanoseconds in a millisecond.
pub const NANOS_PER_MILLI: u128 = 1_000_000;

/// The actions of closing on the write side (see `close_from_write_handle`).
pub open spec fn write_close_actions(closing: bool, errored: bool) -> Seq<TransportAction> {
    if closing {
        seq![TransportAction::ConnectionLost(if errored { LostCause::TransportFailed } else { LostCause::Clean })]
    } else {
        Seq::empty()
    }
}

/// What becomes of the stream after closing on the write side: dropped
/// (`Some(true)`), half shut down (`Some(false)`), or kept.
pub open spec fn write_close_result(closing: bool, weof: bool) -> Option<bool> {
    if closing {
        Some(true)
    } else if weof {
        Some(false)
    } else {
        None
    }
}

/// The action that carries out a stream-close decision.
pub open spec fn stream_close_actions(sc: Option<bool>) -> Seq<TransportAction> {
    match sc {
        Some(true) => seq![TransportAction::StreamClose],
        Some(false) => seq![TransportAction::ShutdownWrite],
        None => Seq::empty(),
    }
}

/// A flush that consumed bytes resumes a paused protocol once the buffer is
/// at or below the low-water mark.
pub open spec fn resumes(f: TransportFlags, written: Option<usize>) -> bool {
    written matches Some(w) && w > 0 && resume_due(f)
}

/// The actions of `write_buf_size_decr` after a flush.
pub open spec fn resume_actions(f: TransportFlags, written: Option<usize>) -> Seq<TransportAction> {
    if resumes(f, written) {
        seq![TransportAction::ResumeWriting]
    } else {
        Seq::empty()
    }
}

/// The flags after `write_buf_size_decr` after a flush.
pub open spec fn after_resume(f: TransportFlags, written: Option<usize>) -> TransportFlags {
    TransportFlags { proto_paused: f.proto_paused && !resumes(f, written), ..f }
}

/// The time elapsed since `since` at `now`, none when `now` is earlier.
pub open spec fn elapsed_since(now: u128, since: u128) -> int {
    if now >= since {
        now - since
    } else {
        0
    }
}

impl TCPTransport {
    /// A TLS transport that sent its close alert more than its close
    /// timeout ago is closed for good at `now` (nanoseconds): it is no longer
    /// polled and the loss is reported. `None` otherwise.
    pub fn write_handle_timeout(&self, now: u128) -> (r: Option<Vec<TransportAction>>)
        ensures
            (self.flags().tls_close_sent && self.flags().tls && self.flags().tls_close_sent_time is Some
                && elapsed_since(now, self.flags().tls_close_sent_time.unwrap())
                > self.flags().ssl_close_timeout * NANOS_PER_MILLI) ==> (r matches Some(acts) && acts@ == seq![
                TransportAction::RemoveInterest(read_only()),
                TransportAction::RemoveInterest(write_only()),
            ] + conn_lost_actions(LostCause::Clean)),
            !(self.flags().tls_close_sent && self.flags().tls && self.flags().tls_close_sent_time is Some
                && elapsed_since(now, self.flags().tls_close_sent_time.unwrap())
                > self.flags().ssl_close_timeout * NANOS_PER_MILLI) ==> r is None,
            self.flags().tls_close_sent && self.flags().tls ==> (self.flags().tls_close_sent_time matches Some(sent)
                && now >= sent && now - sent > self.flags().ssl_close_timeout * 1_000_000 ==> r is Some),
            self.flags().tls_close_sent_time matches Some(sent) && now >= sent && now - sent
                <= self.flags().ssl_close_timeout * 1_000_000 ==> r is None,
            self.flags().tls_close_sent_time matches Some(sent) && now < sent ==> r is None,
    {
        if self.tls_close_sent && self.tls_conn.is_some() {
            if let Some(sent) = self.tls_close_sent_time {
                let elapsed: u128 = if now >= sent {
                    now - sent
                } else {
                    0
                };
                let limit: u128 = (self.ssl_close_timeout as u128) * NANOS_PER_MILLI;
                if elapsed > limit {
                    let mut acts: Vec<TransportAction> = Vec::new();
                    acts.push(TransportAction::RemoveInterest(Interest::readable()));
                    acts.push(TransportAction::RemoveInterest(Interest::writable()));
                    acts.push(TransportAction::ConnectionLost(LostCause::Clean));
                    acts.push(TransportAction::StreamClose);
                    assert(acts@ =~= seq![
                        TransportAction::RemoveInterest(read_only()),
                        TransportAction::RemoveInterest(write_only()),
                    ] + conn_lost_actions(LostCause::Clean));
                    return Some(acts);
                }
            }
        }
        None
    }

    /// After a flush ended with `written` buffered bytes consumed (`None`
    /// when it failed), at `now`: a paused protocol may be resumed; once the
    /// buffer is empty, a deferred TLS close alert is sent and the stream
    /// dropped, or the write side closes; an empty buffer is no longer polled
    /// for writing; a failed flush closes the write side with the failure.
    #[verifier::spinoff_prover]
    #[verifier::rlimit(60)]
    pub fn write_handle_done(&mut self, written: Option<usize>, now: u128) -> (acts: Vec<TransportAction>)
        requires
            old(self).wf(),
        ensures
            written is Some && old(self).chunks().len() == 0 && old(self).flags().tls_pending_close
                && old(self).flags().tls ==> final(self).tls_close_notify_requested(),
            final(self).tls_plaintext_fed() == old(self).tls_plaintext_fed(),
            final(self).wf(),
            final(self).chunks() == old(self).chunks(),
            written is Some && old(self).chunks().len() > 0 ==> acts@ == resume_actions(old(self).flags(), written)
                && final(self).flags() == after_resume(old(self).flags(), written),
            written is Some && old(self).chunks().len() == 0 && old(self).flags().tls_pending_close ==> {
                let ra = resume_actions(old(self).flags(), written);
                &&& acts@.len() >= ra.len() + 2
                &&& acts@.len() <= ra.len() + 3
                &&& acts@.take(ra.len() as int) == ra
                &&& acts@.skip(acts@.len() - 2) == seq![TransportAction::RemoveInterest(write_only()), TransportAction::StreamClose]
                &&& acts@.len() == ra.len() + 3 ==> acts@[ra.len() as int] is SendRaw
                &&& final(self).flags() == (if old(self).flags().tls {
                    TransportFlags {
                        tls_close_sent: true,
                        tls_close_sent_time: Some(now),
                        tls_pending_close: false,
                        ..after_resume(old(self).flags(), written)
                    }
                } else {
                    after_resume(old(self).flags(), written)
                })
            },
            written is Some && old(self).chunks().len() == 0 && !old(self).flags().tls_pending_close ==> acts@
                == resume_actions(old(self).flags(), written) + write_close_actions(old(self).flags().closing, false)
                + seq![TransportAction::RemoveInterest(write_only())]
                + stream_close_actions(write_close_result(old(self).flags().closing, old(self).flags().weof))
                && final(self).flags() == after_resume(old(self).flags(), written),
            written is None ==> acts@ == write_close_actions(old(self).flags().closing, true)
                + (if old(self).chunks().len() == 0 { seq![TransportAction::RemoveInterest(write_only())] } else { Seq::empty() })
                + stream_close_actions(write_close_result(old(self).flags().closing, old(self).flags().weof))
                && final(self).flags() == old(self).flags(),
    {
        let ghost f0 = self.flags();
        match written {
            Some(w) => {
                let mut acts: Vec<TransportAction> = Vec::new();
                if w > 0 {
                    acts = self.write_buf_size_decr();
                }
                proof {
                    assert(acts@ =~= resume_actions(f0, written));
                    assert(self.flags() == after_resume(f0, written));
                }
                if self.write_buf.len() > 0 {
                    return acts;
                }
                let ghost ra = acts@;
                if self.tls_pending_close {
                    let mut rest = self.finish_pending_close(now);
                    let ghost rr = rest@;
                    acts.append(&mut rest);
                    proof {
                        assert(acts@ == ra + rr);
                        assert(acts@.take(ra.len() as int) =~= ra);
                        assert(acts@.skip(acts@.len() - 2) =~= rr.skip(rr.len() - 2));
                        if acts@.len() == ra.len() + 3 {
                            assert(acts@[ra.len() as int] == rr[0]);
                        }
                    }
                    acts
                } else {
                    let mut rest = self.finish_write_side(false);
                    let ghost rr = rest@;
                    acts.append(&mut rest);
                    proof {
                        let wca = write_close_actions(f0.closing, false);
                        let rem = seq![TransportAction::RemoveInterest(write_only())];
                        let sca = stream_close_actions(write_close_result(f0.closing, f0.weof));
                        assert(rr == wca + rem + sca);
                        vstd::seq_lib::lemma_concat_associative(ra, wca + rem, sca);
                        vstd::seq_lib::lemma_concat_associative(ra, wca, rem);
                    }
                    acts
                }
            },
            None => self.finish_write_side(true),
        }
    }

    /// Closing on the write side after a flush, as a sequence of actions:
    /// the report of `close_from_write_handle`, no more write polling once
    /// the buffer is empty, and what becomes of the stream.
    fn finish_write_side(&self, errored: bool) -> (acts: Vec<TransportAction>)
        ensures
            acts@ == write_close_actions(self.flags().closing, errored) + (if self.chunks().len() == 0 {
                seq![TransportAction::RemoveInterest(write_only())]
            } else {
                Seq::empty()
            }) + stream_close_actions(write_close_result(self.flags().closing, self.flags().weof)),
    {
        let (mut acts, sc) = self.close_from_write_handle(errored);
        let ghost a0 = acts@;
        if self.write_buf.len() == 0 {
            acts.push(TransportAction::RemoveInterest(Interest::writable()));
        }
        let ghost a1 = acts@;
        match sc {
            Some(true) => acts.push(TransportAction::StreamClose),
            Some(false) => acts.push(TransportAction::ShutdownWrite),
            None => {},
        }
        proof {
            assert(a0 == write_close_actions(self.flags().closing, errored));
            assert(acts@ =~= a1 + stream_close_actions(write_close_result(self.flags().closing, self.flags().weof)));
            assert(a1 =~= a0 + (if self.chunks().len() == 0 {
                seq![TransportAction::RemoveInterest(write_only())]
            } else {
                Seq::empty()
            }));
        }
        acts
    }

    /// Sends the deferred TLS close alert once the buffer is empty, and drops
    /// the stream.
    fn finish_pending_close(&mut self, now: u128) -> (acts: Vec<TransportAction>)
        requires
            old(self).wf(),
            old(self).flags().tls_pending_close,
        ensures
            old(self).flags().tls ==> final(self).tls_close_notify_requested(),
            final(self).tls_plaintext_fed() == old(self).tls_plaintext_fed(),
            final(self).wf(),
            final(self).chunks() == old(self).chunks(),
            acts@.len() >= 2,
            acts@.len() <= 3,
            acts@.skip(acts@.len() - 2) == seq![TransportAction::RemoveInterest(write_only()), TransportAction::StreamClose],
            acts@.len() == 3 ==> acts@[0] is SendRaw,
            final(self).flags() == (if old(self).flags().tls {
                TransportFlags {
                    tls_close_sent: true,
                    tls_close_sent_time: Some(now),
                    tls_pending_close: false,
                    ..old(self).flags()
                }
            } else {
                old(self).flags()
            }),
    {
        let mut acts: Vec<TransportAction> = Vec::new();
        if self.tls_conn.is_some() {
            let bytes = self.tls_close_alert(now);
            self.tls_pending_close = false;
            if bytes.len() > 0 {
                acts.push(TransportAction::SendRaw(bytes));
            }
        }
        let ghost a0 = acts@;
        acts.push(TransportAction::RemoveInterest(Interest::writable()));
        acts.push(TransportAction::StreamClose);
        assert(acts@.skip(acts@.len() - 2) =~= seq![TransportAction::RemoveInterest(write_only()), TransportAction::StreamClose]);
        acts
    }
}


/// What a TLS transport got from received bytes.
#[derive(Debug, PartialEq, Eq)]
pub struct TlsRecv {
    /// Decrypted application data, if any.
    pub data: Option<Vec<u8>>,
    /// Whether the stream is to be treated as ended.
    pub eof: bool,
    /// What to do before handing the data over.
    pub actions: Vec<TransportAction>,
}

/// The transports' states agree on everything but the TLS session's
/// progress: the handshake may have completed, `connection_made` may have
/// been scheduled, and the peer's close alert may have been received.
pub open spec fn tls_progress(old_f: TransportFlags, new_f: TransportFlags) -> bool {
    &&& new_f == (TransportFlags {
        handshake_complete: new_f.handshake_complete,
        connection_made_called: new_f.connection_made_called,
        tls_close_received: new_f.tls_close_received,
        ..old_f
    })
    &&& old_f.handshake_complete ==> new_f.handshake_complete
    &&& old_f.connection_made_called ==> new_f.connection_made_called
    &&& old_f.tls_close_received ==> new_f.tls_close_received
}

/// What a client starts with once its TLS session is set up: write
/// interest exactly when the session has bytes to send at once (its hello).
pub open spec fn client_start_actions(wants_write: bool) -> Seq<TransportAction> {
    if wants_write {
        seq![TransportAction::AddInterest(write_only())]
    } else {
        Seq::empty()
    }
}

/// The actions a new TLS client starts with, given whether its session
/// wants to write.
pub fn tls_client_start_actions(wants_write: bool) -> (acts: Vec<TransportAction>)
    ensures
        acts@ == client_start_actions(wants_write),
{
    let mut acts: Vec<TransportAction> = Vec::new();
    if wants_write {
        acts.push(TransportAction::AddInterest(Interest::writable()));
    }
    assert(acts@ =~= client_start_actions(wants_write));
    acts
}

/// What the TLS session reported after being fed received bytes.
#[derive(Clone, Copy, Debug, PartialEq, Eq, Structural)]
pub enum TlsIngest {
    /// Feeding the bytes to the session, or processing them, failed.
    Failed,
    /// The peer's close alert arrived.
    PeerClosed,
    /// The records were processed: whether the handshake is still going on,
    /// and whether the session has bytes to send.
    Processed { handshaking: bool, wants_write: bool },
}

/// What a receive on a TLS transport comes to: the data and end of stream
/// to report, the actions to carry out, the session's new progress, and
/// whether our close alert is to be queued in answer to the peer's.
#[derive(Debug, PartialEq, Eq)]
pub struct TlsDecision {
    pub data: Option<Vec<u8>>,
    pub eof: bool,
    pub actions: Vec<TransportAction>,
    pub handshake_complete: bool,
    pub connection_made_called: bool,
    pub close_received: bool,
    pub answer_close: bool,
}

/// The decision on received TLS bytes. `hc`, `cmc` and `close_sent` are
/// the transport's handshake, `connection_made` and close-alert flags
/// before the receive; `pt` is the plaintext taken from the session, which
/// counts only once the handshake is complete. A failure ends the stream
/// with nothing else; the peer's close alert ends it, marks the alert
/// received and is answered with ours. Otherwise the handshake completes
/// when the session stops handshaking, `connection_made` is scheduled
/// exactly when the handshake completes in this receive and it was not
/// called yet, write interest is asked for exactly when the session has
/// bytes to send, and non-empty plaintext of a completed handshake is
/// handed over; without it the stream counts as ended exactly when our
/// close alert was sent.
#[verifier::opaque]
pub open spec fn tls_decided(
    hc: bool,
    cmc: bool,
    close_sent: bool,
    ingest: TlsIngest,
    pt: Seq<u8>,
    data: Option<Vec<u8>>,
    eof: bool,
    actions: Seq<TransportAction>,
    hc2: bool,
    cmc2: bool,
    close_received: bool,
    answer_close: bool,
) -> bool {
    match ingest {
        TlsIngest::Failed => data is None && eof && actions.len() == 0 && hc2 == hc && cmc2 == cmc
            && !close_received && !answer_close,
        TlsIngest::PeerClosed => data is None && eof && actions.len() == 0 && hc2 == hc && cmc2 == cmc
            && close_received && answer_close,
        TlsIngest::Processed { handshaking, wants_write } => {
            &&& hc2 == (hc || !handshaking)
            &&& cmc2 == (cmc || (!hc && !handshaking))
            &&& actions == (if !hc && !handshaking && !cmc {
                seq![TransportAction::ScheduleConnectionMade]
            } else {
                Seq::empty()
            }) + (if wants_write {
                seq![TransportAction::AddInterest(write_only())]
            } else {
                Seq::empty()
            })
            &&& !close_received
            &&& !answer_close
            &&& if (hc || !handshaking) && pt.len() > 0 {
                data matches Some(d) && d@ == pt && !eof
            } else {
                data is None && eof == close_sent
            }
        },
    }
}

/// Whether a receive takes plaintext from the session: only once the
/// records were processed and the handshake is complete.
pub fn tls_reads_plaintext(handshake_complete: bool, ingest: TlsIngest) -> (r: bool)
    ensures
        r == (ingest matches TlsIngest::Processed { handshaking, .. } && (handshake_complete || !handshaking)),
{
    match ingest {
        TlsIngest::Processed { handshaking, .. } => handshake_complete || !handshaking,
        _ => false,
    }
}

/// Decides what received TLS bytes come to, from the transport's flags, what
/// the session reported, and the plaintext taken from it.
pub fn tls_decide(
    handshake_complete: bool,
    connection_made_called: bool,
    tls_close_sent: bool,
    ingest: TlsIngest,
    plaintext: Vec<u8>,
) -> (d: TlsDecision)
    ensures
        tls_decided(
            handshake_complete,
            connection_made_called,
            tls_close_sent,
            ingest,
            plaintext@,
            d.data,
            d.eof,
            d.actions@,
            d.handshake_complete,
            d.connection_made_called,
            d.close_received,
            d.answer_close,
        ),
{
    reveal(tls_decided);
    match ingest {
        TlsIngest::Failed => TlsDecision {
            data: None,
            eof: true,
            actions: Vec::new(),
            handshake_complete,
            connection_made_called,
            close_received: false,
            answer_close: false,
        },
        TlsIngest::PeerClosed => TlsDecision {
            data: None,
            eof: true,
            actions: Vec::new(),
            handshake_complete,
            connection_made_called,
            close_received: true,
            answer_close: true,
        },
        TlsIngest::Processed { handshaking, wants_write } => {
            let done = handshake_complete || !handshaking;
            let mut actions: Vec<TransportAction> = Vec::new();
            let mut cmc = connection_made_called;
            if !handshake_complete && !handshaking {
                if !connection_made_called {
                    cmc = true;
                    actions.push(TransportAction::ScheduleConnectionMade);
                }
            }
            let ghost a0 = actions@;
            if wants_write {
                actions.push(TransportAction::AddInterest(Interest::writable()));
            }
            proof {
                assert(a0 =~= (if !handshake_complete && !handshaking && !connection_made_called {
                    seq![TransportAction::ScheduleConnectionMade]
                } else {
                    Seq::empty()
                }));
                assert(actions@ =~= a0 + (if wants_write {
                    seq![TransportAction::AddInterest(write_only())]
                } else {
                    Seq::empty()
                }));
            }
            let (data, eof) = if done && plaintext.len() > 0 {
                (Some(plaintext), false)
            } else {
                (None, tls_close_sent)
            };
            TlsDecision {
                data,
                eof,
                actions,
                handshake_complete: done,
                connection_made_called: cmc,
                close_received: false,
                answer_close: false,
            }
        },
    }
}

/// What follows from a decision for the facts that receives keep.
proof fn lemma_tls_decided_facts(
    hc: bool,
    cmc: bool,
    close_sent: bool,
    ingest: TlsIngest,
    pt: Seq<u8>,
    data: Option<Vec<u8>>,
    eof: bool,
    actions: Seq<TransportAction>,
    hc2: bool,
    cmc2: bool,
    close_received: bool,
    answer_close: bool,
)
    requires
        tls_decided(hc, cmc, close_sent, ingest, pt, data, eof, actions, hc2, cmc2, close_received, answer_close),
    ensures
        hc ==> hc2,
        cmc ==> cmc2,
        data matches Some(d) ==> d@.len() > 0 && !eof && hc2,
        data is None && !eof ==> !close_sent,
        data is None && eof && actions.len() > 0 ==> close_sent,
        actions.contains(TransportAction::ScheduleConnectionMade) ==> !cmc && cmc2,
        cmc2 && !cmc ==> actions.contains(TransportAction::ScheduleConnectionMade),
        forall|i: int| 0 <= i < actions.len() ==> (actions[i] == TransportAction::ScheduleConnectionMade
            || actions[i] == TransportAction::AddInterest(write_only())),
        ingest matches TlsIngest::Processed { wants_write, .. } ==> (actions.contains(
            TransportAction::AddInterest(write_only()),
        ) <==> wants_write),
        !(ingest is Processed) ==> actions.len() == 0,
{
    reveal(tls_decided);
    match ingest {
        TlsIngest::Processed { handshaking, wants_write } => {
            let first = !hc && !handshaking && !cmc;
            let s1: Seq<TransportAction> = if first { seq![TransportAction::ScheduleConnectionMade] } else { Seq::empty() };
            let s2: Seq<TransportAction> = if wants_write { seq![TransportAction::AddInterest(write_only())] } else { Seq::empty() };
            assert(actions == s1 + s2);
            if first {
                assert(actions[0] == TransportAction::ScheduleConnectionMade);
            }
            if actions.contains(TransportAction::ScheduleConnectionMade) {
                let i = choose|i: int| 0 <= i < actions.len() && actions[i] == TransportAction::ScheduleConnectionMade;
                if !first {
                    assert(actions[i] == s2[i]);
                }
            }
            if wants_write {
                assert(actions[s1.len() as int] == TransportAction::AddInterest(write_only()));
            }
            if actions.contains(TransportAction::AddInterest(write_only())) {
                let i = choose|i: int| 0 <= i < actions.len() && actions[i] == TransportAction::AddInterest(write_only());
                if !wants_write {
                    assert(actions[i] == s1[i]);
                }
            }
        },
        _ => {},
    }
}

/// `connection_made` is scheduled only by the receive that first marks it
/// called.
pub open spec fn schedules_connection_made_once(old_f: TransportFlags, new_f: TransportFlags, acts: Seq<TransportAction>) -> bool {
    acts.contains(TransportAction::ScheduleConnectionMade) ==> !old_f.connection_made_called
        && new_f.connection_made_called
}

/// Over two receives in a row, the protocol's `connection_made` is scheduled
/// at most once.
pub proof fn law_connection_made_at_most_once(
    f0: TransportFlags,
    f1: TransportFlags,
    f2: TransportFlags,
    a1: Seq<TransportAction>,
    a2: Seq<TransportAction>,
)
    requires
        tls_progress(f0, f1),
        tls_progress(f1, f2),
        schedules_connection_made_once(f0, f1, a1),
        schedules_connection_made_once(f1, f2, a2),
    ensures
        !(a1.contains(TransportAction::ScheduleConnectionMade) && a2.contains(TransportAction::ScheduleConnectionMade)),
{
}

/// The most rounds of taking decrypted data from a connection in one receive.
pub const PLAINTEXT_ROUNDS: usize = usize::MAX;

impl TCPTransport {
    /// Sets up server-side TLS; the handshake starts over.
    pub fn initialize_tls_server(&mut self, config: rustls::ServerConfig) -> (r: Result<(), TlsSetupError>)
        requires
            old(self).wf(),
        ensures
            final(self).wf(),
            final(self).chunks() == old(self).chunks(),
            r is Ok ==> final(self).flags() == (TransportFlags { tls: true, handshake_complete: false, ..old(self).flags() }),
            r is Ok ==> final(self).tls_input_offered() == Seq::<u8>::empty() && final(self).tls_plaintext_offered()
                == Seq::<Seq<u8>>::empty() && !final(self).tls_close_notify_requested(),
            r is Err ==> final(self).flags() == old(self).flags() && r == Err::<(), TlsSetupError>(TlsSetupError::Connection),
    {
        match server_connection_new(Arc::new(config)) {
            Ok(conn) => {
                self.tls_conn = Some(conn);
                self.handshake_complete = false;
                Ok(())
            },
            Err(_) => Err(TlsSetupError::Connection),
        }
    }

    /// Sets up client-side TLS towards `server_name`; the handshake starts
    /// over, and the socket is polled for writing when the connection has
    /// bytes to send at once.
    pub fn initialize_tls_client(&mut self, config: rustls::ClientConfig, server_name: String) -> (r: Result<Vec<TransportAction>, TlsSetupError>)
        requires
            old(self).wf(),
        ensures
            final(self).wf(),
            final(self).chunks() == old(self).chunks(),
            match r {
                Ok(acts) => server_name_accepted(server_name@) && final(self).tls_input_offered() == Seq::<u8>::empty()
                    && final(self).tls_plaintext_offered() == Seq::<Seq<u8>>::empty()
                    && !final(self).tls_close_notify_requested()
                    && final(self).flags() == (TransportFlags { tls: true, handshake_complete: false, ..old(self).flags() })
                    && exists|wants_write: bool| acts@ == #[trigger] client_start_actions(wants_write),
                Err(e) => final(self).flags() == old(self).flags()
                    && (e == TlsSetupError::BadServerName <==> !server_name_accepted(server_name@)),
            },
    {
        let name = match server_name_try_from(server_name) {
            Some(n) => n,
            None => return Err(TlsSetupError::BadServerName),
        };
        let conn = match client_connection_new(Arc::new(config), name) {
            Ok(c) => c,
            Err(_) => return Err(TlsSetupError::Connection),
        };
        let mut conn = conn;
        let wants = conn_wants_write(&mut conn);
        self.tls_conn = Some(conn);
        self.handshake_complete = false;
        Ok(tls_client_start_actions(wants))
    }

    /// Handles TLS bytes just received (`raw`, empty when the read got
    /// none). A TLS error or the peer's close alert ends the stream (a close
    /// alert is answered). When the handshake has just completed, the
    /// protocol's `connection_made` is scheduled, once for the transport's
    /// life. When the connection has bytes to send, the socket is polled for
    /// writing. Once the handshake is complete, decrypted data is handed
    /// over. Without data, the stream counts as ended exactly when this side
    /// sent its close alert.
    #[verifier::spinoff_prover]
    #[verifier::rlimit(60)]
    pub fn tls_recv(&mut self, raw: &[u8]) -> (r: TlsRecv)
        requires
            old(self).wf(),
            old(self).flags().tls,
        ensures
            final(self).wf(),
            final(self).chunks() == old(self).chunks(),
            tls_progress(old(self).flags(), final(self).flags()),
            raw@.len() == 0 ==> r.data is None && r.eof == old(self).flags().tls_close_sent && r.actions@.len() == 0
                && final(self).flags() == old(self).flags(),
            r.data matches Some(d) ==> d@.len() > 0 && !r.eof && final(self).flags().handshake_complete,
            r.data is None && !r.eof ==> !final(self).flags().tls_close_sent,
            r.data is None && r.eof && r.actions@.len() > 0 ==> final(self).flags().tls_close_sent,
            schedules_connection_made_once(old(self).flags(), final(self).flags(), r.actions@),
            final(self).flags().connection_made_called && !old(self).flags().connection_made_called ==> r.actions@.contains(
                TransportAction::ScheduleConnectionMade,
            ),
            forall|i: int| 0 <= i < r.actions@.len() ==> (r.actions@[i] == TransportAction::ScheduleConnectionMade
                || r.actions@[i] == TransportAction::AddInterest(write_only())),
            raw@.len() > 0 ==> exists|ingest: TlsIngest, pt: Seq<u8>, cr: bool, answer: bool| #[trigger] tls_decided(
                old(self).flags().handshake_complete,
                old(self).flags().connection_made_called,
                old(self).flags().tls_close_sent,
                ingest,
                pt,
                r.data,
                r.eof,
                r.actions@,
                final(self).flags().handshake_complete,
                final(self).flags().connection_made_called,
                cr,
                answer,
            ) && final(self).flags().tls_close_received == (old(self).flags().tls_close_received || cr)
                && final(self).tls_close_notify_requested() == (old(self).tls_close_notify_requested() || answer)
                && (ingest matches TlsIngest::Processed { handshaking, wants_write } ==> final(self).tls_handshaking_answers()
                == old(self).tls_handshaking_answers().push(handshaking) && final(self).tls_wants_write_answers()
                == old(self).tls_wants_write_answers().push(wants_write))
                && (!(ingest is Processed) ==> final(self).tls_handshaking_answers() == old(self).tls_handshaking_answers()
                && final(self).tls_wants_write_answers() == old(self).tls_wants_write_answers()),
            raw@.len() > 0 && final(self).tls_wants_write_answers().len() > old(self).tls_wants_write_answers().len()
                ==> (r.actions@.contains(TransportAction::AddInterest(write_only()))
                <==> final(self).tls_wants_write_answers().last()),
            raw@.len() > 0 && final(self).tls_wants_write_answers().len() == old(self).tls_wants_write_answers().len()
                ==> r.actions@.len() == 0,
            raw@.len() > 0 ==> final(self).tls_input_offered() == old(self).tls_input_offered() + raw@,
            raw@.len() > 0 ==> exists|n: int| 0 <= n <= raw@.len() && #[trigger] old(self).tls_input_taken() + raw@.take(n)
                == final(self).tls_input_taken(),
            raw@.len() == 0 ==> final(self).same_session_record(old(self)),
            final(self).tls_plaintext_fed() == old(self).tls_plaintext_fed(),
    {
        if raw.len() == 0 {
            return TlsRecv { data: None, eof: self.tls_close_sent, actions: Vec::new() };
        }
        let ingest = self.tls_ingest(raw);
        let plaintext = if tls_reads_plaintext(self.handshake_complete, ingest) {
            self.tls_take_plaintext()
        } else {
            Vec::new()
        };
        let d = tls_decide(self.handshake_complete, self.connection_made_called, self.tls_close_sent, ingest, plaintext);
        if d.answer_close {
            if let Some(conn) = &mut self.tls_conn {
                conn_send_close_notify(conn);
            }
        }
        self.handshake_complete = d.handshake_complete;
        self.connection_made_called = d.connection_made_called;
        if d.close_received {
            self.tls_close_received = true;
        }
        let r = TlsRecv { data: d.data, eof: d.eof, actions: d.actions };
        proof {
            lemma_tls_decided_facts(
                old(self).flags().handshake_complete,
                old(self).flags().connection_made_called,
                old(self).flags().tls_close_sent,
                ingest,
                plaintext@,
                r.data,
                r.eof,
                r.actions@,
                d.handshake_complete,
                d.connection_made_called,
                d.close_received,
                d.answer_close,
            );
            assert(tls_decided(
                old(self).flags().handshake_complete,
                old(self).flags().connection_made_called,
                old(self).flags().tls_close_sent,
                ingest,
                plaintext@,
                r.data,
                r.eof,
                r.actions@,
                self.flags().handshake_complete,
                self.flags().connection_made_called,
                d.close_received,
                d.answer_close,
            ));
            assert(self.flags().tls_close_received == (old(self).flags().tls_close_received || d.close_received));
            assert(self.tls_close_notify_requested() == (old(self).tls_close_notify_requested() || d.answer_close));
        }
        r
    }

    /// Feeds received TLS bytes to the session and reports what it made of
    /// them.
    fn tls_ingest(&mut self, raw: &[u8]) -> (ingest: TlsIngest)
        requires
            old(self).wf(),
            old(self).flags().tls,
        ensures
            final(self).wf(),
            final(self).chunks() == old(self).chunks(),
            final(self).flags() == old(self).flags(),
            final(self).tls_input_offered() == old(self).tls_input_offered() + raw@,
            exists|n: int| 0 <= n <= raw@.len() && #[trigger] old(self).tls_input_taken() + raw@.take(n)
                == final(self).tls_input_taken(),
            final(self).tls_plaintext_fed() == old(self).tls_plaintext_fed(),
            final(self).tls_close_notify_requested() == old(self).tls_close_notify_requested(),
            ingest matches TlsIngest::Processed { handshaking, wants_write } ==> final(self).tls_handshaking_answers()
                == old(self).tls_handshaking_answers().push(handshaking) && final(self).tls_wants_write_answers()
                == old(self).tls_wants_write_answers().push(wants_write),
            !(ingest is Processed) ==> final(self).tls_handshaking_answers() == old(self).tls_handshaking_answers()
                && final(self).tls_wants_write_answers() == old(self).tls_wants_write_answers(),
    {
        let read = match &mut self.tls_conn {
            Some(conn) => conn_read_tls(conn, raw),
            None => Err(()),
        };
        let ghost taken: int = match read {
            Ok(n) => n as int,
            Err(_) => 0,
        };
        proof {
            assert(old(self).tls_input_taken() + raw@.take(0) =~= old(self).tls_input_taken());
            assert(old(self).tls_input_taken() + raw@.take(taken) == self.tls_input_taken());
        }
        let fed = read.is_ok();
        if !fed {
            TlsIngest::Failed
        } else {
            match &mut self.tls_conn {
                Some(conn) => match conn_process_new_packets(conn) {
                    Ok(io_state) => if io_state_peer_has_closed(&io_state) {
                        TlsIngest::PeerClosed
                    } else {
                        TlsIngest::Processed {
                            handshaking: conn_is_handshaking(conn),
                            wants_write: conn_wants_write(conn),
                        }
                    },
                    Err(_) => TlsIngest::Failed,
                },
                None => TlsIngest::Failed,
            }
        }
    }

    /// Takes the decrypted data the connection holds, until it has none (or
    /// fails to give more).
    fn tls_take_plaintext(&mut self) -> (data: Vec<u8>)
        requires
            old(self).wf(),
        ensures
            final(self).wf(),
            final(self).chunks() == old(self).chunks(),
            final(self).flags() == old(self).flags(),
            final(self).same_session_record(old(self)),
            !old(self).flags().tls ==> data@.len() == 0,
    {
        let mut data: Vec<u8> = Vec::new();
        let mut rounds: usize = 0;
        while rounds < PLAINTEXT_ROUNDS
            invariant
                !old(self).flags().tls ==> data@.len() == 0,
                self.wf(),
                self.chunks() == old(self).chunks(),
                self.flags() == old(self).flags(),
                self.same_session_record(old(self)),
            decreases PLAINTEXT_ROUNDS - rounds,
        {
            let got = match &mut self.tls_conn {
                Some(conn) => conn_read_plaintext(conn),
                None => Err(()),
            };
            match got {
                Ok(mut v) => {
                    if v.len() == 0 {
                        break;
                    }
                    data.append(&mut v);
                },
                Err(_) => {
                    break;
                },
            }
            rounds = rounds + 1;
        }
        data
    }
}


/// What a newly accepted stream starts with: nothing for a TLS server (the
/// protocol's `connection_made` waits for the handshake), a call of the
/// protocol's `connection_made` otherwise.
#[derive(Clone, Copy, Debug, PartialEq, Eq, Structural)]
pub enum StreamStart {
    Nothing,
    ConnectionMade,
}

/// A listening socket of a server, before it listens. `P` is the type of
/// the protocol factory.
pub struct TCPServer<P> {
    pub fd: i32,
    pub sfamily: i32,
    pub backlog: i32,
    pub protocol_factory: P,
    pub ssl_config: Option<rustls::ServerConfig>,
}

impl<P> TCPServer<P> {
    /// A plain server on a socket.
    pub fn from_fd(fd: i32, sfamily: i32, backlog: i32, protocol_factory: P) -> (s: Self)
        ensures
            s.fd == fd,
            s.sfamily == sfamily,
            s.backlog == backlog,
            s.protocol_factory == protocol_factory,
            s.ssl_config is None,
    {
        TCPServer { fd, sfamily, backlog, protocol_factory, ssl_config: None }
    }

    /// A TLS server on a socket.
    pub fn from_fd_ssl(fd: i32, sfamily: i32, backlog: i32, protocol_factory: P, ssl_config: rustls::ServerConfig) -> (s: Self)
        ensures
            s.fd == fd,
            s.sfamily == sfamily,
            s.backlog == backlog,
            s.protocol_factory == protocol_factory,
            s.ssl_config == Some(ssl_config),
    {
        TCPServer { fd, sfamily, backlog, protocol_factory, ssl_config: Some(ssl_config) }
    }

    /// The descriptor under which the loop knows the listening socket.
    pub fn listener_fd(&self) -> (r: usize)
        ensures
            r == self.fd as usize,
    {
        self.fd as usize
    }
}

/// What a listening socket's events need to know of its server.
pub struct TCPServerRef<P> {
    pub fd: usize,
    pub sfamily: i32,
    pub proto_factory: P,
    pub ssl_config: Option<rustls::ServerConfig>,
}

impl<P> TCPServerRef<P> {
    /// How a stream accepted on this server starts.
    pub fn stream_start(&self) -> (r: StreamStart)
        ensures
            r == (if self.ssl_config is Some {
                StreamStart::Nothing
            } else {
                StreamStart::ConnectionMade
            }),
    {
        if self.ssl_config.is_some() {
            StreamStart::Nothing
        } else {
            StreamStart::ConnectionMade
        }
    }

    /// The TLS configuration handed to new streams through the server
    /// reference: none is passed this way.
    pub fn get_ssl_config(&self) -> (r: Option<rustls::ServerConfig>)
        ensures
            r is None,
    {
        None
    }
}

/// A write asks for write interest exactly when it leaves data in a buffer
/// that was empty, and then once: `write_buffered` and an incomplete
/// `write_direct_done` both report `buffering_actions`, and a complete
/// direct write leaves the buffer empty with no action.
pub proof fn law_write_asks_write_interest_once(old_dsize: nat, added: nat, water_hi: nat, proto_paused: bool)
    requires
        added > 0,
    ensures
        buffering_actions(old_dsize, added, water_hi, proto_paused).contains(
            TransportAction::AddInterest(write_only()),
        ) <==> old_dsize == 0,
        forall|i: int, j: int|
            0 <= i < buffering_actions(old_dsize, added, water_hi, proto_paused).len() && 0 <= j
                < buffering_actions(old_dsize, added, water_hi, proto_paused).len()
                && buffering_actions(old_dsize, added, water_hi, proto_paused)[i] == TransportAction::AddInterest(
                write_only(),
            ) && buffering_actions(old_dsize, added, water_hi, proto_paused)[j] == TransportAction::AddInterest(
                write_only(),
            ) ==> i == j,
{
    let a = buffering_actions(old_dsize, added, water_hi, proto_paused);
    if old_dsize == 0 {
        assert(a[0] == TransportAction::AddInterest(write_only()));
    } else {
        if a.contains(TransportAction::AddInterest(write_only())) {
            let i = choose|i: int| 0 <= i < a.len() && a[i] == TransportAction::AddInterest(write_only());
            assert(a[i] == TransportAction::PauseWriting);
        }
    }
}

/// After `write_eof` on a transport that was neither closing nor at EOF
/// already (`f2`): it can no longer write EOF, every later write of data is
/// refused with `WriteAfterEof`, and its writing half is shut down, at once
/// when nothing is buffered (see `write_eof`), otherwise by the flush that
/// empties the buffer (`write_close_result`).
pub proof fn law_write_eof_ends_writing(f: TransportFlags, f2: TransportFlags, len: nat)
    requires
        !f.closing,
        !f.weof,
        f2 == (TransportFlags { weof: true, ..f }),
    ensures
        f2.weof,
        write_plan_spec(f2, len) == Err::<WritePlan, TransportError>(TransportError::WriteAfterEof),
        write_close_result(f2.closing, f2.weof) == Some(false),
        stream_close_actions(write_close_result(f2.closing, f2.weof)) == seq![TransportAction::ShutdownWrite],
{
}

/// A write of data on a transport with a TLS session is always buffered to be
/// encrypted, never written to the socket as it is; on a plain transport it
/// goes to the socket at once only when nothing is buffered ahead of it.
pub proof fn law_tls_writes_are_buffered(f: TransportFlags, len: nat)
    requires
        !f.weof,
        len > 0,
    ensures
        f.tls ==> write_plan_spec(f, len) == Ok::<WritePlan, TransportError>(WritePlan::Buffer),
        write_plan_spec(f, len) == Ok::<WritePlan, TransportError>(WritePlan::Direct) <==> !f.tls && f.write_buf_dsize
            == 0,
{
}

/// A paused protocol is resumed exactly when the buffered size is at or below
/// the low-water mark: it need not wait for the buffer to empty, and it is
/// not resumed above the mark.
pub proof fn law_resume_at_low_water(f: TransportFlags)
    ensures
        resume_due(f) <==> f.proto_paused && f.write_buf_dsize <= f.water_lo,
        f.proto_paused && f.write_buf_dsize > 0 && f.write_buf_dsize <= f.water_lo ==> resume_due(f),
{
}

/// The time since the close alert is the plain difference of loop times, in
/// nanoseconds; a time before the alert counts as none. So a TLS transport
/// whose alert went out more than `ssl_close_timeout` milliseconds before
/// `now` is past its timeout, and one whose alert is more recent is not.
pub proof fn law_close_timeout_in_nanoseconds(f: TransportFlags, now: u128, sent: u128)
    ensures
        now >= sent ==> elapsed_since(now, sent) == now - sent,
        now < sent ==> elapsed_since(now, sent) == 0,
        NANOS_PER_MILLI == 1_000_000,
        now >= sent ==> (elapsed_since(now, sent) > f.ssl_close_timeout * NANOS_PER_MILLI <==> now - sent
            > f.ssl_close_timeout * 1_000_000),
{
}

/// After received bytes are processed, write interest is asked for exactly
/// when the session has bytes to send (its handshake reply, for one), and
/// `connection_made` is scheduled exactly when the handshake completes in
/// this receive before it was ever called; `tls_ingest` reports the
/// session's own answers (see `tls_recv`, which records them).
pub proof fn law_tls_receive_follows_the_session(
    hc: bool,
    cmc: bool,
    close_sent: bool,
    handshaking: bool,
    wants_write: bool,
    pt: Seq<u8>,
    data: Option<Vec<u8>>,
    eof: bool,
    actions: Seq<TransportAction>,
    hc2: bool,
    cmc2: bool,
    close_received: bool,
    answer_close: bool,
)
    requires
        tls_decided(
            hc,
            cmc,
            close_sent,
            TlsIngest::Processed { handshaking, wants_write },
            pt,
            data,
            eof,
            actions,
            hc2,
            cmc2,
            close_received,
            answer_close,
        ),
    ensures
        actions.contains(TransportAction::AddInterest(write_only())) <==> wants_write,
        actions.contains(TransportAction::ScheduleConnectionMade) <==> (!hc && !handshaking && !cmc),
        hc2 <==> (hc || !handshaking),
{
    lemma_tls_decided_facts(
        hc,
        cmc,
        close_sent,
        TlsIngest::Processed { handshaking, wants_write },
        pt,
        data,
        eof,
        actions,
        hc2,
        cmc2,
        close_received,
        answer_close,
    );
    reveal(tls_decided);
}

} // verus!
