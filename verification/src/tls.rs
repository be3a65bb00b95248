use vstd::prelude::*;
use std::sync::Arc;

verus! {

/// A TLS connection of the `rustls` crate (client or server side), carried
/// opaquely.
#[verifier::external_type_specification]
#[verifier::external_body]
pub struct ExTlsConnection(rustls::Connection);

/// A `rustls` server configuration, carried opaquely.
#[verifier::external_type_specification]
#[verifier::external_body]
pub struct ExTlsServerConfig(rustls::ServerConfig);

/// A `rustls` client configuration, carried opaquely.
#[verifier::external_type_specification]
#[verifier::external_body]
pub struct ExTlsClientConfig(rustls::ClientConfig);

/// An error of the `rustls` crate, carried opaquely.
#[verifier::external_type_specification]
#[verifier::external_body]
pub struct ExTlsError(rustls::Error);

/// The I/O state `rustls` reports after processing packets, carried opaquely.
#[verifier::external_type_specification]
#[verifier::external_body]
pub struct ExTlsIoState(rustls::IoState);

/// A server name for a TLS client connection, carried opaquely.
#[verifier::external_type_specification]
#[verifier::external_body]
pub struct ExTlsServerName<'a>(rustls::pki_types::ServerName<'a>);

/// The most plaintext bytes taken from a connection in one read.
pub const PLAINTEXT_CHUNK: usize = 4096;

/// A TLS session of `rustls` (client or server side), with a record of what
/// the library handed it: the received TLS bytes offered to `read_tls` and
/// those it took, the plaintext chunks handed to `write_all` and those it
/// took whole, whether `send_close_notify` was called, and the answers that
/// `is_handshaking` and `wants_write` gave, in order. Only the wrappers below, which
/// make those calls, change the record.
pub struct TlsSession {
    conn: rustls::Connection,
    input_offered: Ghost<Seq<u8>>,
    input_taken: Ghost<Seq<u8>>,
    plaintext_written: Ghost<Seq<Seq<u8>>>,
    plaintext_offered: Ghost<Seq<Seq<u8>>>,
    close_notify_requested: Ghost<bool>,
    handshaking_answers: Ghost<Seq<bool>>,
    wants_write_answers: Ghost<Seq<bool>>,
}

impl TlsSession {
    /// The received TLS bytes handed to `read_tls`, in order.
    pub closed spec fn input_offered(&self) -> Seq<u8> {
        self.input_offered@
    }

    /// The received TLS bytes that `read_tls` took, in order.
    pub closed spec fn input_taken(&self) -> Seq<u8> {
        self.input_taken@
    }

    /// The plaintext chunks that the session's writer took whole, in order.
    pub closed spec fn plaintext_written(&self) -> Seq<Seq<u8>> {
        self.plaintext_written@
    }

    /// The plaintext chunks handed to the session's writer, in order.
    pub closed spec fn plaintext_offered(&self) -> Seq<Seq<u8>> {
        self.plaintext_offered@
    }

    /// The answers that `is_handshaking` gave, in order.
    pub closed spec fn handshaking_answers(&self) -> Seq<bool> {
        self.handshaking_answers@
    }

    /// The answers that `wants_write` gave, in order.
    pub closed spec fn wants_write_answers(&self) -> Seq<bool> {
        self.wants_write_answers@
    }

    /// Whether `send_close_notify` was called: rustls then queues a
    /// `close_notify` alert, unless a `close_notify` or fatal alert was sent
    /// already.
    pub closed spec fn close_notify_requested(&self) -> bool {
        self.close_notify_requested@
    }

    /// A session with an empty record.
    pub open spec fn fresh(&self) -> bool {
        &&& self.input_offered() == Seq::<u8>::empty()
        &&& self.input_taken() == Seq::<u8>::empty()
        &&& self.plaintext_written() == Seq::<Seq<u8>>::empty()
        &&& self.plaintext_offered() == Seq::<Seq<u8>>::empty()
        &&& self.handshaking_answers() == Seq::<bool>::empty()
        &&& self.wants_write_answers() == Seq::<bool>::empty()
        &&& !self.close_notify_requested()
    }

    /// The record is that of `old_s`.
    pub open spec fn same_record(&self, old_s: &Self) -> bool {
        &&& self.input_offered() == old_s.input_offered()
        &&& self.input_taken() == old_s.input_taken()
        &&& self.plaintext_written() == old_s.plaintext_written()
        &&& self.plaintext_offered() == old_s.plaintext_offered()
        &&& self.handshaking_answers() == old_s.handshaking_answers()
        &&& self.wants_write_answers() == old_s.wants_write_answers()
        &&& self.close_notify_requested() == old_s.close_notify_requested()
    }
}

/// Starts a server-side session with `rustls::ServerConnection::new`.
/// Whether it succeeds is not stated; a new session has an empty record.
#[verifier::external_body]
pub(crate) fn server_connection_new(config: Arc<rustls::ServerConfig>) -> (r: Result<TlsSession, rustls::Error>)
    ensures
        r matches Ok(s) ==> s.fresh(),
{
    match rustls::ServerConnection::new(config) {
        Ok(c) => Ok(TlsSession {
            conn: rustls::Connection::Server(c),
            input_offered: Ghost(Seq::empty()),
            input_taken: Ghost(Seq::empty()),
            plaintext_written: Ghost(Seq::empty()),
            plaintext_offered: Ghost(Seq::empty()),
            close_notify_requested: Ghost(false),
            handshaking_answers: Ghost(Seq::empty()),
            wants_write_answers: Ghost(Seq::empty()),
        }),
        Err(e) => Err(e),
    }
}

/// Whether `rustls::pki_types::ServerName::try_from` accepts a name: a valid
/// DNS name or an IP address, by the rules of `rustls-pki-types`.
pub uninterp spec fn server_name_accepted(name: Seq<char>) -> bool;

/// Turns a host name into a server name with
/// `rustls::pki_types::ServerName::try_from`; it succeeds exactly on the
/// names that the crate accepts, which depends on the name alone.
#[verifier::external_body]
pub(crate) fn server_name_try_from(name: String) -> (r: Option<rustls::pki_types::ServerName<'static>>)
    ensures
        r is Some <==> server_name_accepted(name@),
{
    rustls::pki_types::ServerName::try_from(name).ok()
}

/// Starts a client-side session with `rustls::ClientConnection::new`.
/// Whether it succeeds is not stated; a new session has an empty record.
#[verifier::external_body]
pub(crate) fn client_connection_new(
    config: Arc<rustls::ClientConfig>,
    name: rustls::pki_types::ServerName<'static>,
) -> (r: Result<TlsSession, rustls::Error>)
    ensures
        r matches Ok(s) ==> s.fresh(),
{
    match rustls::ClientConnection::new(config, name) {
        Ok(c) => Ok(TlsSession {
            conn: rustls::Connection::Client(c),
            input_offered: Ghost(Seq::empty()),
            input_taken: Ghost(Seq::empty()),
            plaintext_written: Ghost(Seq::empty()),
            plaintext_offered: Ghost(Seq::empty()),
            close_notify_requested: Ghost(false),
            handshaking_answers: Ghost(Seq::empty()),
            wants_write_answers: Ghost(Seq::empty()),
        }),
        Err(e) => Err(e),
    }
}

/// Feeds received TLS bytes to a session once, with
/// `rustls::Connection::read_tls` over a cursor on `data`: `data` is offered,
/// and on `Ok(n)` the session took its first `n` bytes (a cursor hands out
/// its bytes from the front); on an error it took none. How many it takes
/// is not otherwise stated.
#[verifier::external_body]
pub(crate) fn conn_read_tls(s: &mut TlsSession, data: &[u8]) -> (r: Result<usize, ()>)
    ensures
        final(s).input_offered() == old(s).input_offered() + data@,
        match r {
            Ok(n) => n <= data@.len() && final(s).input_taken() == old(s).input_taken() + data@.take(n as int),
            Err(()) => final(s).input_taken() == old(s).input_taken(),
        },
        final(s).plaintext_written() == old(s).plaintext_written(),
        final(s).plaintext_offered() == old(s).plaintext_offered(),
        final(s).close_notify_requested() == old(s).close_notify_requested(),
        final(s).handshaking_answers() == old(s).handshaking_answers(),
        final(s).wants_write_answers() == old(s).wants_write_answers(),
{
    match s.conn.read_tls(&mut std::io::Cursor::new(data)) {
        Ok(n) => Ok(n),
        Err(_) => Err(()),
    }
}

/// Processes the TLS records a session holds, with
/// `rustls::Connection::process_new_packets`. The outcome depends on the
/// session's state and is not stated.
#[verifier::external_body]
pub(crate) fn conn_process_new_packets(s: &mut TlsSession) -> (r: Result<rustls::IoState, rustls::Error>)
    ensures
        final(s).same_record(old(s)),
{
    s.conn.process_new_packets()
}

/// Whether the peer sent its close alert, with `rustls::IoState::peer_has_closed`.
#[verifier::external_body]
pub(crate) fn io_state_peer_has_closed(st: &rustls::IoState) -> (r: bool)
{
    st.peer_has_closed()
}

/// Asks the session to queue a close alert, with
/// `rustls::CommonState::send_close_notify`.
#[verifier::external_body]
pub(crate) fn conn_send_close_notify(s: &mut TlsSession)
    ensures
        final(s).close_notify_requested(),
        final(s).input_offered() == old(s).input_offered(),
        final(s).input_taken() == old(s).input_taken(),
        final(s).plaintext_written() == old(s).plaintext_written(),
        final(s).plaintext_offered() == old(s).plaintext_offered(),
        final(s).handshaking_answers() == old(s).handshaking_answers(),
        final(s).wants_write_answers() == old(s).wants_write_answers(),
{
    s.conn.send_close_notify()
}

/// Whether the session is still in its handshake, with
/// `rustls::CommonState::is_handshaking`; the answer is recorded.
#[verifier::external_body]
pub(crate) fn conn_is_handshaking(s: &mut TlsSession) -> (r: bool)
    ensures
        final(s).handshaking_answers() == old(s).handshaking_answers().push(r),
        final(s).wants_write_answers() == old(s).wants_write_answers(),
        final(s).input_offered() == old(s).input_offered(),
        final(s).input_taken() == old(s).input_taken(),
        final(s).plaintext_written() == old(s).plaintext_written(),
        final(s).plaintext_offered() == old(s).plaintext_offered(),
        final(s).close_notify_requested() == old(s).close_notify_requested(),
{
    s.conn.is_handshaking()
}

/// Whether the session has TLS bytes to send, with
/// `rustls::CommonState::wants_write`; the answer is recorded.
#[verifier::external_body]
pub(crate) fn conn_wants_write(s: &mut TlsSession) -> (r: bool)
    ensures
        final(s).wants_write_answers() == old(s).wants_write_answers().push(r),
        final(s).handshaking_answers() == old(s).handshaking_answers(),
        final(s).input_offered() == old(s).input_offered(),
        final(s).input_taken() == old(s).input_taken(),
        final(s).plaintext_written() == old(s).plaintext_written(),
        final(s).plaintext_offered() == old(s).plaintext_offered(),
        final(s).close_notify_requested() == old(s).close_notify_requested(),
{
    s.conn.wants_write()
}

/// Takes decrypted bytes from the session with one `read` of its
/// `rustls::Reader` into a buffer of `PLAINTEXT_CHUNK` bytes; at most that
/// many come back. What comes back is not otherwise stated.
#[verifier::external_body]
pub(crate) fn conn_read_plaintext(s: &mut TlsSession) -> (r: Result<Vec<u8>, ()>)
    ensures
        r matches Ok(v) ==> v@.len() <= PLAINTEXT_CHUNK,
        final(s).same_record(old(s)),
{
    let mut buf = [0u8; PLAINTEXT_CHUNK];
    match std::io::Read::read(&mut s.conn.reader(), &mut buf) {
        Ok(n) => Ok(buf[..n].to_vec()),
        Err(_) => Err(()),
    }
}

/// Hands plaintext to the session for encryption with `write_all` on its
/// `rustls::Writer`; returns whether it took all of it, and then records
/// `data` as taken whole. What a failed call took in part is not recorded.
#[verifier::external_body]
pub(crate) fn conn_write_plaintext(s: &mut TlsSession, data: &[u8]) -> (r: bool)
    ensures
        final(s).plaintext_written() == (if r {
            old(s).plaintext_written().push(data@)
        } else {
            old(s).plaintext_written()
        }),
        final(s).plaintext_offered() == old(s).plaintext_offered().push(data@),
        final(s).input_offered() == old(s).input_offered(),
        final(s).input_taken() == old(s).input_taken(),
        final(s).close_notify_requested() == old(s).close_notify_requested(),
        final(s).handshaking_answers() == old(s).handshaking_answers(),
        final(s).wants_write_answers() == old(s).wants_write_answers(),
{
    std::io::Write::write_all(&mut s.conn.writer(), data).is_ok()
}

/// Takes the TLS bytes the session has to send, with
/// `rustls::Connection::write_tls` into a fresh buffer; returns the bytes it
/// wrote and whether it reported success. `write_tls` fails only when its
/// writer fails or claims more than it was given, and a `Vec<u8>` takes every
/// byte, so success is reported. Which bytes come out is not stated.
#[verifier::external_body]
pub(crate) fn conn_write_tls(s: &mut TlsSession) -> (r: (Vec<u8>, bool))
    ensures
        r.1,
        final(s).same_record(old(s)),
{
    let mut buf: Vec<u8> = Vec::new();
    let ok = s.conn.write_tls(&mut buf).is_ok();
    (buf, ok)
}

} // verus!
