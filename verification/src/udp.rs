use vstd::prelude::*;
use crate::tcp::IoOutcome;

verus! {

/// Why a datagram could not be sent.
#[derive(Clone, Copy, Debug, PartialEq, Eq, Structural)]
pub enum SendError<E> {
    /// "Cannot send on closing transport".
    Closing,
    /// The given address could not be read: the error of reading it.
    BadAddress(E),
    /// "No remote address specified".
    NoRemoteAddress,
    /// "Socket would block": the datagram is dropped.
    WouldBlock,
    /// The send failed otherwise.
    Os,
}

/// What the datagram read loop does after one receive.
#[derive(Clone, Copy, Debug, PartialEq, Eq, Structural)]
pub enum UdpRecvStep {
    /// Hand the datagram to the protocol and receive again.
    Deliver,
    /// Receive again.
    Again,
    /// No more datagrams for now.
    Stop,
    /// Report the error to the protocol, close the socket, and stop.
    ErrorAndClose,
}

/// A datagram (UDP) transport. `A` is the type of a socket address.
pub struct UDPTransport<A> {
    fd: usize,
    closing: bool,
    remote_addr: Option<A>,
}

impl<A: Copy> UDPTransport<A> {
    pub closed spec fn spec_fd(&self) -> usize {
        self.fd
    }

    pub closed spec fn spec_closing(&self) -> bool {
        self.closing
    }

    pub closed spec fn spec_remote_addr(&self) -> Option<A> {
        self.remote_addr
    }

    /// A new transport, not closing, sending by default to `remote_addr`.
    pub fn new(fd: usize, remote_addr: Option<A>) -> (t: Self)
        ensures
            t.spec_fd() == fd,
            !t.spec_closing(),
            t.spec_remote_addr() == remote_addr,
    {
        UDPTransport { fd, closing: false, remote_addr }
    }

    pub fn fd(&self) -> (r: usize)
        ensures
            r == self.spec_fd(),
    {
        self.fd
    }

    pub fn is_closing(&self) -> (r: bool)
        ensures
            r == self.spec_closing(),
    {
        self.closing
    }

    /// The peer name is known when the transport has a remote address.
    pub fn has_peer(&self) -> (r: bool)
        ensures
            r == self.spec_remote_addr() is Some,
    {
        self.remote_addr.is_some()
    }

    /// Closes the transport; returns whether it was not closing yet, in
    /// which case the socket leaves the loop and the protocol's
    /// `connection_lost` is called.
    pub fn close(&mut self) -> (first: bool)
        ensures
            final(self).spec_closing(),
            first == !old(self).spec_closing(),
            final(self).spec_fd() == old(self).spec_fd(),
            final(self).spec_remote_addr() == old(self).spec_remote_addr(),
    {
        if self.closing {
            return false;
        }
        self.closing = true;
        true
    }

    /// Aborting a datagram transport closes it.
    pub fn abort(&mut self) -> (first: bool)
        ensures
            final(self).spec_closing(),
            first == !old(self).spec_closing(),
            final(self).spec_fd() == old(self).spec_fd(),
            final(self).spec_remote_addr() == old(self).spec_remote_addr(),
    {
        self.close()
    }

    /// The protocol of a datagram transport cannot be changed.
    pub fn set_protocol(&self) -> (r: Result<(), ()>)
        ensures
            r is Err,
    {
        Err(())
    }

    /// Where `sendto` sends: refused on a closing transport; otherwise the
    /// given address (if it could be read), else the remote address.
    pub fn sendto_target<E>(&self, addr: Option<Result<A, E>>) -> (r: Result<A, SendError<E>>)
        ensures
            self.spec_closing() ==> r == Err::<A, SendError<E>>(SendError::Closing),
            !self.spec_closing() ==> r == match addr {
                Some(Ok(a)) => Ok(a),
                Some(Err(e)) => Err(SendError::BadAddress(e)),
                None => match self.spec_remote_addr() {
                    Some(a) => Ok(a),
                    None => Err(SendError::NoRemoteAddress),
                },
            },
    {
        if self.closing {
            return Err(SendError::Closing);
        }
        match addr {
            Some(Ok(a)) => Ok(a),
            Some(Err(e)) => Err(SendError::BadAddress(e)),
            None => match self.remote_addr {
                Some(a) => Ok(a),
                None => Err(SendError::NoRemoteAddress),
            },
        }
    }
}

/// How a send ended, as `sendto` reports it.
pub fn send_result<E>(outcome: IoOutcome) -> (r: Result<(), SendError<E>>)
    ensures
        r == match outcome {
            IoOutcome::Done(_) => Ok::<(), SendError<E>>(()),
            IoOutcome::WouldBlock => Err(SendError::<E>::WouldBlock),
            _ => Err(SendError::<E>::Os),
        },
{
    match outcome {
        IoOutcome::Done(_) => Ok(()),
        IoOutcome::WouldBlock => Err(SendError::WouldBlock),
        _ => Err(SendError::Os),
    }
}

/// What the read loop does after one receive of a datagram.
pub fn recv_step(outcome: IoOutcome) -> (r: UdpRecvStep)
    ensures
        r == match outcome {
            IoOutcome::Done(_) => UdpRecvStep::Deliver,
            IoOutcome::WouldBlock => UdpRecvStep::Stop,
            IoOutcome::Interrupted => UdpRecvStep::Again,
            IoOutcome::Failed => UdpRecvStep::ErrorAndClose,
        },
{
    match outcome {
        IoOutcome::Done(_) => UdpRecvStep::Deliver,
        IoOutcome::WouldBlock => UdpRecvStep::Stop,
        IoOutcome::Interrupted => UdpRecvStep::Again,
        IoOutcome::Failed => UdpRecvStep::ErrorAndClose,
    }
}

} // verus!
