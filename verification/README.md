# rloop

The decision logic of an asyncio-compatible event loop, verified with Verus.

- `src/` is the verified library: interest bookkeeping for polled
  descriptors (`interest`, `registry`), the ready queue and the timer queue
  (`timers`, `event_loop`), callback handles (`handles`), the servers'
  stream tables (`streams`), and the state machines of stream and datagram
  transports (`tcp`, `udp`, with TLS sessions of `rustls` behind the
  wrappers of `tls`). Every operation returns the effects to carry out
  (registry operations, transport actions) as plain values.
- `app/` is the Python extension module around it: the `mio` poller, the
  sockets, and the interpreter objects. It carries out what the library
  decides.
- `tests/` exercises the library on concrete values.
