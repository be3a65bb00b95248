//! The decision logic of an asyncio-compatible event loop: interest
//! bookkeeping for polled sources, the ready queue and timer queue, callback
//! handles, and the state machines of stream and datagram transports.

pub mod interest;
pub mod handles;
pub mod timers;
pub mod papaya_types;
pub mod registry;
pub mod streams;
pub mod event_loop;
pub mod tls;
pub mod tcp;
pub mod udp;
pub mod config;
pub mod address;
