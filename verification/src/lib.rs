//! The decisions of a UDP socket, kept apart from its system calls.
//!
//! Each operation of the socket is split in two. What the system and the
//! runtime do - calls, waits, sleeps - belongs to the caller. What is decided
//! around it is here: which backend and which interest an operation uses, how
//! buffers become a datagram, when a failed send is tried again, what is made
//! of an address that the system reports, and when a datagram that was taken
//! counts as received.
pub mod address;
pub mod backoff;
pub mod error;
pub mod gather;
pub mod history;
pub mod interest;
pub mod laws;
pub mod nonblocking;
pub mod open;
pub mod platform;
pub mod receive;
pub mod send;

pub use crate::address::{AddressError, Endpoint, SocketError};
pub use crate::backoff::{would_block_retry_micros, Backoff, Step};
pub use crate::interest::{recv_interest, send_interest, try_recv_interest};
pub use crate::nonblocking::Attempt;
pub use crate::platform::{is_vectored_supported, Platform, UdpSocket};
pub use crate::receive::ReceiveBuffer;
pub use crate::send::BoundedSend;
