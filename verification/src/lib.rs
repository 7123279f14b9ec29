//! A STUN binding client as a state machine that performs no I/O.
//!
//! The machine consumes received datagrams and the passage of time, and
//! produces datagrams to send, a deadline to wake at, and the public address
//! that the server observed. Sockets and clocks belong to the caller.

pub mod address;
pub mod codec;
pub mod binding;
pub mod laws;
pub mod timer;

pub use crate::address::SocketAddress;
pub use crate::binding::{BindingState, StunBinding, Timestamp, Transmit};
pub use crate::codec::{make_binding_request, parse_binding_response};
