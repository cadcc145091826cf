//! Address-dispatch index for an embeddable TCP/IP stack.
//!
//! Given an inbound packet's addressing fields, the [`DispatchTable`] finds
//! which locally-held socket should receive it, with BSD-style wildcard
//! fallback, and keeps a bijective handle-to-key index consistent as sockets
//! are created, rebound, connected, and closed.

pub mod assoc;
pub mod dispatch;
pub mod laws;
pub mod socket;
pub mod tracker;
pub mod wire;

pub use dispatch::AddError;
pub use dispatch::DispatchTable;
pub use dispatch::RemoveError;
pub use tracker::SocketState;
pub use tracker::SocketTracker;
pub use tracker::TrackedSocket;
