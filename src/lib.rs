//! Ownership, numeric conversion and readiness registration of raw socket
//! descriptors on Unix-like systems.
//!
//! A numeric identifier is checked against the descriptor width, then either
//! owned by a `SocketHandle` or wrapped, without ownership, in a `Source` that
//! a mio registry can watch.
mod bindings;
mod handle;
mod raw;
mod socket;

pub use handle::{lemma_conversion_round_trip, lemma_token_of_handle, SocketHandle};
pub use raw::{in_raw_range, socket_token, token_of, SocketRaw};
pub use socket::{OsSocket, Source};
