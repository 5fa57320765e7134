use crate::raw::{in_raw_range, token_of, SocketRaw};
use mio::unix::SourceFd;
use socket2::Socket;
use std::num::TryFromIntError;
use vstd::prelude::*;

verus! {

/// Exclusive owner of one open descriptor, closed once when the owner is dropped,
/// unless ownership is handed on by `into_socket2`.
pub struct SocketHandle {
    raw: SocketRaw,
    owned: Socket,
}

impl View for SocketHandle {
    type V = SocketRaw;

    closed spec fn view(&self) -> SocketRaw {
        self.raw
    }
}

impl SocketHandle {
    /// The socket that owns the descriptor.
    pub closed spec fn socket(&self) -> Socket {
        self.owned
    }

    /// The owner of the descriptor `raw`, given `owned`, the socket that owns it.
    /// Keeping the two in step is the caller's part: the handle reports and
    /// registers `raw`, and closes what `owned` owns.
    pub fn adopt(raw: SocketRaw, owned: Socket) -> (r: Self)
        ensures
            r@ == raw,
            r.socket() == owned,
    {
        SocketHandle { raw, owned }
    }

    /// The raw descriptor for a signed 32-bit identifier: every such value fits.
    pub fn raw_from_i32(fd: i32) -> (r: Result<SocketRaw, TryFromIntError>)
        ensures
            r == Ok::<SocketRaw, TryFromIntError>(fd),
    {
        Ok(fd)
    }

    /// The raw descriptor for an unsigned identifier, or the range error where it
    /// does not fit.
    pub fn raw_from_usize(fd: usize) -> (r: Result<SocketRaw, TryFromIntError>)
        ensures
            r is Ok <==> in_raw_range(fd as int),
            r matches Ok(raw) ==> raw as int == fd as int,
    {
        i32::try_from(fd)
    }

    /// The descriptor this handle owns.
    pub fn raw(&self) -> (r: SocketRaw)
        ensures
            r == self@,
    {
        self.raw
    }

    /// The correlation token of the descriptor this handle owns.
    pub fn token(&self) -> (r: usize)
        ensures
            r == token_of(self@),
    {
        crate::raw::socket_token(self.raw)
    }

    /// Hands ownership of the descriptor to a general-purpose socket; the handle is
    /// consumed and closes nothing.
    pub fn into_socket2(self) -> (r: Socket)
        ensures
            r == self.socket(),
    {
        self.owned
    }

    /// A borrowed view of the descriptor for one registration call; it owns nothing.
    pub fn as_mio_source(&self) -> (r: SourceFd<'_>)
        ensures
            *r.0 == self@,
    {
        SourceFd(&self.raw)
    }
}

/// A non-negative identifier that fits the raw width converts to a descriptor
/// whose correlation token is the identifier again.
pub proof fn lemma_conversion_round_trip(id: usize, raw: SocketRaw)
    requires
        in_raw_range(id as int),
        raw as int == id as int,
    ensures
        token_of(raw) == id,
{
}

/// The token of a descriptor equals the token of the handle that owns it.
pub proof fn lemma_token_of_handle(raw: SocketRaw, handle: SocketHandle)
    requires
        handle@ == raw,
    ensures
        token_of(handle@) == token_of(raw),
{
}

} // verus!
