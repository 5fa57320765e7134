use crate::bindings::{
    deregister_fd, deregister_listener, register_fd, register_listener, reregister_fd,
    reregister_listener,
};
use crate::raw::{in_raw_range, SocketRaw};
use mio::net::TcpListener;
use mio::unix::SourceFd;
use mio::{Interest, Registry, Token};
use vstd::prelude::*;

verus! {

/// A bare, non-owning reference to a descriptor, re-used on every registration call.
#[derive(Clone, Copy, Debug)]
pub struct OsSocket {
    raw: SocketRaw,
}

impl View for OsSocket {
    type V = SocketRaw;

    closed spec fn view(&self) -> SocketRaw {
        self.raw
    }
}

impl OsSocket {
    /// The bare socket for the identifier `id`, which must fit the raw width.
    pub fn new(id: usize) -> (r: Self)
        requires
            in_raw_range(id as int),
        ensures
            r@ as int == id as int,
    {
        let raw = i32::try_from(id).unwrap();
        OsSocket { raw }
    }

    /// The bare socket for `id`, or the range error where `id` does not fit.
    pub fn try_new(id: usize) -> (r: Result<Self, std::num::TryFromIntError>)
        ensures
            r is Ok <==> in_raw_range(id as int),
            r matches Ok(s) ==> s@ as int == id as int,
    {
        match i32::try_from(id) {
            Ok(raw) => Ok(OsSocket { raw }),
            Err(e) => Err(e),
        }
    }

    /// The descriptor this socket refers to.
    pub fn raw(&self) -> (r: SocketRaw)
        ensures
            r == self@,
    {
        self.raw
    }

    /// mio's borrowed view of this descriptor, which registration calls hand on.
    pub fn as_source_fd(&self) -> (r: SourceFd<'_>)
        ensures
            *r.0 == self@,
    {
        SourceFd(&self.raw)
    }

    fn register(self, registry: &Registry, token: Token, interests: Interest) -> (r: Result<
        (),
        std::io::Error,
    >) {
        let mut fd = self.as_source_fd();
        register_fd(registry, &mut fd, token, interests)
    }

    fn reregister(self, registry: &Registry, token: Token, interests: Interest) -> (r: Result<
        (),
        std::io::Error,
    >) {
        let mut fd = self.as_source_fd();
        reregister_fd(registry, &mut fd, token, interests)
    }

    fn deregister(self, registry: &Registry) -> (r: Result<(), std::io::Error>) {
        let mut fd = self.as_source_fd();
        deregister_fd(registry, &mut fd)
    }
}

/// A source that a registry can watch: a bare descriptor or an owned listener.
pub enum Source {
    Socket(OsSocket),
    TCPListener(TcpListener),
}

impl Source {
    /// A bare source for the identifier `id`, which must fit the raw width.
    pub fn socket(id: usize) -> (r: Self)
        requires
            in_raw_range(id as int),
        ensures
            r matches Source::Socket(s) && s@ as int == id as int,
    {
        Source::Socket(OsSocket::new(id))
    }

    /// Watches the source for `interests` under `token`.
    pub fn register(&mut self, registry: &Registry, token: Token, interests: Interest) -> (r: Result<
        (),
        std::io::Error,
    >)
        ensures
            (*old(self)) is Socket ==> *final(self) == *old(self),
            (*old(self)) is TCPListener ==> (*final(self)) is TCPListener,
    {
        match self {
            Source::Socket(socket) => (*socket).register(registry, token, interests),
            Source::TCPListener(listener) => register_listener(listener, registry, token, interests),
        }
    }

    /// Changes the token or the interests under which the source is watched.
    pub fn reregister(&mut self, registry: &Registry, token: Token, interests: Interest) -> (r:
        Result<(), std::io::Error>)
        ensures
            (*old(self)) is Socket ==> *final(self) == *old(self),
            (*old(self)) is TCPListener ==> (*final(self)) is TCPListener,
    {
        match self {
            Source::Socket(socket) => (*socket).reregister(registry, token, interests),
            Source::TCPListener(listener) => reregister_listener(
                listener,
                registry,
                token,
                interests,
            ),
        }
    }

    /// Stops watching the source.
    pub fn deregister(&mut self, registry: &Registry) -> (r: Result<(), std::io::Error>)
        ensures
            (*old(self)) is Socket ==> *final(self) == *old(self),
            (*old(self)) is TCPListener ==> (*final(self)) is TCPListener,
    {
        match self {
            Source::Socket(socket) => (*socket).deregister(registry),
            Source::TCPListener(listener) => deregister_listener(listener, registry),
        }
    }
}

} // verus!
