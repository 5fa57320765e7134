use mio::event::Source as _;
use vstd::prelude::*;

verus! {

/// The readiness registry of a mio event loop; opaque here.
#[verifier::external_type_specification]
#[verifier::external_body]
pub struct ExRegistry(mio::Registry);

/// A set of readiness conditions; opaque here.
#[verifier::external_type_specification]
#[verifier::external_body]
pub struct ExInterest(mio::Interest);

/// A correlation token: a public machine word.
#[verifier::external_type_specification]
pub struct ExToken(mio::Token);

/// mio's borrowed, non-owning view of a descriptor, for one registration call.
#[verifier::external_type_specification]
pub struct ExSourceFd<'a>(mio::unix::SourceFd<'a>);

/// A listening TCP socket of mio, owned by its holder; opaque here.
#[verifier::external_type_specification]
#[verifier::external_body]
pub struct ExTcpListener(mio::net::TcpListener);

/// A general-purpose socket of socket2, owning its descriptor; opaque here.
#[verifier::external_type_specification]
#[verifier::external_body]
pub struct ExSocket(socket2::Socket);

/// An error reported by the operating system; opaque here.
#[verifier::external_type_specification]
#[verifier::external_body]
pub struct ExIoError(std::io::Error);

/// Relies on mio's `Registry::register` for a `SourceFd`: it asks the registry to
/// watch the descriptor `*fd.0` for `interests` under `token`; the view owns nothing
/// and is left as it was.
#[verifier::external_body]
pub(crate) fn register_fd(
    registry: &mio::Registry,
    fd: &mut mio::unix::SourceFd<'_>,
    token: mio::Token,
    interests: mio::Interest,
) -> (r: Result<(), std::io::Error>)
    ensures
        *final(fd) == *old(fd),
{
    registry.register(fd, token, interests)
}

/// Relies on mio's `Registry::reregister` for a `SourceFd`: it changes the token or
/// the interests of the watch on `*fd.0`, and leaves the view as it was.
#[verifier::external_body]
pub(crate) fn reregister_fd(
    registry: &mio::Registry,
    fd: &mut mio::unix::SourceFd<'_>,
    token: mio::Token,
    interests: mio::Interest,
) -> (r: Result<(), std::io::Error>)
    ensures
        *final(fd) == *old(fd),
{
    registry.reregister(fd, token, interests)
}

/// Relies on mio's `Registry::deregister` for a `SourceFd`: it removes the watch on
/// `*fd.0`, and leaves the view as it was.
#[verifier::external_body]
pub(crate) fn deregister_fd(registry: &mio::Registry, fd: &mut mio::unix::SourceFd<'_>) -> (r:
    Result<(), std::io::Error>)
    ensures
        *final(fd) == *old(fd),
{
    registry.deregister(fd)
}

/// Relies on `TcpListener::register` of mio's `event::Source`.
#[verifier::external_body]
pub(crate) fn register_listener(
    listener: &mut mio::net::TcpListener,
    registry: &mio::Registry,
    token: mio::Token,
    interests: mio::Interest,
) -> (r: Result<(), std::io::Error>) {
    listener.register(registry, token, interests)
}

/// Relies on `TcpListener::reregister` of mio's `event::Source`.
#[verifier::external_body]
pub(crate) fn reregister_listener(
    listener: &mut mio::net::TcpListener,
    registry: &mio::Registry,
    token: mio::Token,
    interests: mio::Interest,
) -> (r: Result<(), std::io::Error>) {
    listener.reregister(registry, token, interests)
}

/// Relies on `TcpListener::deregister` of mio's `event::Source`.
#[verifier::external_body]
pub(crate) fn deregister_listener(
    listener: &mut mio::net::TcpListener,
    registry: &mio::Registry,
) -> (r: Result<(), std::io::Error>) {
    listener.deregister(registry)
}

} // verus!
