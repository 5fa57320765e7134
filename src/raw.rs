use vstd::prelude::*;

verus! {

/// The platform's raw descriptor: a 32-bit signed file descriptor.
pub type SocketRaw = i32;

/// Whether an integer identifier fits the raw descriptor's width.
pub open spec fn in_raw_range(id: int) -> bool {
    i32::MIN <= id <= i32::MAX
}

/// The correlation token of a descriptor: its numeric value, as a machine word.
pub open spec fn token_of(raw: SocketRaw) -> usize {
    raw as usize
}

/// The correlation token that an event loop uses for the descriptor `raw`.
pub fn socket_token(raw: SocketRaw) -> (r: usize)
    ensures
        r == token_of(raw),
        raw >= 0 ==> r as int == raw as int,
{
    raw as usize
}

} // verus!
