//! Readiness sets as words.
//!
//! The poller's readiness type wraps a `usize`; the reactor keeps such
//! words in its registrations and combines them bit by bit. The bits and
//! the full set come from the poller's crate through the functions at the
//! end of this file.

use vstd::prelude::*;

verus! {

/// The source can be read.
pub const READABLE: usize = 0b0001;

/// The source can be written.
pub const WRITABLE: usize = 0b0010;

/// The source is in an error state.
pub const ERROR: usize = 0b0100;

/// The peer hung up.
pub const HUP: usize = 0b1000;

/// `all` can be the full readiness set of a platform: the four bits above
/// and at most three platform bits over them.
pub open spec fn is_all(all: usize) -> bool {
    all & 0xf == 0xf && all <= 0x7f
}

/// `mio::Ready::empty`, as a word: no bit.
#[verifier::external_body]
pub(crate) fn ready_empty() -> (bits: usize)
    ensures
        bits == 0,
{
    mio::Ready::empty().as_usize()
}

/// `mio::Ready::writable`, as a word: the writable bit alone.
#[verifier::external_body]
pub(crate) fn ready_writable() -> (bits: usize)
    ensures
        bits == WRITABLE,
{
    mio::Ready::writable().as_usize()
}

/// `mio::unix::UnixReady::hup`, as a word: the hang-up bit alone.
#[verifier::external_body]
pub(crate) fn ready_hup() -> (bits: usize)
    ensures
        bits == HUP,
{
    mio::unix::UnixReady::hup().as_usize()
}

/// `mio::Ready::all`, as a word. Which platform bits it holds depends on
/// the target; claimed is only what holds on each: the four common bits
/// are in it and nothing is over the seventh bit.
#[verifier::external_body]
pub(crate) fn ready_all() -> (bits: usize)
    ensures
        is_all(bits),
{
    mio::Ready::all().as_usize()
}

/// `mio::Ready::is_writable` on the set with word `bits`: whether the
/// writable bit is in it.
#[verifier::external_body]
pub(crate) fn is_writable(bits: usize) -> (yes: bool)
    ensures
        yes == (bits & WRITABLE == WRITABLE),
{
    mio::Ready::from_usize(bits).is_writable()
}

/// `mio::unix::UnixReady::is_hup` on the set with word `bits`: whether the
/// hang-up bit is in it.
#[verifier::external_body]
pub(crate) fn is_hup(bits: usize) -> (yes: bool)
    ensures
        yes == (bits & HUP == HUP),
{
    mio::unix::UnixReady::from(mio::Ready::from_usize(bits)).is_hup()
}

} // verus!
