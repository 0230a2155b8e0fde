//! A source together with its registration and the readiness that was
//! taken from the reactor and not yet used up.

use std::task::{Poll, Waker};
use vstd::prelude::*;

use super::driver::{Direction, Inner};
use super::ready;
use super::registration::{ready_bits, taken, IoError, Registration};
use super::scheduled::Scheduled;
use crate::executor::task::waker::std_wake_by_ref;

verus! {

broadcast use vstd::std_specs::hash::group_hash_axioms;

/// A source `E` registered with the reactor.
pub struct PollEvented<E> {
    pub io: Option<E>,
    pub inner: Cached,
}

/// The registration of a source and the readiness cached for each
/// direction.
pub struct Cached {
    pub registration: Registration,
    pub read_readiness: usize,
    pub write_readiness: usize,
}

#[verifier::external_type_specification]
pub struct ExErrorKind(std::io::ErrorKind);

/// `std::io::Error::kind`: the kind of the error, which is `error_kind` of it.
#[verifier::external_body]
fn kind_of(e: &std::io::Error) -> (kind: std::io::ErrorKind)
    ensures
        kind == error_kind(*e),
{
    e.kind()
}

/// Whether an error of kind `kind` only says that the call would block.
pub fn would_block(kind: std::io::ErrorKind) -> (yes: bool)
    ensures
        yes == kind is WouldBlock,
{
    match kind {
        std::io::ErrorKind::WouldBlock => true,
        _ => false,
    }
}

/// Whether an I/O call failed, and failed only because it would have blocked.
pub fn is_wouldblock<T>(r: &std::io::Result<T>) -> (yes: bool)
    ensures
        yes == spec_is_wouldblock(*r),
{
    match r {
        Ok(_) => false,
        Err(e) => would_block(kind_of(e)),
    }
}

/// The kind of an I/O error: what `std::io::Error::kind` answers for it.
pub uninterp spec fn error_kind(e: std::io::Error) -> std::io::ErrorKind;

/// An I/O call that gave `r` failed, with an error of the kind that says
/// the call would have blocked. A call that succeeded did not.
pub open spec fn spec_is_wouldblock<T>(r: std::io::Result<T>) -> bool {
    match r {
        Ok(_) => false,
        Err(e) => error_kind(e) is WouldBlock,
    }
}

proof fn lemma_read_drained(r: usize, all: usize, mask: usize)
    by (bit_vector)
    requires
        all & 0xf == 0xf,
        ((all & !2usize) & r) & (mask | 8usize) == 0,
    ensures
        (all & !2usize) & ((r & all) & !((all & !2usize) & !8usize)) == 0,
{
}

proof fn lemma_write_drained(r: usize, all: usize, mask: usize)
    by (bit_vector)
    requires
        ((2usize | 8usize) & r) & (mask | 8usize) == 0,
    ensures
        (2usize | 8usize) & ((r & all) & !((2usize | 8usize) & !8usize)) == 0,
{
}

proof fn lemma_retaken(r: usize, all: usize, m: usize)
    by (bit_vector)
    ensures
        (((r & all) & !(m & !8usize)) & all) & !(m & !8usize) == (r & all) & !(m & !8usize),
{
}

/// What a poll through the cache answers, for a caller that asks for the
/// bits `mask` in direction `dir`, when the cache holds `cached` and the
/// reactor's record is `sched`.
pub open spec fn cached_answer(cached: usize, sched: Scheduled, dir: Direction, mask: usize) -> Poll<
    Result<usize, IoError>,
> {
    let fresh = ready_bits(sched, dir);
    if cached & mask != 0 {
        Poll::Ready(Ok(cached | fresh))
    } else if fresh & (mask | ready::HUP) != 0 {
        Poll::Ready(Ok(fresh & (mask | ready::HUP)))
    } else {
        Poll::Pending
    }
}

/// How a poll through the cache goes: for a caller that asks for the bits
/// `mask` in direction `dir`, with `cache` in the cache and `map` in the
/// reactor, the answer is `res` and the poll leaves `cache_after` and
/// `map_after`.
pub open spec fn poll_outcome(
    cache: usize,
    map: Map<usize, Scheduled>,
    token: usize,
    dir: Direction,
    mask: usize,
    cache_after: usize,
    map_after: Map<usize, Scheduled>,
    res: Poll<Result<usize, IoError>>,
) -> bool {
    &&& map_after == map.insert(token, taken(map[token], dir))
    &&& cache_after == cache | ready_bits(map[token], dir)
    &&& res == cached_answer(cache, map[token], dir, mask)
}

impl<E> PollEvented<E> {
    /// Registers the source `io` under `token` with the reactor behind
    /// `inner`, which is `None` if the reactor is gone.
    pub fn new(inner: Option<&mut Inner>, token: usize, io: E) -> (res: Result<Self, IoError>)
        ensures
            inner is None ==> res is Err && res->Err_0 == IoError::DriverGone,
            inner matches Some(i) ==> {
                &&& res matches Ok(evented)
                &&& evented.io == Some(io)
                &&& evented.inner.registration.token == token
                &&& evented.inner.read_readiness == 0
                &&& evented.inner.write_readiness == 0
                &&& final(i).map@ == i.map@.insert(token, final(i).map@[token])
                &&& final(i).map@[token].readiness == 0
                &&& ready::is_all(final(i).map@[token].all)
                &&& final(i).n_sources as int == if i.n_sources == usize::MAX {
                    0
                } else {
                    i.n_sources + 1
                }
            },
    {
        let registration = match Registration::new(inner, token) {
            Ok(registration) => registration,
            Err(e) => {
                return Err(e);
            },
        };
        Ok(
            PollEvented {
                io: Some(io),
                inner: Cached { registration, read_readiness: 0, write_readiness: 0 },
            },
        )
    }

    /// The source, to change.
    pub fn get_mut(&mut self) -> (io: &mut E)
        requires
            old(self).io is Some,
        ensures
            *io == old(self).io->Some_0,
            final(self).io == Some(*final(io)),
            final(self).inner == old(self).inner,
    {
        match &mut self.io {
            Some(io) => io,
            None => unreached(),
        }
    }

    /// The source, to read.
    pub fn get_ref(&self) -> (io: &E)
        requires
            self.io is Some,
        ensures
            Some(*io) == self.io,
    {
        match &self.io {
            Some(io) => io,
            None => unreached(),
        }
    }

    /// Polls for the read readiness `mask`, which must not hold the
    /// writable bit.
    pub fn poll_read_ready(&mut self, inner: Option<&mut Inner>, waker: &Waker, mask: usize) -> (res:
        Poll<Result<usize, IoError>>)
        requires
            mask & ready::WRITABLE == 0,
            inner matches Some(i) ==> i.map@.contains_key(old(self).inner.registration.token)
                && ready::is_all(i.map@[old(self).inner.registration.token].all),
        ensures
            final(self).io == old(self).io,
            final(self).inner.registration == old(self).inner.registration,
            final(self).inner.write_readiness == old(self).inner.write_readiness,
            inner is None ==> res == Poll::Ready(Err::<usize, IoError>(IoError::ReactorGone))
                && final(self).inner.read_readiness == old(self).inner.read_readiness,
            inner matches Some(i) ==> final(i).n_sources == i.n_sources && poll_outcome(
                old(self).inner.read_readiness,
                i.map@,
                old(self).inner.registration.token,
                Direction::Read,
                mask,
                final(self).inner.read_readiness,
                final(i).map@,
                res,
            ),
    {
        self.inner.poll_cached(inner, Direction::Read, mask, waker)
    }

    /// Withdraws the bits `ready`, neither the writable nor the hang-up
    /// bit, from the read cache, and polls for them again. If they are
    /// there again at once, `waker` is woken: the answer says whether it
    /// was.
    pub fn clear_read_ready(&mut self, inner: Option<&mut Inner>, waker: &Waker, ready: usize) -> (res:
        Result<bool, IoError>)
        requires
            ready & ready::WRITABLE == 0,
            ready & ready::HUP == 0,
            inner matches Some(i) ==> i.map@.contains_key(old(self).inner.registration.token)
                && ready::is_all(i.map@[old(self).inner.registration.token].all),
        ensures
            final(self).io == old(self).io,
            final(self).inner.registration == old(self).inner.registration,
            final(self).inner.write_readiness == old(self).inner.write_readiness,
            inner is None ==> res == Err::<bool, IoError>(IoError::ReactorGone)
                && final(self).inner.read_readiness == old(self).inner.read_readiness & !ready,
            inner matches Some(i) ==> final(i).n_sources == i.n_sources && exists|
                polled: Poll<Result<usize, IoError>>,
            | #[trigger]
                poll_outcome(
                    old(self).inner.read_readiness & !ready,
                    i.map@,
                    old(self).inner.registration.token,
                    Direction::Read,
                    ready,
                    final(self).inner.read_readiness,
                    final(i).map@,
                    polled,
                ) && res == woken_by(polled),
    {
        self.inner.read_readiness = self.inner.read_readiness & !ready;
        match self.poll_read_ready(inner, waker, ready) {
            Poll::Ready(Ok(_)) => {
                std_wake_by_ref(waker);
                Ok(true)
            },
            Poll::Ready(Err(e)) => Err(e),
            Poll::Pending => Ok(false),
        }
    }

    /// Polls for write readiness.
    pub fn poll_write_ready(&mut self, inner: Option<&mut Inner>, waker: &Waker) -> (res: Poll<
        Result<usize, IoError>,
    >)
        requires
            inner matches Some(i) ==> i.map@.contains_key(old(self).inner.registration.token)
                && ready::is_all(i.map@[old(self).inner.registration.token].all),
        ensures
            final(self).io == old(self).io,
            final(self).inner.registration == old(self).inner.registration,
            final(self).inner.read_readiness == old(self).inner.read_readiness,
            inner is None ==> res == Poll::Ready(Err::<usize, IoError>(IoError::ReactorGone))
                && final(self).inner.write_readiness == old(self).inner.write_readiness,
            inner matches Some(i) ==> final(i).n_sources == i.n_sources && poll_outcome(
                old(self).inner.write_readiness,
                i.map@,
                old(self).inner.registration.token,
                Direction::Write,
                ready::WRITABLE,
                final(self).inner.write_readiness,
                final(i).map@,
                res,
            ),
    {
        let mask = ready::ready_writable();
        self.inner.poll_cached(inner, Direction::Write, mask, waker)
    }

    /// Withdraws the writable bit from the write cache and polls for it
    /// again. If it is there again at once, `waker` is woken: the answer
    /// says whether it was.
    pub fn clear_write_ready(&mut self, inner: Option<&mut Inner>, waker: &Waker) -> (res: Result<
        bool,
        IoError,
    >)
        requires
            inner matches Some(i) ==> i.map@.contains_key(old(self).inner.registration.token)
                && ready::is_all(i.map@[old(self).inner.registration.token].all),
        ensures
            final(self).io == old(self).io,
            final(self).inner.registration == old(self).inner.registration,
            final(self).inner.read_readiness == old(self).inner.read_readiness,
            inner is None ==> res == Err::<bool, IoError>(IoError::ReactorGone)
                && final(self).inner.write_readiness == old(self).inner.write_readiness
                & !ready::WRITABLE,
            inner matches Some(i) ==> final(i).n_sources == i.n_sources && exists|
                polled: Poll<Result<usize, IoError>>,
            | #[trigger]
                poll_outcome(
                    old(self).inner.write_readiness & !ready::WRITABLE,
                    i.map@,
                    old(self).inner.registration.token,
                    Direction::Write,
                    ready::WRITABLE,
                    final(self).inner.write_readiness,
                    final(i).map@,
                    polled,
                ) && res == woken_by(polled),
    {
        self.inner.write_readiness = self.inner.write_readiness & !ready::ready_writable();
        match self.poll_write_ready(inner, waker) {
            Poll::Ready(Ok(_)) => {
                std_wake_by_ref(waker);
                Ok(true)
            },
            Poll::Ready(Err(e)) => Err(e),
            Poll::Pending => Ok(false),
        }
    }

    /// Gives the source up: checks that the reactor is still there, for
    /// the source to be taken off the poller, and hands the source back.
    pub fn drop(self, inner: Option<&Inner>) -> (res: (Option<E>, Result<(), IoError>))
        ensures
            res.0 == self.io,
            self.io is None ==> res.1 is Ok,
            self.io is Some && inner is None ==> res.1 == Err::<(), IoError>(IoError::ReactorGone),
            self.io is Some && inner is Some ==> res.1 is Ok,
    {
        let mut this = self;
        match this.io.take() {
            Some(io) => {
                let res = this.inner.registration.deregister(inner);
                (Some(io), res)
            },
            None => (None, Ok(())),
        }
    }
}

/// What clearing readiness answers after the poll it ends with: the error
/// of the poll, or whether the poll found readiness and the waker was
/// woken.
pub open spec fn woken_by(polled: Poll<Result<usize, IoError>>) -> Result<bool, IoError> {
    match polled {
        Poll::Ready(Ok(_)) => Ok(true),
        Poll::Ready(Err(e)) => Err(e),
        Poll::Pending => Ok(false),
    }
}

impl Cached {
    /// The cache of direction `dir`.
    pub open spec fn cache(&self, dir: Direction) -> usize {
        match dir {
            Direction::Read => self.read_readiness,
            Direction::Write => self.write_readiness,
        }
    }

    /// Polls for the bits `mask` of direction `dir`. If the cache holds
    /// one of them, whatever the reactor has for the direction is added to
    /// the cache and the whole cache is the answer. If not, the reactor's
    /// record is polled, leaving `waker` behind: what it hands out goes
    /// into the cache, and the part of it that is in `mask`, or the hang-up
    /// bit, is the answer; if there is no such part the answer is
    /// `Pending`.
    #[verifier::loop_isolation(false)]
    pub fn poll_cached(
        &mut self,
        inner: Option<&mut Inner>,
        dir: Direction,
        mask: usize,
        waker: &Waker,
    ) -> (res: Poll<Result<usize, IoError>>)
        requires
            inner matches Some(i) ==> i.map@.contains_key(old(self).registration.token)
                && ready::is_all(i.map@[old(self).registration.token].all),
        ensures
            final(self).registration == old(self).registration,
            dir == Direction::Read ==> final(self).write_readiness == old(self).write_readiness,
            dir == Direction::Write ==> final(self).read_readiness == old(self).read_readiness,
            inner is None ==> res == Poll::Ready(Err::<usize, IoError>(IoError::ReactorGone))
                && final(self).cache(dir) == old(self).cache(dir),
            inner matches Some(i) ==> final(i).n_sources == i.n_sources && poll_outcome(
                old(self).cache(dir),
                i.map@,
                old(self).registration.token,
                dir,
                mask,
                final(self).cache(dir),
                final(i).map@,
                res,
            ),
    {
        let inner = match inner {
            Some(inner) => inner,
            None => {
                return Poll::Ready(Err(IoError::ReactorGone));
            },
        };
        let mut cached = match dir {
            Direction::Read => self.read_readiness,
            Direction::Write => self.write_readiness,
        };
        let mask_hup = mask | ready::ready_hup();
        let mut ret = cached & mask;
        let ghost token = self.registration.token;
        let ghost before = inner.map@;
        let ghost sources = inner.n_sources;
        if ret == 0 {
            let ghost mut polls: int = 0;
            loop
                invariant
                    self.registration == old(self).registration,
                    token == self.registration.token,
                    dir == Direction::Read ==> self.write_readiness == old(self).write_readiness,
                    dir == Direction::Write ==> self.read_readiness == old(self).read_readiness,
                    old(self).cache(dir) & mask == 0,
                    ret == 0,
                    mask_hup == mask | ready::HUP,
                    polls == 0 || polls == 1,
                    inner.map@.contains_key(token),
                    before.contains_key(token),
                    ready::is_all(before[token].all),
                    inner.n_sources == sources,
                    self.cache(dir) == cached,
                    polls == 0 ==> cached == old(self).cache(dir) && inner.map@ == before,
                    polls == 1 ==> {
                        &&& inner.map@ == before.insert(token, taken(before[token], dir))
                        &&& ready_bits(taken(before[token], dir), dir) == 0
                        &&& cached == old(self).cache(dir) | ready_bits(before[token], dir)
                        &&& ready_bits(before[token], dir) & (mask | ready::HUP) == 0
                    },
                decreases 1 - polls,
            {
                let polled = self.registration.poll_ready(Some(&mut *inner), dir, Some(waker));
                let ready = match polled {
                    Ok(Poll::Ready(v)) => v,
                    Ok(Poll::Pending) => {
                        proof {
                            let c = old(self).cache(dir);
                            let m = (mask | ready::HUP) as usize;
                            assert(c | 0usize == c && 0usize & m == 0) by (bit_vector);
                            if polls == 1 {
                                let once = taken(before[token], dir);
                                lemma_retaken(
                                    before[token].readiness,
                                    before[token].all,
                                    dir.mask_of(before[token].all),
                                );
                                assert(taken(once, dir) == once);
                                assert(before.insert(token, once).insert(token, once)
                                    =~= before.insert(token, once));
                            }
                        }
                        return Poll::Pending;
                    },
                    Err(e) => {
                        return Poll::Ready(Err(e));
                    },
                };
                cached = cached | ready;
                match dir {
                    Direction::Read => {
                        self.read_readiness = cached;
                    },
                    Direction::Write => {
                        self.write_readiness = cached;
                    },
                }
                ret = ret | (ready & mask_hup);
                proof {
                    let r = before[token].readiness;
                    let all = before[token].all;
                    assert(0usize | (ready & mask_hup) == ready & mask_hup) by (bit_vector);
                    if ret == 0 {
                        match dir {
                            Direction::Read => lemma_read_drained(r, all, mask),
                            Direction::Write => lemma_write_drained(r, all, mask),
                        }
                    }
                }
                if ret != 0 {
                    return Poll::Ready(Ok(ret));
                }
                proof {
                    polls = polls + 1;
                }
            }
        } else {
            let taken_now = match dir {
                Direction::Read => self.registration.take_read_ready(Some(inner)),
                Direction::Write => self.registration.take_write_ready(Some(inner)),
            };
            match taken_now {
                Ok(Some(ready)) => {
                    cached = cached | ready;
                    match dir {
                        Direction::Read => {
                            self.read_readiness = cached;
                        },
                        Direction::Write => {
                            self.write_readiness = cached;
                        },
                    }
                },
                Ok(None) => {
                    assert(cached | 0usize == cached) by (bit_vector);
                },
                Err(e) => {
                    return Poll::Ready(Err(e));
                },
            }
            Poll::Ready(Ok(cached))
        }
    }
}

} // verus!
