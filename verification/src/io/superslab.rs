//! Records kept in a slab, found again by the key the slab gave them.

use slab::Slab;
use vstd::prelude::*;

use super::scheduled::Scheduled;

verus! {

#[verifier::external_type_specification]
#[verifier::external_body]
#[verifier::reject_recursive_types(T)]
pub struct ExSlab<T>(Slab<T>);

/// What a slab of records holds: under each key in use, the readiness word
/// of the record stored there.
pub uninterp spec fn slab_words(slab: Slab<Scheduled>) -> Map<usize, usize>;

/// The number of records from which on a slab takes no more. The slab
/// refuses to grow its storage over `isize::MAX` bytes; it grows by
/// doubling, and a record with its slot takes no more than 128 bytes, so
/// below this number growing cannot be refused.
pub const LIMIT: usize = usize::MAX / 512;

/// The room a slab is made with.
pub const CAPACITY: usize = 256;

/// `Slab::with_capacity`: an empty slab with room for `capacity` records.
#[verifier::external_body]
fn slab_with_capacity(capacity: usize) -> (made: Slab<Scheduled>)
    requires
        capacity <= LIMIT,
    ensures
        slab_words(made).dom() == Set::<usize>::empty(),
{
    Slab::with_capacity(capacity)
}

/// `Slab::len`: how many records the slab holds.
#[verifier::external_body]
fn slab_len(slab: &Slab<Scheduled>) -> (count: usize)
    ensures
        count == slab_words(*slab).dom().len(),
{
    slab.len()
}

/// `Slab::insert`: stores `val` under a key that was not in use, leaves
/// every other record where it was, and returns the key. Room is made as
/// needed, which cannot fail below the limit.
#[verifier::external_body]
fn slab_insert(slab: &mut Slab<Scheduled>, val: Scheduled) -> (key: usize)
    requires
        slab_words(*old(slab)).dom().len() < LIMIT,
    ensures
        !slab_words(*old(slab)).contains_key(key),
        slab_words(*final(slab)) == slab_words(*old(slab)).insert(key, val.readiness),
{
    slab.insert(val)
}

/// `Slab::get`: the record stored under `key`, if the key is in use.
#[verifier::external_body]
fn slab_get(slab: &Slab<Scheduled>, key: usize) -> (found: Option<&Scheduled>)
    ensures
        found is Some <==> slab_words(*slab).contains_key(key),
        found matches Some(sched) ==> sched.readiness == slab_words(*slab)[key],
{
    slab.get(key)
}

/// The key of a record in a `SuperSlab`.
#[derive(Clone, Copy, Debug, PartialEq, Eq, Structural)]
pub struct Key(pub usize);

/// A slab of the reactor's records.
pub struct SuperSlab {
    inner: Slab<Scheduled>,
}

impl View for SuperSlab {
    type V = Map<usize, usize>;

    /// Under each key in use, the readiness word of its record.
    closed spec fn view(&self) -> Map<usize, usize> {
        slab_words(self.inner)
    }
}

impl SuperSlab {
    /// An empty slab.
    pub fn new() -> (slab: Self)
        ensures
            slab@ == Map::<usize, usize>::empty(),
    {
        let slab = SuperSlab { inner: slab_with_capacity(CAPACITY) };
        assert(slab@ =~= Map::<usize, usize>::empty());
        slab
    }

    /// Whether the slab takes another record.
    pub fn has_room(&self) -> (room: bool)
        ensures
            room == (self@.dom().len() < LIMIT),
    {
        slab_len(&self.inner) < LIMIT
    }

    /// Stores a fresh record, with no readiness, and returns its key: one
    /// that was not in use. Every other record stays where it was.
    pub fn allocate(&mut self) -> (key: Key)
        requires
            old(self)@.dom().len() < LIMIT,
        ensures
            !old(self)@.contains_key(key.0),
            final(self)@ == old(self)@.insert(key.0, 0),
    {
        Key(slab_insert(&mut self.inner, Scheduled::new()))
    }

    /// Stores a fresh record as `allocate` does, if the slab takes another.
    /// `None`, with the slab unchanged, if it does not.
    pub fn try_allocate(&mut self) -> (key: Option<Key>)
        ensures
            key is None <==> old(self)@.dom().len() >= LIMIT,
            key is None ==> final(self)@ == old(self)@,
            key matches Some(k) ==> !old(self)@.contains_key(k.0) && final(self)@ == old(
                self,
            )@.insert(k.0, 0),
    {
        if self.has_room() {
            Some(self.allocate())
        } else {
            None
        }
    }

    /// The record stored under `k`, if there is one.
    pub fn get(&self, k: Key) -> (found: Option<&Scheduled>)
        ensures
            found is Some <==> self@.contains_key(k.0),
            found matches Some(sched) ==> sched.readiness == self@[k.0],
    {
        slab_get(&self.inner, k.0)
    }
}

} // verus!
