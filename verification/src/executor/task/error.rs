//! Why a task did not hand back an output.

use vstd::prelude::*;

verus! {

/// The failure a join handle reports in place of an output: the task was
/// cancelled, or its poll panicked and left a payload of type `P`.
pub struct JoinError<P> {
    repr: Repr<P>,
}

enum Repr<P> {
    Cancelled,
    Panic(P),
}

impl<P> JoinError<P> {
    /// The error is the cancelled one.
    pub closed spec fn spec_is_cancelled(&self) -> bool {
        self.repr is Cancelled
    }

    /// The error carries a panic payload.
    pub closed spec fn spec_is_panic(&self) -> bool {
        self.repr is Panic
    }

    /// The payload of a panic error.
    pub closed spec fn payload(&self) -> P
        recommends
            self.spec_is_panic(),
    {
        self.repr->Panic_0
    }

    /// The error of a cancelled task.
    pub closed spec fn spec_cancelled() -> JoinError<P> {
        JoinError { repr: Repr::Cancelled }
    }

    /// The error of a task whose poll panicked with payload `err`.
    pub closed spec fn spec_panic(err: P) -> JoinError<P> {
        JoinError { repr: Repr::Panic(err) }
    }

    /// What the two constructors build.
    pub proof fn lemma_constructors(err: P)
        ensures
            Self::spec_cancelled().spec_is_cancelled(),
            !Self::spec_cancelled().spec_is_panic(),
            Self::spec_panic(err).spec_is_panic(),
            !Self::spec_panic(err).spec_is_cancelled(),
            Self::spec_panic(err).payload() == err,
    {
    }

    /// An error is cancelled or a panic, never both.
    pub proof fn lemma_kinds_exclusive(&self)
        ensures
            self.spec_is_cancelled() != self.spec_is_panic(),
    {
    }

    /// The error of a cancelled task.
    pub fn cancelled() -> (e: JoinError<P>)
        ensures
            e == Self::spec_cancelled(),
            e.spec_is_cancelled(),
    {
        JoinError { repr: Repr::Cancelled }
    }

    /// The error of a task whose poll panicked with payload `err`.
    pub fn panic(err: P) -> (e: JoinError<P>)
        ensures
            e == Self::spec_panic(err),
            e.spec_is_panic(),
            e.payload() == err,
    {
        JoinError { repr: Repr::Panic(err) }
    }

    #[verifier::when_used_as_spec(spec_is_cancelled)]
    pub fn is_cancelled(&self) -> (r: bool)
        ensures
            r == self.spec_is_cancelled(),
    {
        match &self.repr {
            Repr::Cancelled => true,
            _ => false,
        }
    }

    #[verifier::when_used_as_spec(spec_is_panic)]
    pub fn is_panic(&self) -> (r: bool)
        ensures
            r == self.spec_is_panic(),
    {
        match &self.repr {
            Repr::Panic(_) => true,
            _ => false,
        }
    }

    /// Takes the payload out of a panic error.
    pub fn into_panic(self) -> (p: P)
        requires
            self.is_panic(),
        ensures
            p == self.payload(),
    {
        match self.repr {
            Repr::Panic(p) => p,
            Repr::Cancelled => unreached(),
        }
    }

    /// Takes the payload out of a panic error; hands any other error back
    /// unchanged.
    pub fn try_into_panic(self) -> (res: Result<P, JoinError<P>>)
        ensures
            res is Ok <==> self.is_panic(),
            res matches Ok(p) ==> p == self.payload(),
            res matches Err(e) ==> e == self,
    {
        match self.repr {
            Repr::Panic(p) => Ok(p),
            _ => Err(self),
        }
    }

    /// The text the error prints as.
    pub fn to_string(&self) -> (s: String)
        ensures
            self.is_cancelled() ==> s@ == "cancelled"@,
            self.is_panic() ==> s@ == "panic"@,
    {
        match &self.repr {
            Repr::Cancelled => "cancelled".to_owned(),
            Repr::Panic(_) => "panic".to_owned(),
        }
    }

    /// The message of the I/O error the join error converts into.
    pub fn io_message(&self) -> (s: &'static str)
        ensures
            self.is_cancelled() ==> s@ == "task was cancelled"@,
            self.is_panic() ==> s@ == "task panicked"@,
    {
        match &self.repr {
            Repr::Cancelled => "task was cancelled",
            Repr::Panic(_) => "task panicked",
        }
    }
}

} // verus!
