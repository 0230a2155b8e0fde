//! The reading half: when to decode, when to read, when the stream ends.

use vstd::prelude::*;

verus! {

/// Where the reading half stands between two calls of the codec or the
/// transport.
#[derive(Clone, Copy, Debug, PartialEq, Eq, Structural)]
pub struct Streamable {
    /// The transport has reported its end.
    pub is_eof: bool,
    /// The buffer may hold a frame: bytes came in since the codec last
    /// found none.
    pub is_readable: bool,
}

/// What the reading half does next.
#[derive(Clone, Copy, Debug, PartialEq, Eq, Structural)]
pub enum ReadStep {
    /// Let the codec decode what is left at the end of the stream, and
    /// hand out what it gives.
    DecodeEof,
    /// Let the codec decode a frame, then report to `decoded`.
    Decode,
    /// Make room for a byte and read from the transport, then report to
    /// `filled`.
    Read,
}

/// A reading half that has read nothing yet.
pub fn stream() -> (state: Streamable)
    ensures
        !state.is_eof,
        !state.is_readable,
        state.wf(),
{
    Streamable { is_eof: false, is_readable: false }
}

impl Streamable {
    /// Once the transport has ended the buffer stays readable: nothing is
    /// read after the end.
    pub open spec fn wf(&self) -> bool {
        self.is_eof ==> self.is_readable
    }

    /// What to do next: decode while the buffer is readable, the rest of
    /// the stream if the transport has ended; read otherwise.
    pub fn next_step(&self) -> (step: ReadStep)
        requires
            self.wf(),
        ensures
            step == (if self.is_readable && self.is_eof {
                ReadStep::DecodeEof
            } else if self.is_readable {
                ReadStep::Decode
            } else {
                ReadStep::Read
            }),
    {
        if self.is_readable {
            if self.is_eof {
                ReadStep::DecodeEof
            } else {
                ReadStep::Decode
            }
        } else {
            ReadStep::Read
        }
    }

    /// The codec was asked for a frame. A frame is handed on to the
    /// caller of the stream; without one the buffer is no longer readable
    /// and the next step is to read.
    pub fn decoded<F>(&mut self, frame: Option<F>) -> (out: Option<F>)
        requires
            old(self).is_readable,
            !old(self).is_eof,
        ensures
            out == frame,
            final(self).is_eof == old(self).is_eof,
            final(self).is_readable == frame is Some,
            final(self).wf(),
    {
        if frame.is_none() {
            self.is_readable = false;
        }
        frame
    }

    /// The transport was read and gave `bytect` bytes: none means it has
    /// ended. Either way the buffer is readable again.
    pub fn filled(&mut self, bytect: usize)
        requires
            !old(self).is_eof,
        ensures
            final(self).is_eof == (bytect == 0),
            final(self).is_readable,
            final(self).wf(),
    {
        if bytect == 0 {
            self.is_eof = true;
        }
        self.is_readable = true;
    }

    /// After the end of the transport the only step left is to decode the
    /// rest: the transport is not read again.
    pub proof fn lemma_no_read_after_eof(self)
        requires
            self.wf(),
            self.is_eof,
        ensures
            self.is_readable,
    {
    }
}

} // verus!
