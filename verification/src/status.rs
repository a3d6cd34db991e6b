use vstd::prelude::*;

verus! {

/// Outcome of a command, as the native client library classifies it.
///
/// The native library reports the outcome of a query or command as a small
/// integer code. Each variant here stands for exactly one of those codes;
/// [`Status::code`] and [`Status::from_code`] translate between the two,
/// and the translation is proved to be a bijection on the known codes.
#[derive(Clone, Copy, Debug, PartialEq, Eq, Structural)]
pub enum Status {
    /// The query string sent to the server was empty.
    EmptyQuery,
    /// A command that returns no data finished successfully.
    CommandOk,
    /// A query finished successfully and its tuples are available.
    TuplesOk,
    /// Copy-out data transfer from the server has started.
    CopyOut,
    /// Copy-in data transfer to the server has started.
    CopyIn,
    /// The server's response was not understood.
    BadResponse,
    /// A notice or warning occurred.
    NonFatalError,
    /// A fatal error occurred.
    FatalError,
    /// Copy-in and copy-out data transfer has started.
    CopyBoth,
    /// A single tuple of the current query is available.
    SingleTuple,
    /// A synchronization point in pipeline mode was reached.
    PipelineSync,
    /// A pipelined command was aborted by an earlier error.
    PipelineAborted,
    /// A chunk of tuples of the current query is available.
    TuplesChunk,
}

impl Status {
    /// The integer code the native library uses for this outcome.
    pub open spec fn spec_code(self) -> u32 {
        match self {
            Status::EmptyQuery => 0,
            Status::CommandOk => 1,
            Status::TuplesOk => 2,
            Status::CopyOut => 3,
            Status::CopyIn => 4,
            Status::BadResponse => 5,
            Status::NonFatalError => 6,
            Status::FatalError => 7,
            Status::CopyBoth => 8,
            Status::SingleTuple => 9,
            Status::PipelineSync => 10,
            Status::PipelineAborted => 11,
            Status::TuplesChunk => 12,
        }
    }

    /// The outcome a given native code stands for, if it is a known code.
    pub open spec fn spec_from_code(code: u32) -> Option<Status> {
        if code == 0 {
            Some(Status::EmptyQuery)
        } else if code == 1 {
            Some(Status::CommandOk)
        } else if code == 2 {
            Some(Status::TuplesOk)
        } else if code == 3 {
            Some(Status::CopyOut)
        } else if code == 4 {
            Some(Status::CopyIn)
        } else if code == 5 {
            Some(Status::BadResponse)
        } else if code == 6 {
            Some(Status::NonFatalError)
        } else if code == 7 {
            Some(Status::FatalError)
        } else if code == 8 {
            Some(Status::CopyBoth)
        } else if code == 9 {
            Some(Status::SingleTuple)
        } else if code == 10 {
            Some(Status::PipelineSync)
        } else if code == 11 {
            Some(Status::PipelineAborted)
        } else if code == 12 {
            Some(Status::TuplesChunk)
        } else {
            None
        }
    }

    /// Returns the native integer code for this outcome.
    pub fn code(self) -> (r: u32)
        ensures
            r == self.spec_code(),
    {
        match self {
            Status::EmptyQuery => 0,
            Status::CommandOk => 1,
            Status::TuplesOk => 2,
            Status::CopyOut => 3,
            Status::CopyIn => 4,
            Status::BadResponse => 5,
            Status::NonFatalError => 6,
            Status::FatalError => 7,
            Status::CopyBoth => 8,
            Status::SingleTuple => 9,
            Status::PipelineSync => 10,
            Status::PipelineAborted => 11,
            Status::TuplesChunk => 12,
        }
    }

    /// Classifies a native integer code; an unknown code yields `None`.
    pub fn from_code(code: u32) -> (r: Option<Status>)
        ensures
            r == Status::spec_from_code(code),
    {
        if code == 0 {
            Some(Status::EmptyQuery)
        } else if code == 1 {
            Some(Status::CommandOk)
        } else if code == 2 {
            Some(Status::TuplesOk)
        } else if code == 3 {
            Some(Status::CopyOut)
        } else if code == 4 {
            Some(Status::CopyIn)
        } else if code == 5 {
            Some(Status::BadResponse)
        } else if code == 6 {
            Some(Status::NonFatalError)
        } else if code == 7 {
            Some(Status::FatalError)
        } else if code == 8 {
            Some(Status::CopyBoth)
        } else if code == 9 {
            Some(Status::SingleTuple)
        } else if code == 10 {
            Some(Status::PipelineSync)
        } else if code == 11 {
            Some(Status::PipelineAborted)
        } else if code == 12 {
            Some(Status::TuplesChunk)
        } else {
            None
        }
    }
}

/// A status survives the round trip through its native code: encoding an
/// outcome and classifying the code again gives the outcome back.
pub proof fn lemma_status_code_round_trip(s: Status)
    ensures
        Status::spec_from_code(s.spec_code()) == Some(s),
{
}

/// Classification is the inverse of encoding: whenever a code is known,
/// the outcome it yields encodes back to that very code.
pub proof fn lemma_status_code_faithful(code: u32)
    ensures
        Status::spec_from_code(code) matches Some(s) ==> s.spec_code() == code,
{
}

} // verus!
