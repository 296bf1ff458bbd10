//! Decisions a task session makes before it calls into the runtime.

use vstd::prelude::*;

use crate::error::Error;

verus! {

/// Message of the error for a session without offline runs.
pub open spec fn no_offline_message() -> Seq<char> {
    "session does not support offline runs"@
}

/// Message of the error for a session without streaming runs.
pub open spec fn no_streaming_message() -> Seq<char> {
    "session does not support streaming runs"@
}

/// The run modes a session reports that it supports.
#[derive(Debug, Clone, Copy, PartialEq, Eq, Structural)]
pub struct SessionSupport {
    /// Whether offline runs are available.
    pub offline: bool,
    /// Whether streaming methods are available.
    pub streaming: bool,
}

impl SessionSupport {
    /// Admits an offline run, conversion into an offline session or an
    /// offline call: `Ok` exactly when offline runs are supported.
    pub fn require_offline(&self) -> (r: Result<(), Error>)
        ensures
            r is Ok <==> self.offline,
            r matches Err(e) ==> e matches Error::Unsupported(m) && m@ == no_offline_message(),
    {
        if self.offline {
            Ok(())
        } else {
            Err(Error::unsupported("session does not support offline runs"))
        }
    }

    /// Admits a streaming call or conversion into a streaming session:
    /// `Ok` exactly when streaming is supported.
    pub fn require_streaming(&self) -> (r: Result<(), Error>)
        ensures
            r is Ok <==> self.streaming,
            r matches Err(e) ==> e matches Error::Unsupported(m) && m@ == no_streaming_message(),
    {
        if self.streaming {
            Ok(())
        } else {
            Err(Error::unsupported("session does not support streaming runs"))
        }
    }

    /// Whether removing the stream callback needs a native call: only a
    /// streaming session has one installed.
    pub fn clears_native_callback(&self) -> (b: bool)
        ensures
            b == self.streaming,
    {
        self.streaming
    }
}

/// Outcome of running work under a scoped event callback: a failure to
/// remove the callback wins over the work's own result.
pub fn scoped_callback_outcome<R>(work: Result<R, Error>, cleared: Result<(), Error>) -> (r: Result<R, Error>)
    ensures
        match cleared {
            Err(e) => r == Err::<R, Error>(e),
            Ok(_) => r == work,
        },
{
    match cleared {
        Err(e) => Err(e),
        Ok(()) => work,
    }
}

/// The event a pull returns: none when the runtime reported that no event
/// was buffered, otherwise the converted event or its conversion error.
pub fn pulled_event<T>(has_event: bool, event: Result<T, Error>) -> (r: Result<Option<T>, Error>)
    ensures
        !has_event ==> r == Ok::<Option<T>, Error>(None),
        has_event ==> match event {
            Ok(x) => r == Ok::<Option<T>, Error>(Some(x)),
            Err(e) => r == Err::<Option<T>, Error>(e),
        },
{
    if !has_event {
        return Ok(None);
    }
    match event {
        Ok(x) => Ok(Some(x)),
        Err(e) => Err(e),
    }
}


/// The texts of the two refusals.
pub proof fn law_refusal_messages()
    ensures
        no_offline_message() == "session does not support offline runs"@,
        no_streaming_message() == "session does not support streaming runs"@,
{
}

} // verus!
