//! The error taxonomy shared by every operation, and the translation of
//! native return codes into it.

use vstd::prelude::*;

use crate::events::{Event, EventV};

verus! {

/// Mathematical model of an [`Error`].
#[verifier::ext_equal]
pub ghost enum ErrorV {
    Native(i32),
    InvalidStringArgument,
    Loadfiles(usize, Box<ErrorV>),
    AlreadyObserved(EventV),
    InvalidArgument,
    VersionMismatch(u32, u32),
    ContextExists,
    EventsDisabled,
    Null,
    NoAssociatedEvent,
}

/// Everything that can go wrong, including the iterator's benign "try again"
/// sentinel.
#[derive(Debug)]
pub enum Error {
    /// A native call failed; the engine's error code, verbatim.
    Native(i32),
    /// A text argument holds an embedded null byte.
    InvalidStringArgument,
    /// A batched file load failed at the given index; earlier files were
    /// already issued and are not rolled back.
    Loadfiles(usize, Box<Error>),
    /// The batch asked to observe an event kind (or property name) that a
    /// live iterator already observes; nothing of the batch was applied.
    AlreadyObserved(Box<Event>),
    /// A semantically invalid combination of arguments.
    InvalidArgument,
    /// The compiled-against API version differs from the loaded one.
    VersionMismatch(u32, u32),
    /// A registration context of this category is already alive.
    ContextExists,
    /// The event API was used on an instance created without events.
    EventsDisabled,
    /// The engine returned null while allocating its handle.
    Null,
    /// No pending event matches this iterator's subscriptions; wait again.
    NoAssociatedEvent,
}

impl View for Error {
    type V = ErrorV;

    open spec fn view(&self) -> ErrorV
        decreases self,
    {
        match self {
            Error::Native(c) => ErrorV::Native(*c),
            Error::InvalidStringArgument => ErrorV::InvalidStringArgument,
            Error::Loadfiles(i, e) => ErrorV::Loadfiles(*i, Box::new((**e)@)),
            Error::AlreadyObserved(e) => ErrorV::AlreadyObserved((**e)@),
            Error::InvalidArgument => ErrorV::InvalidArgument,
            Error::VersionMismatch(c, l) => ErrorV::VersionMismatch(*c, *l),
            Error::ContextExists => ErrorV::ContextExists,
            Error::EventsDisabled => ErrorV::EventsDisabled,
            Error::Null => ErrorV::Null,
            Error::NoAssociatedEvent => ErrorV::NoAssociatedEvent,
        }
    }
}

/// Turn a native return code into a result: zero is success, anything else is
/// the engine's error, verbatim.
pub fn mpv_err(err_val: i32) -> (r: Result<(), Error>)
    ensures
        err_val == 0 <==> r is Ok,
        err_val != 0 ==> (r matches Err(e) && e@ == ErrorV::Native(err_val)),
{
    if err_val == 0 {
        Ok(())
    } else {
        Err(Error::Native(err_val))
    }
}

} // verus!
