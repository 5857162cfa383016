//! Error types used in this crate.
//!
//! Every failure reported by the underlying channel primitive is translated
//! into exactly one of the kinds below and returned to the immediate caller;
//! nothing is retried and nothing is swallowed.

use vstd::prelude::*;

verus! {

/// Error returned by functions in this crate.
#[derive(Debug)]
pub struct Error {
    inner: Inner,
}

/// Different kinds of possible errors returned by functions in this crate.
#[derive(Debug, PartialEq, Eq, Structural)]
#[non_exhaustive]
pub enum ErrorKind {
    /// Stream connecting error
    StreamConnectError,
    /// Channel receiving error
    ChannelRecvError,
    /// Channel receiving error with timeout
    ChannelRecvTimeoutError,
    /// Channel sending error
    ChannelSendError,
    /// Other error
    Other,
}

/// The underlying condition an [`Error`] carries as context.
#[derive(Debug)]
pub enum Inner {
    /// The listener side of the rendezvous channel was gone when connecting.
    SyncConnectError,
    /// The channel reported closed-empty while receiving.
    SyncRecvError(std::sync::mpsc::RecvError),
    /// A bounded-wait receive expired or found the channel closed.
    SyncRecvTimeoutError(std::sync::mpsc::RecvTimeoutError),
    /// The consuming half was gone when sending a chunk.
    SyncSendError(std::sync::mpsc::SendError<Vec<u8>>),
    /// Other error
    Other,
}

/// The kind under which each underlying condition is reported.
pub open spec fn kind_of(inner: Inner) -> ErrorKind {
    match inner {
        Inner::SyncConnectError => ErrorKind::StreamConnectError,
        Inner::SyncRecvError(_) => ErrorKind::ChannelRecvError,
        Inner::SyncRecvTimeoutError(_) => ErrorKind::ChannelRecvTimeoutError,
        Inner::SyncSendError(_) => ErrorKind::ChannelSendError,
        Inner::Other => ErrorKind::Other,
    }
}

impl<'a> From<&'a Inner> for ErrorKind {
    fn from(inner: &'a Inner) -> (kind: ErrorKind) {
        match inner {
            Inner::SyncConnectError => ErrorKind::StreamConnectError,
            Inner::SyncRecvError(_) => ErrorKind::ChannelRecvError,
            Inner::SyncRecvTimeoutError(_) => ErrorKind::ChannelRecvTimeoutError,
            Inner::SyncSendError(_) => ErrorKind::ChannelSendError,
            Inner::Other => ErrorKind::Other,
        }
    }
}

impl<'a> vstd::std_specs::convert::FromSpecImpl<&'a Inner> for ErrorKind {
    open spec fn obeys_from_spec() -> bool {
        true
    }

    open spec fn from_spec(inner: &'a Inner) -> ErrorKind {
        kind_of(*inner)
    }
}

impl From<std::sync::mpsc::SendError<crate::sync::MockStream>> for Inner {
    fn from(_err: std::sync::mpsc::SendError<crate::sync::MockStream>) -> (inner: Inner) {
        Inner::SyncConnectError
    }
}

impl vstd::std_specs::convert::FromSpecImpl<std::sync::mpsc::SendError<crate::sync::MockStream>> for Inner {
    open spec fn obeys_from_spec() -> bool {
        true
    }

    open spec fn from_spec(_err: std::sync::mpsc::SendError<crate::sync::MockStream>) -> Inner {
        Inner::SyncConnectError
    }
}

impl Error {
    /// The kind of this error, as a specification-level value.
    pub closed spec fn kind_spec(&self) -> ErrorKind {
        kind_of(self.inner)
    }

    /// Returns the kind of error.
    pub fn kind(&self) -> (kind: ErrorKind)
        ensures
            kind == self.kind_spec(),
    {
        ErrorKind::from(&self.inner)
    }

    /// Wraps an underlying condition, recording it as this crate's error.
    pub fn from_inner(inner: Inner) -> (e: Error)
        ensures
            e.kind_spec() == kind_of(inner),
    {
        Error { inner }
    }

    /// A short description of the error, matching its kind.
    pub fn message(&self) -> (m: &'static str)
        ensures
            m == self.kind_spec().message_spec(),
    {
        self.kind().message()
    }
}

impl ErrorKind {
    /// The description [`ErrorKind::message`] returns for each kind.
    pub open spec fn message_spec(&self) -> &'static str {
        match self {
            ErrorKind::StreamConnectError => "Stream connecting error",
            ErrorKind::ChannelRecvError => "Channel receiving error",
            ErrorKind::ChannelRecvTimeoutError => "Channel receiving error",
            ErrorKind::ChannelSendError => "Channel sending error",
            ErrorKind::Other => "Other error",
        }
    }

    /// A short description of this kind of error.
    pub fn message(&self) -> (m: &'static str)
        ensures
            m == self.message_spec(),
    {
        match self {
            ErrorKind::StreamConnectError => "Stream connecting error",
            ErrorKind::ChannelRecvError => "Channel receiving error",
            ErrorKind::ChannelRecvTimeoutError => "Channel receiving error",
            ErrorKind::ChannelSendError => "Channel sending error",
            ErrorKind::Other => "Other error",
        }
    }
}

} // verus!
