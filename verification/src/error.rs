//! The error type of the crate.

use vstd::prelude::*;
use vstd::string::StringExecFns;

use crate::text::concat;

verus! {

/// An error of the coordination layer. Each variant carries the text of its cause, so that
/// an error that surfaces through another component still names its origin.
#[derive(Debug, Clone, PartialEq, Eq)]
pub enum HetuError {
    /// An I/O operation failed.
    IoError(String),
    /// A branch that is known to be possible and has no implementation yet.
    NotImplemented(String),
    /// An internal invariant was broken, or a component was misused.
    Internal(String),
    /// An error that comes from outside the core: a backend, a remote peer.
    External(String),
    /// An error of the query engine.
    DataFusionError(String),
}

/// What a [`HetuError`] holds, as mathematical text.
pub enum HetuErrorView {
    IoError(Seq<char>),
    NotImplemented(Seq<char>),
    Internal(Seq<char>),
    External(Seq<char>),
    DataFusionError(Seq<char>),
}

impl View for HetuError {
    type V = HetuErrorView;

    open spec fn view(&self) -> HetuErrorView {
        match *self {
            HetuError::IoError(d) => HetuErrorView::IoError(d@),
            HetuError::NotImplemented(d) => HetuErrorView::NotImplemented(d@),
            HetuError::Internal(d) => HetuErrorView::Internal(d@),
            HetuError::External(d) => HetuErrorView::External(d@),
            HetuError::DataFusionError(d) => HetuErrorView::DataFusionError(d@),
        }
    }
}

impl HetuErrorView {
    /// The line that is shown for the error.
    pub open spec fn message(self) -> Seq<char> {
        match self {
            HetuErrorView::IoError(d) => "IO error: "@ + d,
            HetuErrorView::NotImplemented(d) => "This feature is not implemented: "@ + d,
            HetuErrorView::Internal(d) => "Internal error: "@ + d
                + ". This was likely caused by a bug in Hetu's code and we would welcome that you file an bug report in our issue tracker"@,
            HetuErrorView::External(d) => "External error: "@ + d,
            HetuErrorView::DataFusionError(d) => "Data fusion error: "@ + d,
        }
    }
}

impl HetuError {
    /// Renders the error as the line that is shown to a user.
    pub fn to_string(&self) -> (line: String)
        ensures
            line@ == self@.message(),
    {
        match self {
            HetuError::IoError(d) => concat("IO error: ", d.as_str()),
            HetuError::NotImplemented(d) => concat(
                "This feature is not implemented: ",
                d.as_str(),
            ),
            HetuError::Internal(d) => {
                let mut line = concat("Internal error: ", d.as_str());
                line.append(
                    ". This was likely caused by a bug in Hetu's code and we would welcome that you file an bug report in our issue tracker",
                );
                line
            },
            HetuError::External(d) => concat("External error: ", d.as_str()),
            HetuError::DataFusionError(d) => concat("Data fusion error: ", d.as_str()),
        }
    }
}

/// An `Err` that reports a broken internal invariant with the given description.
pub fn internal_err<T>(description: String) -> (r: Result<T, HetuError>)
    ensures
        r matches Err(e) && e@ == HetuErrorView::Internal(description@),
{
    Err(HetuError::Internal(description))
}

} // verus!
