//! The failures a tagging session reports.

use vstd::prelude::*;

verus! {

/// Why an operation on a session did not go through.
#[derive(Debug, Clone)]
pub enum TaggerError {
    /// The session holds no file.
    Disposed,
    /// The bytes or the path given at load time are not a readable audio file.
    InvalidInput { reason: String },
    /// The file carries no tag to read or write.
    NoTagPresent,
    /// An argument lies outside the values the field admits.
    InvalidArgument,
    /// A file-system operation was asked for where none is available.
    UnsupportedEnvironment,
    /// Writing the container failed.
    WriteFailed { cause: String, path: Option<String> },
    /// A save was asked for with neither a buffer nor a path to save to.
    NoTargetAvailable,
}

/// The kind of a failure, without what it carries.
#[derive(Debug, Clone, Copy, PartialEq, Eq, Structural)]
pub enum ErrorKind {
    Disposed,
    InvalidInput,
    NoTagPresent,
    InvalidArgument,
    UnsupportedEnvironment,
    WriteFailed,
    NoTargetAvailable,
}

/// A failure and what it carries, as contracts speak of it.
pub ghost enum TaggerErrorView {
    Disposed,
    InvalidInput { reason: Seq<char> },
    NoTagPresent,
    InvalidArgument,
    UnsupportedEnvironment,
    WriteFailed { cause: Seq<char>, path: Option<Seq<char>> },
    NoTargetAvailable,
}

impl View for TaggerError {
    type V = TaggerErrorView;

    open spec fn view(&self) -> TaggerErrorView {
        match self {
            TaggerError::Disposed => TaggerErrorView::Disposed,
            TaggerError::InvalidInput { reason } => TaggerErrorView::InvalidInput {
                reason: reason@,
            },
            TaggerError::NoTagPresent => TaggerErrorView::NoTagPresent,
            TaggerError::InvalidArgument => TaggerErrorView::InvalidArgument,
            TaggerError::UnsupportedEnvironment => TaggerErrorView::UnsupportedEnvironment,
            TaggerError::WriteFailed { cause, path } => TaggerErrorView::WriteFailed {
                cause: cause@,
                path: match path {
                    Some(p) => Some(p@),
                    None => None,
                },
            },
            TaggerError::NoTargetAvailable => TaggerErrorView::NoTargetAvailable,
        }
    }
}

impl TaggerError {
    /// The kind of this failure, as contracts speak of it.
    pub open spec fn spec_kind(&self) -> ErrorKind {
        match self {
            TaggerError::Disposed => ErrorKind::Disposed,
            TaggerError::InvalidInput { .. } => ErrorKind::InvalidInput,
            TaggerError::NoTagPresent => ErrorKind::NoTagPresent,
            TaggerError::InvalidArgument => ErrorKind::InvalidArgument,
            TaggerError::UnsupportedEnvironment => ErrorKind::UnsupportedEnvironment,
            TaggerError::WriteFailed { .. } => ErrorKind::WriteFailed,
            TaggerError::NoTargetAvailable => ErrorKind::NoTargetAvailable,
        }
    }

    /// The kind of this failure.
    #[verifier::when_used_as_spec(spec_kind)]
    pub fn kind(&self) -> (k: ErrorKind)
        ensures
            k == self.spec_kind(),
    {
        match self {
            TaggerError::Disposed => ErrorKind::Disposed,
            TaggerError::InvalidInput { .. } => ErrorKind::InvalidInput,
            TaggerError::NoTagPresent => ErrorKind::NoTagPresent,
            TaggerError::InvalidArgument => ErrorKind::InvalidArgument,
            TaggerError::UnsupportedEnvironment => ErrorKind::UnsupportedEnvironment,
            TaggerError::WriteFailed { .. } => ErrorKind::WriteFailed,
            TaggerError::NoTargetAvailable => ErrorKind::NoTargetAvailable,
        }
    }
}

} // verus!
