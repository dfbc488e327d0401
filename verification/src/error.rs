//! The errors that the explorer reports.

use vstd::prelude::*;

use crate::text::texts;

verus! {

/// What can go wrong when a request is carried out.
#[derive(Debug, Clone, PartialEq, Eq)]
pub enum AppError {
    /// A program ran and reported failure.
    CommandFailed { program: String, args: Vec<String>, stderr: String },
    /// A program could not be started, or a file could not be used.
    Io(String),
    /// Something that is needed is absent or malformed.
    Parse(String),
    /// What was asked for does not exist.
    NotFound(String),
    /// What was entered cannot be used.
    InvalidArgument(String),
}

/// The mathematical value of an [`AppError`].
#[verifier::ext_equal]
pub enum AppErrorView {
    CommandFailed { program: Seq<char>, args: Seq<Seq<char>>, stderr: Seq<char> },
    Io(Seq<char>),
    Parse(Seq<char>),
    NotFound(Seq<char>),
    InvalidArgument(Seq<char>),
}

impl View for AppError {
    type V = AppErrorView;

    open spec fn view(&self) -> AppErrorView {
        match *self {
            AppError::CommandFailed { program, args, stderr } => AppErrorView::CommandFailed {
                program: program@,
                args: texts(args@),
                stderr: stderr@,
            },
            AppError::Io(text) => AppErrorView::Io(text@),
            AppError::Parse(text) => AppErrorView::Parse(text@),
            AppError::NotFound(text) => AppErrorView::NotFound(text@),
            AppError::InvalidArgument(text) => AppErrorView::InvalidArgument(text@),
        }
    }
}

/// Errors of the same value are of the same sort and say the same.
pub proof fn equal_errors_say_the_same(a: AppError, b: AppError)
    requires
        a@ == b@,
    ensures
        match (a, b) {
            (AppError::Io(x), AppError::Io(y)) => x@ == y@,
            (AppError::Parse(x), AppError::Parse(y)) => x@ == y@,
            (AppError::NotFound(x), AppError::NotFound(y)) => x@ == y@,
            (AppError::InvalidArgument(x), AppError::InvalidArgument(y)) => x@ == y@,
            (
                AppError::CommandFailed { program: p, args: x, stderr: s },
                AppError::CommandFailed { program: q, args: y, stderr: t },
            ) => p@ == q@ && texts(x@) == texts(y@) && s@ == t@,
            _ => false,
        },
{
}

} // verus!
