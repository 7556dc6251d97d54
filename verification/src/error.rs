//! The failures that end an import.

use vstd::prelude::*;

verus! {

/// The kinds of failure that end an import.
#[derive(Debug, Clone, Copy, PartialEq, Eq, Structural)]
pub enum ErrorKind {
    /// The input is not UTF-8.
    Encoding,
    /// The input is not well-formed comma-separated text.
    Parse,
    /// A sink refused a statement.
    Sink,
    /// The input has no first record to learn the columns from.
    HeaderMissing,
}

/// Why an import ended early.
#[derive(Debug)]
pub enum ImportError {
    /// The leading bytes were not judged to be UTF-8.
    Encoding,
    /// The input holds no record at all.
    HeaderMissing,
    /// The reader failed on the first record.
    Header(csv::Error),
    /// The reader failed on a data record; `row` counts what it yields from zero.
    Record { row: usize, cause: csv::Error },
    /// A data record does not have one field per column.
    UnequalLengths { row: usize, expected: usize, found: usize },
    /// A builder refused a statement.
    Sink(std::io::Error),
}

/// A failure without the reader's or the builder's own account of it.
pub enum Failure {
    /// The leading bytes were not judged to be UTF-8.
    Encoding,
    /// The input holds no record at all.
    HeaderMissing,
    /// The reader failed on the first record.
    Header,
    /// The reader failed on the data record at `row`.
    Record { row: nat },
    /// The data record at `row` has `found` fields where `expected` are due.
    UnequalLengths { row: nat, expected: nat, found: nat },
    /// A builder refused a statement.
    Sink,
}

impl Failure {
    /// The kind of this failure.
    pub open spec fn kind(self) -> ErrorKind {
        match self {
            Failure::Encoding => ErrorKind::Encoding,
            Failure::HeaderMissing => ErrorKind::HeaderMissing,
            Failure::Header => ErrorKind::Parse,
            Failure::Record { .. } => ErrorKind::Parse,
            Failure::UnequalLengths { .. } => ErrorKind::Parse,
            Failure::Sink => ErrorKind::Sink,
        }
    }
}

impl View for ImportError {
    type V = Failure;

    open spec fn view(&self) -> Failure {
        match self {
            ImportError::Encoding => Failure::Encoding,
            ImportError::HeaderMissing => Failure::HeaderMissing,
            ImportError::Header(_) => Failure::Header,
            ImportError::Record { row, .. } => Failure::Record { row: *row as nat },
            ImportError::UnequalLengths { row, expected, found } => Failure::UnequalLengths {
                row: *row as nat,
                expected: *expected as nat,
                found: *found as nat,
            },
            ImportError::Sink(_) => Failure::Sink,
        }
    }
}

impl ImportError {
    /// The kind of this failure.
    pub fn kind(&self) -> (kind: ErrorKind)
        ensures
            kind == self@.kind(),
    {
        match self {
            ImportError::Encoding => ErrorKind::Encoding,
            ImportError::HeaderMissing => ErrorKind::HeaderMissing,
            ImportError::Header(_) => ErrorKind::Parse,
            ImportError::Record { .. } => ErrorKind::Parse,
            ImportError::UnequalLengths { .. } => ErrorKind::Parse,
            ImportError::Sink(_) => ErrorKind::Sink,
        }
    }
}

} // verus!
