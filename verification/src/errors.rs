use vstd::prelude::*;

verus! {

/// A command-line flag, named in `ConflictingFlags` errors.
#[derive(Clone, Copy, Debug, PartialEq, Eq, Structural)]
pub enum Flag {
    Head,
    Tail,
    Sample,
    MaxRows,
    SelectColumns,
    NoHeader,
    Describe,
    Markdown,
    ColumnNamesOnly,
}

/// Every way an invocation can fail. All are terminal: there is no retry and
/// no partial output once one of these is produced.
#[derive(Debug, PartialEq, Eq)]
pub enum PreviewError {
    /// Two flags that may not be combined were both set.
    ConflictingFlags(Flag, Flag),
    /// The path's extension is not in the known set.
    UnrecognizedFormat(String),
    /// The path does not resolve to a regular file.
    SourceNotFound(String),
    /// The source could not be read.
    UnreadableSource(String),
    /// The engine could not parse or process the source's content.
    UnparseableSource(String),
}

} // verus!
