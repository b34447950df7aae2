//! Errors raised while parsing or building a record.

use vstd::prelude::*;

verus! {

/// Why a line or a record was refused.
#[derive(Debug)]
pub enum ParseError {
    /// A tag that cannot be reopened was opened again.
    AlreadyOpened { tag: String },
    /// A tag was closed while already closed.
    AlreadyClosed { tag: String },
    /// A tag was closed without having been opened.
    NotOpened { tag: String },
    /// An opening tag without its final `>`.
    MalformedTag { tag: String },
    /// The text of a leaf is not a value of the leaf's type.
    Conversion { tag: String, text: String },
    /// An attribute that the record needs is absent.
    MissingAttribute { tag: String, attribute: String },
    /// A value that the record needs is absent or empty.
    MissingValue { tag: String },
    /// No parser took the line.
    UnhandledLine { line: String },
    /// A build was asked for before the tag was closed.
    NotReady { tag: String },
}

/// The mathematical content of a [`ParseError`].
pub enum ErrorView {
    AlreadyOpened { tag: Seq<char> },
    AlreadyClosed { tag: Seq<char> },
    NotOpened { tag: Seq<char> },
    MalformedTag { tag: Seq<char> },
    Conversion { tag: Seq<char>, text: Seq<char> },
    MissingAttribute { tag: Seq<char>, attribute: Seq<char> },
    MissingValue { tag: Seq<char> },
    UnhandledLine { line: Seq<char> },
    NotReady { tag: Seq<char> },
}

impl View for ParseError {
    type V = ErrorView;

    open spec fn view(&self) -> ErrorView {
        match self {
            ParseError::AlreadyOpened { tag } => ErrorView::AlreadyOpened { tag: tag@ },
            ParseError::AlreadyClosed { tag } => ErrorView::AlreadyClosed { tag: tag@ },
            ParseError::NotOpened { tag } => ErrorView::NotOpened { tag: tag@ },
            ParseError::MalformedTag { tag } => ErrorView::MalformedTag { tag: tag@ },
            ParseError::Conversion { tag, text } => ErrorView::Conversion {
                tag: tag@,
                text: text@,
            },
            ParseError::MissingAttribute { tag, attribute } => ErrorView::MissingAttribute {
                tag: tag@,
                attribute: attribute@,
            },
            ParseError::MissingValue { tag } => ErrorView::MissingValue { tag: tag@ },
            ParseError::UnhandledLine { line } => ErrorView::UnhandledLine { line: line@ },
            ParseError::NotReady { tag } => ErrorView::NotReady { tag: tag@ },
        }
    }
}

/// The outcome of a parse step, seen through the error's view.
pub open spec fn outcome<T>(r: Result<T, ParseError>) -> Result<T, ErrorView> {
    match r {
        Ok(v) => Ok(v),
        Err(e) => Err(e@),
    }
}

} // verus!

verus! {

/// The outcome of a build, seen through the views of the value and the error.
pub open spec fn result_view<T: View>(r: Result<T, ParseError>) -> Result<T::V, ErrorView> {
    match r {
        Ok(v) => Ok(v@),
        Err(e) => Err(e@),
    }
}

} // verus!
