//! The command value a chat message is classified into, and the error
//! taxonomy of classification, resolution and execution.

use vstd::prelude::*;

verus! {

/// The last instant whose RFC 3339 rendering keeps a four-digit year,
/// 9999-12-31T23:59:59Z; dates handed to the executor stay below it.
pub const MAX_TIMESTAMP: i64 = 253_402_300_799;

/// Two days of seconds.  Relative dates reach at most this far back, so a
/// current time at or above it keeps every produced date non-negative.
pub const TWO_DAYS: i64 = 172_800;

/// A classified command, fully owned for one classify-then-execute round
/// trip.  Identifiers and categories are plain character tokens; dates are
/// seconds since the Unix epoch, always a concrete instant.
pub enum Command {
    Add { id: Vec<char>, category: Vec<char> },
    Delete { id: Vec<char> },
    Change { id: Vec<char>, category: Vec<char> },
    Query { id: Vec<char> },
    Summary { date: i64 },
    Kpi { date: i64 },
}

/// The mathematical value of a [`Command`].
pub enum CmdView {
    Add { id: Seq<char>, category: Seq<char> },
    Delete { id: Seq<char> },
    Change { id: Seq<char>, category: Seq<char> },
    Query { id: Seq<char> },
    Summary { date: int },
    Kpi { date: int },
}

impl View for Command {
    type V = CmdView;

    open spec fn view(&self) -> CmdView {
        match self {
            Command::Add { id, category } => CmdView::Add { id: id@, category: category@ },
            Command::Delete { id } => CmdView::Delete { id: id@ },
            Command::Change { id, category } => CmdView::Change { id: id@, category: category@ },
            Command::Query { id } => CmdView::Query { id: id@ },
            Command::Summary { date } => CmdView::Summary { date: *date as int },
            Command::Kpi { date } => CmdView::Kpi { date: *date as int },
        }
    }
}

impl CmdView {
    /// A well-formed command keeps its date inside the range the executor
    /// can render as an RFC 3339 instant.
    pub open spec fn wf(self) -> bool {
        match self {
            CmdView::Summary { date } => 0 <= date <= MAX_TIMESTAMP as int,
            CmdView::Kpi { date } => 0 <= date <= MAX_TIMESTAMP as int,
            _ => true,
        }
    }
}

/// What can go wrong between reading a message and replying to it.
///
/// A remote-reported business error is not among these: the service's own
/// `error` text is surfaced as the reply itself.
#[derive(Debug)]
pub enum Error {
    /// The query prefix was used but the rest is not a single token.
    QueryFormat,
    /// The change prefix was used but the rest is not an id and a category.
    ChangeFormat,
    /// A link that is neither a canonical item link nor a known short link.
    UnrecognizedLink,
    /// The short-link host answered without a `Location` header.
    RedirectFailed,
    /// The redirect target held no canonical identifier.
    IdNotFound,
    /// The HTTP call or the decoding of its response failed; carries the
    /// transport's own description.
    Transport(Vec<char>),
}

/// The mathematical value of an [`Error`].
pub enum ErrorView {
    QueryFormat,
    ChangeFormat,
    UnrecognizedLink,
    RedirectFailed,
    IdNotFound,
    Transport(Seq<char>),
}

impl View for Error {
    type V = ErrorView;

    open spec fn view(&self) -> ErrorView {
        match self {
            Error::QueryFormat => ErrorView::QueryFormat,
            Error::ChangeFormat => ErrorView::ChangeFormat,
            Error::UnrecognizedLink => ErrorView::UnrecognizedLink,
            Error::RedirectFailed => ErrorView::RedirectFailed,
            Error::IdNotFound => ErrorView::IdNotFound,
            Error::Transport(t) => ErrorView::Transport(t@),
        }
    }
}

} // verus!
