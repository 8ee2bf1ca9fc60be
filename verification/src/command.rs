//! The vocabulary between the state machines of this crate and whoever
//! carries out their file-system work.
//!
//! A machine hands out one [`FsCommand`] at a time. The caller performs it and
//! reports an [`FsReply`]; the machine then either hands out the next command
//! or finishes with its result.

use vstd::prelude::*;
use vstd::string::*;
use crate::text::has_prefix;

verus! {

/// One piece of file-system work, with every path written out in full.
#[derive(Debug, Clone, PartialEq, Eq)]
pub enum FsCommand {
    /// Create the directory, with its parents, unless it is there already.
    EnsureDir { path: String },
    /// Tell whether anything exists at the path.
    Exists { path: String },
    /// Read the whole file as text.
    ReadText { path: String },
    /// Create the file, or empty it if it exists, and keep it open.
    CreateFile { path: String },
    /// Write the whole content to the file that was created last.
    WriteAll { path: String, content: String },
    /// Force the file that was created last onto stable storage and close it.
    SyncAll { path: String },
    /// Move `from` onto `to` in one step, replacing what was there.
    Rename { from: String, to: String },
    /// Copy the content of `from` into `to`.
    CopyFile { from: String, to: String },
}

/// How a command went.
#[derive(Debug, Clone, PartialEq, Eq)]
pub enum FsReply {
    /// The work was done; there is nothing to report.
    Done,
    /// The work failed, for the reason given.
    Failed(String),
    /// The answer to [`FsCommand::Exists`].
    Found(bool),
    /// The answer to [`FsCommand::ReadText`].
    Text(String),
}

/// What a machine wants after a step: more work, or nothing more.
#[derive(Debug)]
pub enum Progress<M, T> {
    /// Perform the command and report back to the machine given here.
    Continue(M, FsCommand),
    /// The operation is over, with this result.
    Finished(Result<T, String>),
}

/// A command as the specifications see it.
pub ghost enum Command {
    EnsureDir { path: Seq<char> },
    Exists { path: Seq<char> },
    ReadText { path: Seq<char> },
    CreateFile { path: Seq<char> },
    WriteAll { path: Seq<char>, content: Seq<char> },
    SyncAll { path: Seq<char> },
    Rename { from: Seq<char>, to: Seq<char> },
    CopyFile { from: Seq<char>, to: Seq<char> },
}

/// A reply as the specifications see it.
pub ghost enum Reply {
    Done,
    Failed(Seq<char>),
    Found(bool),
    Text(Seq<char>),
}

/// A step's outcome as the specifications see it.
pub ghost enum Next<M, T> {
    Continue(M, Command),
    Finished(Result<T, Seq<char>>),
}

impl View for FsCommand {
    type V = Command;

    open spec fn view(&self) -> Command {
        match *self {
            FsCommand::EnsureDir { path } => Command::EnsureDir { path: path@ },
            FsCommand::Exists { path } => Command::Exists { path: path@ },
            FsCommand::ReadText { path } => Command::ReadText { path: path@ },
            FsCommand::CreateFile { path } => Command::CreateFile { path: path@ },
            FsCommand::WriteAll { path, content } => Command::WriteAll {
                path: path@,
                content: content@,
            },
            FsCommand::SyncAll { path } => Command::SyncAll { path: path@ },
            FsCommand::Rename { from, to } => Command::Rename { from: from@, to: to@ },
            FsCommand::CopyFile { from, to } => Command::CopyFile { from: from@, to: to@ },
        }
    }
}

impl View for FsReply {
    type V = Reply;

    open spec fn view(&self) -> Reply {
        match *self {
            FsReply::Done => Reply::Done,
            FsReply::Failed(reason) => Reply::Failed(reason@),
            FsReply::Found(found) => Reply::Found(found),
            FsReply::Text(text) => Reply::Text(text@),
        }
    }
}

/// The step's outcome as the specifications see it; `value` says how they see
/// a result.
pub open spec fn progress_view<M: View, T, V>(
    progress: Progress<M, T>,
    value: spec_fn(T) -> V,
) -> Next<M::V, V> {
    match progress {
        Progress::Continue(machine, command) => Next::Continue(machine@, command@),
        Progress::Finished(Ok(v)) => Next::Finished(Ok(value(v))),
        Progress::Finished(Err(reason)) => Next::Finished(Err(reason@)),
    }
}

impl Command {
    /// Whether carrying the command out may change, create or take away the
    /// file at `path`.
    pub open spec fn writes(self, path: Seq<char>) -> bool {
        match self {
            Command::CreateFile { path: p } => p == path,
            Command::WriteAll { path: p, content } => p == path,
            Command::Rename { from, to } => from == path || to == path,
            Command::CopyFile { from, to } => to == path,
            _ => false,
        }
    }
}

/// The text a machine reports where it asked for a text and the reply holds none.
pub open spec fn no_text_message() -> Seq<char> {
    "the reply carries no text"@
}

impl Reply {
    /// Why the work failed, if it did. Every reply but `Failed` counts as success.
    pub open spec fn failure(self) -> Option<Seq<char>> {
        match self {
            Reply::Failed(reason) => Some(reason),
            _ => None,
        }
    }

    /// Whether the reply says that something was found. Every reply but
    /// `Found(true)` says that nothing was.
    pub open spec fn found(self) -> bool {
        self == Reply::Found(true)
    }

    /// The text that the reply carries, or why there is none.
    pub open spec fn text(self) -> Result<Seq<char>, Seq<char>> {
        match self {
            Reply::Text(text) => Ok(text),
            Reply::Failed(reason) => Err(reason),
            _ => Err(no_text_message()),
        }
    }
}

impl FsReply {
    /// Why the work failed, if it did.
    pub fn failure(&self) -> (res: Option<&String>)
        ensures
            match res {
                Some(reason) => self@.failure() == Some(reason@),
                None => self@.failure() is None,
            },
    {
        match self {
            FsReply::Failed(reason) => Some(reason),
            _ => None,
        }
    }

    /// Whether the reply says that something was found.
    pub fn found(&self) -> (res: bool)
        ensures
            res == self@.found(),
    {
        match self {
            FsReply::Found(found) => *found,
            _ => false,
        }
    }

    /// The text that the reply carries, or why there is none.
    pub fn text(&self) -> (res: Result<String, String>)
        ensures
            match res {
                Ok(text) => self@.text() == Ok::<Seq<char>, Seq<char>>(text@),
                Err(reason) => self@.text() == Err::<Seq<char>, Seq<char>>(reason@),
            },
    {
        match self {
            FsReply::Text(text) => Ok(text.clone()),
            FsReply::Failed(reason) => Err(reason.clone()),
            _ => Err(String::from_str("the reply carries no text")),
        }
    }
}

/// `prefix` followed by `reason`: how every failure message of this crate is built.
pub fn prefixed(prefix: &str, reason: &str) -> (message: String)
    ensures
        message@ == prefix@ + reason@,
        has_prefix(message@, prefix@),
{
    assert((prefix@ + reason@).subrange(0, prefix@.len() as int) =~= prefix@);
    String::from_str(prefix).concat(reason)
}

} // verus!
