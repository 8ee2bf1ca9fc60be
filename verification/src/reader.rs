//! Reading a document: absent is an answer, not an error.

use vstd::prelude::*;
use vstd::string::*;
use crate::command::{prefixed, progress_view, Command, FsCommand, FsReply, Next, Progress, Reply};
use crate::kind::{parsed_file_type, require_file_type, unknown_file_type_message, DataFileType};
use crate::paths::{final_path, join_path};
use crate::storage::{advance, run, Storage};
use crate::writer::{lemma_write_outcome, write_run};

verus! {

/// Which command of a read is under way.
#[derive(Debug, Clone, Copy, PartialEq, Eq, Structural)]
pub enum ReadStage {
    Checking,
    Reading,
}

/// A read that is under way.
#[derive(Debug)]
pub struct ReadDocument {
    path: String,
    stage: ReadStage,
}

/// A read as the specifications see it.
pub ghost struct ReadModel {
    pub path: Seq<char>,
    pub stage: ReadStage,
}

impl View for ReadDocument {
    type V = ReadModel;

    closed spec fn view(&self) -> ReadModel {
        ReadModel { path: self.path@, stage: self.stage }
    }
}

/// What a failed read is reported with.
pub open spec fn read_failure_prefix() -> Seq<char> {
    "Failed to read file: "@
}

/// A read at its start, and its first command: ask whether the document exists.
pub open spec fn read_begin(data_dir: Seq<char>, kind: DataFileType) -> (ReadModel, Command) {
    let path = final_path(data_dir, kind);
    (ReadModel { path, stage: ReadStage::Checking }, Command::Exists { path })
}

/// What a read does on a reply. A document that is not there is reported as
/// `None`; one that is there is read, and its text or the failure is the result.
pub open spec fn read_step(read: ReadModel, reply: Reply) -> Next<ReadModel, Option<Seq<char>>> {
    match read.stage {
        ReadStage::Checking => if reply.found() {
            Next::Continue(
                ReadModel { stage: ReadStage::Reading, ..read },
                Command::ReadText { path: read.path },
            )
        } else {
            Next::Finished(Ok(None))
        },
        ReadStage::Reading => match reply.text() {
            Ok(text) => Next::Finished(Ok(Some(text))),
            Err(reason) => Next::Finished(Err(read_failure_prefix() + reason)),
        },
    }
}

/// The number of commands in a read at most: exists, read.
pub open spec fn read_length() -> nat {
    2
}

/// How the specifications see what a read returns.
pub open spec fn read_value(value: Option<String>) -> Option<Seq<char>> {
    match value {
        Some(text) => Some(text@),
        None => None,
    }
}

impl ReadDocument {
    /// Starts the read of a document of the data directory.
    pub fn begin(data_dir: &str, kind: DataFileType) -> (res: (ReadDocument, FsCommand))
        ensures
            (res.0@, res.1@) == read_begin(data_dir@, kind),
    {
        let path = join_path(data_dir, kind.filename());
        let command = FsCommand::Exists { path: path.clone() };
        (ReadDocument { path, stage: ReadStage::Checking }, command)
    }

    /// Takes the reply to the command that was handed out last.
    pub fn step(self, reply: &FsReply) -> (res: Progress<ReadDocument, Option<String>>)
        ensures
            progress_view(res, |v: Option<String>| read_value(v)) == read_step(self@, reply@),
    {
        match self.stage {
            ReadStage::Checking => {
                if reply.found() {
                    let command = FsCommand::ReadText { path: self.path.clone() };
                    Progress::Continue(
                        ReadDocument { path: self.path, stage: ReadStage::Reading },
                        command,
                    )
                } else {
                    Progress::Finished(Ok(None))
                }
            },
            ReadStage::Reading => match reply.text() {
                Ok(text) => Progress::Finished(Ok(Some(text))),
                Err(reason) => Progress::Finished(
                    Err(prefixed("Failed to read file: ", reason.as_str())),
                ),
            },
        }
    }
}

/// Starts the read of the document that `file_type` names. An identifier that
/// names no document is turned away before any command is handed out.
pub fn read_data_file(data_dir: &str, file_type: &str) -> (res: Result<
    (ReadDocument, FsCommand),
    String,
>)
    ensures
        match res {
            Ok(start) => parsed_file_type(file_type@) matches Some(kind) && (start.0@, start.1@)
                == read_begin(data_dir@, kind),
            Err(message) => parsed_file_type(file_type@) is None && message@
                == unknown_file_type_message(file_type@),
        },
{
    match require_file_type(file_type) {
        Ok(kind) => Ok(ReadDocument::begin(data_dir, kind)),
        Err(message) => Err(message),
    }
}

/// What a read that runs to its end returns on a storage that does not fail.
pub open spec fn read_result(data_dir: Seq<char>, kind: DataFileType, storage: Storage) -> Option<
    Result<Option<Seq<char>>, Seq<char>>,
> {
    let start = read_begin(data_dir, kind);
    run(|m: ReadModel, r: Reply| read_step(m, r), start.0, start.1, storage, read_length()).1
}

/// A read returns the content of the document, or `None` where there is no
/// document; it changes nothing. Only a directory in the document's place
/// makes it fail.
pub proof fn lemma_read_returns_content(data_dir: Seq<char>, kind: DataFileType, storage: Storage)
    ensures
        !storage.dirs.contains(final_path(data_dir, kind)) ==> read_result(data_dir, kind, storage)
            == Some(
            Ok::<Option<Seq<char>>, Seq<char>>(storage.content(final_path(data_dir, kind))),
        ),
        storage.content(final_path(data_dir, kind)) is Some ==> read_result(data_dir, kind, storage)
            == Some(
            Ok::<Option<Seq<char>>, Seq<char>>(storage.content(final_path(data_dir, kind))),
        ),
        ({
            let start = read_begin(data_dir, kind);
            run(
                |m: ReadModel, r: Reply| read_step(m, r),
                start.0,
                start.1,
                storage,
                read_length(),
            ).0 == storage
        }),
{
    reveal_with_fuel(advance, 3);
}

/// Write, then read: for every document and every content, a write that
/// succeeded followed by a read returns exactly that content.
pub proof fn lemma_write_then_read(
    data_dir: Seq<char>,
    kind: DataFileType,
    content: Seq<char>,
    storage: Storage,
    commands: nat,
)
    requires
        storage.well_formed(),
        write_run(data_dir, kind, content, storage, commands).1 == Some(Ok::<(), Seq<char>>(())),
    ensures
        read_result(data_dir, kind, write_run(data_dir, kind, content, storage, commands).0)
            == Some(Ok::<Option<Seq<char>>, Seq<char>>(Some(content))),
{
    let after = write_run(data_dir, kind, content, storage, commands).0;
    lemma_write_outcome(data_dir, kind, content, storage, commands);
    lemma_read_returns_content(data_dir, kind, after);
}

/// A write that did not succeed, then a read: whether the write failed or
/// was cut short before its rename, the read returns what the document held
/// before the write, or `None` if there was no document; never a part of the
/// new content.
pub proof fn lemma_interrupted_write_then_read(
    data_dir: Seq<char>,
    kind: DataFileType,
    content: Seq<char>,
    storage: Storage,
    commands: nat,
)
    requires
        storage.well_formed(),
        !storage.dirs.contains(final_path(data_dir, kind)),
        write_run(data_dir, kind, content, storage, commands).1 != Some(Ok::<(), Seq<char>>(())),
    ensures
        read_result(data_dir, kind, write_run(data_dir, kind, content, storage, commands).0)
            == Some(
            Ok::<Option<Seq<char>>, Seq<char>>(storage.content(final_path(data_dir, kind))),
        ),
{
    let after = write_run(data_dir, kind, content, storage, commands).0;
    lemma_write_outcome(data_dir, kind, content, storage, commands);
    crate::paths::lemma_final_path_is_not_the_directory(data_dir, kind);
    lemma_read_returns_content(data_dir, kind, after);
}

} // verus!
