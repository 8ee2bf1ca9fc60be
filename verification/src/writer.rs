//! Replacing a document in one step: fill a temporary sibling, force it onto
//! stable storage, then rename it over the document.

use vstd::prelude::*;
use vstd::string::*;
use crate::command::{prefixed, progress_view, Command, FsCommand, FsReply, Next, Progress, Reply};
use crate::kind::{parsed_file_type, require_file_type, unknown_file_type_message, DataFileType};
use crate::paths::{final_path, resolve, temp_path};
use crate::storage::{advance, lemma_effect_frame, run, Storage};

verus! {

/// Which command of a write is under way.
#[derive(Debug, Clone, Copy, PartialEq, Eq, Structural)]
pub enum WriteStage {
    EnsuringDir,
    CreatingTemp,
    WritingTemp,
    SyncingTemp,
    Renaming,
}

/// A write that is under way.
#[derive(Debug)]
pub struct AtomicWrite {
    final_path: String,
    temp_path: String,
    content: String,
    stage: WriteStage,
}

/// A write as the specifications see it.
pub ghost struct WriteModel {
    pub final_path: Seq<char>,
    pub temp_path: Seq<char>,
    pub content: Seq<char>,
    pub stage: WriteStage,
}

impl View for AtomicWrite {
    type V = WriteModel;

    closed spec fn view(&self) -> WriteModel {
        WriteModel {
            final_path: self.final_path@,
            temp_path: self.temp_path@,
            content: self.content@,
            stage: self.stage,
        }
    }
}

/// What a failure is reported with, by the command that failed.
pub open spec fn write_failure_prefix(stage: WriteStage) -> Seq<char> {
    match stage {
        WriteStage::EnsuringDir => Seq::empty(),
        WriteStage::CreatingTemp => "Failed to create temp file: "@,
        WriteStage::WritingTemp => "Failed to write to temp file: "@,
        WriteStage::SyncingTemp => "Failed to sync temp file: "@,
        WriteStage::Renaming => "Failed to rename temp file: "@,
    }
}

/// A write at its start, and its first command: make sure of the directory.
pub open spec fn write_begin(data_dir: Seq<char>, kind: DataFileType, content: Seq<char>) -> (
    WriteModel,
    Command,
) {
    (
        WriteModel {
            final_path: final_path(data_dir, kind),
            temp_path: temp_path(data_dir, kind),
            content,
            stage: WriteStage::EnsuringDir,
        },
        Command::EnsureDir { path: data_dir },
    )
}

/// What a write does on a reply. A failure ends it with the reason, behind
/// the prefix of the command that failed; nothing is retried and nothing is
/// cleaned up. Otherwise the next command follows, and after the rename the
/// write is done.
pub open spec fn write_step(write: WriteModel, reply: Reply) -> Next<WriteModel, ()> {
    match reply.failure() {
        Some(reason) => Next::Finished(Err(write_failure_prefix(write.stage) + reason)),
        None => match write.stage {
            WriteStage::EnsuringDir => Next::Continue(
                WriteModel { stage: WriteStage::CreatingTemp, ..write },
                Command::CreateFile { path: write.temp_path },
            ),
            WriteStage::CreatingTemp => Next::Continue(
                WriteModel { stage: WriteStage::WritingTemp, ..write },
                Command::WriteAll { path: write.temp_path, content: write.content },
            ),
            WriteStage::WritingTemp => Next::Continue(
                WriteModel { stage: WriteStage::SyncingTemp, ..write },
                Command::SyncAll { path: write.temp_path },
            ),
            WriteStage::SyncingTemp => Next::Continue(
                WriteModel { stage: WriteStage::Renaming, ..write },
                Command::Rename { from: write.temp_path, to: write.final_path },
            ),
            WriteStage::Renaming => Next::Finished(Ok(())),
        },
    }
}

/// The number of commands in a write: ensure, create, write, sync, rename.
pub open spec fn write_length() -> nat {
    5
}

impl AtomicWrite {
    /// Starts the write of `content` to a document of the data directory.
    pub fn begin(data_dir: &str, kind: DataFileType, content: &str) -> (res: (
        AtomicWrite,
        FsCommand,
    ))
        ensures
            (res.0@, res.1@) == write_begin(data_dir@, kind, content@),
    {
        let paths = resolve(data_dir, kind);
        (
            AtomicWrite {
                final_path: paths.final_path,
                temp_path: paths.temp_path,
                content: String::from_str(content),
                stage: WriteStage::EnsuringDir,
            },
            FsCommand::EnsureDir { path: String::from_str(data_dir) },
        )
    }

    /// Takes the reply to the command that was handed out last.
    pub fn step(self, reply: &FsReply) -> (res: Progress<AtomicWrite, ()>)
        ensures
            progress_view(res, |u: ()| u) == write_step(self@, reply@),
    {
        if let Some(reason) = reply.failure() {
            let message = match self.stage {
                WriteStage::EnsuringDir => reason.clone(),
                WriteStage::CreatingTemp => prefixed("Failed to create temp file: ", reason),
                WriteStage::WritingTemp => prefixed("Failed to write to temp file: ", reason),
                WriteStage::SyncingTemp => prefixed("Failed to sync temp file: ", reason),
                WriteStage::Renaming => prefixed("Failed to rename temp file: ", reason),
            };
            assert(Seq::<char>::empty() + reason@ =~= reason@);
            return Progress::Finished(Err(message));
        }
        let AtomicWrite { final_path, temp_path, content, stage } = self;
        match stage {
            WriteStage::EnsuringDir => {
                let command = FsCommand::CreateFile { path: temp_path.clone() };
                Progress::Continue(
                    AtomicWrite { final_path, temp_path, content, stage: WriteStage::CreatingTemp },
                    command,
                )
            },
            WriteStage::CreatingTemp => {
                let command = FsCommand::WriteAll {
                    path: temp_path.clone(),
                    content: content.clone(),
                };
                Progress::Continue(
                    AtomicWrite { final_path, temp_path, content, stage: WriteStage::WritingTemp },
                    command,
                )
            },
            WriteStage::WritingTemp => {
                let command = FsCommand::SyncAll { path: temp_path.clone() };
                Progress::Continue(
                    AtomicWrite { final_path, temp_path, content, stage: WriteStage::SyncingTemp },
                    command,
                )
            },
            WriteStage::SyncingTemp => {
                let command = FsCommand::Rename { from: temp_path.clone(), to: final_path.clone() };
                Progress::Continue(
                    AtomicWrite { final_path, temp_path, content, stage: WriteStage::Renaming },
                    command,
                )
            },
            WriteStage::Renaming => Progress::Finished(Ok(())),
        }
    }
}

/// Starts the write of `content` to the document that `file_type` names. An
/// identifier that names no document is turned away before any command is
/// handed out.
pub fn atomic_write_file(data_dir: &str, file_type: &str, content: &str) -> (res: Result<
    (AtomicWrite, FsCommand),
    String,
>)
    ensures
        match res {
            Ok(start) => parsed_file_type(file_type@) matches Some(kind) && (start.0@, start.1@)
                == write_begin(data_dir@, kind, content@),
            Err(message) => parsed_file_type(file_type@) is None && message@
                == unknown_file_type_message(file_type@),
        },
{
    match require_file_type(file_type) {
        Ok(kind) => Ok(AtomicWrite::begin(data_dir, kind, content)),
        Err(message) => Err(message),
    }
}

/// Where a write stands after `commands` of its commands on a storage that
/// does not fail.
pub open spec fn write_run(
    data_dir: Seq<char>,
    kind: DataFileType,
    content: Seq<char>,
    storage: Storage,
    commands: nat,
) -> (Storage, Option<Result<(), Seq<char>>>) {
    let start = write_begin(data_dir, kind, content);
    run(|w: WriteModel, r: Reply| write_step(w, r), start.0, start.1, storage, commands)
}

/// Whether nothing stands in the way of a write: the data directory is no
/// file, and neither the document nor its temporary sibling is a directory.
pub open spec fn write_possible(data_dir: Seq<char>, kind: DataFileType, storage: Storage) -> bool {
    &&& !storage.files.contains_key(data_dir)
    &&& !storage.dirs.contains(final_path(data_dir, kind))
    &&& !storage.dirs.contains(temp_path(data_dir, kind))
}

/// The storage that a successful write leaves: the data directory is there,
/// the document holds the content, and the temporary sibling is gone.
pub open spec fn written(
    storage: Storage,
    data_dir: Seq<char>,
    kind: DataFileType,
    content: Seq<char>,
) -> Storage {
    Storage {
        dirs: storage.dirs.insert(data_dir),
        files: storage.files.remove(temp_path(data_dir, kind)).insert(
            final_path(data_dir, kind),
            content,
        ),
    }
}

/// A write that nothing stands in the way of succeeds with its fifth command.
pub proof fn lemma_write_succeeds(
    data_dir: Seq<char>,
    kind: DataFileType,
    content: Seq<char>,
    storage: Storage,
)
    requires
        storage.well_formed(),
        write_possible(data_dir, kind, storage),
    ensures
        write_run(data_dir, kind, content, storage, write_length()) == (
            written(storage, data_dir, kind, content),
            Some(Ok::<(), Seq<char>>(())),
        ),
        written(storage, data_dir, kind, content).well_formed(),
{
    crate::paths::lemma_paths_distinct(data_dir, kind, kind);
    crate::paths::lemma_final_path_is_not_the_directory(data_dir, kind);
    reveal_with_fuel(advance, 6);
    let after = write_run(data_dir, kind, content, storage, write_length()).0;
    let expected = written(storage, data_dir, kind, content);
    assert(after.files =~= expected.files);
    assert(after.dirs =~= expected.dirs);
}

/// What a write leaves behind, wherever it stops.
///
/// A write that ran to its end and succeeded leaves exactly the content in
/// the document, and no temporary sibling. Any other write, one that failed
/// or one that was cut short before its rename was carried out, leaves the
/// document exactly as it was: with its earlier content, or absent. No write
/// touches any other file, and a write that nothing stands in the way of
/// succeeds once its five commands are carried out.
pub proof fn lemma_write_outcome(
    data_dir: Seq<char>,
    kind: DataFileType,
    content: Seq<char>,
    storage: Storage,
    commands: nat,
)
    requires
        storage.well_formed(),
    ensures
        ({
            let (after, result) = write_run(data_dir, kind, content, storage, commands);
            let done = result == Some(Ok::<(), Seq<char>>(()));
            &&& after.well_formed()
            &&& done ==> after.content(final_path(data_dir, kind)) == Some(content)
            &&& done ==> after.content(temp_path(data_dir, kind)) is None
            &&& !done ==> after.content(final_path(data_dir, kind)) == storage.content(
                final_path(data_dir, kind),
            )
            &&& commands < write_length() ==> !done
            &&& commands >= write_length() ==> result is Some
            &&& commands >= write_length() ==> (done <==> write_possible(data_dir, kind, storage))
            &&& forall|path: Seq<char>|
                path != final_path(data_dir, kind) && path != temp_path(data_dir, kind)
                    ==> #[trigger] after.content(path) == storage.content(path)
            &&& forall|path: Seq<char>|
                path != data_dir ==> (#[trigger] after.dirs.contains(path)
                    <==> storage.dirs.contains(path))
        }),
{
    crate::paths::lemma_paths_distinct(data_dir, kind, kind);
    crate::paths::lemma_final_path_is_not_the_directory(data_dir, kind);
    reveal_with_fuel(advance, 6);
}

/// Whatever the replies, a write hands out no command that touches the
/// document before its last one, the rename: until then a failure, a crash or
/// a half-written temporary file leaves the document as it was.
pub proof fn lemma_write_touches_document_last(write: WriteModel, reply: Reply, storage: Storage)
    requires
        write.temp_path != write.final_path,
        write.stage != WriteStage::SyncingTemp,
        write_step(write, reply) is Continue,
    ensures
        !write_step(write, reply)->Continue_1.writes(write.final_path),
        storage.effect(write_step(write, reply)->Continue_1).content(write.final_path)
            == storage.content(write.final_path),
{
    lemma_effect_frame(storage, write_step(write, reply)->Continue_1, write.final_path);
}

} // verus!
