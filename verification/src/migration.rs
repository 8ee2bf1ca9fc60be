//! The legacy migration as a sequence of commands: guard, read, three
//! atomic writes, and the retirement of the legacy file.
//!
//! The guard makes the migration safe to start on every launch: it does
//! nothing unless the legacy file is there and the active document is not.

use vstd::prelude::*;
use vstd::string::*;
use crate::command::{prefixed, progress_view, Command, FsCommand, FsReply, Next, Progress, Reply};
use crate::kind::{DataFileType, LEGACY_FILENAME, MIGRATED_FILENAME};
use crate::json::{json_member, json_parsed};
use crate::migrate::{
    active_members, archive_members, documents_of, empty_list, lemma_missing_lists_are_empty,
    migrate_documents, parse_failure_prefix, pomodoro_members, prepared_view, renders,
    DocumentsModel, MigratedDocuments,
};
use crate::text::has_prefix;
use crate::paths::{final_path, join_path, joined_path, temp_path};
use crate::storage::{advance, lemma_advance_split, run, Position, Storage};
use crate::writer::{
    write_begin, write_length, write_possible, write_step, written, AtomicWrite, WriteModel,
};

verus! {

/// Where a migration stands.
#[derive(Debug)]
pub enum MigrationStage {
    CheckingLegacy,
    CheckingActive,
    ReadingLegacy,
    WritingActive { write: AtomicWrite, archive: String, pomodoro_history: String },
    WritingArchive { write: AtomicWrite, pomodoro_history: String },
    WritingPomodoroHistory { write: AtomicWrite },
    RenamingLegacy,
}

/// A migration that is under way.
#[derive(Debug)]
pub struct Migration {
    data_dir: String,
    stage: MigrationStage,
}

/// Where a migration stands, as the specifications see it.
pub ghost enum MigrationStageModel {
    CheckingLegacy,
    CheckingActive,
    ReadingLegacy,
    WritingActive { write: WriteModel, archive: Seq<char>, pomodoro_history: Seq<char> },
    WritingArchive { write: WriteModel, pomodoro_history: Seq<char> },
    WritingPomodoroHistory { write: WriteModel },
    RenamingLegacy,
}

/// A migration as the specifications see it.
pub ghost struct MigrationModel {
    pub data_dir: Seq<char>,
    pub stage: MigrationStageModel,
}

impl View for MigrationStage {
    type V = MigrationStageModel;

    open spec fn view(&self) -> MigrationStageModel {
        match *self {
            MigrationStage::CheckingLegacy => MigrationStageModel::CheckingLegacy,
            MigrationStage::CheckingActive => MigrationStageModel::CheckingActive,
            MigrationStage::ReadingLegacy => MigrationStageModel::ReadingLegacy,
            MigrationStage::WritingActive { write, archive, pomodoro_history } =>
                MigrationStageModel::WritingActive {
                    write: write@,
                    archive: archive@,
                    pomodoro_history: pomodoro_history@,
                },
            MigrationStage::WritingArchive { write, pomodoro_history } =>
                MigrationStageModel::WritingArchive {
                    write: write@,
                    pomodoro_history: pomodoro_history@,
                },
            MigrationStage::WritingPomodoroHistory { write } =>
                MigrationStageModel::WritingPomodoroHistory { write: write@ },
            MigrationStage::RenamingLegacy => MigrationStageModel::RenamingLegacy,
        }
    }
}

impl View for Migration {
    type V = MigrationModel;

    closed spec fn view(&self) -> MigrationModel {
        MigrationModel { data_dir: self.data_dir@, stage: self.stage@ }
    }
}

/// The path of the legacy file.
pub open spec fn legacy_path(data_dir: Seq<char>) -> Seq<char> {
    joined_path(data_dir, LEGACY_FILENAME@)
}

/// The path under which the legacy file is kept once it has been migrated.
pub open spec fn migrated_path(data_dir: Seq<char>) -> Seq<char> {
    joined_path(data_dir, MIGRATED_FILENAME@)
}

/// What a legacy file that cannot be read is reported with.
pub open spec fn legacy_read_failure_prefix() -> Seq<char> {
    "Failed to read legacy file: "@
}

/// What a legacy file that cannot be retired is reported with.
pub open spec fn legacy_rename_failure_prefix() -> Seq<char> {
    "Failed to rename legacy file: "@
}

/// A migration at its start, and its first command: ask for the legacy file.
pub open spec fn migration_begin(data_dir: Seq<char>) -> (MigrationModel, Command) {
    (
        MigrationModel { data_dir, stage: MigrationStageModel::CheckingLegacy },
        Command::Exists { path: legacy_path(data_dir) },
    )
}

/// A write within a migration: its commands are passed on, its failure is
/// the migration's, and its success leads to `then`.
pub open spec fn migration_write(
    data_dir: Seq<char>,
    inner: Next<WriteModel, ()>,
    stage: spec_fn(WriteModel) -> MigrationStageModel,
    then: Next<MigrationModel, bool>,
) -> Next<MigrationModel, bool> {
    match inner {
        Next::Continue(write, command) => Next::Continue(
            MigrationModel { data_dir, stage: stage(write) },
            command,
        ),
        Next::Finished(Err(message)) => Next::Finished(Err(message)),
        Next::Finished(Ok(_)) => then,
    }
}

/// What a migration does on a reply, where `prepared` is what became of the
/// text of the legacy file, for the step that has just read it.
///
/// Without a legacy file, or with an active document, the migration ends at
/// once: nothing was done. A legacy file that cannot be read or turned into
/// documents ends it before anything is written. Then the three documents are
/// written, each atomically, and at last the legacy file is renamed.
pub open spec fn migration_step(
    migration: MigrationModel,
    reply: Reply,
    prepared: Result<DocumentsModel, Seq<char>>,
) -> Next<MigrationModel, bool> {
    let data_dir = migration.data_dir;
    match migration.stage {
        MigrationStageModel::CheckingLegacy => if reply.found() {
            Next::Continue(
                MigrationModel { data_dir, stage: MigrationStageModel::CheckingActive },
                Command::Exists { path: final_path(data_dir, DataFileType::Active) },
            )
        } else {
            Next::Finished(Ok(false))
        },
        MigrationStageModel::CheckingActive => if reply.found() {
            Next::Finished(Ok(false))
        } else {
            Next::Continue(
                MigrationModel { data_dir, stage: MigrationStageModel::ReadingLegacy },
                Command::ReadText { path: legacy_path(data_dir) },
            )
        },
        MigrationStageModel::ReadingLegacy => match reply.text() {
            Err(reason) => Next::Finished(Err(legacy_read_failure_prefix() + reason)),
            Ok(_) => match prepared {
                Err(message) => Next::Finished(Err(message)),
                Ok(documents) => {
                    let start = write_begin(data_dir, DataFileType::Active, documents.active);
                    Next::Continue(
                        MigrationModel {
                            data_dir,
                            stage: MigrationStageModel::WritingActive {
                                write: start.0,
                                archive: documents.archive,
                                pomodoro_history: documents.pomodoro_history,
                            },
                        },
                        start.1,
                    )
                },
            },
        },
        MigrationStageModel::WritingActive { write, archive, pomodoro_history } => {
            let start = write_begin(data_dir, DataFileType::Archive, archive);
            migration_write(
                data_dir,
                write_step(write, reply),
                |w: WriteModel|
                    MigrationStageModel::WritingActive { write: w, archive, pomodoro_history },
                Next::Continue(
                    MigrationModel {
                        data_dir,
                        stage: MigrationStageModel::WritingArchive {
                            write: start.0,
                            pomodoro_history,
                        },
                    },
                    start.1,
                ),
            )
        },
        MigrationStageModel::WritingArchive { write, pomodoro_history } => {
            let start = write_begin(data_dir, DataFileType::PomodoroHistory, pomodoro_history);
            migration_write(
                data_dir,
                write_step(write, reply),
                |w: WriteModel| MigrationStageModel::WritingArchive { write: w, pomodoro_history },
                Next::Continue(
                    MigrationModel {
                        data_dir,
                        stage: MigrationStageModel::WritingPomodoroHistory { write: start.0 },
                    },
                    start.1,
                ),
            )
        },
        MigrationStageModel::WritingPomodoroHistory { write } => migration_write(
            data_dir,
            write_step(write, reply),
            |w: WriteModel| MigrationStageModel::WritingPomodoroHistory { write: w },
            Next::Continue(
                MigrationModel { data_dir, stage: MigrationStageModel::RenamingLegacy },
                Command::Rename { from: legacy_path(data_dir), to: migrated_path(data_dir) },
            ),
        ),
        MigrationStageModel::RenamingLegacy => match reply.failure() {
            Some(reason) => Next::Finished(Err(legacy_rename_failure_prefix() + reason)),
            None => Next::Finished(Ok(true)),
        },
    }
}

/// Whether `prepared` may be what became of the legacy text that the reply
/// carries. It matters only for the step that has just read the legacy file.
pub open spec fn prepared_for(
    migration: MigrationModel,
    reply: Reply,
    prepared: Result<DocumentsModel, Seq<char>>,
) -> bool {
    migration.stage is ReadingLegacy ==> match reply.text() {
        Ok(text) => documents_of(text, prepared),
        Err(_) => true,
    }
}

impl Migration {
    /// Starts a migration in the data directory.
    pub fn begin(data_dir: &str) -> (res: (Migration, FsCommand))
        ensures
            (res.0@, res.1@) == migration_begin(data_dir@),
    {
        (
            Migration {
                data_dir: String::from_str(data_dir),
                stage: MigrationStage::CheckingLegacy,
            },
            FsCommand::Exists { path: join_path(data_dir, LEGACY_FILENAME) },
        )
    }

    /// Whether the reply that comes next is the text of the legacy file.
    pub fn awaits_legacy_text(&self) -> (res: bool)
        ensures
            res == (self@.stage is ReadingLegacy),
    {
        match self.stage {
            MigrationStage::ReadingLegacy => true,
            _ => false,
        }
    }

    /// Takes the reply to the command that was handed out last. The text of
    /// the legacy file, when it arrives, is turned into the three documents here.
    pub fn step(self, reply: &FsReply) -> (res: Progress<Migration, bool>)
        ensures
            exists|prepared: Result<DocumentsModel, Seq<char>>| #[trigger]
                prepared_for(self@, reply@, prepared) && progress_view(res, |b: bool| b)
                    == migration_step(self@, reply@, prepared),
    {
        let ghost before = self@;
        let prepared = if self.awaits_legacy_text() {
            match reply {
                FsReply::Text(text) => migrate_documents(text.as_str()),
                _ => Err(String::new()),
            }
        } else {
            Err(String::new())
        };
        let ghost witness = prepared_view(prepared);
        let res = self.step_prepared(reply, prepared);
        proof {
            assert(prepared_for(before, reply@, witness));
        }
        res
    }

    /// Takes the reply to the command that was handed out last, and, for the
    /// step that has just read the legacy file, what became of its text.
    pub fn step_prepared(self, reply: &FsReply, prepared: Result<MigratedDocuments, String>) -> (res:
        Progress<Migration, bool>)
        ensures
            progress_view(res, |b: bool| b) == migration_step(
                self@,
                reply@,
                prepared_view(prepared),
            ),
    {
        let Migration { data_dir, stage } = self;
        match stage {
            MigrationStage::CheckingLegacy => {
                if reply.found() {
                    let command = FsCommand::Exists {
                        path: join_path(data_dir.as_str(), DataFileType::Active.filename()),
                    };
                    Progress::Continue(
                        Migration { data_dir, stage: MigrationStage::CheckingActive },
                        command,
                    )
                } else {
                    Progress::Finished(Ok(false))
                }
            },
            MigrationStage::CheckingActive => {
                if reply.found() {
                    Progress::Finished(Ok(false))
                } else {
                    let command = FsCommand::ReadText {
                        path: join_path(data_dir.as_str(), LEGACY_FILENAME),
                    };
                    Progress::Continue(
                        Migration { data_dir, stage: MigrationStage::ReadingLegacy },
                        command,
                    )
                }
            },
            MigrationStage::ReadingLegacy => match reply.text() {
                Err(reason) => Progress::Finished(
                    Err(prefixed("Failed to read legacy file: ", reason.as_str())),
                ),
                Ok(_) => match prepared {
                    Err(message) => Progress::Finished(Err(message)),
                    Ok(documents) => {
                        let MigratedDocuments { active, archive, pomodoro_history } = documents;
                        let (write, command) = AtomicWrite::begin(
                            data_dir.as_str(),
                            DataFileType::Active,
                            active.as_str(),
                        );
                        Progress::Continue(
                            Migration {
                                data_dir,
                                stage: MigrationStage::WritingActive {
                                    write,
                                    archive,
                                    pomodoro_history,
                                },
                            },
                            command,
                        )
                    },
                },
            },
            MigrationStage::WritingActive { write, archive, pomodoro_history } => {
                match write.step(reply) {
                    Progress::Continue(write, command) => Progress::Continue(
                        Migration {
                            data_dir,
                            stage: MigrationStage::WritingActive { write, archive, pomodoro_history },
                        },
                        command,
                    ),
                    Progress::Finished(Err(message)) => Progress::Finished(Err(message)),
                    Progress::Finished(Ok(_)) => {
                        let (write, command) = AtomicWrite::begin(
                            data_dir.as_str(),
                            DataFileType::Archive,
                            archive.as_str(),
                        );
                        Progress::Continue(
                            Migration {
                                data_dir,
                                stage: MigrationStage::WritingArchive { write, pomodoro_history },
                            },
                            command,
                        )
                    },
                }
            },
            MigrationStage::WritingArchive { write, pomodoro_history } => {
                match write.step(reply) {
                    Progress::Continue(write, command) => Progress::Continue(
                        Migration {
                            data_dir,
                            stage: MigrationStage::WritingArchive { write, pomodoro_history },
                        },
                        command,
                    ),
                    Progress::Finished(Err(message)) => Progress::Finished(Err(message)),
                    Progress::Finished(Ok(_)) => {
                        let (write, command) = AtomicWrite::begin(
                            data_dir.as_str(),
                            DataFileType::PomodoroHistory,
                            pomodoro_history.as_str(),
                        );
                        Progress::Continue(
                            Migration {
                                data_dir,
                                stage: MigrationStage::WritingPomodoroHistory { write },
                            },
                            command,
                        )
                    },
                }
            },
            MigrationStage::WritingPomodoroHistory { write } => {
                match write.step(reply) {
                    Progress::Continue(write, command) => Progress::Continue(
                        Migration {
                            data_dir,
                            stage: MigrationStage::WritingPomodoroHistory { write },
                        },
                        command,
                    ),
                    Progress::Finished(Err(message)) => Progress::Finished(Err(message)),
                    Progress::Finished(Ok(_)) => {
                        let command = FsCommand::Rename {
                            from: join_path(data_dir.as_str(), LEGACY_FILENAME),
                            to: join_path(data_dir.as_str(), MIGRATED_FILENAME),
                        };
                        Progress::Continue(
                            Migration { data_dir, stage: MigrationStage::RenamingLegacy },
                            command,
                        )
                    },
                }
            },
            MigrationStage::RenamingLegacy => match reply.failure() {
                Some(reason) => Progress::Finished(
                    Err(prefixed("Failed to rename legacy file: ", reason.as_str())),
                ),
                None => Progress::Finished(Ok(true)),
            },
        }
    }
}

/// Starts the migration of the legacy file of the data directory.
pub fn migrate_legacy_data(data_dir: &str) -> (res: (Migration, FsCommand))
    ensures
        (res.0@, res.1@) == migration_begin(data_dir@),
{
    Migration::begin(data_dir)
}

/// Where a migration stands after `commands` of its commands on a storage
/// that does not fail, where `prepared` is what becomes of the legacy text.
pub open spec fn migration_run(
    data_dir: Seq<char>,
    prepared: Result<DocumentsModel, Seq<char>>,
    storage: Storage,
    commands: nat,
) -> (Storage, Option<Result<bool, Seq<char>>>) {
    let start = migration_begin(data_dir);
    run(
        |m: MigrationModel, r: Reply| migration_step(m, r, prepared),
        start.0,
        start.1,
        storage,
        commands,
    )
}

/// The number of commands in a migration at most: two questions, one read,
/// three writes of five commands each, one rename.
pub open spec fn migration_length() -> nat {
    19
}

/// Whether a migration is due on the storage and nothing stands in its way:
/// the legacy file is there, the active document is not, and the documents
/// can be written and the legacy file renamed.
pub open spec fn migration_due(data_dir: Seq<char>, storage: Storage) -> bool {
    &&& storage.well_formed()
    &&& storage.files.contains_key(legacy_path(data_dir))
    &&& !storage.holds(final_path(data_dir, DataFileType::Active))
    &&& write_possible(data_dir, DataFileType::Active, storage)
    &&& write_possible(data_dir, DataFileType::Archive, storage)
    &&& write_possible(data_dir, DataFileType::PomodoroHistory, storage)
    &&& !storage.dirs.contains(migrated_path(data_dir))
}

/// The paths that a migration deals with are all different.
pub proof fn lemma_migration_paths_distinct(data_dir: Seq<char>)
    ensures
        legacy_path(data_dir) != migrated_path(data_dir),
        forall|kind: DataFileType|
            {
                &&& legacy_path(data_dir) != #[trigger] final_path(data_dir, kind)
                &&& migrated_path(data_dir) != final_path(data_dir, kind)
            },
        forall|kind: DataFileType|
            {
                &&& legacy_path(data_dir) != #[trigger] temp_path(data_dir, kind)
                &&& migrated_path(data_dir) != temp_path(data_dir, kind)
            },
        forall|a: DataFileType, b: DataFileType|
            #![trigger final_path(data_dir, a), temp_path(data_dir, b)]
            final_path(data_dir, a) != temp_path(data_dir, b),
        forall|a: DataFileType, b: DataFileType|
            #![trigger final_path(data_dir, a), final_path(data_dir, b)]
            a != b ==> final_path(data_dir, a) != final_path(data_dir, b),
        forall|a: DataFileType, b: DataFileType|
            #![trigger temp_path(data_dir, a), temp_path(data_dir, b)]
            a != b ==> temp_path(data_dir, a) != temp_path(data_dir, b),
{
    crate::kind::reveal_names();
    crate::kind::lemma_legacy_is_watched_only();
    crate::paths::lemma_joined_path_injective(data_dir, LEGACY_FILENAME@, MIGRATED_FILENAME@);
    assert forall|kind: DataFileType|
        {
            &&& legacy_path(data_dir) != #[trigger] final_path(data_dir, kind)
            &&& migrated_path(data_dir) != final_path(data_dir, kind)
        } by {
        crate::paths::lemma_joined_path_injective(data_dir, LEGACY_FILENAME@, kind.spec_filename());
        crate::paths::lemma_joined_path_injective(
            data_dir,
            MIGRATED_FILENAME@,
            kind.spec_filename(),
        );
    }
    assert forall|kind: DataFileType|
        {
            &&& legacy_path(data_dir) != #[trigger] temp_path(data_dir, kind)
            &&& migrated_path(data_dir) != temp_path(data_dir, kind)
        } by {
        crate::kind::lemma_temp_filename_is_no_document(kind);
        crate::paths::lemma_temp_path_is_joined(data_dir, kind);
        crate::paths::lemma_joined_path_injective(
            data_dir,
            LEGACY_FILENAME@,
            kind.spec_temp_filename(),
        );
        crate::paths::lemma_joined_path_injective(
            data_dir,
            MIGRATED_FILENAME@,
            kind.spec_temp_filename(),
        );
        assert(kind.spec_temp_filename() != crate::kind::WatchedFile::Legacy.spec_filename());
    }
    assert forall|a: DataFileType, b: DataFileType|
        #![trigger final_path(data_dir, a), temp_path(data_dir, b)]
        final_path(data_dir, a) != temp_path(data_dir, b) by {
        crate::paths::lemma_paths_distinct(data_dir, b, a);
    }
    assert forall|a: DataFileType, b: DataFileType|
        #![trigger final_path(data_dir, a), final_path(data_dir, b)]
        a != b implies final_path(data_dir, a) != final_path(data_dir, b) by {
        crate::paths::lemma_paths_distinct(data_dir, a, b);
    }
    assert forall|a: DataFileType, b: DataFileType|
        #![trigger temp_path(data_dir, a), temp_path(data_dir, b)]
        a != b implies temp_path(data_dir, a) != temp_path(data_dir, b) by {
        crate::paths::lemma_paths_distinct(data_dir, a, b);
    }
}

/// The step of a migration for which `prepared` is what becomes of the legacy text.
pub open spec fn migration_with(prepared: Result<DocumentsModel, Seq<char>>) -> spec_fn(
    MigrationModel,
    Reply,
) -> Next<MigrationModel, bool> {
    |m: MigrationModel, r: Reply| migration_step(m, r, prepared)
}

/// The migration while it writes the document `kind`, with `write` under way.
pub open spec fn writing(
    data_dir: Seq<char>,
    kind: DataFileType,
    write: WriteModel,
    documents: DocumentsModel,
) -> MigrationModel {
    MigrationModel {
        data_dir,
        stage: match kind {
            DataFileType::Active => MigrationStageModel::WritingActive {
                write,
                archive: documents.archive,
                pomodoro_history: documents.pomodoro_history,
            },
            DataFileType::Archive => MigrationStageModel::WritingArchive {
                write,
                pomodoro_history: documents.pomodoro_history,
            },
            DataFileType::PomodoroHistory => MigrationStageModel::WritingPomodoroHistory { write },
        },
    }
}

/// The text that a migration writes to the document `kind`.
pub open spec fn document_text(kind: DataFileType, documents: DocumentsModel) -> Seq<char> {
    match kind {
        DataFileType::Active => documents.active,
        DataFileType::Archive => documents.archive,
        DataFileType::PomodoroHistory => documents.pomodoro_history,
    }
}

/// The migration as it begins to write the document `kind`, and the first
/// command of that write.
pub open spec fn writing_begins(
    data_dir: Seq<char>,
    kind: DataFileType,
    documents: DocumentsModel,
) -> (MigrationModel, Command) {
    let start = write_begin(data_dir, kind, document_text(kind, documents));
    (writing(data_dir, kind, start.0, documents), start.1)
}

/// Where the migration stands once the document `kind` is written: at the
/// start of the next write, or at the rename of the legacy file.
pub open spec fn writing_ends(
    data_dir: Seq<char>,
    kind: DataFileType,
    documents: DocumentsModel,
) -> (MigrationModel, Command) {
    match kind {
        DataFileType::Active => writing_begins(data_dir, DataFileType::Archive, documents),
        DataFileType::Archive => writing_begins(data_dir, DataFileType::PomodoroHistory, documents),
        DataFileType::PomodoroHistory => (
            MigrationModel { data_dir, stage: MigrationStageModel::RenamingLegacy },
            Command::Rename { from: legacy_path(data_dir), to: migrated_path(data_dir) },
        ),
    }
}

/// Within a migration, a write that nothing stands in the way of takes five
/// commands and leaves what it leaves on its own; the migration then goes on.
pub proof fn lemma_migration_writes(
    data_dir: Seq<char>,
    prepared: Result<DocumentsModel, Seq<char>>,
    kind: DataFileType,
    documents: DocumentsModel,
    storage: Storage,
)
    requires
        storage.well_formed(),
        write_possible(data_dir, kind, storage),
    ensures
        advance(
            migration_with(prepared),
            writing_begins(data_dir, kind, documents).0,
            writing_begins(data_dir, kind, documents).1,
            storage,
            write_length(),
        ) == Position::<MigrationModel, bool>::Running(
            writing_ends(data_dir, kind, documents).0,
            writing_ends(data_dir, kind, documents).1,
            written(storage, data_dir, kind, document_text(kind, documents)),
        ),
{
    crate::paths::lemma_paths_distinct(data_dir, kind, kind);
    crate::paths::lemma_final_path_is_not_the_directory(data_dir, kind);
    reveal_with_fuel(advance, 6);
    let reached = advance(
        migration_with(prepared),
        writing_begins(data_dir, kind, documents).0,
        writing_begins(data_dir, kind, documents).1,
        storage,
        write_length(),
    );
    let expected = written(storage, data_dir, kind, document_text(kind, documents));
    assert(reached is Running);
    assert(reached->Running_2.files =~= expected.files);
    assert(reached->Running_2.dirs =~= expected.dirs);
}

/// A migration that is due asks its two questions, reads the legacy file,
/// and begins to write the active document; the storage is as it was.
pub proof fn lemma_migration_reads(
    data_dir: Seq<char>,
    documents: DocumentsModel,
    storage: Storage,
)
    requires
        migration_due(data_dir, storage),
    ensures
        advance(
            migration_with(Ok(documents)),
            migration_begin(data_dir).0,
            migration_begin(data_dir).1,
            storage,
            3,
        ) == Position::<MigrationModel, bool>::Running(
            writing_begins(data_dir, DataFileType::Active, documents).0,
            writing_begins(data_dir, DataFileType::Active, documents).1,
            storage,
        ),
{
    reveal_with_fuel(advance, 4);
}

/// The storage that a completed migration leaves.
pub open spec fn migrated(storage: Storage, data_dir: Seq<char>, documents: DocumentsModel) -> Storage {
    let active = written(storage, data_dir, DataFileType::Active, documents.active);
    let archive = written(active, data_dir, DataFileType::Archive, documents.archive);
    let all = written(
        archive,
        data_dir,
        DataFileType::PomodoroHistory,
        documents.pomodoro_history,
    );
    all.effect(Command::Rename { from: legacy_path(data_dir), to: migrated_path(data_dir) })
}

/// A migration that is due runs to its end and returns `true`. It leaves
/// the three documents with the prepared content and keeps the legacy file,
/// with its content, under its retired name.
pub proof fn lemma_migration_completes(
    data_dir: Seq<char>,
    documents: DocumentsModel,
    storage: Storage,
    commands: nat,
)
    requires
        migration_due(data_dir, storage),
        commands >= migration_length(),
    ensures
        migration_run(data_dir, Ok(documents), storage, commands) == (
            migrated(storage, data_dir, documents),
            Some(Ok::<bool, Seq<char>>(true)),
        ),
        ({
            let after = migrated(storage, data_dir, documents);
            &&& after.well_formed()
            &&& after.content(final_path(data_dir, DataFileType::Active)) == Some(documents.active)
            &&& after.content(final_path(data_dir, DataFileType::Archive)) == Some(
                documents.archive,
            )
            &&& after.content(final_path(data_dir, DataFileType::PomodoroHistory)) == Some(
                documents.pomodoro_history,
            )
            &&& after.content(legacy_path(data_dir)) is None
            &&& after.content(migrated_path(data_dir)) == storage.content(legacy_path(data_dir))
        }),
{
    let step = migration_with(Ok(documents));
    let start = migration_begin(data_dir);
    lemma_migration_paths_distinct(data_dir);
    crate::paths::lemma_final_path_is_not_the_directory(data_dir, DataFileType::Active);
    crate::paths::lemma_final_path_is_not_the_directory(data_dir, DataFileType::Archive);
    crate::paths::lemma_final_path_is_not_the_directory(data_dir, DataFileType::PomodoroHistory);
    crate::kind::reveal_names();
    crate::paths::lemma_joined_path_is_inside(data_dir, MIGRATED_FILENAME@);
    crate::paths::lemma_joined_path_is_inside(data_dir, LEGACY_FILENAME@);
    let s1 = written(storage, data_dir, DataFileType::Active, documents.active);
    let s2 = written(s1, data_dir, DataFileType::Archive, documents.archive);
    let s3 = written(s2, data_dir, DataFileType::PomodoroHistory, documents.pomodoro_history);
    lemma_migration_reads(data_dir, documents, storage);
    lemma_migration_writes(data_dir, Ok(documents), DataFileType::Active, documents, storage);
    assert(s1.well_formed());
    assert(write_possible(data_dir, DataFileType::Archive, s1));
    lemma_migration_writes(data_dir, Ok(documents), DataFileType::Archive, documents, s1);
    assert(s2.well_formed());
    assert(write_possible(data_dir, DataFileType::PomodoroHistory, s2));
    lemma_migration_writes(data_dir, Ok(documents), DataFileType::PomodoroHistory, documents, s2);
    assert(s3.well_formed());
    let b1 = writing_begins(data_dir, DataFileType::Active, documents);
    let b2 = writing_begins(data_dir, DataFileType::Archive, documents);
    let b3 = writing_begins(data_dir, DataFileType::PomodoroHistory, documents);
    let b4 = writing_ends(data_dir, DataFileType::PomodoroHistory, documents);
    lemma_advance_split(step, start.0, start.1, storage, 3, (commands - 3) as nat);
    lemma_advance_split(step, b1.0, b1.1, storage, 5, (commands - 8) as nat);
    lemma_advance_split(step, b2.0, b2.1, s1, 5, (commands - 13) as nat);
    lemma_advance_split(step, b3.0, b3.1, s2, 5, (commands - 18) as nat);
    assert(s3.files.contains_key(legacy_path(data_dir)));
    assert(!s3.dirs.contains(migrated_path(data_dir)));
    assert(advance(step, b4.0, b4.1, s3, (commands - 18) as nat) == Position::<
        MigrationModel,
        bool,
    >::Ended(migrated(storage, data_dir, documents), Ok(true))) by {
        reveal_with_fuel(advance, 2);
    }
}

/// A migration is idempotent: once one has run to its end, the next one
/// returns `false` and leaves the storage exactly as it found it, whatever
/// the legacy text would give.
pub proof fn lemma_migration_runs_once(
    data_dir: Seq<char>,
    documents: DocumentsModel,
    second: Result<DocumentsModel, Seq<char>>,
    storage: Storage,
    commands: nat,
)
    requires
        migration_due(data_dir, storage),
        commands >= migration_length(),
    ensures
        ({
            let first = migration_run(data_dir, Ok(documents), storage, commands);
            &&& first.1 == Some(Ok::<bool, Seq<char>>(true))
            &&& migration_run(data_dir, second, first.0, commands) == (
                first.0,
                Some(Ok::<bool, Seq<char>>(false)),
            )
        }),
{
    lemma_migration_completes(data_dir, documents, storage, commands);
    lemma_migration_skips(data_dir, second, migrated(storage, data_dir, documents), commands);
}

/// The guard: without a legacy file, or with an active document, a
/// migration returns `false` after at most two questions and touches nothing.
pub proof fn lemma_migration_skips(
    data_dir: Seq<char>,
    prepared: Result<DocumentsModel, Seq<char>>,
    storage: Storage,
    commands: nat,
)
    requires
        !storage.holds(legacy_path(data_dir)) || storage.holds(
            final_path(data_dir, DataFileType::Active),
        ),
        commands >= 2,
    ensures
        migration_run(data_dir, prepared, storage, commands) == (
            storage,
            Some(Ok::<bool, Seq<char>>(false)),
        ),
{
    reveal_with_fuel(advance, 3);
}

/// A legacy file that cannot be turned into documents ends the migration
/// before anything is written: the storage is exactly as it was, and the
/// legacy file is still in its place.
pub proof fn lemma_migration_aborts_unchanged(
    data_dir: Seq<char>,
    message: Seq<char>,
    storage: Storage,
    commands: nat,
)
    requires
        commands >= 3,
    ensures
        migration_run(data_dir, Err(message), storage, commands).0 == storage,
        migration_run(data_dir, Err(message), storage, commands).1 is Some,
        migration_run(data_dir, Err(message), storage, commands).1 != Some(
            Ok::<bool, Seq<char>>(true),
        ),
{
    reveal_with_fuel(advance, 4);
}

/// A migration that is due succeeds on every legacy file that is JSON,
/// whatever the file holds or lacks. It returns `true`; each document is the
/// pretty print of an object with the members that belong to it, so that a
/// legacy file without `tasks` gives an active document whose task list is
/// empty; and the legacy file is kept, with its content, under its retired
/// name.
pub proof fn lemma_valid_legacy_is_migrated(
    data_dir: Seq<char>,
    prepared: Result<DocumentsModel, Seq<char>>,
    storage: Storage,
    commands: nat,
)
    requires
        migration_due(data_dir, storage),
        json_parsed(storage.files[legacy_path(data_dir)]) is Some,
        documents_of(storage.files[legacy_path(data_dir)], prepared),
        commands >= migration_length(),
    ensures
        ({
            let legacy = json_parsed(storage.files[legacy_path(data_dir)])->0;
            let (after, result) = migration_run(data_dir, prepared, storage, commands);
            &&& result == Some(Ok::<bool, Seq<char>>(true))
            &&& after.content(final_path(data_dir, DataFileType::Active)) matches Some(text)
                && renders(text, active_members(legacy))
            &&& after.content(final_path(data_dir, DataFileType::Archive)) matches Some(text)
                && renders(text, archive_members(legacy))
            &&& after.content(final_path(data_dir, DataFileType::PomodoroHistory)) matches Some(
                text,
            ) && renders(text, pomodoro_members(legacy))
            &&& after.content(legacy_path(data_dir)) is None
            &&& after.content(migrated_path(data_dir)) == storage.content(legacy_path(data_dir))
            &&& active_members(legacy).contains_key("tasks"@)
            &&& json_member(legacy, "tasks"@) is None ==> active_members(legacy)["tasks"@]
                == empty_list()
        }),
{
    let legacy = json_parsed(storage.files[legacy_path(data_dir)])->0;
    lemma_migration_completes(data_dir, prepared->Ok_0, storage, commands);
    lemma_missing_lists_are_empty(legacy);
}

/// A legacy file that is no JSON is a hard failure: the migration ends with
/// the parser's reason before anything is written, and the storage is
/// exactly as it was, the legacy file in its place.
pub proof fn lemma_malformed_legacy_is_kept(
    data_dir: Seq<char>,
    prepared: Result<DocumentsModel, Seq<char>>,
    storage: Storage,
    commands: nat,
)
    requires
        storage.files.contains_key(legacy_path(data_dir)),
        !storage.holds(final_path(data_dir, DataFileType::Active)),
        json_parsed(storage.files[legacy_path(data_dir)]) is None,
        documents_of(storage.files[legacy_path(data_dir)], prepared),
        commands >= 3,
    ensures
        prepared matches Err(message) && has_prefix(message, parse_failure_prefix())
            && migration_run(data_dir, prepared, storage, commands) == (
            storage,
            Some(Err::<bool, Seq<char>>(message)),
        ),
{
    reveal_with_fuel(advance, 4);
}

} // verus!
