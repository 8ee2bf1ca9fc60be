//! Appending entries to the archive: read what is there, put the new entries
//! behind it, and replace the document atomically.
//!
//! This is a read followed by a write. Between the two nothing protects the
//! document: whoever appends must be the only one who writes.

use vstd::prelude::*;
use vstd::string::*;
use crate::command::{prefixed, progress_view, Command, FsCommand, FsReply, Next, Progress, Reply};
use crate::json::{
    array_text, array_value, error_text, json_elements, json_pretty, parse_array, pretty_text,
    texts_of,
};
use crate::kind::DataFileType;
use crate::paths::{final_path, join_path};
use crate::storage::{advance, lemma_advance_split, run, Position, Storage};
use crate::text::has_prefix;
use crate::writer::{
    write_begin, write_length, write_possible, write_step, written, AtomicWrite, WriteModel,
};

verus! {

/// What an archive that cannot be read is reported with.
pub open spec fn archive_read_failure_prefix() -> Seq<char> {
    "Failed to read archive: "@
}

/// What an archive that is no list is reported with.
pub open spec fn archive_parse_failure_prefix() -> Seq<char> {
    "Failed to parse archive: "@
}

/// The entries of the archive with the given text; an archive that does not
/// exist has none. `None` stands for a text that is no list.
pub open spec fn archived_entries(existing: Option<Seq<char>>) -> Option<Seq<Seq<char>>> {
    match existing {
        Some(text) => json_elements(text),
        None => Some(Seq::empty()),
    }
}

/// What comes of appending `entries` to the archive with the text
/// `existing`. A text that is no list gives a failure that says so, and only
/// such a text fails. Otherwise the new text is the pretty print of the list
/// of the old entries followed by the new ones.
pub open spec fn appended_of(
    existing: Option<Seq<char>>,
    entries: Seq<Seq<char>>,
    outcome: Result<Seq<char>, Seq<char>>,
) -> bool {
    match archived_entries(existing) {
        None => outcome matches Err(message) && has_prefix(message, archive_parse_failure_prefix()),
        Some(old) => outcome == Ok::<Seq<char>, Seq<char>>(json_pretty(array_text(old + entries))),
    }
}

/// How the specifications see a text that is or is not there.
pub open spec fn text_view(text: Option<&str>) -> Option<Seq<char>> {
    match text {
        Some(text) => Some(text@),
        None => None,
    }
}

/// How the specifications see an attempt to make the new archive.
pub open spec fn appended_view(outcome: Result<String, String>) -> Result<Seq<char>, Seq<char>> {
    match outcome {
        Ok(text) => Ok(text@),
        Err(message) => Err(message@),
    }
}

/// Makes the text of the archive that holds the old entries and then the new ones.
pub fn append_entries(existing: Option<&str>, entries: Vec<serde_json::Value>) -> (res: Result<
    String,
    String,
>)
    ensures
        appended_of(text_view(existing), texts_of(entries@), appended_view(res)),
{
    let mut all = match existing {
        None => Vec::new(),
        Some(text) => match parse_array(text) {
            Ok(old) => old,
            Err(error) => {
                return Err(prefixed("Failed to parse archive: ", error_text(&error).as_str()));
            },
        },
    };
    let ghost old = texts_of(all@);
    let mut entries = entries;
    let ghost added = texts_of(entries@);
    all.append(&mut entries);
    proof {
        assert(texts_of(all@) =~= old + added);
        assert(old =~= archived_entries(text_view(existing))->0);
    }
    match pretty_text(&array_value(all)) {
        Ok(text) => Ok(text),
        Err(error) => Err(prefixed("Failed to serialize archive: ", error_text(&error).as_str())),
    }
}

/// Where an append stands.
pub enum AppendStage {
    Checking,
    Reading,
    Writing { write: AtomicWrite },
}

/// An append that is under way.
pub struct AppendArchive {
    data_dir: String,
    entries: Vec<serde_json::Value>,
    stage: AppendStage,
}

/// Where an append stands, as the specifications see it.
pub ghost enum AppendStageModel {
    Checking,
    Reading,
    Writing { write: WriteModel },
}

/// An append as the specifications see it: the entries by their compact texts.
pub ghost struct AppendModel {
    pub data_dir: Seq<char>,
    pub entries: Seq<Seq<char>>,
    pub stage: AppendStageModel,
}

impl View for AppendStage {
    type V = AppendStageModel;

    open spec fn view(&self) -> AppendStageModel {
        match *self {
            AppendStage::Checking => AppendStageModel::Checking,
            AppendStage::Reading => AppendStageModel::Reading,
            AppendStage::Writing { write } => AppendStageModel::Writing { write: write@ },
        }
    }
}

impl View for AppendArchive {
    type V = AppendModel;

    closed spec fn view(&self) -> AppendModel {
        AppendModel {
            data_dir: self.data_dir@,
            entries: texts_of(self.entries@),
            stage: self.stage@,
        }
    }
}

/// An append at its start, and its first command: ask for the archive.
pub open spec fn append_begin(data_dir: Seq<char>, entries: Seq<Seq<char>>) -> (
    AppendModel,
    Command,
) {
    (
        AppendModel { data_dir, entries, stage: AppendStageModel::Checking },
        Command::Exists { path: final_path(data_dir, DataFileType::Archive) },
    )
}

/// The write of the new archive, or the end of the append where there is no
/// new archive to write. The entries have gone into the new archive.
pub open spec fn append_write(append: AppendModel, prepared: Result<Seq<char>, Seq<char>>) -> Next<
    AppendModel,
    (),
> {
    match prepared {
        Err(message) => Next::Finished(Err(message)),
        Ok(text) => {
            let start = write_begin(append.data_dir, DataFileType::Archive, text);
            Next::Continue(
                AppendModel {
                    data_dir: append.data_dir,
                    entries: Seq::empty(),
                    stage: AppendStageModel::Writing { write: start.0 },
                },
                start.1,
            )
        },
    }
}

/// What an append does on a reply, where `prepared` is what became of the
/// old archive and the new entries, for the step that has just learnt what
/// the old archive holds.
///
/// An archive that is not there counts as an empty one. One that cannot be
/// read, or that is no list, ends the append before anything is written.
/// Otherwise the new archive is written atomically.
pub open spec fn append_step(
    append: AppendModel,
    reply: Reply,
    prepared: Result<Seq<char>, Seq<char>>,
) -> Next<AppendModel, ()> {
    match append.stage {
        AppendStageModel::Checking => if reply.found() {
            Next::Continue(
                AppendModel { stage: AppendStageModel::Reading, ..append },
                Command::ReadText { path: final_path(append.data_dir, DataFileType::Archive) },
            )
        } else {
            append_write(append, prepared)
        },
        AppendStageModel::Reading => match reply.text() {
            Err(reason) => Next::Finished(Err(archive_read_failure_prefix() + reason)),
            Ok(_) => append_write(append, prepared),
        },
        AppendStageModel::Writing { write } => match write_step(write, reply) {
            Next::Continue(write, command) => Next::Continue(
                AppendModel { stage: AppendStageModel::Writing { write }, ..append },
                command,
            ),
            Next::Finished(result) => Next::Finished(result),
        },
    }
}

/// Whether `prepared` may be what became of the old archive that the reply
/// tells of and the new entries. It matters only for the step that learns
/// what the old archive holds.
pub open spec fn appended_for(
    append: AppendModel,
    reply: Reply,
    prepared: Result<Seq<char>, Seq<char>>,
) -> bool {
    match append.stage {
        AppendStageModel::Checking => !reply.found() ==> appended_of(
            None,
            append.entries,
            prepared,
        ),
        AppendStageModel::Reading => match reply.text() {
            Ok(text) => appended_of(Some(text), append.entries, prepared),
            Err(_) => true,
        },
        AppendStageModel::Writing { write } => true,
    }
}

impl AppendArchive {
    /// Starts the append of `entries` to the archive of the data directory.
    pub fn begin(data_dir: &str, entries: Vec<serde_json::Value>) -> (res: (
        AppendArchive,
        FsCommand,
    ))
        ensures
            (res.0@, res.1@) == append_begin(data_dir@, texts_of(entries@)),
    {
        (
            AppendArchive {
                data_dir: String::from_str(data_dir),
                entries,
                stage: AppendStage::Checking,
            },
            FsCommand::Exists { path: join_path(data_dir, DataFileType::Archive.filename()) },
        )
    }

    /// Starts the write of the new archive, or ends the append.
    fn write(self, prepared: Result<String, String>) -> (res: Progress<AppendArchive, ()>)
        ensures
            progress_view(res, |u: ()| u) == append_write(self@, appended_view(prepared)),
    {
        match prepared {
            Err(message) => Progress::Finished(Err(message)),
            Ok(text) => {
                let (write, command) = AtomicWrite::begin(
                    self.data_dir.as_str(),
                    DataFileType::Archive,
                    text.as_str(),
                );
                let entries: Vec<serde_json::Value> = Vec::new();
                assert(texts_of(entries@) =~= Seq::<Seq<char>>::empty());
                Progress::Continue(
                    AppendArchive {
                        data_dir: self.data_dir,
                        entries,
                        stage: AppendStage::Writing { write },
                    },
                    command,
                )
            },
        }
    }

    /// Whether the reply tells what the old archive holds, so that the new
    /// one is made on it.
    pub fn learns_archive(&self, reply: &FsReply) -> (res: bool)
        ensures
            res == match self@.stage {
                AppendStageModel::Checking => !reply@.found(),
                AppendStageModel::Reading => reply@.text() is Ok,
                AppendStageModel::Writing { write } => false,
            },
    {
        match self.stage {
            AppendStage::Checking => !reply.found(),
            AppendStage::Reading => match reply {
                FsReply::Text(_) => true,
                _ => false,
            },
            AppendStage::Writing { .. } => false,
        }
    }

    /// Takes the reply to the command that was handed out last. Once it is
    /// known what the old archive holds, the new one is made here.
    pub fn step(self, reply: &FsReply) -> (res: Progress<AppendArchive, ()>)
        ensures
            exists|prepared: Result<Seq<char>, Seq<char>>| #[trigger]
                appended_for(self@, reply@, prepared) && progress_view(res, |u: ()| u)
                    == append_step(self@, reply@, prepared),
    {
        let ghost before = self@;
        if self.learns_archive(reply) {
            let AppendArchive { data_dir, entries, stage } = self;
            let prepared = match (&stage, reply) {
                (AppendStage::Reading, FsReply::Text(text)) => append_entries(
                    Some(text.as_str()),
                    entries,
                ),
                _ => append_entries(None, entries),
            };
            let ghost witness = appended_view(prepared);
            let machine = AppendArchive { data_dir, entries: Vec::new(), stage };
            let res = machine.step_prepared(reply, prepared);
            proof {
                assert(appended_for(before, reply@, witness));
                assert(append_step(machine@, reply@, witness) == append_step(
                    before,
                    reply@,
                    witness,
                ));
            }
            res
        } else {
            let ghost unused = Err::<Seq<char>, Seq<char>>(Seq::empty());
            let res = self.step_prepared(reply, Err(String::new()));
            proof {
                assert(appended_for(before, reply@, unused));
            }
            res
        }
    }

    /// Takes the reply to the command that was handed out last, and, for the
    /// step that learns what the old archive holds, the text of the new one.
    pub fn step_prepared(self, reply: &FsReply, prepared: Result<String, String>) -> (res: Progress<
        AppendArchive,
        (),
    >)
        ensures
            progress_view(res, |u: ()| u) == append_step(self@, reply@, appended_view(prepared)),
    {
        let AppendArchive { data_dir, entries, stage } = self;
        match stage {
            AppendStage::Checking => {
                if reply.found() {
                    let command = FsCommand::ReadText {
                        path: join_path(data_dir.as_str(), DataFileType::Archive.filename()),
                    };
                    Progress::Continue(
                        AppendArchive { data_dir, entries, stage: AppendStage::Reading },
                        command,
                    )
                } else {
                    AppendArchive { data_dir, entries, stage: AppendStage::Checking }.write(
                        prepared,
                    )
                }
            },
            AppendStage::Reading => match reply.text() {
                Err(reason) => Progress::Finished(
                    Err(prefixed("Failed to read archive: ", reason.as_str())),
                ),
                Ok(_) => AppendArchive { data_dir, entries, stage: AppendStage::Reading }.write(
                    prepared,
                ),
            },
            AppendStage::Writing { write } => match write.step(reply) {
                Progress::Continue(write, command) => Progress::Continue(
                    AppendArchive { data_dir, entries, stage: AppendStage::Writing { write } },
                    command,
                ),
                Progress::Finished(result) => Progress::Finished(result),
            },
        }
    }
}

/// Starts the append of `tasks` to the archive of the data directory.
pub fn append_archive_tasks(data_dir: &str, tasks: Vec<serde_json::Value>) -> (res: (
    AppendArchive,
    FsCommand,
))
    ensures
        (res.0@, res.1@) == append_begin(data_dir@, texts_of(tasks@)),
{
    AppendArchive::begin(data_dir, tasks)
}

/// The step of an append for which `prepared` is the text of the new archive.
pub open spec fn append_with(prepared: Result<Seq<char>, Seq<char>>) -> spec_fn(
    AppendModel,
    Reply,
) -> Next<AppendModel, ()> {
    |a: AppendModel, r: Reply| append_step(a, r, prepared)
}

/// Where an append stands after `commands` of its commands on a storage
/// that does not fail, where `prepared` is the text of the new archive.
pub open spec fn append_run(
    data_dir: Seq<char>,
    entries: Seq<Seq<char>>,
    prepared: Result<Seq<char>, Seq<char>>,
    storage: Storage,
    commands: nat,
) -> (Storage, Option<Result<(), Seq<char>>>) {
    let start = append_begin(data_dir, entries);
    run(append_with(prepared), start.0, start.1, storage, commands)
}

/// The number of commands in an append at most: a question, a read, and the
/// five of a write.
pub open spec fn append_length() -> nat {
    7
}

/// An append that nothing stands in the way of replaces the archive by the
/// new text, whether there was an archive or not, and touches nothing else.
pub proof fn lemma_append_replaces_archive(
    data_dir: Seq<char>,
    entries: Seq<Seq<char>>,
    text: Seq<char>,
    storage: Storage,
    commands: nat,
)
    requires
        storage.well_formed(),
        write_possible(data_dir, DataFileType::Archive, storage),
        commands >= append_length(),
    ensures
        append_run(data_dir, entries, Ok(text), storage, commands) == (
            written(storage, data_dir, DataFileType::Archive, text),
            Some(Ok::<(), Seq<char>>(())),
        ),
{
    let step = append_with(Ok(text));
    let start = append_begin(data_dir, entries);
    let begun = write_begin(data_dir, DataFileType::Archive, text);
    let writing = AppendModel {
        data_dir,
        entries: Seq::empty(),
        stage: AppendStageModel::Writing { write: begun.0 },
    };
    let asked: nat = if storage.holds(final_path(data_dir, DataFileType::Archive)) {
        2
    } else {
        1
    };
    assert(advance(step, start.0, start.1, storage, asked) == Position::<
        AppendModel,
        (),
    >::Running(writing, begun.1, storage)) by {
        reveal_with_fuel(advance, 3);
    }
    assert(advance(step, writing, begun.1, storage, write_length()) == Position::<
        AppendModel,
        (),
    >::Ended(written(storage, data_dir, DataFileType::Archive, text), Ok(()))) by {
        crate::paths::lemma_paths_distinct(data_dir, DataFileType::Archive, DataFileType::Archive);
        crate::paths::lemma_final_path_is_not_the_directory(data_dir, DataFileType::Archive);
        reveal_with_fuel(advance, 6);
        let reached = advance(step, writing, begun.1, storage, write_length());
        let expected = written(storage, data_dir, DataFileType::Archive, text);
        assert(reached is Ended);
        assert(reached->Ended_0.files =~= expected.files);
        assert(reached->Ended_0.dirs =~= expected.dirs);
    }
    lemma_advance_split(step, start.0, start.1, storage, asked, (commands - asked) as nat);
    lemma_advance_split(
        step,
        writing,
        begun.1,
        storage,
        write_length(),
        (commands - asked - write_length()) as nat,
    );
}

/// An append for which no new archive could be made ends before anything is
/// written: the storage is exactly as it was.
pub proof fn lemma_append_failure_keeps_archive(
    data_dir: Seq<char>,
    entries: Seq<Seq<char>>,
    message: Seq<char>,
    storage: Storage,
    commands: nat,
)
    requires
        commands >= 2,
    ensures
        append_run(data_dir, entries, Err(message), storage, commands).0 == storage,
        append_run(data_dir, entries, Err(message), storage, commands).1 is Some,
        append_run(data_dir, entries, Err(message), storage, commands).1 != Some(
            Ok::<(), Seq<char>>(()),
        ),
{
    reveal_with_fuel(advance, 3);
}

/// An append to an archive that is a list, or to none, succeeds where
/// nothing stands in the way of the write: afterwards the archive is the
/// pretty print of the old entries followed by the new ones.
pub proof fn lemma_append_to_list_succeeds(
    data_dir: Seq<char>,
    entries: Seq<Seq<char>>,
    prepared: Result<Seq<char>, Seq<char>>,
    storage: Storage,
    commands: nat,
)
    requires
        storage.well_formed(),
        write_possible(data_dir, DataFileType::Archive, storage),
        archived_entries(storage.content(final_path(data_dir, DataFileType::Archive))) is Some,
        appended_of(
            storage.content(final_path(data_dir, DataFileType::Archive)),
            entries,
            prepared,
        ),
        commands >= append_length(),
    ensures
        ({
            let old = archived_entries(
                storage.content(final_path(data_dir, DataFileType::Archive)),
            )->0;
            let text = json_pretty(array_text(old + entries));
            &&& prepared == Ok::<Seq<char>, Seq<char>>(text)
            &&& append_run(data_dir, entries, prepared, storage, commands) == (
                written(storage, data_dir, DataFileType::Archive, text),
                Some(Ok::<(), Seq<char>>(())),
            )
            &&& written(storage, data_dir, DataFileType::Archive, text).content(
                final_path(data_dir, DataFileType::Archive),
            ) == Some(text)
        }),
{
    lemma_append_replaces_archive(data_dir, entries, prepared->Ok_0, storage, commands);
}

/// An append to an archive that is no list is a failure: it ends with the
/// parser's reason before anything is written, and the storage is exactly
/// as it was.
pub proof fn lemma_append_to_malformed_archive_fails(
    data_dir: Seq<char>,
    entries: Seq<Seq<char>>,
    prepared: Result<Seq<char>, Seq<char>>,
    storage: Storage,
    commands: nat,
)
    requires
        archived_entries(storage.content(final_path(data_dir, DataFileType::Archive))) is None,
        appended_of(
            storage.content(final_path(data_dir, DataFileType::Archive)),
            entries,
            prepared,
        ),
        commands >= 2,
    ensures
        prepared matches Err(message) && has_prefix(message, archive_parse_failure_prefix())
            && append_run(data_dir, entries, prepared, storage, commands) == (
            storage,
            Some(Err::<(), Seq<char>>(message)),
        ),
{
    reveal_with_fuel(advance, 3);
}

} // verus!
