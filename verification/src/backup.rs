//! Copies of whatever is there: a backup takes each document and the legacy
//! file if it exists, skips what does not, and says what it took.

use vstd::prelude::*;
use vstd::string::*;
use crate::command::{progress_view, Command, FsCommand, FsReply, Next, Progress, Reply};
use crate::kind::WatchedFile;
use crate::paths::{join_path, joined_path, SEPARATOR};
use crate::storage::{advance, lemma_advance_split, run, Position, Storage};
use crate::text::joined;

verus! {

/// What the name of a backup directory begins with.
pub const BACKUP_PREFIX: &'static str = "backup_";

/// How the moment of a backup is written into the directory's name: year,
/// month, day, an underscore, hour, minute, second.
pub const BACKUP_STAMP_FORMAT: &'static str = "%Y%m%d_%H%M%S";

/// Calls `chrono::Local::now` and formats the moment with `format`. The
/// result depends on the clock and on the time zone of the machine, so
/// nothing is claimed of it. The one format that is let through is the one
/// this crate uses; `chrono` panics on a format that it cannot read.
#[verifier::external_body]
pub(crate) fn local_time_text(format: &str) -> (text: String)
    requires
        format@ == BACKUP_STAMP_FORMAT@,
{
    chrono::Local::now().format(format).to_string()
}

/// Where a backup stands.
#[derive(Debug, Clone, Copy, PartialEq, Eq, Structural)]
pub enum BackupStage {
    CreatingDir,
    Checking(WatchedFile),
    Copying(WatchedFile),
}

/// A backup that is under way.
#[derive(Debug)]
pub struct Backup {
    data_dir: String,
    backup_dir: String,
    stage: BackupStage,
    backed_up: Vec<WatchedFile>,
}

/// A backup as the specifications see it.
pub ghost struct BackupModel {
    pub data_dir: Seq<char>,
    pub backup_dir: Seq<char>,
    pub stage: BackupStage,
    pub backed_up: Seq<WatchedFile>,
}

impl View for Backup {
    type V = BackupModel;

    closed spec fn view(&self) -> BackupModel {
        BackupModel {
            data_dir: self.data_dir@,
            backup_dir: self.backup_dir@,
            stage: self.stage,
            backed_up: self.backed_up@,
        }
    }
}

/// The directory that a backup made at the moment `stamp` goes to.
pub open spec fn backup_dir_path(data_dir: Seq<char>, stamp: Seq<char>) -> Seq<char> {
    joined_path(data_dir, BACKUP_PREFIX@ + stamp)
}

/// The names of the files, in order.
pub open spec fn file_names(files: Seq<WatchedFile>) -> Seq<Seq<char>> {
    files.map_values(|file: WatchedFile| file.spec_filename())
}

/// What a backup reports: where it went and which files it holds.
pub open spec fn backup_summary(backup_dir: Seq<char>, files: Seq<WatchedFile>) -> Seq<char> {
    "Backup created at: "@ + backup_dir + " (files: "@ + joined(file_names(files), ", "@) + ")"@
}

/// A backup at its start, and its first command: create the backup directory.
pub open spec fn backup_begin(data_dir: Seq<char>, stamp: Seq<char>) -> (BackupModel, Command) {
    let backup_dir = backup_dir_path(data_dir, stamp);
    (
        BackupModel {
            data_dir,
            backup_dir,
            stage: BackupStage::CreatingDir,
            backed_up: Seq::empty(),
        },
        Command::EnsureDir { path: backup_dir },
    )
}

/// The question whether `file` exists in the data directory.
pub open spec fn backup_check(backup: BackupModel, file: WatchedFile) -> Next<BackupModel, Seq<char>> {
    Next::Continue(
        BackupModel { stage: BackupStage::Checking(file), ..backup },
        Command::Exists { path: joined_path(backup.data_dir, file.spec_filename()) },
    )
}

/// What follows once `file` is dealt with: the next file, or the summary.
pub open spec fn backup_after(backup: BackupModel, file: WatchedFile) -> Next<BackupModel, Seq<char>> {
    match file.spec_next() {
        Some(next) => backup_check(backup, next),
        None => Next::Finished(Ok(backup_summary(backup.backup_dir, backup.backed_up))),
    }
}

/// What a backup does on a reply. A file that does not exist is skipped; one
/// that exists is copied and listed. A directory that cannot be created or a
/// copy that fails ends the backup with the reason; what was copied before
/// stays where it is.
pub open spec fn backup_step(backup: BackupModel, reply: Reply) -> Next<BackupModel, Seq<char>> {
    match backup.stage {
        BackupStage::CreatingDir => match reply.failure() {
            Some(reason) => Next::Finished(Err(reason)),
            None => backup_check(backup, WatchedFile::Active),
        },
        BackupStage::Checking(file) => if reply.found() {
            Next::Continue(
                BackupModel { stage: BackupStage::Copying(file), ..backup },
                Command::CopyFile {
                    from: joined_path(backup.data_dir, file.spec_filename()),
                    to: joined_path(backup.backup_dir, file.spec_filename()),
                },
            )
        } else {
            backup_after(backup, file)
        },
        BackupStage::Copying(file) => match reply.failure() {
            Some(reason) => Next::Finished(Err(reason)),
            None => backup_after(
                BackupModel { backed_up: backup.backed_up.push(file), ..backup },
                file,
            ),
        },
    }
}

/// The name of the directory of a backup made at the moment `stamp`.
pub fn backup_dir_name(stamp: &str) -> (name: String)
    ensures
        name@ == BACKUP_PREFIX@ + stamp@,
{
    String::from_str(BACKUP_PREFIX).concat(stamp)
}

/// Writes the summary of a backup.
pub fn summarize(backup_dir: &str, files: &Vec<WatchedFile>) -> (summary: String)
    ensures
        summary@ == backup_summary(backup_dir@, files@),
{
    let mut list = String::new();
    let mut i: usize = 0;
    while i < files.len()
        invariant
            i <= files.len(),
            list@ == joined(file_names(files@).take(i as int), ", "@),
        decreases files.len() - i,
    {
        let ghost before = file_names(files@).take(i as int);
        let ghost upto = file_names(files@).take(i + 1);
        proof {
            assert(upto.drop_last() =~= before);
            assert(upto.last() == files@[i as int].spec_filename());
        }
        if i > 0 {
            list.append(", ");
        } else {
            proof {
                assert(list@ =~= Seq::<char>::empty());
                assert(Seq::<char>::empty() + files@[i as int].spec_filename()
                    =~= files@[i as int].spec_filename());
            }
        }
        list.append(files[i].filename());
        i = i + 1;
    }
    proof {
        assert(file_names(files@).take(i as int) =~= file_names(files@));
    }
    let mut summary = String::from_str("Backup created at: ");
    summary.append(backup_dir);
    summary.append(" (files: ");
    summary.append(list.as_str());
    summary.append(")");
    summary
}

impl Backup {
    /// Starts a backup of the data directory that is named after the moment `stamp`.
    pub fn begin(data_dir: &str, stamp: &str) -> (res: (Backup, FsCommand))
        ensures
            (res.0@, res.1@) == backup_begin(data_dir@, stamp@),
    {
        let backup_dir = join_path(data_dir, backup_dir_name(stamp).as_str());
        let command = FsCommand::EnsureDir { path: backup_dir.clone() };
        (
            Backup {
                data_dir: String::from_str(data_dir),
                backup_dir,
                stage: BackupStage::CreatingDir,
                backed_up: Vec::new(),
            },
            command,
        )
    }

    /// Asks whether `file` exists.
    fn check(self, file: WatchedFile) -> (res: Progress<Backup, String>)
        ensures
            progress_view(res, |s: String| s@) == backup_check(self@, file),
    {
        let command = FsCommand::Exists { path: join_path(self.data_dir.as_str(), file.filename()) };
        Progress::Continue(
            Backup {
                data_dir: self.data_dir,
                backup_dir: self.backup_dir,
                stage: BackupStage::Checking(file),
                backed_up: self.backed_up,
            },
            command,
        )
    }

    /// Goes on to the file after `file`, or finishes.
    fn after(self, file: WatchedFile) -> (res: Progress<Backup, String>)
        ensures
            progress_view(res, |s: String| s@) == backup_after(self@, file),
    {
        match file.next() {
            Some(next) => self.check(next),
            None => Progress::Finished(Ok(summarize(self.backup_dir.as_str(), &self.backed_up))),
        }
    }

    /// Takes the reply to the command that was handed out last.
    pub fn step(self, reply: &FsReply) -> (res: Progress<Backup, String>)
        ensures
            progress_view(res, |s: String| s@) == backup_step(self@, reply@),
    {
        match self.stage {
            BackupStage::CreatingDir => match reply.failure() {
                Some(reason) => Progress::Finished(Err(reason.clone())),
                None => self.check(WatchedFile::Active),
            },
            BackupStage::Checking(file) => {
                if reply.found() {
                    let command = FsCommand::CopyFile {
                        from: join_path(self.data_dir.as_str(), file.filename()),
                        to: join_path(self.backup_dir.as_str(), file.filename()),
                    };
                    Progress::Continue(
                        Backup {
                            data_dir: self.data_dir,
                            backup_dir: self.backup_dir,
                            stage: BackupStage::Copying(file),
                            backed_up: self.backed_up,
                        },
                        command,
                    )
                } else {
                    self.after(file)
                }
            },
            BackupStage::Copying(file) => match reply.failure() {
                Some(reason) => Progress::Finished(Err(reason.clone())),
                None => {
                    let Backup { data_dir, backup_dir, stage, backed_up } = self;
                    let mut backed_up = backed_up;
                    backed_up.push(file);
                    let backup = Backup { data_dir, backup_dir, stage, backed_up };
                    backup.after(file)
                },
            },
        }
    }
}

/// Starts a backup of the data directory, named after the present moment in
/// local time. Which moment that is, the clock decides; the rest is
/// [`Backup::begin`].
pub fn backup_data(data_dir: &str) -> (res: (Backup, FsCommand))
    ensures
        exists|stamp: Seq<char>| (res.0@, res.1@) == #[trigger] backup_begin(data_dir@, stamp),
{
    let stamp = local_time_text(BACKUP_STAMP_FORMAT);
    let res = Backup::begin(data_dir, stamp.as_str());
    proof {
        assert((res.0@, res.1@) == backup_begin(data_dir@, stamp@));
    }
    res
}

/// The path of a watched file in the data directory.
pub open spec fn source_path(data_dir: Seq<char>, file: WatchedFile) -> Seq<char> {
    joined_path(data_dir, file.spec_filename())
}

/// The path of the copy of a watched file in the backup directory.
pub open spec fn copy_path(backup_dir: Seq<char>, file: WatchedFile) -> Seq<char> {
    joined_path(backup_dir, file.spec_filename())
}

/// Where a backup stands after `commands` of its commands on a storage that
/// does not fail.
pub open spec fn backup_run(
    data_dir: Seq<char>,
    stamp: Seq<char>,
    storage: Storage,
    commands: nat,
) -> (Storage, Option<Result<Seq<char>, Seq<char>>>) {
    let start = backup_begin(data_dir, stamp);
    run(|b: BackupModel, r: Reply| backup_step(b, r), start.0, start.1, storage, commands)
}

/// The number of commands in a backup at most: one directory, and a
/// question and a copy for each of four files.
pub open spec fn backup_length() -> nat {
    9
}

/// The watched files from `file` on that exist in the data directory, in order.
pub open spec fn present_from(storage: Storage, data_dir: Seq<char>, file: WatchedFile) -> Seq<
    WatchedFile,
>
    decreases 4 - file.spec_index(),
{
    let rest = match file.spec_next() {
        Some(next) => present_from(storage, data_dir, next),
        None => Seq::empty(),
    };
    if storage.holds(source_path(data_dir, file)) {
        seq![file] + rest
    } else {
        rest
    }
}

/// The watched files that exist in the data directory, in order.
pub open spec fn present_files(storage: Storage, data_dir: Seq<char>) -> Seq<WatchedFile> {
    present_from(storage, data_dir, WatchedFile::Active)
}

/// Whether nothing stands in the way of a backup: the place of the backup
/// directory is not taken by a file, and no directory lies where a watched
/// file or its copy belongs.
pub open spec fn backup_possible(data_dir: Seq<char>, stamp: Seq<char>, storage: Storage) -> bool {
    &&& storage.well_formed()
    &&& !storage.files.contains_key(backup_dir_path(data_dir, stamp))
    &&& forall|file: WatchedFile|
        !storage.dirs.contains(#[trigger] source_path(data_dir, file))
    &&& forall|file: WatchedFile|
        !storage.dirs.contains(#[trigger] copy_path(backup_dir_path(data_dir, stamp), file))
}

/// The backup directory and the copies in it lie apart from the watched
/// files, and each copy has a path of its own.
pub proof fn lemma_backup_paths_distinct(data_dir: Seq<char>, stamp: Seq<char>)
    ensures
        forall|file: WatchedFile|
            backup_dir_path(data_dir, stamp) != #[trigger] source_path(data_dir, file),
        forall|a: WatchedFile, b: WatchedFile|
            #![trigger copy_path(backup_dir_path(data_dir, stamp), a), source_path(data_dir, b)]
            copy_path(backup_dir_path(data_dir, stamp), a) != source_path(data_dir, b),
        forall|a: WatchedFile, b: WatchedFile|
            #![trigger copy_path(backup_dir_path(data_dir, stamp), a), copy_path(backup_dir_path(data_dir, stamp), b)]
            a != b ==> copy_path(backup_dir_path(data_dir, stamp), a) != copy_path(
                backup_dir_path(data_dir, stamp),
                b,
            ),
        forall|a: WatchedFile, b: WatchedFile|
            #![trigger source_path(data_dir, a), source_path(data_dir, b)]
            a != b ==> source_path(data_dir, a) != source_path(data_dir, b),
        forall|file: WatchedFile|
            backup_dir_path(data_dir, stamp) != #[trigger] copy_path(
                backup_dir_path(data_dir, stamp),
                file,
            ),
{
    crate::kind::reveal_names();
    reveal_strlit("backup_");
    let backup_dir = backup_dir_path(data_dir, stamp);
    let head = if data_dir.len() == 0 || data_dir.last() == SEPARATOR {
        data_dir
    } else {
        data_dir + seq![SEPARATOR]
    };
    let at = head.len() as int;
    assert(backup_dir =~= head + (BACKUP_PREFIX@ + stamp));
    assert(backup_dir[at] == 'b');
    assert forall|file: WatchedFile| #[trigger] source_path(data_dir, file)[at] != 'b' by {
        crate::kind::lemma_watched_name_begins(file);
        assert(source_path(data_dir, file) =~= head + file.spec_filename());
        assert(source_path(data_dir, file)[at] == file.spec_filename()[0]);
    }
    assert forall|file: WatchedFile|
        #[trigger] copy_path(backup_dir, file)[at] == 'b' && backup_dir != copy_path(
            backup_dir,
            file,
        ) by {
        crate::paths::lemma_joined_path_is_inside(backup_dir, file.spec_filename());
        assert(copy_path(backup_dir, file).subrange(0, backup_dir.len() as int) =~= backup_dir);
    }
    assert forall|a: WatchedFile, b: WatchedFile|
        #![trigger copy_path(backup_dir, a), source_path(data_dir, b)]
        copy_path(backup_dir, a) != source_path(data_dir, b) by {
        assert(copy_path(backup_dir, a)[at] == 'b');
        assert(source_path(data_dir, b)[at] != 'b');
    }
    assert forall|file: WatchedFile| backup_dir != #[trigger] source_path(data_dir, file) by {
        assert(source_path(data_dir, file)[at] != 'b');
    }
    assert forall|a: WatchedFile, b: WatchedFile|
        #![trigger copy_path(backup_dir, a), copy_path(backup_dir, b)]
        a != b implies copy_path(backup_dir, a) != copy_path(backup_dir, b) by {
        crate::kind::lemma_watched_files_distinct(a, b);
        crate::paths::lemma_joined_path_injective(
            backup_dir,
            a.spec_filename(),
            b.spec_filename(),
        );
    }
    assert forall|a: WatchedFile, b: WatchedFile|
        #![trigger source_path(data_dir, a), source_path(data_dir, b)]
        a != b implies source_path(data_dir, a) != source_path(data_dir, b) by {
        crate::kind::lemma_watched_files_distinct(a, b);
        crate::paths::lemma_joined_path_injective(data_dir, a.spec_filename(), b.spec_filename());
    }
}

/// From the question about `file` on, a backup takes each watched file that
/// exists, skips each that does not, and finishes with the summary of what
/// it took.
pub proof fn lemma_backup_from(
    backup: BackupModel,
    file: WatchedFile,
    storage: Storage,
    stamp: Seq<char>,
    commands: nat,
)
    requires
        backup.backup_dir == backup_dir_path(backup.data_dir, stamp),
        storage.well_formed(),
        forall|f: WatchedFile| !storage.dirs.contains(#[trigger] source_path(backup.data_dir, f)),
        forall|f: WatchedFile| !storage.dirs.contains(#[trigger] copy_path(backup.backup_dir, f)),
        commands >= 2 * (4 - file.spec_index()),
    ensures
        ({
            let reached = advance(
                |b: BackupModel, r: Reply| backup_step(b, r),
                BackupModel { stage: BackupStage::Checking(file), ..backup },
                Command::Exists { path: source_path(backup.data_dir, file) },
                storage,
                commands,
            );
            &&& reached matches Position::Ended(after, result)
            &&& result == Ok::<Seq<char>, Seq<char>>(
                backup_summary(
                    backup.backup_dir,
                    backup.backed_up + present_from(storage, backup.data_dir, file),
                ),
            )
            &&& after.dirs == storage.dirs
            &&& after.well_formed()
            &&& forall|f: WatchedFile|
                f.spec_index() >= file.spec_index() && storage.holds(
                    source_path(backup.data_dir, f),
                ) ==> after.content(#[trigger] copy_path(backup.backup_dir, f)) == storage.content(
                    source_path(backup.data_dir, f),
                )
            &&& forall|path: Seq<char>|
                (forall|f: WatchedFile|
                    f.spec_index() >= file.spec_index() && storage.holds(
                        source_path(backup.data_dir, f),
                    ) ==> path != copy_path(backup.backup_dir, f)) ==> #[trigger] after.content(
                    path,
                ) == storage.content(path)
        }),
    decreases 4 - file.spec_index(),
{
    let step = |b: BackupModel, r: Reply| backup_step(b, r);
    let data_dir = backup.data_dir;
    let checking = BackupModel { stage: BackupStage::Checking(file), ..backup };
    let question = Command::Exists { path: source_path(data_dir, file) };
    let present = storage.holds(source_path(data_dir, file));
    let copy = Command::CopyFile {
        from: source_path(data_dir, file),
        to: copy_path(backup.backup_dir, file),
    };
    let listed = if present {
        backup.backed_up.push(file)
    } else {
        backup.backed_up
    };
    let copied = if present {
        storage.effect(copy)
    } else {
        storage
    };
    let taken: nat = if present {
        2
    } else {
        1
    };
    lemma_backup_paths_distinct(data_dir, stamp);
    lemma_advance_split(step, checking, question, storage, taken, (commands - taken) as nat);
    reveal_with_fuel(advance, 3);
    let rest = match file.spec_next() {
        Some(next) => present_from(storage, data_dir, next),
        None => Seq::empty(),
    };
    assert(backup.backed_up + present_from(storage, data_dir, file) =~= listed + rest);
    match file.spec_next() {
        Some(next) => {
            let onward = BackupModel { backed_up: listed, ..backup };
            assert(advance(step, checking, question, storage, taken) == Position::<
                BackupModel,
                Seq<char>,
            >::Running(
                BackupModel { stage: BackupStage::Checking(next), ..onward },
                Command::Exists { path: source_path(data_dir, next) },
                copied,
            ));
            lemma_backup_from(onward, next, copied, stamp, (commands - taken) as nat);
            lemma_present_unchanged(storage, copied, data_dir, next);
            let reached = advance(step, checking, question, storage, commands);
            let after = reached->Ended_0;
            assert forall|f: WatchedFile|
                f.spec_index() >= file.spec_index() && storage.holds(
                    source_path(data_dir, f),
                ) implies after.content(#[trigger] copy_path(backup.backup_dir, f))
                == storage.content(source_path(data_dir, f)) by {
                if f == file {
                    assert(copied.content(copy_path(backup.backup_dir, f)) == storage.content(
                        source_path(data_dir, f),
                    ));
                } else {
                    assert(copied.holds(source_path(data_dir, f)));
                }
            }
            assert forall|path: Seq<char>|
                (forall|f: WatchedFile|
                    f.spec_index() >= file.spec_index() && storage.holds(
                        source_path(data_dir, f),
                    ) ==> path != copy_path(backup.backup_dir, f)) implies #[trigger] after.content(
                path,
            ) == storage.content(path) by {
                assert forall|f: WatchedFile|
                    f.spec_index() >= next.spec_index() && copied.holds(
                        source_path(data_dir, f),
                    ) implies path != copy_path(backup.backup_dir, f) by {
                    assert(storage.holds(source_path(data_dir, f)));
                }
                assert(after.content(path) == copied.content(path));
            }
        },
        None => {
            assert(listed + Seq::<WatchedFile>::empty() =~= listed);
        },
    }
}

/// A copy into the backup directory does not change which watched files exist.
pub proof fn lemma_present_unchanged(
    before: Storage,
    after: Storage,
    data_dir: Seq<char>,
    file: WatchedFile,
)
    requires
        forall|f: WatchedFile|
            before.holds(#[trigger] source_path(data_dir, f)) == after.holds(
                source_path(data_dir, f),
            ),
    ensures
        present_from(before, data_dir, file) == present_from(after, data_dir, file),
    decreases 4 - file.spec_index(),
{
    match file.spec_next() {
        Some(next) => {
            lemma_present_unchanged(before, after, data_dir, next);
        },
        None => {},
    }
}

/// A backup takes what is there. Where nothing stands in its way it
/// succeeds, with one file present, with all, or with none; its summary
/// lists exactly the watched files that exist, each of them has an exact copy
/// in the backup directory, and nothing else is touched.
pub proof fn lemma_backup_takes_what_is_there(
    data_dir: Seq<char>,
    stamp: Seq<char>,
    storage: Storage,
    commands: nat,
)
    requires
        backup_possible(data_dir, stamp, storage),
        commands >= backup_length(),
    ensures
        ({
            let backup_dir = backup_dir_path(data_dir, stamp);
            let (after, result) = backup_run(data_dir, stamp, storage, commands);
            &&& result == Some(
                Ok::<Seq<char>, Seq<char>>(
                    backup_summary(backup_dir, present_files(storage, data_dir)),
                ),
            )
            &&& after.dirs == storage.dirs.insert(backup_dir)
            &&& forall|file: WatchedFile|
                storage.holds(source_path(data_dir, file)) ==> after.content(
                    #[trigger] copy_path(backup_dir, file),
                ) == storage.content(source_path(data_dir, file))
            &&& forall|path: Seq<char>|
                (forall|file: WatchedFile|
                    storage.holds(source_path(data_dir, file)) ==> path != copy_path(
                        backup_dir,
                        file,
                    )) ==> #[trigger] after.content(path) == storage.content(path)
        }),
{
    let step = |b: BackupModel, r: Reply| backup_step(b, r);
    let start = backup_begin(data_dir, stamp);
    let backup_dir = backup_dir_path(data_dir, stamp);
    let made = storage.effect(start.1);
    lemma_backup_paths_distinct(data_dir, stamp);
    lemma_advance_split(step, start.0, start.1, storage, 1, (commands - 1) as nat);
    reveal_with_fuel(advance, 2);
    assert(made.dirs =~= storage.dirs.insert(backup_dir));
    lemma_backup_from(start.0, WatchedFile::Active, made, stamp, (commands - 1) as nat);
    lemma_present_unchanged(storage, made, data_dir, WatchedFile::Active);
    assert(Seq::<WatchedFile>::empty() + present_files(storage, data_dir) =~= present_files(
        storage,
        data_dir,
    ));
    let after = backup_run(data_dir, stamp, storage, commands).0;
    assert forall|path: Seq<char>|
        (forall|file: WatchedFile|
            storage.holds(source_path(data_dir, file)) ==> path != copy_path(backup_dir, file))
        implies #[trigger] after.content(path) == storage.content(path) by {
        assert forall|f: WatchedFile|
            f.spec_index() >= WatchedFile::Active.spec_index() && made.holds(
                source_path(data_dir, f),
            ) implies path != copy_path(backup_dir, f) by {
            assert(storage.holds(source_path(data_dir, f)));
        }
        assert(after.content(path) == made.content(path));
    }
}

} // verus!
