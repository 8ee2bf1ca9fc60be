//! From the data directory to the paths of the documents in it.

use vstd::prelude::*;
use vstd::string::*;
use crate::command::{Command, FsCommand, FsReply};
use crate::kind::{DataFileType, TEMP_SUFFIX};

verus! {

/// What separates a directory from a name in a path.
pub const SEPARATOR: char = '/';

/// The path of `name` inside `dir`. A separator is put between the two unless
/// `dir` is empty or ends in one.
pub open spec fn joined_path(dir: Seq<char>, name: Seq<char>) -> Seq<char> {
    if dir.len() == 0 || dir.last() == SEPARATOR {
        dir + name
    } else {
        dir + seq![SEPARATOR] + name
    }
}

/// The path of a document inside the data directory.
pub open spec fn final_path(data_dir: Seq<char>, kind: DataFileType) -> Seq<char> {
    joined_path(data_dir, kind.spec_filename())
}

/// The path of the temporary sibling of a document: the document's path and `.tmp`.
pub open spec fn temp_path(data_dir: Seq<char>, kind: DataFileType) -> Seq<char> {
    final_path(data_dir, kind) + TEMP_SUFFIX@
}

/// The path of `name` inside `dir`.
pub fn join_path(dir: &str, name: &str) -> (path: String)
    ensures
        path@ == joined_path(dir@, name@),
{
    let n = dir.unicode_len();
    let mut path = String::from_str(dir);
    if n > 0 && dir.get_char(n - 1) != SEPARATOR {
        path.append("/");
        proof {
            reveal_strlit("/");
            assert("/"@ =~= seq![SEPARATOR]);
        }
    }
    path.append(name);
    path
}

/// Where each document lies.
#[derive(Debug, Clone, PartialEq, Eq)]
pub struct DataFilePaths {
    pub active: String,
    pub archive: String,
    pub pomodoro_history: String,
}

/// The final path and the temporary path of one document.
#[derive(Debug, Clone, PartialEq, Eq)]
pub struct ResolvedPaths {
    pub final_path: String,
    pub temp_path: String,
}

/// The path of every document inside the data directory.
pub fn data_file_paths(data_dir: &str) -> (paths: DataFilePaths)
    ensures
        paths.active@ == final_path(data_dir@, DataFileType::Active),
        paths.archive@ == final_path(data_dir@, DataFileType::Archive),
        paths.pomodoro_history@ == final_path(data_dir@, DataFileType::PomodoroHistory),
{
    DataFilePaths {
        active: join_path(data_dir, DataFileType::Active.filename()),
        archive: join_path(data_dir, DataFileType::Archive.filename()),
        pomodoro_history: join_path(data_dir, DataFileType::PomodoroHistory.filename()),
    }
}

/// The command that makes sure of the data directory. Paths are handed out
/// only against its reply.
pub fn ensure_data_dir(data_dir: &str) -> (command: FsCommand)
    ensures
        command@ == (Command::EnsureDir { path: data_dir@ }),
{
    FsCommand::EnsureDir { path: String::from_str(data_dir) }
}

/// The data directory, once it is sure to exist: `reply` is the reply to
/// [`ensure_data_dir`]. A directory that could not be created is a failure,
/// with the reason as it was given.
pub fn get_app_data_path(data_dir: &str, reply: &FsReply) -> (res: Result<String, String>)
    ensures
        match res {
            Ok(path) => reply@.failure() is None && path@ == data_dir@,
            Err(reason) => reply@.failure() == Some(reason@),
        },
{
    match reply.failure() {
        Some(reason) => Err(reason.clone()),
        None => Ok(String::from_str(data_dir)),
    }
}

/// The path of every document, once the data directory is sure to exist:
/// `reply` is the reply to [`ensure_data_dir`].
pub fn get_data_file_paths(data_dir: &str, reply: &FsReply) -> (res: Result<DataFilePaths, String>)
    ensures
        match res {
            Ok(paths) => {
                &&& reply@.failure() is None
                &&& paths.active@ == final_path(data_dir@, DataFileType::Active)
                &&& paths.archive@ == final_path(data_dir@, DataFileType::Archive)
                &&& paths.pomodoro_history@ == final_path(data_dir@, DataFileType::PomodoroHistory)
            },
            Err(reason) => reply@.failure() == Some(reason@),
        },
{
    match reply.failure() {
        Some(reason) => Err(reason.clone()),
        None => Ok(data_file_paths(data_dir)),
    }
}

/// The final path and the temporary path of a document inside the data directory.
pub fn resolve(data_dir: &str, kind: DataFileType) -> (paths: ResolvedPaths)
    ensures
        paths.final_path@ == final_path(data_dir@, kind),
        paths.temp_path@ == temp_path(data_dir@, kind),
{
    let final_path = join_path(data_dir, kind.filename());
    let temp_path = final_path.clone().concat(TEMP_SUFFIX);
    ResolvedPaths { final_path, temp_path }
}

/// Inside one directory, different names lie at different paths.
pub proof fn lemma_joined_path_injective(dir: Seq<char>, a: Seq<char>, b: Seq<char>)
    ensures
        joined_path(dir, a) == joined_path(dir, b) <==> a == b,
{
    let prefix = if dir.len() == 0 || dir.last() == SEPARATOR {
        dir
    } else {
        dir + seq![SEPARATOR]
    };
    assert(joined_path(dir, a) =~= prefix + a);
    assert(joined_path(dir, b) =~= prefix + b);
    if prefix + a == prefix + b {
        assert((prefix + a).subrange(prefix.len() as int, (prefix + a).len() as int) =~= a);
        assert((prefix + b).subrange(prefix.len() as int, (prefix + b).len() as int) =~= b);
    }
}

/// A path inside a directory is longer than the directory's, so it is not the directory.
pub proof fn lemma_joined_path_is_inside(dir: Seq<char>, name: Seq<char>)
    requires
        name.len() > 0,
    ensures
        joined_path(dir, name) != dir,
{
    assert(joined_path(dir, name).len() > dir.len());
}

/// A document's path is longer than the directory it lies in, so it is not that directory.
pub proof fn lemma_final_path_is_not_the_directory(data_dir: Seq<char>, kind: DataFileType)
    ensures
        final_path(data_dir, kind) != data_dir,
        temp_path(data_dir, kind) != data_dir,
{
    crate::kind::reveal_names();
    assert(final_path(data_dir, kind).len() > data_dir.len());
}

/// The temporary path of a document is the path of its temporary file name.
pub proof fn lemma_temp_path_is_joined(data_dir: Seq<char>, kind: DataFileType)
    ensures
        temp_path(data_dir, kind) == joined_path(data_dir, kind.spec_temp_filename()),
{
    assert(temp_path(data_dir, kind) =~= joined_path(data_dir, kind.spec_temp_filename()));
}

/// The paths of the documents form a bijection with the documents: each
/// document has one final and one temporary path, no two documents share a
/// final path or a temporary path, and no temporary path is a final path.
pub proof fn lemma_paths_distinct(data_dir: Seq<char>, a: DataFileType, b: DataFileType)
    ensures
        final_path(data_dir, a) == final_path(data_dir, b) <==> a == b,
        temp_path(data_dir, a) == temp_path(data_dir, b) <==> a == b,
        temp_path(data_dir, a) != final_path(data_dir, b),
{
    crate::kind::lemma_filenames_distinct(a, b);
    crate::kind::lemma_temp_filename_is_no_document(a);
    lemma_temp_path_is_joined(data_dir, a);
    lemma_temp_path_is_joined(data_dir, b);
    lemma_joined_path_injective(data_dir, a.spec_filename(), b.spec_filename());
    lemma_joined_path_injective(data_dir, a.spec_temp_filename(), b.spec_temp_filename());
    lemma_joined_path_injective(data_dir, a.spec_temp_filename(), b.spec_filename());
    crate::kind::lemma_names_round_trip(b);
    assert(a.spec_temp_filename() != b.spec_watched().spec_filename());
}

} // verus!
