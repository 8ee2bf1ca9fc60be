//! The documents this crate manages, their file names and their identifiers.

use vstd::prelude::*;
use vstd::string::*;
use crate::text::{str_equals, has_suffix};

verus! {

/// Name of the monolithic file that older versions wrote.
pub const LEGACY_FILENAME: &'static str = "focusflow_data.json";

/// Name the legacy file is given once its content has been split up.
pub const MIGRATED_FILENAME: &'static str = "focusflow_data.migrated.json";

/// What a temporary sibling of a document is called after the document's name.
pub const TEMP_SUFFIX: &'static str = ".tmp";

/// One of the three documents kept on disk.
#[derive(Debug, Clone, Copy, PartialEq, Eq, Structural)]
pub enum DataFileType {
    Active,
    Archive,
    PomodoroHistory,
}

/// A file whose change the watcher reports: a document, or the legacy file.
#[derive(Debug, Clone, Copy, PartialEq, Eq, Structural)]
pub enum WatchedFile {
    Active,
    Archive,
    PomodoroHistory,
    Legacy,
}

impl DataFileType {
    pub open spec fn spec_filename(self) -> Seq<char> {
        match self {
            DataFileType::Active => "active.json"@,
            DataFileType::Archive => "archive.json"@,
            DataFileType::PomodoroHistory => "pomodoro_history.json"@,
        }
    }

    pub open spec fn spec_temp_filename(self) -> Seq<char> {
        self.spec_filename() + TEMP_SUFFIX@
    }

    pub open spec fn spec_identifier(self) -> Seq<char> {
        match self {
            DataFileType::Active => "active"@,
            DataFileType::Archive => "archive"@,
            DataFileType::PomodoroHistory => "pomodoro_history"@,
        }
    }

    pub open spec fn spec_watched(self) -> WatchedFile {
        match self {
            DataFileType::Active => WatchedFile::Active,
            DataFileType::Archive => WatchedFile::Archive,
            DataFileType::PomodoroHistory => WatchedFile::PomodoroHistory,
        }
    }

    /// The document's file name inside the data directory.
    pub fn filename(&self) -> (name: &'static str)
        ensures
            name@ == self.spec_filename(),
    {
        match self {
            DataFileType::Active => "active.json",
            DataFileType::Archive => "archive.json",
            DataFileType::PomodoroHistory => "pomodoro_history.json",
        }
    }

    /// The name of the temporary sibling that a write fills before it replaces the document.
    pub fn temp_filename(&self) -> (name: String)
        ensures
            name@ == self.spec_temp_filename(),
    {
        String::from_str(self.filename()).concat(TEMP_SUFFIX)
    }

    /// The string by which callers and notifications name the document.
    pub fn identifier(&self) -> (id: &'static str)
        ensures
            id@ == self.spec_identifier(),
    {
        match self {
            DataFileType::Active => "active",
            DataFileType::Archive => "archive",
            DataFileType::PomodoroHistory => "pomodoro_history",
        }
    }

    /// The document as the watcher reports it.
    pub fn watched(&self) -> (w: WatchedFile)
        ensures
            w == self.spec_watched(),
    {
        match self {
            DataFileType::Active => WatchedFile::Active,
            DataFileType::Archive => WatchedFile::Archive,
            DataFileType::PomodoroHistory => WatchedFile::PomodoroHistory,
        }
    }
}

impl WatchedFile {
    pub open spec fn spec_filename(self) -> Seq<char> {
        match self {
            WatchedFile::Active => DataFileType::Active.spec_filename(),
            WatchedFile::Archive => DataFileType::Archive.spec_filename(),
            WatchedFile::PomodoroHistory => DataFileType::PomodoroHistory.spec_filename(),
            WatchedFile::Legacy => LEGACY_FILENAME@,
        }
    }

    pub open spec fn spec_identifier(self) -> Seq<char> {
        match self {
            WatchedFile::Active => DataFileType::Active.spec_identifier(),
            WatchedFile::Archive => DataFileType::Archive.spec_identifier(),
            WatchedFile::PomodoroHistory => DataFileType::PomodoroHistory.spec_identifier(),
            WatchedFile::Legacy => "legacy"@,
        }
    }

    /// Position of the file among the watched files, from 0 to 3.
    pub open spec fn spec_index(self) -> nat {
        match self {
            WatchedFile::Active => 0,
            WatchedFile::Archive => 1,
            WatchedFile::PomodoroHistory => 2,
            WatchedFile::Legacy => 3,
        }
    }

    /// The file that follows this one where all of them are gone through.
    pub open spec fn spec_next(self) -> Option<WatchedFile> {
        match self {
            WatchedFile::Active => Some(WatchedFile::Archive),
            WatchedFile::Archive => Some(WatchedFile::PomodoroHistory),
            WatchedFile::PomodoroHistory => Some(WatchedFile::Legacy),
            WatchedFile::Legacy => None,
        }
    }

    /// The file that follows this one where all of them are gone through:
    /// the documents first, the legacy file last.
    pub fn next(&self) -> (res: Option<WatchedFile>)
        ensures
            res == self.spec_next(),
    {
        match self {
            WatchedFile::Active => Some(WatchedFile::Archive),
            WatchedFile::Archive => Some(WatchedFile::PomodoroHistory),
            WatchedFile::PomodoroHistory => Some(WatchedFile::Legacy),
            WatchedFile::Legacy => None,
        }
    }

    /// The string that a change notification carries for this file.
    pub fn identifier(&self) -> (id: &'static str)
        ensures
            id@ == self.spec_identifier(),
    {
        match self {
            WatchedFile::Active => DataFileType::Active.identifier(),
            WatchedFile::Archive => DataFileType::Archive.identifier(),
            WatchedFile::PomodoroHistory => DataFileType::PomodoroHistory.identifier(),
            WatchedFile::Legacy => "legacy",
        }
    }

    /// The file's name inside the data directory.
    pub fn filename(&self) -> (name: &'static str)
        ensures
            name@ == self.spec_filename(),
    {
        match self {
            WatchedFile::Active => DataFileType::Active.filename(),
            WatchedFile::Archive => DataFileType::Archive.filename(),
            WatchedFile::PomodoroHistory => DataFileType::PomodoroHistory.filename(),
            WatchedFile::Legacy => LEGACY_FILENAME,
        }
    }

    /// Position of the file among the watched files, from 0 to 3.
    pub fn index(&self) -> (i: u8)
        ensures
            i == self.spec_index(),
            i < 4,
    {
        match self {
            WatchedFile::Active => 0,
            WatchedFile::Archive => 1,
            WatchedFile::PomodoroHistory => 2,
            WatchedFile::Legacy => 3,
        }
    }
}

/// The document that an identifier names, if it names one.
pub open spec fn parsed_file_type(id: Seq<char>) -> Option<DataFileType> {
    if id == DataFileType::Active.spec_identifier() {
        Some(DataFileType::Active)
    } else if id == DataFileType::Archive.spec_identifier() {
        Some(DataFileType::Archive)
    } else if id == DataFileType::PomodoroHistory.spec_identifier() {
        Some(DataFileType::PomodoroHistory)
    } else {
        None
    }
}

/// The watched file that a file name belongs to, if any. The match is exact.
pub open spec fn classified_file(filename: Seq<char>) -> Option<WatchedFile> {
    if filename == WatchedFile::Active.spec_filename() {
        Some(WatchedFile::Active)
    } else if filename == WatchedFile::Archive.spec_filename() {
        Some(WatchedFile::Archive)
    } else if filename == WatchedFile::PomodoroHistory.spec_filename() {
        Some(WatchedFile::PomodoroHistory)
    } else if filename == WatchedFile::Legacy.spec_filename() {
        Some(WatchedFile::Legacy)
    } else {
        None
    }
}

/// The message with which an identifier that names no document is turned away.
pub open spec fn unknown_file_type_message(id: Seq<char>) -> Seq<char> {
    "Unknown file type: "@ + id
}

/// Reads a document identifier: `"active"`, `"archive"` or `"pomodoro_history"`.
pub fn parse_file_type(id: &str) -> (res: Option<DataFileType>)
    ensures
        res == parsed_file_type(id@),
{
    if str_equals(id, "active") {
        Some(DataFileType::Active)
    } else if str_equals(id, "archive") {
        Some(DataFileType::Archive)
    } else if str_equals(id, "pomodoro_history") {
        Some(DataFileType::PomodoroHistory)
    } else {
        None
    }
}

/// Reads a document identifier, or says which identifier was not understood.
pub fn require_file_type(id: &str) -> (res: Result<DataFileType, String>)
    ensures
        match res {
            Ok(kind) => parsed_file_type(id@) == Some(kind),
            Err(message) => parsed_file_type(id@) is None && message@
                == unknown_file_type_message(id@),
        },
{
    match parse_file_type(id) {
        Some(kind) => Ok(kind),
        None => Err(String::from_str("Unknown file type: ").concat(id)),
    }
}

/// Tells which watched file a file name belongs to.
pub fn classify_file(filename: &str) -> (res: Option<WatchedFile>)
    ensures
        res == classified_file(filename@),
{
    if str_equals(filename, "active.json") {
        Some(WatchedFile::Active)
    } else if str_equals(filename, "archive.json") {
        Some(WatchedFile::Archive)
    } else if str_equals(filename, "pomodoro_history.json") {
        Some(WatchedFile::PomodoroHistory)
    } else if str_equals(filename, LEGACY_FILENAME) {
        Some(WatchedFile::Legacy)
    } else {
        None
    }
}

/// The identifier under which a change of the named file is reported, if the
/// file is watched.
pub fn get_file_type(filename: &str) -> (res: Option<&'static str>)
    ensures
        match res {
            Some(id) => classified_file(filename@) matches Some(w) && id@ == w.spec_identifier(),
            None => classified_file(filename@) is None,
        },
{
    match classify_file(filename) {
        Some(w) => Some(w.identifier()),
        None => None,
    }
}

/// Makes the characters of every name in this module known to the solver.
pub proof fn reveal_names()
    ensures
        "active.json"@.len() == 11,
        "archive.json"@.len() == 12,
        "pomodoro_history.json"@.len() == 21,
        LEGACY_FILENAME@.len() == 19,
        MIGRATED_FILENAME@.len() == 28,
        "active.json"@[1] == 'c',
        LEGACY_FILENAME@[1] == 'o',
        TEMP_SUFFIX@ == seq!['.', 't', 'm', 'p'],
        has_suffix("active.json"@, seq!['j', 's', 'o', 'n']),
        has_suffix("archive.json"@, seq!['j', 's', 'o', 'n']),
        has_suffix("pomodoro_history.json"@, seq!['j', 's', 'o', 'n']),
        has_suffix(LEGACY_FILENAME@, seq!['j', 's', 'o', 'n']),
        has_suffix(MIGRATED_FILENAME@, seq!['j', 's', 'o', 'n']),
        "active"@.len() == 6,
        "archive"@.len() == 7,
        "pomodoro_history"@.len() == 16,
        "legacy"@.len() == 6,
        "active"@[0] == 'a',
        "legacy"@[0] == 'l',
{
    reveal_strlit("active.json");
    reveal_strlit("archive.json");
    reveal_strlit("pomodoro_history.json");
    reveal_strlit("focusflow_data.json");
    reveal_strlit("focusflow_data.migrated.json");
    reveal_strlit(".tmp");
    reveal_strlit("active");
    reveal_strlit("archive");
    reveal_strlit("pomodoro_history");
    reveal_strlit("legacy");
    assert(TEMP_SUFFIX@ =~= seq!['.', 't', 'm', 'p']);
    let json = seq!['j', 's', 'o', 'n'];
    assert("active.json"@.subrange(7, 11) =~= json);
    assert("archive.json"@.subrange(8, 12) =~= json);
    assert("pomodoro_history.json"@.subrange(17, 21) =~= json);
    assert(LEGACY_FILENAME@.subrange(15, 19) =~= json);
    assert(MIGRATED_FILENAME@.subrange(24, 28) =~= json);
}

/// Every document has a file name of its own: no two documents share one.
pub proof fn lemma_filenames_distinct(a: DataFileType, b: DataFileType)
    ensures
        a.spec_filename() == b.spec_filename() <==> a == b,
        a.spec_temp_filename() == b.spec_temp_filename() <==> a == b,
{
    reveal_names();
    if a != b {
        assert(a.spec_temp_filename().len() != b.spec_temp_filename().len());
    }
}

/// Every watched file has a name and an identifier of its own.
pub proof fn lemma_watched_files_distinct(a: WatchedFile, b: WatchedFile)
    ensures
        a.spec_filename() == b.spec_filename() <==> a == b,
        a.spec_identifier() == b.spec_identifier() <==> a == b,
        a.spec_index() == b.spec_index() <==> a == b,
{
    reveal_names();
}

/// A temporary sibling ends in `.tmp`, carries the name of no watched file,
/// and so is never classified.
pub proof fn lemma_temp_filename_is_no_document(kind: DataFileType)
    ensures
        has_suffix(kind.spec_temp_filename(), TEMP_SUFFIX@),
        forall|w: WatchedFile| kind.spec_temp_filename() != #[trigger] w.spec_filename(),
        classified_file(kind.spec_temp_filename()) is None,
        kind.spec_temp_filename() != MIGRATED_FILENAME@,
{
    reveal_names();
    let t = kind.spec_temp_filename();
    assert(t.subrange(t.len() - 4, t.len() as int) =~= TEMP_SUFFIX@);
    lemma_suffixes_differ(t, TEMP_SUFFIX@, MIGRATED_FILENAME@, seq!['j', 's', 'o', 'n']);
    assert forall|w: WatchedFile| t != #[trigger] w.spec_filename() by {
        lemma_suffixes_differ(t, TEMP_SUFFIX@, w.spec_filename(), seq!['j', 's', 'o', 'n']);
    }
}

/// No watched file has a name that ends in `.tmp`.
pub proof fn lemma_watched_name_has_no_temp_suffix(w: WatchedFile)
    ensures
        !has_suffix(w.spec_filename(), TEMP_SUFFIX@),
{
    reveal_names();
    let name = w.spec_filename();
    if has_suffix(name, TEMP_SUFFIX@) {
        lemma_suffixes_differ(name, TEMP_SUFFIX@, name, seq!['j', 's', 'o', 'n']);
    }
}

/// The name of a watched file begins with `a`, `p` or `f`.
pub proof fn lemma_watched_name_begins(w: WatchedFile)
    ensures
        w.spec_filename().len() > 0,
        w.spec_filename()[0] == 'a' || w.spec_filename()[0] == 'p' || w.spec_filename()[0] == 'f',
{
    reveal_strlit("active.json");
    reveal_strlit("archive.json");
    reveal_strlit("pomodoro_history.json");
    reveal_strlit("focusflow_data.json");
}

/// Two texts that end in different suffixes of one length are different texts.
pub proof fn lemma_suffixes_differ(a: Seq<char>, sa: Seq<char>, b: Seq<char>, sb: Seq<char>)
    requires
        has_suffix(a, sa),
        has_suffix(b, sb),
        sa.len() == sb.len(),
        sa != sb,
    ensures
        a != b,
{
}

/// Reading a document's identifier gives the document back, and classifying
/// its file name gives the document as the watcher reports it.
pub proof fn lemma_names_round_trip(kind: DataFileType)
    ensures
        parsed_file_type(kind.spec_identifier()) == Some(kind),
        classified_file(kind.spec_filename()) == Some(kind.spec_watched()),
        kind.spec_watched().spec_identifier() == kind.spec_identifier(),
        kind.spec_watched().spec_filename() == kind.spec_filename(),
{
    reveal_names();
}

/// The legacy file is watched under the identifier `legacy`, which names no
/// document.
pub proof fn lemma_legacy_is_watched_only()
    ensures
        classified_file(LEGACY_FILENAME@) == Some(WatchedFile::Legacy),
        parsed_file_type(WatchedFile::Legacy.spec_identifier()) is None,
        classified_file(MIGRATED_FILENAME@) is None,
{
    reveal_names();
}

} // verus!
