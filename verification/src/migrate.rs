//! The one-time split of the legacy file into the three documents.
//!
//! The legacy file holds everything in one JSON object. Its members are
//! handed on, untouched, to the document each belongs to; a member that is
//! missing gets a default, so that no legacy file fails for what it lacks.

use vstd::prelude::*;
use vstd::string::*;
use crate::command::prefixed;
use crate::text::has_prefix;
use crate::json::{
    array_value, distinct_keys, entry_text, error_text, json_member, json_parsed, json_pretty,
    json_text, lemma_empty_array_text, member, needs_no_escape, null_value, object_value,
    parse_value, pretty_text, quoted, string_value,
};

verus! {

/// The version that a document is given where the legacy file names none.
pub const DOCUMENT_VERSION: &'static str = "2.0";

/// The compact text of the member under `key`, or `default` where there is none.
pub open spec fn member_text_or(legacy: Seq<char>, key: Seq<char>, default: Seq<char>) -> Seq<
    char,
> {
    match json_member(legacy, key) {
        Some(text) => text,
        None => default,
    }
}

/// The compact text of the version that a document is given by default.
pub open spec fn default_version() -> Seq<char> {
    quoted(DOCUMENT_VERSION@)
}

/// The compact text of an array without elements.
pub open spec fn empty_list() -> Seq<char> {
    "[]"@
}

/// The compact text of the JSON null.
pub open spec fn null() -> Seq<char> {
    "null"@
}

/// The members of the active document, from the legacy file with the given
/// compact text: its version, tasks, trash, reviews, tag groups and settings.
pub open spec fn active_members(legacy: Seq<char>) -> Map<Seq<char>, Seq<char>> {
    map![
        "version"@ => member_text_or(legacy, "version"@, default_version()),
        "lastModified"@ => member_text_or(legacy, "lastModified"@, null()),
        "tasks"@ => member_text_or(legacy, "tasks"@, empty_list()),
        "trash"@ => member_text_or(legacy, "trash"@, empty_list()),
        "reviews"@ => member_text_or(legacy, "reviews"@, empty_list()),
        "customTagGroups"@ => member_text_or(legacy, "customTagGroups"@, null()),
        "settings"@ => member_text_or(legacy, "settings"@, null()),
    ]
}

/// The members of the archive document: the legacy `archive` as its `tasks`.
pub open spec fn archive_members(legacy: Seq<char>) -> Map<Seq<char>, Seq<char>> {
    map![
        "version"@ => default_version(),
        "lastModified"@ => member_text_or(legacy, "lastModified"@, null()),
        "tasks"@ => member_text_or(legacy, "archive"@, empty_list()),
    ]
}

/// The members of the timer history: the legacy `pomodoroHistory` as its `sessions`.
pub open spec fn pomodoro_members(legacy: Seq<char>) -> Map<Seq<char>, Seq<char>> {
    map![
        "version"@ => default_version(),
        "lastModified"@ => member_text_or(legacy, "lastModified"@, null()),
        "sessions"@ => member_text_or(legacy, "pomodoroHistory"@, empty_list()),
    ]
}

/// Whether the value with the compact text `document` is an object with
/// exactly these members.
pub open spec fn holds_members(document: Seq<char>, members: Map<Seq<char>, Seq<char>>) -> bool {
    forall|key: Seq<char>| #[trigger]
        json_member(document, key) == if members.contains_key(key) {
            Some(members[key])
        } else {
            None
        }
}

/// Whether `text` is the pretty print of an object with exactly these members.
pub open spec fn renders(text: Seq<char>, members: Map<Seq<char>, Seq<char>>) -> bool {
    exists|document: Seq<char>| #[trigger]
        holds_members(document, members) && text == json_pretty(document)
}

/// What a legacy file that cannot be parsed is reported with.
pub open spec fn parse_failure_prefix() -> Seq<char> {
    "Failed to parse legacy file: "@
}

/// The three documents as values.
pub struct LegacyParts {
    pub active: serde_json::Value,
    pub archive: serde_json::Value,
    pub pomodoro_history: serde_json::Value,
}

/// The three documents as the texts that are written to disk.
#[derive(Debug, Clone, PartialEq, Eq)]
pub struct MigratedDocuments {
    pub active: String,
    pub archive: String,
    pub pomodoro_history: String,
}

/// Makes the characters of the member names known to the solver.
proof fn reveal_member_names()
    ensures
        "version"@.len() == 7,
        "lastModified"@.len() == 12,
        "tasks"@.len() == 5,
        "trash"@.len() == 5,
        "reviews"@.len() == 7,
        "customTagGroups"@.len() == 15,
        "settings"@.len() == 8,
        "sessions"@.len() == 8,
        "version"@[0] == 'v',
        "reviews"@[0] == 'r',
        "tasks"@[1] == 'a',
        "trash"@[1] == 'r',
        needs_no_escape(DOCUMENT_VERSION@),
{
    reveal_strlit("version");
    reveal_strlit("lastModified");
    reveal_strlit("tasks");
    reveal_strlit("trash");
    reveal_strlit("reviews");
    reveal_strlit("customTagGroups");
    reveal_strlit("settings");
    reveal_strlit("sessions");
    reveal_strlit("2.0");
}

/// The member of the legacy value under `key`, or `default` where it has none.
fn member_or(legacy: &serde_json::Value, key: &str, default: serde_json::Value) -> (value:
    serde_json::Value)
    ensures
        json_text(value) == member_text_or(json_text(*legacy), key@, json_text(default)),
{
    match member(legacy, key) {
        Some(found) => found,
        None => default,
    }
}

/// An array without elements.
fn empty_array() -> (value: serde_json::Value)
    ensures
        json_text(value) == empty_list(),
{
    proof {
        lemma_empty_array_text();
    }
    array_value(Vec::new())
}

/// One entry of an object under construction.
fn entry(key: &str, value: serde_json::Value) -> (res: (String, serde_json::Value))
    ensures
        res.0@ == key@,
        res.1 == value,
{
    (String::from_str(key), value)
}

/// Splits a legacy value into the three documents. Every member is taken
/// over as it is; a missing list becomes an empty list, a missing version
/// `"2.0"`, and anything else that is missing `null`.
pub fn split_legacy(legacy: &serde_json::Value) -> (parts: LegacyParts)
    ensures
        holds_members(json_text(parts.active), active_members(json_text(*legacy))),
        holds_members(json_text(parts.archive), archive_members(json_text(*legacy))),
        holds_members(json_text(parts.pomodoro_history), pomodoro_members(json_text(*legacy))),
{
    proof {
        reveal_member_names();
    }
    let mut active: Vec<(String, serde_json::Value)> = Vec::new();
    active.push(entry("version", member_or(legacy, "version", string_value(DOCUMENT_VERSION))));
    active.push(entry("lastModified", member_or(legacy, "lastModified", null_value())));
    active.push(entry("tasks", member_or(legacy, "tasks", empty_array())));
    active.push(entry("trash", member_or(legacy, "trash", empty_array())));
    active.push(entry("reviews", member_or(legacy, "reviews", empty_array())));
    active.push(entry("customTagGroups", member_or(legacy, "customTagGroups", null_value())));
    active.push(entry("settings", member_or(legacy, "settings", null_value())));
    proof {
        reveal_with_fuel(entry_text, 8);
    }
    let active = object_value(active);

    let mut archive: Vec<(String, serde_json::Value)> = Vec::new();
    archive.push(entry("version", string_value(DOCUMENT_VERSION)));
    archive.push(entry("lastModified", member_or(legacy, "lastModified", null_value())));
    archive.push(entry("tasks", member_or(legacy, "archive", empty_array())));
    let archive = object_value(archive);

    let mut pomodoro: Vec<(String, serde_json::Value)> = Vec::new();
    pomodoro.push(entry("version", string_value(DOCUMENT_VERSION)));
    pomodoro.push(entry("lastModified", member_or(legacy, "lastModified", null_value())));
    pomodoro.push(entry("sessions", member_or(legacy, "pomodoroHistory", empty_array())));
    let pomodoro_history = object_value(pomodoro);
    LegacyParts { active, archive, pomodoro_history }
}

/// The three documents as the specifications see them.
pub ghost struct DocumentsModel {
    pub active: Seq<char>,
    pub archive: Seq<char>,
    pub pomodoro_history: Seq<char>,
}

impl View for MigratedDocuments {
    type V = DocumentsModel;

    open spec fn view(&self) -> DocumentsModel {
        DocumentsModel {
            active: self.active@,
            archive: self.archive@,
            pomodoro_history: self.pomodoro_history@,
        }
    }
}

/// How the specifications see an attempt to make the documents.
pub open spec fn prepared_view(prepared: Result<MigratedDocuments, String>) -> Result<
    DocumentsModel,
    Seq<char>,
> {
    match prepared {
        Ok(documents) => Ok(documents@),
        Err(message) => Err(message@),
    }
}

/// What comes of a legacy text. A text that does not parse gives a failure
/// that says so, and only such a text fails. Every text that parses gives
/// the three documents, each the pretty print of an object with the members
/// that belong to it, whatever the legacy file holds or lacks.
pub open spec fn documents_of(
    legacy_text: Seq<char>,
    outcome: Result<DocumentsModel, Seq<char>>,
) -> bool {
    match json_parsed(legacy_text) {
        None => outcome matches Err(message) && has_prefix(message, parse_failure_prefix()),
        Some(legacy) => {
            &&& outcome matches Ok(documents)
            &&& renders(documents.active, active_members(legacy))
            &&& renders(documents.archive, archive_members(legacy))
            &&& renders(documents.pomodoro_history, pomodoro_members(legacy))
        },
    }
}

/// Parses the legacy text. A text that is no JSON is a failure, whatever else
/// is true of it.
pub fn parse_legacy(legacy_text: &str) -> (res: Result<serde_json::Value, String>)
    ensures
        match res {
            Ok(legacy) => json_parsed(legacy_text@) == Some(json_text(legacy)),
            Err(message) => json_parsed(legacy_text@) is None && has_prefix(
                message@,
                parse_failure_prefix(),
            ),
        },
{
    match parse_value(legacy_text) {
        Ok(legacy) => Ok(legacy),
        Err(error) => Err(prefixed("Failed to parse legacy file: ", error_text(&error).as_str())),
    }
}

/// Prints a document as it is written to disk. Every value can be printed.
pub fn render_document(document: &serde_json::Value) -> (res: Result<String, String>)
    ensures
        res matches Ok(text) && text@ == json_pretty(json_text(*document)),
{
    match pretty_text(document) {
        Ok(text) => Ok(text),
        Err(error) => Err(prefixed("Failed to serialize: ", error_text(&error).as_str())),
    }
}

/// Prints the three documents.
pub fn render_parts(parts: &LegacyParts) -> (res: Result<MigratedDocuments, String>)
    ensures
        res matches Ok(documents) && {
            &&& documents.active@ == json_pretty(json_text(parts.active))
            &&& documents.archive@ == json_pretty(json_text(parts.archive))
            &&& documents.pomodoro_history@ == json_pretty(json_text(parts.pomodoro_history))
        },
{
    let active = match render_document(&parts.active) {
        Ok(text) => text,
        Err(message) => {
            return Err(message);
        },
    };
    let archive = match render_document(&parts.archive) {
        Ok(text) => text,
        Err(message) => {
            return Err(message);
        },
    };
    let pomodoro_history = match render_document(&parts.pomodoro_history) {
        Ok(text) => text,
        Err(message) => {
            return Err(message);
        },
    };
    Ok(MigratedDocuments { active, archive, pomodoro_history })
}

/// Makes the three documents from the text of the legacy file. It fails on
/// a text that is no JSON, and on no other.
pub fn migrate_documents(legacy_text: &str) -> (res: Result<MigratedDocuments, String>)
    ensures
        documents_of(legacy_text@, prepared_view(res)),
{
    let legacy = match parse_legacy(legacy_text) {
        Ok(legacy) => legacy,
        Err(message) => {
            return Err(message);
        },
    };
    let parts = split_legacy(&legacy);
    let res = render_parts(&parts);
    proof {
        let source = json_text(legacy);
        assert(holds_members(json_text(parts.active), active_members(source)));
        assert(holds_members(json_text(parts.archive), archive_members(source)));
        assert(holds_members(json_text(parts.pomodoro_history), pomodoro_members(source)));
    }
    res
}

/// A legacy file without `tasks` still gives an active document, and its
/// task list is empty. The same holds of every list: what is missing is
/// empty, in all three documents.
pub proof fn lemma_missing_lists_are_empty(legacy: Seq<char>)
    ensures
        json_member(legacy, "tasks"@) is None ==> active_members(legacy)["tasks"@] == empty_list(),
        json_member(legacy, "trash"@) is None ==> active_members(legacy)["trash"@] == empty_list(),
        json_member(legacy, "reviews"@) is None ==> active_members(legacy)["reviews"@]
            == empty_list(),
        json_member(legacy, "archive"@) is None ==> archive_members(legacy)["tasks"@]
            == empty_list(),
        json_member(legacy, "pomodoroHistory"@) is None ==> pomodoro_members(legacy)["sessions"@]
            == empty_list(),
        active_members(legacy).contains_key("tasks"@),
        archive_members(legacy).contains_key("tasks"@),
        pomodoro_members(legacy).contains_key("sessions"@),
{
    reveal_member_names();
}

} // verus!
