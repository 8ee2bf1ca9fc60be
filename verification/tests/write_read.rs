use focusflow::command::{FsCommand, FsReply, Progress};
use focusflow::kind::DataFileType;
use focusflow::reader::{read_data_file, ReadDocument};
use focusflow::writer::{atomic_write_file, AtomicWrite};
use std::collections::{BTreeMap, BTreeSet};

/// A directory tree in memory that carries out commands as a disk would.
struct Disk {
    dirs: BTreeSet<String>,
    files: BTreeMap<String, String>,
    log: Vec<FsCommand>,
    fail_at: Option<(usize, String)>,
}

impl Disk {
    fn new() -> Disk {
        Disk { dirs: BTreeSet::new(), files: BTreeMap::new(), log: Vec::new(), fail_at: None }
    }

    fn with_file(mut self, path: &str, content: &str) -> Disk {
        self.files.insert(path.to_string(), content.to_string());
        self
    }

    fn failing_at(mut self, index: usize, reason: &str) -> Disk {
        self.fail_at = Some((index, reason.to_string()));
        self
    }

    fn perform(&mut self, command: &FsCommand) -> FsReply {
        let index = self.log.len();
        self.log.push(command.clone());
        if let Some((at, reason)) = &self.fail_at {
            if *at == index {
                return FsReply::Failed(reason.clone());
            }
        }
        let missing = FsReply::Failed("No such file or directory".to_string());
        match command {
            FsCommand::EnsureDir { path } => {
                self.dirs.insert(path.clone());
                FsReply::Done
            }
            FsCommand::Exists { path } => {
                FsReply::Found(self.files.contains_key(path) || self.dirs.contains(path))
            }
            FsCommand::ReadText { path } => match self.files.get(path) {
                Some(text) => FsReply::Text(text.clone()),
                None => missing,
            },
            FsCommand::CreateFile { path } => {
                self.files.insert(path.clone(), String::new());
                FsReply::Done
            }
            FsCommand::WriteAll { path, content } => {
                self.files.insert(path.clone(), content.clone());
                FsReply::Done
            }
            FsCommand::SyncAll { .. } => FsReply::Done,
            FsCommand::Rename { from, to } => match self.files.remove(from) {
                Some(text) => {
                    self.files.insert(to.clone(), text);
                    FsReply::Done
                }
                None => missing,
            },
            FsCommand::CopyFile { from, to } => match self.files.get(from).cloned() {
                Some(text) => {
                    self.files.insert(to.clone(), text);
                    FsReply::Done
                }
                None => missing,
            },
        }
    }
}

/// Runs a write for at most `limit` commands; `None` means it was cut short.
fn write(
    disk: &mut Disk,
    dir: &str,
    file_type: &str,
    content: &str,
    limit: usize,
) -> Option<Result<(), String>> {
    let (mut machine, mut command): (AtomicWrite, FsCommand) =
        match atomic_write_file(dir, file_type, content) {
            Ok(start) => start,
            Err(message) => return Some(Err(message)),
        };
    for _ in 0..limit {
        let reply = disk.perform(&command);
        match machine.step(&reply) {
            Progress::Continue(next, then) => {
                machine = next;
                command = then;
            }
            Progress::Finished(result) => return Some(result),
        }
    }
    None
}

fn read(disk: &mut Disk, dir: &str, file_type: &str) -> Result<Option<String>, String> {
    let (mut machine, mut command): (ReadDocument, FsCommand) = read_data_file(dir, file_type)?;
    loop {
        let reply = disk.perform(&command);
        match machine.step(&reply) {
            Progress::Continue(next, then) => {
                machine = next;
                command = then;
            }
            Progress::Finished(result) => return result,
        }
    }
}

const KINDS: [&str; 3] = ["active", "archive", "pomodoro_history"];

#[test]
fn write_hands_out_its_five_commands_in_order() {
    let mut disk = Disk::new();
    assert_eq!(write(&mut disk, "/data", "active", "{\"tasks\":[]}", 10), Some(Ok(())));
    assert_eq!(
        disk.log,
        vec![
            FsCommand::EnsureDir { path: "/data".to_string() },
            FsCommand::CreateFile { path: "/data/active.json.tmp".to_string() },
            FsCommand::WriteAll {
                path: "/data/active.json.tmp".to_string(),
                content: "{\"tasks\":[]}".to_string(),
            },
            FsCommand::SyncAll { path: "/data/active.json.tmp".to_string() },
            FsCommand::Rename {
                from: "/data/active.json.tmp".to_string(),
                to: "/data/active.json".to_string(),
            },
        ]
    );
}

#[test]
fn begin_is_the_start_of_the_named_write() {
    let (_, first) = AtomicWrite::begin("/data", DataFileType::Archive, "[]");
    assert_eq!(first, FsCommand::EnsureDir { path: "/data".to_string() });
    let (_, named) = atomic_write_file("/data", "archive", "[]").unwrap();
    assert_eq!(named, first);
}

#[test]
fn write_then_read_returns_the_payload() {
    let payloads = [
        "",
        "{}",
        "{\"tasks\":[1,2,3]}",
        "not json at all",
        "line one\nline two\r\n\ttabbed",
        "ünïcödé ✓ 日本語 \u{0}",
    ];
    for kind in KINDS {
        for payload in payloads {
            let mut disk = Disk::new();
            assert_eq!(write(&mut disk, "/data", kind, payload, 10), Some(Ok(())));
            assert_eq!(read(&mut disk, "/data", kind), Ok(Some(payload.to_string())));
        }
    }
}

#[test]
fn write_replaces_what_was_there() {
    let mut disk = Disk::new().with_file("/data/archive.json", "old");
    assert_eq!(write(&mut disk, "/data", "archive", "new", 10), Some(Ok(())));
    assert_eq!(read(&mut disk, "/data", "archive"), Ok(Some("new".to_string())));
    assert_eq!(write(&mut disk, "/data", "archive", "newer", 10), Some(Ok(())));
    assert_eq!(read(&mut disk, "/data", "archive"), Ok(Some("newer".to_string())));
}

#[test]
fn write_leaves_no_temp_file_and_touches_nothing_else() {
    let mut disk =
        Disk::new().with_file("/data/active.json", "a").with_file("/data/archive.json", "b");
    assert_eq!(write(&mut disk, "/data", "active", "c", 10), Some(Ok(())));
    assert_eq!(disk.files.get("/data/active.json"), Some(&"c".to_string()));
    assert_eq!(disk.files.get("/data/archive.json"), Some(&"b".to_string()));
    assert_eq!(disk.files.get("/data/active.json.tmp"), None);
    assert_eq!(disk.files.len(), 2);
}

#[test]
fn interrupted_write_leaves_the_old_content() {
    for kind in KINDS {
        for commands in 0..5 {
            let path = format!("/data/{}.json", kind);
            let mut disk = Disk::new().with_file(&path, "before");
            assert_eq!(write(&mut disk, "/data", kind, "after", commands), None);
            assert_eq!(read(&mut disk, "/data", kind), Ok(Some("before".to_string())));
        }
    }
}

#[test]
fn interrupted_first_write_leaves_the_document_absent() {
    for commands in 0..5 {
        let mut disk = Disk::new();
        assert_eq!(write(&mut disk, "/data", "active", "after", commands), None);
        assert_eq!(read(&mut disk, "/data", "active"), Ok(None));
    }
}

#[test]
fn failed_write_reports_the_step_and_keeps_the_document() {
    let expected = [
        "disk full",
        "Failed to create temp file: disk full",
        "Failed to write to temp file: disk full",
        "Failed to sync temp file: disk full",
        "Failed to rename temp file: disk full",
    ];
    for (index, message) in expected.iter().enumerate() {
        let mut disk =
            Disk::new().with_file("/data/active.json", "before").failing_at(index, "disk full");
        assert_eq!(
            write(&mut disk, "/data", "active", "after", 10),
            Some(Err(message.to_string()))
        );
        assert_eq!(disk.log.len(), index + 1);
        disk.fail_at = None;
        assert_eq!(read(&mut disk, "/data", "active"), Ok(Some("before".to_string())));
    }
}

#[test]
fn failed_write_is_overwritten_by_the_next_attempt() {
    let mut disk = Disk::new().failing_at(3, "interrupted");
    assert_eq!(
        write(&mut disk, "/data", "active", "first", 10),
        Some(Err("Failed to sync temp file: interrupted".to_string()))
    );
    assert_eq!(disk.files.get("/data/active.json.tmp"), Some(&"first".to_string()));
    disk.fail_at = None;
    assert_eq!(write(&mut disk, "/data", "active", "second", 10), Some(Ok(())));
    assert_eq!(read(&mut disk, "/data", "active"), Ok(Some("second".to_string())));
    assert_eq!(disk.files.get("/data/active.json.tmp"), None);
}

#[test]
fn unknown_kind_is_rejected_without_any_command() {
    for bad in ["", "notes", "legacy", "Active", "active.json"] {
        let mut disk = Disk::new().with_file("/data/active.json", "x");
        assert_eq!(
            write(&mut disk, "/data", bad, "payload", 10),
            Some(Err(format!("Unknown file type: {}", bad)))
        );
        assert!(disk.log.is_empty());
        assert_eq!(read(&mut disk, "/data", bad), Err(format!("Unknown file type: {}", bad)));
        assert!(disk.log.is_empty());
        assert_eq!(disk.files.len(), 1);
    }
}

#[test]
fn read_of_an_absent_document_is_none() {
    let mut disk = Disk::new();
    for kind in KINDS {
        assert_eq!(read(&mut disk, "/data", kind), Ok(None));
    }
    assert_eq!(
        disk.log,
        vec![
            FsCommand::Exists { path: "/data/active.json".to_string() },
            FsCommand::Exists { path: "/data/archive.json".to_string() },
            FsCommand::Exists { path: "/data/pomodoro_history.json".to_string() },
        ]
    );
}

#[test]
fn read_asks_first_and_reads_then() {
    let mut disk = Disk::new().with_file("/data/pomodoro_history.json", "[25]");
    assert_eq!(read(&mut disk, "/data", "pomodoro_history"), Ok(Some("[25]".to_string())));
    assert_eq!(
        disk.log,
        vec![
            FsCommand::Exists { path: "/data/pomodoro_history.json".to_string() },
            FsCommand::ReadText { path: "/data/pomodoro_history.json".to_string() },
        ]
    );
}

#[test]
fn read_failure_is_reported_with_its_reason() {
    let mut disk = Disk::new().with_file("/data/active.json", "x").failing_at(1, "bad sector");
    assert_eq!(
        read(&mut disk, "/data", "active"),
        Err("Failed to read file: bad sector".to_string())
    );
}

#[test]
fn read_begin_is_the_start_of_the_named_read() {
    let (_, first) = ReadDocument::begin("/data", DataFileType::Active);
    assert_eq!(first, FsCommand::Exists { path: "/data/active.json".to_string() });
}

#[test]
fn replies_of_another_shape_are_read_leniently() {
    let (machine, _) = ReadDocument::begin("/data", DataFileType::Active);
    match machine.step(&FsReply::Done) {
        Progress::Finished(result) => assert_eq!(result, Ok(None)),
        Progress::Continue(..) => panic!("a reply that found nothing must end the read"),
    }
    let (machine, _) = ReadDocument::begin("/data", DataFileType::Active);
    let machine = match machine.step(&FsReply::Found(true)) {
        Progress::Continue(next, _) => next,
        Progress::Finished(_) => panic!("a found document must be read"),
    };
    match machine.step(&FsReply::Done) {
        Progress::Finished(result) => {
            assert_eq!(result, Err("Failed to read file: the reply carries no text".to_string()))
        }
        Progress::Continue(..) => panic!("the read must end"),
    }
    assert_eq!(FsReply::Found(false).failure(), None);
    assert_eq!(FsReply::Failed("x".to_string()).failure(), Some(&"x".to_string()));
    assert!(FsReply::Found(true).found());
    assert!(!FsReply::Text("true".to_string()).found());
    assert_eq!(FsReply::Text("t".to_string()).text(), Ok("t".to_string()));
    assert_eq!(FsReply::Failed("e".to_string()).text(), Err("e".to_string()));
}
