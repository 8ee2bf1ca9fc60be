use focusflow::backup::{backup_data, backup_dir_name, summarize, Backup};
use focusflow::command::{FsCommand, FsReply, Progress};
use focusflow::kind::WatchedFile;
use std::collections::{BTreeMap, BTreeSet};

/// A directory tree in memory that carries out commands as a disk would.
struct Disk {
    dirs: BTreeSet<String>,
    files: BTreeMap<String, String>,
    log: Vec<FsCommand>,
    fail_at: Option<(usize, String)>,
}

impl Disk {
    fn new() -> Disk {
        Disk { dirs: BTreeSet::new(), files: BTreeMap::new(), log: Vec::new(), fail_at: None }
    }

    fn with_file(mut self, path: &str, content: &str) -> Disk {
        self.files.insert(path.to_string(), content.to_string());
        self
    }

    fn failing_at(mut self, index: usize, reason: &str) -> Disk {
        self.fail_at = Some((index, reason.to_string()));
        self
    }

    fn perform(&mut self, command: &FsCommand) -> FsReply {
        let index = self.log.len();
        self.log.push(command.clone());
        if let Some((at, reason)) = &self.fail_at {
            if *at == index {
                return FsReply::Failed(reason.clone());
            }
        }
        let missing = FsReply::Failed("No such file or directory".to_string());
        match command {
            FsCommand::EnsureDir { path } => {
                self.dirs.insert(path.clone());
                FsReply::Done
            }
            FsCommand::Exists { path } => {
                FsReply::Found(self.files.contains_key(path) || self.dirs.contains(path))
            }
            FsCommand::ReadText { path } => match self.files.get(path) {
                Some(text) => FsReply::Text(text.clone()),
                None => missing,
            },
            FsCommand::CreateFile { path } => {
                self.files.insert(path.clone(), String::new());
                FsReply::Done
            }
            FsCommand::WriteAll { path, content } => {
                self.files.insert(path.clone(), content.clone());
                FsReply::Done
            }
            FsCommand::SyncAll { .. } => FsReply::Done,
            FsCommand::Rename { from, to } => match self.files.remove(from) {
                Some(text) => {
                    self.files.insert(to.clone(), text);
                    FsReply::Done
                }
                None => missing,
            },
            FsCommand::CopyFile { from, to } => match self.files.get(from).cloned() {
                Some(text) => {
                    self.files.insert(to.clone(), text);
                    FsReply::Done
                }
                None => missing,
            },
        }
    }
}

fn drive(disk: &mut Disk, start: (Backup, FsCommand)) -> Result<String, String> {
    let (mut machine, mut command) = start;
    loop {
        let reply = disk.perform(&command);
        match machine.step(&reply) {
            Progress::Continue(next, then) => {
                machine = next;
                command = then;
            }
            Progress::Finished(result) => return result,
        }
    }
}

fn backup(disk: &mut Disk, dir: &str, stamp: &str) -> Result<String, String> {
    drive(disk, Backup::begin(dir, stamp))
}

const STAMP: &str = "20240102_030405";

#[test]
fn backup_dir_name_is_prefix_and_stamp() {
    assert_eq!(backup_dir_name(STAMP), "backup_20240102_030405");
    assert_eq!(backup_dir_name(""), "backup_");
}

#[test]
fn summary_lists_the_files_between_commas() {
    assert_eq!(summarize("/data/backup_x", &vec![]), "Backup created at: /data/backup_x (files: )");
    assert_eq!(
        summarize("/data/backup_x", &vec![WatchedFile::Active]),
        "Backup created at: /data/backup_x (files: active.json)"
    );
    assert_eq!(
        summarize(
            "/b",
            &vec![
                WatchedFile::Active,
                WatchedFile::Archive,
                WatchedFile::PomodoroHistory,
                WatchedFile::Legacy
            ]
        ),
        "Backup created at: /b (files: active.json, archive.json, pomodoro_history.json, focusflow_data.json)"
    );
    assert_eq!(
        summarize("", &vec![WatchedFile::Legacy, WatchedFile::Active]),
        "Backup created at:  (files: focusflow_data.json, active.json)"
    );
}

#[test]
fn backup_with_only_the_active_document() {
    let mut disk = Disk::new().with_file("/data/active.json", "{\"tasks\":[]}");
    assert_eq!(
        backup(&mut disk, "/data", STAMP),
        Ok("Backup created at: /data/backup_20240102_030405 (files: active.json)".to_string())
    );
    assert!(disk.dirs.contains("/data/backup_20240102_030405"));
    assert_eq!(
        disk.files.get("/data/backup_20240102_030405/active.json"),
        Some(&"{\"tasks\":[]}".to_string())
    );
    assert_eq!(disk.files.get("/data/active.json"), Some(&"{\"tasks\":[]}".to_string()));
    assert_eq!(disk.files.len(), 2);
    let copies: Vec<&FsCommand> =
        disk.log.iter().filter(|c| matches!(c, FsCommand::CopyFile { .. })).collect();
    assert_eq!(copies.len(), 1);
}

#[test]
fn backup_with_no_files_succeeds_with_an_empty_list() {
    let mut disk = Disk::new();
    assert_eq!(
        backup(&mut disk, "/data", STAMP),
        Ok("Backup created at: /data/backup_20240102_030405 (files: )".to_string())
    );
    assert!(disk.dirs.contains("/data/backup_20240102_030405"));
    assert!(disk.files.is_empty());
    assert_eq!(
        disk.log,
        vec![
            FsCommand::EnsureDir { path: "/data/backup_20240102_030405".to_string() },
            FsCommand::Exists { path: "/data/active.json".to_string() },
            FsCommand::Exists { path: "/data/archive.json".to_string() },
            FsCommand::Exists { path: "/data/pomodoro_history.json".to_string() },
            FsCommand::Exists { path: "/data/focusflow_data.json".to_string() },
        ]
    );
}

#[test]
fn backup_with_everything_present() {
    let mut disk = Disk::new()
        .with_file("/data/active.json", "a")
        .with_file("/data/archive.json", "b")
        .with_file("/data/pomodoro_history.json", "c")
        .with_file("/data/focusflow_data.json", "d")
        .with_file("/data/notes.txt", "e");
    assert_eq!(
        backup(&mut disk, "/data", STAMP),
        Ok("Backup created at: /data/backup_20240102_030405 (files: active.json, archive.json, pomodoro_history.json, focusflow_data.json)".to_string())
    );
    let dir = "/data/backup_20240102_030405";
    assert_eq!(disk.files.get(&format!("{}/active.json", dir)), Some(&"a".to_string()));
    assert_eq!(disk.files.get(&format!("{}/archive.json", dir)), Some(&"b".to_string()));
    assert_eq!(disk.files.get(&format!("{}/pomodoro_history.json", dir)), Some(&"c".to_string()));
    assert_eq!(disk.files.get(&format!("{}/focusflow_data.json", dir)), Some(&"d".to_string()));
    assert_eq!(disk.files.get(&format!("{}/notes.txt", dir)), None);
    assert_eq!(disk.files.len(), 9);
    assert_eq!(disk.log.len(), 9);
}

#[test]
fn backup_skips_what_is_missing() {
    let mut disk =
        Disk::new().with_file("/data/archive.json", "b").with_file("/data/focusflow_data.json", "d");
    assert_eq!(
        backup(&mut disk, "/data", "s"),
        Ok("Backup created at: /data/backup_s (files: archive.json, focusflow_data.json)"
            .to_string())
    );
    assert_eq!(
        disk.log,
        vec![
            FsCommand::EnsureDir { path: "/data/backup_s".to_string() },
            FsCommand::Exists { path: "/data/active.json".to_string() },
            FsCommand::Exists { path: "/data/archive.json".to_string() },
            FsCommand::CopyFile {
                from: "/data/archive.json".to_string(),
                to: "/data/backup_s/archive.json".to_string(),
            },
            FsCommand::Exists { path: "/data/pomodoro_history.json".to_string() },
            FsCommand::Exists { path: "/data/focusflow_data.json".to_string() },
            FsCommand::CopyFile {
                from: "/data/focusflow_data.json".to_string(),
                to: "/data/backup_s/focusflow_data.json".to_string(),
            },
        ]
    );
}

#[test]
fn backup_fails_where_the_directory_cannot_be_made() {
    let mut disk = Disk::new().with_file("/data/active.json", "a").failing_at(0, "Permission denied");
    assert_eq!(backup(&mut disk, "/data", STAMP), Err("Permission denied".to_string()));
    assert_eq!(disk.log.len(), 1);
    assert_eq!(disk.files.len(), 1);
}

#[test]
fn failed_copy_ends_the_backup_and_keeps_earlier_copies() {
    let mut disk = Disk::new()
        .with_file("/data/active.json", "a")
        .with_file("/data/archive.json", "b")
        .failing_at(4, "disk full");
    assert_eq!(backup(&mut disk, "/data", STAMP), Err("disk full".to_string()));
    assert_eq!(
        disk.files.get("/data/backup_20240102_030405/active.json"),
        Some(&"a".to_string())
    );
    assert_eq!(disk.files.get("/data/backup_20240102_030405/archive.json"), None);
    assert_eq!(disk.log.len(), 5);
}

#[test]
fn backup_now_is_named_after_the_local_time() {
    let before = chrono::Local::now().format("%Y%m%d_%H%M%S").to_string();
    let (_, command) = backup_data("/data");
    let after = chrono::Local::now().format("%Y%m%d_%H%M%S").to_string();
    let path = match command {
        FsCommand::EnsureDir { path } => path,
        other => panic!("unexpected first command {:?}", other),
    };
    let stamp = path.strip_prefix("/data/backup_").expect("the directory lies in the data directory");
    assert_eq!(stamp.len(), 15);
    assert_eq!(stamp.as_bytes()[8], b'_');
    assert!(stamp.bytes().enumerate().all(|(i, b)| i == 8 || b.is_ascii_digit()), "{}", stamp);
    assert!(before.as_str() <= stamp && stamp <= after.as_str(), "{} {} {}", before, stamp, after);
}

#[test]
fn backup_now_takes_what_is_there() {
    let mut disk = Disk::new().with_file("/data/active.json", "a");
    let summary = drive(&mut disk, backup_data("/data")).unwrap();
    assert!(summary.starts_with("Backup created at: /data/backup_"), "{}", summary);
    assert!(summary.ends_with(" (files: active.json)"), "{}", summary);
    assert_eq!(disk.files.len(), 2);
}

#[test]
fn replies_of_another_shape_count_as_not_found() {
    let (machine, _) = Backup::begin("/data", STAMP);
    let machine = match machine.step(&FsReply::Done) {
        Progress::Continue(next, command) => {
            assert_eq!(command, FsCommand::Exists { path: "/data/active.json".to_string() });
            next
        }
        Progress::Finished(_) => panic!("the directory was made"),
    };
    match machine.step(&FsReply::Text("yes".to_string())) {
        Progress::Continue(_, command) => {
            assert_eq!(command, FsCommand::Exists { path: "/data/archive.json".to_string() })
        }
        Progress::Finished(_) => panic!("three files are left"),
    }
}
