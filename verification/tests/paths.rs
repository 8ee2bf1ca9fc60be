use focusflow::command::{FsCommand, FsReply};
use focusflow::kind::DataFileType;
use focusflow::paths::{
    data_file_paths, ensure_data_dir, get_app_data_path, get_data_file_paths, join_path, resolve,
    DataFilePaths,
};

#[test]
fn join_path_puts_one_separator_between() {
    assert_eq!(join_path("/data", "active.json"), "/data/active.json");
    assert_eq!(join_path("/data/", "active.json"), "/data/active.json");
    assert_eq!(join_path("", "active.json"), "active.json");
    assert_eq!(join_path("/", "active.json"), "/active.json");
    assert_eq!(join_path("relative/dir", "x"), "relative/dir/x");
    assert_eq!(join_path("/データ", "x"), "/データ/x");
}

#[test]
fn join_path_agrees_with_std_on_plain_names() {
    for dir in ["/data", "/data/", "", "/", "a/b", "/home/user/.local/share/app"] {
        for name in ["active.json", "archive.json.tmp", "backup_20240102_030405"] {
            let expected = std::path::Path::new(dir).join(name);
            assert_eq!(join_path(dir, name), expected.to_string_lossy());
        }
    }
}

#[test]
fn resolve_gives_final_and_temp_path() {
    let paths = resolve("/data", DataFileType::Active);
    assert_eq!(paths.final_path, "/data/active.json");
    assert_eq!(paths.temp_path, "/data/active.json.tmp");
    let paths = resolve("/data/", DataFileType::PomodoroHistory);
    assert_eq!(paths.final_path, "/data/pomodoro_history.json");
    assert_eq!(paths.temp_path, "/data/pomodoro_history.json.tmp");
}

#[test]
fn temp_path_is_final_path_and_suffix() {
    for kind in [DataFileType::Active, DataFileType::Archive, DataFileType::PomodoroHistory] {
        for dir in ["/data", "", "x/"] {
            let paths = resolve(dir, kind);
            assert_eq!(paths.temp_path, format!("{}.tmp", paths.final_path));
            assert_eq!(paths.final_path, join_path(dir, kind.filename()));
            assert_eq!(paths.temp_path, join_path(dir, &kind.temp_filename()));
        }
    }
}

#[test]
fn no_two_kinds_share_a_path() {
    let kinds = [DataFileType::Active, DataFileType::Archive, DataFileType::PomodoroHistory];
    for a in kinds {
        for b in kinds {
            let pa = resolve("/data", a);
            let pb = resolve("/data", b);
            assert_eq!(pa.final_path == pb.final_path, a == b);
            assert_eq!(pa.temp_path == pb.temp_path, a == b);
            assert_ne!(pa.temp_path, pb.final_path);
        }
    }
}

#[test]
fn data_file_paths_names_all_three() {
    assert_eq!(
        data_file_paths("/data"),
        DataFilePaths {
            active: "/data/active.json".to_string(),
            archive: "/data/archive.json".to_string(),
            pomodoro_history: "/data/pomodoro_history.json".to_string(),
        }
    );
}

#[test]
fn ensure_data_dir_asks_for_the_directory() {
    assert_eq!(ensure_data_dir("/data"), FsCommand::EnsureDir { path: "/data".to_string() });
}

#[test]
fn app_data_path_needs_the_directory() {
    assert_eq!(get_app_data_path("/data", &FsReply::Done), Ok("/data".to_string()));
    assert_eq!(
        get_app_data_path("/data", &FsReply::Failed("Permission denied".to_string())),
        Err("Permission denied".to_string())
    );
}

#[test]
fn data_file_paths_need_the_directory() {
    assert_eq!(get_data_file_paths("/data", &FsReply::Done), Ok(data_file_paths("/data")));
    assert_eq!(
        get_data_file_paths("/data", &FsReply::Failed("Read-only file system".to_string())),
        Err("Read-only file system".to_string())
    );
}
