use cam_toolkit::ssh::paths::{
    RemoteFileType, cache_path_segments, format_permission_text, format_system_time_result,
    get_parent_remote_path, is_text_file, join_remote_path, normalize_remote_path, parse_file_kind,
    validate_remote_entry_name,
};
use cam_toolkit::ssh::types::SshCmdResult;

#[test]
fn permission_text_is_three_octal_digits() {
    assert_eq!(format_permission_text(Some(0o100755)), Some("755".to_string()));
    assert_eq!(format_permission_text(Some(0o644)), Some("644".to_string()));
    assert_eq!(format_permission_text(Some(0o7)), Some("007".to_string()));
    assert_eq!(format_permission_text(None), None);
}

#[test]
fn remote_paths_are_normalized() {
    assert_eq!(normalize_remote_path("  "), "/");
    assert_eq!(normalize_remote_path("a\\\\b//c/"), "a/b/c/");
    assert_eq!(normalize_remote_path(" //home///user "), "/home/user");
    assert_eq!(get_parent_remote_path("/home/user/file.txt"), "/home/user");
    assert_eq!(get_parent_remote_path("/home"), "/");
    assert_eq!(get_parent_remote_path("/"), "/");
    assert_eq!(get_parent_remote_path("home\\user\\"), "/home");
    assert_eq!(join_remote_path("/", "a.txt"), "/a.txt");
    assert_eq!(join_remote_path("/home//", "a.txt"), "/home/a.txt");
    assert_eq!(join_remote_path("home", "a"), "home/a");
}

#[test]
fn entry_names_are_single_pieces() {
    assert_eq!(validate_remote_entry_name("  report.txt "), Ok("report.txt".to_string()));
    assert_eq!(validate_remote_entry_name("   "), Err("名称不能为空".to_string()));
    assert_eq!(validate_remote_entry_name(".."), Err("名称不能为 . 或 ..".to_string()));
    assert_eq!(validate_remote_entry_name(" . "), Err("名称不能为 . 或 ..".to_string()));
    assert_eq!(validate_remote_entry_name("a/b"), Err("名称中不能包含路径分隔符".to_string()));
    assert_eq!(validate_remote_entry_name("a\\b"), Err("名称中不能包含路径分隔符".to_string()));
}

#[test]
fn text_files_by_extension() {
    assert!(is_text_file("/etc/app.CONF"));
    assert!(is_text_file("notes.md"));
    assert!(is_text_file("c"));
    assert!(!is_text_file("image.png"));
    assert!(!is_text_file("archive.tar.gz"));
    assert!(!is_text_file("dir.txt/"));
}

#[test]
fn file_kinds_and_cache_paths() {
    let k = parse_file_kind(RemoteFileType::Symlink);
    assert!(k.is_symlink && !k.is_dir && !k.is_file);
    assert_eq!(k.file_type, "symlink");
    assert_eq!(parse_file_kind(RemoteFileType::Other).file_type, "unknown");
    assert_eq!(
        cache_path_segments("s1", "/var//log/x.log"),
        vec!["remote_file_cache", "s1", "var", "log", "x.log"]
    );
    assert_eq!(cache_path_segments("s1", "/"), vec!["remote_file_cache", "s1", "index.txt"]);
    assert_eq!(format_system_time_result(Some(0)), Some("1970-01-01T00:00:00Z".to_string()));
    assert_eq!(format_system_time_result(None), None);
    let ok: SshCmdResult<u32> = SshCmdResult::ok(3);
    assert!(ok.success && ok.data == Some(3) && ok.error.is_none());
    let err: SshCmdResult<u32> = SshCmdResult::err("boom");
    assert_eq!(err.error, Some("boom".to_string()));
}

#[test]
fn normalize_twice_is_once() {
    for p in ["  \\\\home//user\\\\docs/ ", "", "   ", "a//b", "/"] {
        let once = normalize_remote_path(p);
        assert_eq!(normalize_remote_path(&once), once);
    }
}
