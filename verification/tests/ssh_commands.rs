use cam_toolkit::ssh::commands::{
    build_properties_from_metadata, canonical_or, check_directory_empty, connect_plan,
    convert_dir_entry, create_directory_plan, delete_target, host_key_accepted, probe_plan,
    rename_plan, sort_directory_entries, text_preview_check, upload_remote_path, RemoteMetadata,
};
use cam_toolkit::ssh::paths::RemoteFileType;
use cam_toolkit::ssh::types::{RemoteFileEntry, SshConnectRequest, SshHostProbeRequest};

fn request(host: &str, user: &str, fp: Option<&str>, initial: Option<&str>) -> SshConnectRequest {
    SshConnectRequest {
        host: host.to_string(),
        port: 22,
        username: user.to_string(),
        password: "pw".to_string(),
        expected_host_fingerprint: fp.map(|s| s.to_string()),
        initial_path: initial.map(|s| s.to_string()),
    }
}

#[test]
fn connect_requests_are_checked() {
    assert_eq!(connect_plan(&request("  ", "u", Some("SHA256:x"), None)).unwrap_err(), "远程主机地址不能为空");
    assert_eq!(connect_plan(&request("h", " ", Some("SHA256:x"), None)).unwrap_err(), "登录用户名不能为空");
    assert_eq!(
        connect_plan(&request("h", "u", Some("  "), None)).unwrap_err(),
        "缺少主机指纹确认信息，请先完成主机指纹确认"
    );
    assert_eq!(
        connect_plan(&request("h", "u", None, None)).unwrap_err(),
        "缺少主机指纹确认信息，请先完成主机指纹确认"
    );
    let plan = connect_plan(&request(" 10.0.0.2 ", " root ", Some("SHA256:abc"), Some("\\home//root/"))).unwrap();
    assert_eq!(plan.host, "10.0.0.2");
    assert_eq!(plan.username, "root");
    assert_eq!(plan.expected_fingerprint, "SHA256:abc");
    assert_eq!(plan.address, "10.0.0.2:22");
    assert_eq!(plan.initial_path, "/home/root/");
    assert_eq!(connect_plan(&request("h", "u", Some("f"), None)).unwrap().initial_path, "/");
}

#[test]
fn probes_and_host_keys() {
    let req = SshHostProbeRequest { host: " box ".to_string(), port: 2222 };
    assert_eq!(probe_plan(&req).unwrap(), ("box".to_string(), "box:2222".to_string()));
    let blank = SshHostProbeRequest { host: "".to_string(), port: 22 };
    assert_eq!(probe_plan(&blank).unwrap_err(), "远程主机地址不能为空");
    assert!(host_key_accepted(&None, "SHA256:any"));
    assert!(host_key_accepted(&Some("SHA256:a".to_string()), "SHA256:a"));
    assert!(!host_key_accepted(&Some("SHA256:a".to_string()), "SHA256:b"));
}

#[test]
fn command_paths() {
    assert_eq!(canonical_or(Some("/home//me"), "/"), "/home/me");
    assert_eq!(canonical_or(None, "/fallback"), "/fallback");
    assert_eq!(create_directory_plan("/data//", " logs ").unwrap().path, "/data/logs");
    assert_eq!(create_directory_plan("/data", "a/b").unwrap_err(), "名称中不能包含路径分隔符");
    let r = rename_plan("/data//old.txt", "new.txt").unwrap();
    assert_eq!((r.old_path.as_str(), r.new_path.as_str()), ("/data/old.txt", "/data/new.txt"));
    assert_eq!(rename_plan("/", "x").unwrap_err(), "根目录不允许重命名");
    assert_eq!(rename_plan("/", "..").unwrap_err(), "名称不能为 . 或 ..");
    assert_eq!(delete_target(" ").unwrap_err(), "根目录不允许删除");
    assert_eq!(delete_target("/tmp//x").unwrap(), "/tmp/x");
    assert_eq!(upload_remote_path("/up/", "f.bin"), "/up/f.bin");
    assert_eq!(upload_remote_path("", "f.bin"), "/f.bin");
}

#[test]
fn directories_with_children_are_kept() {
    assert!(check_directory_empty(&vec![".".to_string(), "..".to_string()]).is_ok());
    assert_eq!(
        check_directory_empty(&vec![".".to_string(), "a".to_string()]).unwrap_err(),
        "当前版本仅支持删除空目录，请先清空目录内容"
    );
}

#[test]
fn text_previews_are_limited() {
    assert!(text_preview_check("/etc/app.CONF", 10).is_ok());
    assert_eq!(text_preview_check("/bin/app", 10).unwrap_err(), "当前第一版仅支持文本类文件的本地打开");
    assert_eq!(
        text_preview_check("/var/big.log", 1024 * 1024 + 1).unwrap_err(),
        "文本文件超过 1 MB，第一版暂不支持直接预览，请先下载到本地查看"
    );
    assert!(text_preview_check("/var/big.log", 1024 * 1024).is_ok());
}

fn metadata(kind: RemoteFileType) -> RemoteMetadata {
    RemoteMetadata {
        file_type: kind,
        size: 42,
        permissions: Some(0o100644),
        uid: Some(1000),
        gid: None,
        modified: Some(0),
        accessed: None,
    }
}

#[test]
fn listing_entries() {
    assert!(convert_dir_entry("/d", ".", &metadata(RemoteFileType::Dir)).is_none());
    assert!(convert_dir_entry("/d", "..", &metadata(RemoteFileType::Dir)).is_none());
    let e = convert_dir_entry("/d/", "a.txt", &metadata(RemoteFileType::File)).unwrap();
    assert_eq!(e.path, "/d/a.txt");
    assert!(e.is_file && !e.is_dir && !e.is_symlink);
    assert_eq!(e.file_type, "file");
    assert_eq!(e.permission_text.as_deref(), Some("644"));
    assert_eq!(e.modified_at.as_deref(), Some("1970-01-01T00:00:00Z"));
    assert_eq!(e.accessed_at, None);
    assert_eq!(e.size, 42);

    let p = build_properties_from_metadata("/d/sub", &metadata(RemoteFileType::Dir));
    assert_eq!(p.name, "sub");
    assert!(p.is_dir);
    assert_eq!(build_properties_from_metadata("/d/", &metadata(RemoteFileType::Dir)).name, "/d/");
    assert_eq!(build_properties_from_metadata("plain", &metadata(RemoteFileType::Other)).name, "plain");
}

fn entry(name: &str, is_dir: bool) -> RemoteFileEntry {
    RemoteFileEntry {
        name: name.to_string(),
        path: format!("/{}", name),
        is_dir,
        is_file: !is_dir,
        is_symlink: false,
        file_type: if is_dir { "directory".to_string() } else { "file".to_string() },
        size: 0,
        permissions: None,
        permission_text: None,
        uid: None,
        gid: None,
        modified_at: None,
        accessed_at: None,
    }
}

#[test]
fn listings_put_directories_first() {
    let sorted = sort_directory_entries(vec![
        entry("b.txt", false),
        entry("README", false),
        entry("zeta", true),
        entry("Alpha", true),
        entry("readme", false),
        entry("a.txt", false),
    ]);
    let names: Vec<&str> = sorted.iter().map(|e| e.name.as_str()).collect();
    assert_eq!(names, vec!["Alpha", "zeta", "a.txt", "b.txt", "README", "readme"]);
    assert!(sort_directory_entries(Vec::new()).is_empty());
}
