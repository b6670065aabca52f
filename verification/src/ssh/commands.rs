//! The decisions of the SSH and SFTP commands: what is checked before a
//! connection is opened, which host keys are accepted, and which remote
//! paths each command works on. The connections and transfers are network
//! and file I/O, made around these decisions outside this library.
use vstd::prelude::*;
use crate::ssh::paths::{
    RemoteFileType, file_type_name, format_permission_text, format_system_time_result,
    octal_permissions, parse_file_kind, rfc3339_text, unix_time_representable, entry_name_error, is_text_file, is_text_path, join_remote_path, joined_remote_path,
    normalize_remote_path, normalized_remote_path, parent_remote_path, get_parent_remote_path,
    same_chars, validate_remote_entry_name,
};
use crate::ssh::types::{
    CreateDirectoryResult, RemoteFileEntry, RemoteFileProperties, RenamePathResult, SshConnectRequest, SshHostProbeRequest,
};
use crate::text::{
    decimal_chars, decimal_text, push_chars, push_str_chars, str_chars, string_from_chars, trim,
    trim_chars,
};

verus! {

/// The address a connection is made to: the host, a colon and the port.
pub open spec fn host_address(host: Seq<char>, port: u16) -> Seq<char> {
    host + ":"@ + decimal_text(port as nat)
}

/// What is wrong with a connection request, the first rule broken first.
pub open spec fn connect_error(req: SshConnectRequest) -> Option<Seq<char>> {
    if trim_chars(req.host@).len() == 0 {
        Some("远程主机地址不能为空"@)
    } else if trim_chars(req.username@).len() == 0 {
        Some("登录用户名不能为空"@)
    } else if !(req.expected_host_fingerprint matches Some(f) && trim_chars(f@).len() > 0) {
        Some("缺少主机指纹确认信息，请先完成主机指纹确认"@)
    } else {
        None
    }
}

/// The remote directory a session is asked to start in: "/" where none is given.
pub open spec fn requested_start(initial_path: Option<String>) -> Seq<char> {
    match initial_path {
        Some(p) => p@,
        None => "/"@,
    }
}

/// What a connection is opened with, once its request is checked.
#[derive(Debug, Clone)]
pub struct ConnectPlan {
    /// The host, trimmed.
    pub host: String,
    /// The user name, trimmed.
    pub username: String,
    /// The only host key fingerprint accepted.
    pub expected_fingerprint: String,
    /// "host:port".
    pub address: String,
    /// The directory to start in, in its usual form.
    pub initial_path: String,
}

/// The address of `host` on `port`.
fn address_of(host: &Vec<char>, port: u16) -> (r: String)
    ensures
        r@ == host_address(host@, port),
{
    let mut v: Vec<char> = Vec::new();
    push_chars(&mut v, host);
    v.push(':');
    push_chars(&mut v, &decimal_chars(port as u64));
    proof {
        reveal_strlit(":");
    }
    assert(v@ =~= host_address(host@, port));
    string_from_chars(v)
}

/// An error carrying `message`.
fn message(text: &str) -> (r: String)
    ensures
        r@ == text@,
{
    text.to_owned()
}

/// Checks a connection request: the host and the user name must not be
/// blank, and a host key fingerprint that the user accepted must be given.
pub fn connect_plan(req: &SshConnectRequest) -> (r: Result<ConnectPlan, String>)
    ensures
        connect_error(*req) matches Some(m) ==> (r matches Err(e) && e@ == m),
        connect_error(*req) is None ==> (r matches Ok(p) && p.host@ == trim_chars(req.host@)
            && p.username@ == trim_chars(req.username@) && (req.expected_host_fingerprint matches Some(
            f) && p.expected_fingerprint@ == f@) && p.address@ == host_address(
            trim_chars(req.host@),
            req.port,
        ) && p.initial_path@ == normalized_remote_path(requested_start(req.initial_path))),
{
    let host = trim(&str_chars(req.host.as_str()));
    if host.len() == 0 {
        return Err(message("远程主机地址不能为空"));
    }
    let username = trim(&str_chars(req.username.as_str()));
    if username.len() == 0 {
        return Err(message("登录用户名不能为空"));
    }
    let fingerprint = match &req.expected_host_fingerprint {
        Some(f) => {
            if trim(&str_chars(f.as_str())).len() == 0 {
                return Err(message("缺少主机指纹确认信息，请先完成主机指纹确认"));
            }
            f.clone()
        },
        None => {
            return Err(message("缺少主机指纹确认信息，请先完成主机指纹确认"));
        },
    };
    let initial_path = match &req.initial_path {
        Some(p) => normalize_remote_path(p.as_str()),
        None => normalize_remote_path("/"),
    };
    proof {
        reveal_strlit("/");
    }
    let address = address_of(&host, req.port);
    Ok(ConnectPlan {
        host: string_from_chars(host),
        username: string_from_chars(username),
        expected_fingerprint: fingerprint,
        address,
        initial_path,
    })
}

/// Checks a host probe: the host must not be blank. Gives the trimmed host
/// and its address.
pub fn probe_plan(req: &SshHostProbeRequest) -> (r: Result<(String, String), String>)
    ensures
        trim_chars(req.host@).len() == 0 ==> (r matches Err(e) && e@ == "远程主机地址不能为空"@),
        trim_chars(req.host@).len() > 0 ==> (r matches Ok(t) && t.0@ == trim_chars(req.host@)
            && t.1@ == host_address(trim_chars(req.host@), req.port)),
{
    let host = trim(&str_chars(req.host.as_str()));
    if host.len() == 0 {
        return Err(message("远程主机地址不能为空"));
    }
    let address = address_of(&host, req.port);
    Ok((string_from_chars(host), address))
}

/// Whether the server's host key, of fingerprint `observed`, is accepted:
/// any key where no fingerprint is expected, else only the expected one.
pub fn host_key_accepted(expected: &Option<String>, observed: &str) -> (r: bool)
    ensures
        r == match expected {
            None => true,
            Some(f) => f@ == observed@,
        },
{
    match expected {
        None => true,
        Some(f) => same_chars(&str_chars(f.as_str()), &str_chars(observed)),
    }
}

/// The directory a command works in: the server's canonical form of it,
/// put in the usual form, where the server gave one; `fallback` otherwise.
pub fn canonical_or(canonical: Option<&str>, fallback: &str) -> (r: String)
    ensures
        r@ == match canonical {
            Some(c) => normalized_remote_path(c@),
            None => fallback@,
        },
{
    match canonical {
        Some(c) => normalize_remote_path(c),
        None => fallback.to_owned(),
    }
}

/// The directory to create: `directory_name`, checked and trimmed, in
/// `parent_path` put in its usual form.
pub fn create_directory_plan(parent_path: &str, directory_name: &str) -> (r: Result<CreateDirectoryResult, String>)
    ensures
        entry_name_error(directory_name@) matches Some(m) ==> (r matches Err(e) && e@ == m),
        entry_name_error(directory_name@) is None ==> (r matches Ok(c) && c.path@
            == joined_remote_path(normalized_remote_path(parent_path@), trim_chars(directory_name@))),
{
    let parent = normalize_remote_path(parent_path);
    let name = validate_remote_entry_name(directory_name)?;
    Ok(CreateDirectoryResult { path: join_remote_path(parent.as_str(), name.as_str()) })
}

/// What a rename moves where: the source in its usual form, and the new
/// name, checked and trimmed, in the source's directory. The root cannot be
/// renamed; the name is checked first.
pub fn rename_plan(source_path: &str, new_name: &str) -> (r: Result<RenamePathResult, String>)
    ensures
        entry_name_error(new_name@) matches Some(m) ==> (r matches Err(e) && e@ == m),
        entry_name_error(new_name@) is None && normalized_remote_path(source_path@) == "/"@ ==> (
        r matches Err(e) && e@ == "根目录不允许重命名"@),
        entry_name_error(new_name@) is None && normalized_remote_path(source_path@) != "/"@ ==> (
        r matches Ok(p) && p.old_path@ == normalized_remote_path(source_path@) && p.new_path@
            == joined_remote_path(
            parent_remote_path(normalized_remote_path(source_path@)),
            trim_chars(new_name@),
        )),
{
    let source = normalize_remote_path(source_path);
    let name = validate_remote_entry_name(new_name)?;
    let mut root: Vec<char> = Vec::new();
    root.push('/');
    proof {
        reveal_strlit("/");
        assert(root@ =~= "/"@);
    }
    if same_chars(&str_chars(source.as_str()), &root) {
        return Err(message("根目录不允许重命名"));
    }
    let parent = get_parent_remote_path(source.as_str());
    let target = join_remote_path(parent.as_str(), name.as_str());
    Ok(RenamePathResult { old_path: source, new_path: target })
}

/// The path to delete, in its usual form; the root cannot be deleted.
pub fn delete_target(path: &str) -> (r: Result<String, String>)
    ensures
        normalized_remote_path(path@) == "/"@ ==> (r matches Err(e) && e@ == "根目录不允许删除"@),
        normalized_remote_path(path@) != "/"@ ==> (r matches Ok(p) && p@ == normalized_remote_path(
            path@,
        )),
{
    let target = normalize_remote_path(path);
    let mut root: Vec<char> = Vec::new();
    root.push('/');
    proof {
        reveal_strlit("/");
        assert(root@ =~= "/"@);
    }
    if same_chars(&str_chars(target.as_str()), &root) {
        return Err(message("根目录不允许删除"));
    }
    Ok(target)
}

/// A directory listing holds an entry other than "." and "..".
pub open spec fn has_child_entry(names: Seq<String>) -> bool {
    exists|i: int| 0 <= i < names.len() && names[i]@ != "."@ && names[i]@ != ".."@
}

/// Checks that a directory, of which `names` are the listed entries, is
/// empty: only a directory without children is deleted.
pub fn check_directory_empty(names: &Vec<String>) -> (r: Result<(), String>)
    ensures
        r is Ok <==> !has_child_entry(names@),
        r matches Err(e) ==> e@ == "当前版本仅支持删除空目录，请先清空目录内容"@,
{
    let mut dot: Vec<char> = Vec::new();
    dot.push('.');
    let mut dotdot: Vec<char> = Vec::new();
    dotdot.push('.');
    dotdot.push('.');
    proof {
        reveal_strlit(".");
        reveal_strlit("..");
        assert(dot@ =~= "."@);
        assert(dotdot@ =~= ".."@);
    }
    let mut i: usize = 0;
    while i < names.len()
        invariant
            i <= names@.len(),
            dot@ == "."@,
            dotdot@ == ".."@,
            forall|j: int| 0 <= j < i ==> names@[j]@ == "."@ || names@[j]@ == ".."@,
        decreases names@.len() - i,
    {
        let n = str_chars(names[i].as_str());
        if !same_chars(&n, &dot) && !same_chars(&n, &dotdot) {
            return Err(message("当前版本仅支持删除空目录，请先清空目录内容"));
        }
        i = i + 1;
    }
    Ok(())
}

/// Where an uploaded file goes: its name in `remote_dir` put in its usual form.
pub fn upload_remote_path(remote_dir: &str, file_name: &str) -> (r: String)
    ensures
        r@ == joined_remote_path(normalized_remote_path(remote_dir@), file_name@),
{
    let dir = normalize_remote_path(remote_dir);
    join_remote_path(dir.as_str(), file_name)
}

/// Largest text file opened for preview (1 MiB).
pub const MAX_TEXT_PREVIEW_BYTES: u64 = 1048576;

/// Checks that a downloaded remote file can be previewed: a text file, by
/// its extension, of at most 1 MiB.
pub fn text_preview_check(remote_path: &str, file_size: u64) -> (r: Result<(), String>)
    ensures
        !is_text_path(remote_path@) ==> (r matches Err(e) && e@ == "当前第一版仅支持文本类文件的本地打开"@),
        is_text_path(remote_path@) && file_size > MAX_TEXT_PREVIEW_BYTES ==> (r matches Err(e) && e@
            == "文本文件超过 1 MB，第一版暂不支持直接预览，请先下载到本地查看"@),
        is_text_path(remote_path@) && file_size <= MAX_TEXT_PREVIEW_BYTES ==> r is Ok,
{
    if !is_text_file(remote_path) {
        return Err(message("当前第一版仅支持文本类文件的本地打开"));
    }
    if file_size > MAX_TEXT_PREVIEW_BYTES {
        return Err(message("文本文件超过 1 MB，第一版暂不支持直接预览，请先下载到本地查看"));
    }
    Ok(())
}

/// What the server reports of a remote file, as plain values.
#[derive(Debug, Clone, Copy, PartialEq, Eq)]
pub struct RemoteMetadata {
    pub file_type: RemoteFileType,
    /// Bytes; 0 where the server gives no size.
    pub size: u64,
    pub permissions: Option<u32>,
    pub uid: Option<u32>,
    pub gid: Option<u32>,
    /// Last change, in seconds after the Unix epoch.
    pub modified: Option<i64>,
    /// Last access, in seconds after the Unix epoch.
    pub accessed: Option<i64>,
}

/// `text` is how the listing shows the file time `secs`: RFC 3339 text
/// where the time is known and can be written, nothing otherwise.
pub open spec fn shows_time(secs: Option<i64>, text: Option<String>) -> bool {
    match secs {
        None => text is None,
        Some(t) => (text is Some == unix_time_representable(t)) && (text matches Some(x) ==> x@
            == rfc3339_text(t)),
    }
}

/// `text` is how the listing shows the permission bits.
pub open spec fn shows_permissions(permissions: Option<u32>, text: Option<String>) -> bool {
    match permissions {
        None => text is None,
        Some(p) => text matches Some(x) && x@ == octal_permissions(p),
    }
}

/// The listing's entry for a file called `name` at `path`.
pub open spec fn entry_describes(e: RemoteFileEntry, name: Seq<char>, path: Seq<char>, m: RemoteMetadata) -> bool {
    &&& e.name@ == name
    &&& e.path@ == path
    &&& e.is_dir == (m.file_type == RemoteFileType::Dir)
    &&& e.is_file == (m.file_type == RemoteFileType::File)
    &&& e.is_symlink == (m.file_type == RemoteFileType::Symlink)
    &&& e.file_type@ == file_type_name(m.file_type)
    &&& e.size == m.size
    &&& e.permissions == m.permissions
    &&& shows_permissions(m.permissions, e.permission_text)
    &&& e.uid == m.uid
    &&& e.gid == m.gid
    &&& shows_time(m.modified, e.modified_at)
    &&& shows_time(m.accessed, e.accessed_at)
}

/// The entry of a directory listing for the file `file_name` in
/// `parent_path`; none for "." and "..".
pub fn convert_dir_entry(parent_path: &str, file_name: &str, metadata: &RemoteMetadata) -> (r: Option<RemoteFileEntry>)
    ensures
        (file_name@ == "."@ || file_name@ == ".."@) ==> r is None,
        !(file_name@ == "."@ || file_name@ == ".."@) ==> (r matches Some(e) && entry_describes(
            e,
            file_name@,
            joined_remote_path(parent_path@, file_name@),
            *metadata,
        )),
{
    let n = str_chars(file_name);
    let mut dot: Vec<char> = Vec::new();
    dot.push('.');
    let mut dotdot: Vec<char> = Vec::new();
    dotdot.push('.');
    dotdot.push('.');
    proof {
        reveal_strlit(".");
        reveal_strlit("..");
        assert(dot@ =~= "."@);
        assert(dotdot@ =~= ".."@);
    }
    if same_chars(&n, &dot) || same_chars(&n, &dotdot) {
        return None;
    }
    let kind = parse_file_kind(metadata.file_type);
    Some(RemoteFileEntry {
        name: file_name.to_owned(),
        path: join_remote_path(parent_path, file_name),
        is_dir: kind.is_dir,
        is_file: kind.is_file,
        is_symlink: kind.is_symlink,
        file_type: kind.file_type,
        size: metadata.size,
        permissions: metadata.permissions,
        permission_text: format_permission_text(metadata.permissions),
        uid: metadata.uid,
        gid: metadata.gid,
        modified_at: format_system_time_result(metadata.modified),
        accessed_at: format_system_time_result(metadata.accessed),
    })
}

/// What follows the last slash of `s`, or all of `s` where it has none.
pub open spec fn after_last_slash(s: Seq<char>) -> Seq<char>
    decreases s.len(),
{
    if s.len() == 0 {
        s
    } else if s.last() == '/' {
        Seq::empty()
    } else {
        after_last_slash(s.drop_last()).push(s.last())
    }
}

/// The name shown for a path: its last piece, or the whole path where it
/// ends with a slash.
pub open spec fn shown_name(path: Seq<char>) -> Seq<char> {
    if after_last_slash(path).len() > 0 {
        after_last_slash(path)
    } else {
        path
    }
}

/// The name shown for `path`.
fn name_of_path(path: &str) -> (r: String)
    ensures
        r@ == shown_name(path@),
{
    let cs = str_chars(path);
    let mut start = cs.len();
    assert(cs@.subrange(0, start as int) =~= cs@);
    assert(cs@.subrange(start as int, cs@.len() as int) =~= Seq::<char>::empty());
    while start > 0 && cs[start - 1] != '/'
        invariant
            start <= cs@.len(),
            after_last_slash(cs@) == after_last_slash(cs@.subrange(0, start as int)) + cs@.subrange(
                start as int,
                cs@.len() as int,
            ),
        decreases start,
    {
        let ghost pre = cs@.subrange(0, start as int);
        assert(pre.drop_last() =~= cs@.subrange(0, start - 1));
        assert(cs@.subrange(start - 1, cs@.len() as int) =~= seq![pre.last()] + cs@.subrange(
            start as int,
            cs@.len() as int,
        ));
        start = start - 1;
    }
    proof {
        if start > 0 {
            assert(after_last_slash(cs@.subrange(0, start as int)) =~= Seq::<char>::empty());
        } else {
            assert(cs@.subrange(0, 0) =~= Seq::<char>::empty());
        }
    }
    if start == cs.len() {
        return path.to_owned();
    }
    let mut v: Vec<char> = Vec::new();
    let mut k = start;
    while k < cs.len()
        invariant
            start <= k <= cs@.len(),
            v@ == cs@.subrange(start as int, k as int),
        decreases cs@.len() - k,
    {
        v.push(cs[k]);
        k = k + 1;
        assert(v@ =~= cs@.subrange(start as int, k as int));
    }
    string_from_chars(v)
}

/// The properties shown for the file at `path`.
pub fn build_properties_from_metadata(path: &str, metadata: &RemoteMetadata) -> (r: RemoteFileProperties)
    ensures
        r.name@ == shown_name(path@),
        r.path@ == path@,
        r.is_dir == (metadata.file_type == RemoteFileType::Dir),
        r.is_file == (metadata.file_type == RemoteFileType::File),
        r.is_symlink == (metadata.file_type == RemoteFileType::Symlink),
        r.file_type@ == file_type_name(metadata.file_type),
        r.size == metadata.size,
        r.permissions == metadata.permissions,
        shows_permissions(metadata.permissions, r.permission_text),
        r.uid == metadata.uid,
        r.gid == metadata.gid,
        shows_time(metadata.modified, r.modified_at),
        shows_time(metadata.accessed, r.accessed_at),
{
    let kind = parse_file_kind(metadata.file_type);
    RemoteFileProperties {
        name: name_of_path(path),
        path: path.to_owned(),
        is_dir: kind.is_dir,
        is_file: kind.is_file,
        is_symlink: kind.is_symlink,
        file_type: kind.file_type,
        size: metadata.size,
        permissions: metadata.permissions,
        permission_text: format_permission_text(metadata.permissions),
        uid: metadata.uid,
        gid: metadata.gid,
        modified_at: format_system_time_result(metadata.modified),
        accessed_at: format_system_time_result(metadata.accessed),
    }
}

/// `str::to_lowercase` of the text: its lower case, as Unicode defines it.
pub uninterp spec fn lowercase_text(s: Seq<char>) -> Seq<char>;

/// `str::to_lowercase`: the text in lower case.
#[verifier::external_body]
fn lowercase(s: &str) -> (r: String)
    ensures
        r@ == lowercase_text(s@),
{
    s.to_lowercase()
}

/// `a` comes strictly before `b` in the order of their character codes
/// (the order of `String`'s `<`, as UTF-8 keeps the order of codes).
pub open spec fn chars_before(a: Seq<char>, b: Seq<char>) -> bool
    decreases a.len(),
{
    if a.len() == 0 {
        b.len() > 0
    } else if b.len() == 0 {
        false
    } else if a[0] != b[0] {
        (a[0] as int) < (b[0] as int)
    } else {
        chars_before(a.drop_first(), b.drop_first())
    }
}

/// Where a listing puts an entry: directories first, then by the lower
/// case of the name.
pub open spec fn entry_rank(e: RemoteFileEntry) -> (bool, Seq<char>) {
    (e.is_dir, lowercase_text(e.name@))
}

/// Rank `a` comes strictly before rank `b`.
pub open spec fn rank_before(a: (bool, Seq<char>), b: (bool, Seq<char>)) -> bool {
    (a.0 && !b.0) || (a.0 == b.0 && chars_before(a.1, b.1))
}

/// Entry `a` is listed strictly before entry `b`.
pub open spec fn entry_before(a: RemoteFileEntry, b: RemoteFileEntry) -> bool {
    rank_before(entry_rank(a), entry_rank(b))
}

/// The entries of `s` of rank `k`, in their order in `s`.
pub open spec fn with_rank(s: Seq<RemoteFileEntry>, k: (bool, Seq<char>)) -> Seq<RemoteFileEntry>
    decreases s.len(),
{
    if s.len() == 0 {
        s
    } else if entry_rank(s.last()) == k {
        with_rank(s.drop_last(), k).push(s.last())
    } else {
        with_rank(s.drop_last(), k)
    }
}

proof fn lemma_chars_before_irreflexive(a: Seq<char>)
    ensures
        !chars_before(a, a),
    decreases a.len(),
{
    if a.len() > 0 {
        lemma_chars_before_irreflexive(a.drop_first());
    }
}

proof fn lemma_chars_before_transitive(a: Seq<char>, b: Seq<char>, c: Seq<char>)
    requires
        chars_before(a, b),
        chars_before(b, c),
    ensures
        chars_before(a, c),
    decreases a.len(),
{
    if a.len() > 0 && b.len() > 0 && c.len() > 0 && a[0] == b[0] && b[0] == c[0] {
        lemma_chars_before_transitive(a.drop_first(), b.drop_first(), c.drop_first());
    }
}

proof fn lemma_chars_before_total(a: Seq<char>, b: Seq<char>)
    requires
        a != b,
    ensures
        chars_before(a, b) || chars_before(b, a),
    decreases a.len(),
{
    if a.len() > 0 && b.len() > 0 {
        if a[0] == b[0] {
            if a.drop_first() == b.drop_first() {
                assert(a =~= seq![a[0]] + a.drop_first());
                assert(b =~= seq![b[0]] + b.drop_first());
            }
            lemma_chars_before_total(a.drop_first(), b.drop_first());
        } else {
        }
    } else if a.len() == 0 && b.len() == 0 {
        assert(a =~= b);
    }
}

/// The order of ranks is a strict total order.
proof fn lemma_rank_order(a: (bool, Seq<char>), b: (bool, Seq<char>), c: (bool, Seq<char>))
    ensures
        !rank_before(a, a),
        rank_before(a, b) && rank_before(b, c) ==> rank_before(a, c),
        a != b ==> rank_before(a, b) || rank_before(b, a),
{
    lemma_chars_before_irreflexive(a.1);
    if rank_before(a, b) && rank_before(b, c) && a.0 == b.0 && b.0 == c.0 {
        lemma_chars_before_transitive(a.1, b.1, c.1);
    }
    if a != b && a.0 == b.0 {
        lemma_chars_before_total(a.1, b.1);
    }
}

proof fn lemma_with_rank_add(a: Seq<RemoteFileEntry>, b: Seq<RemoteFileEntry>, k: (bool, Seq<char>))
    ensures
        with_rank(a + b, k) == with_rank(a, k) + with_rank(b, k),
    decreases b.len(),
{
    if b.len() == 0 {
        assert(a + b =~= a);
        assert(with_rank(a, k) + with_rank(b, k) =~= with_rank(a, k));
    } else {
        assert((a + b).drop_last() =~= a + b.drop_last());
        assert((a + b).last() == b.last());
        lemma_with_rank_add(a, b.drop_last(), k);
        if entry_rank(b.last()) == k {
            assert(with_rank(a, k) + with_rank(b.drop_last(), k).push(b.last()) =~= (with_rank(a, k)
                + with_rank(b.drop_last(), k)).push(b.last()));
        }
    }
}

proof fn lemma_with_rank_none(s: Seq<RemoteFileEntry>, k: (bool, Seq<char>))
    requires
        forall|i: int| 0 <= i < s.len() ==> entry_rank(#[trigger] s[i]) != k,
    ensures
        with_rank(s, k) == Seq::<RemoteFileEntry>::empty(),
    decreases s.len(),
{
    if s.len() > 0 {
        assert forall|i: int| 0 <= i < s.drop_last().len() implies entry_rank(
            #[trigger] s.drop_last()[i],
        ) != k by {
            assert(s.drop_last()[i] == s[i]);
        }
        lemma_with_rank_none(s.drop_last(), k);
    }
}

/// The entries listed in their order: directories first, then by the lower
/// case of the name; entries of the same rank keep their order.
pub fn sort_directory_entries(entries: Vec<RemoteFileEntry>) -> (r: Vec<RemoteFileEntry>)
    ensures
        forall|i: int, j: int| 0 <= i < j < r@.len() ==> !entry_before(#[trigger] r@[j], #[trigger] r@[i]),
        forall|k: (bool, Seq<char>)| #[trigger] with_rank(r@, k) == with_rank(entries@, k),
{
    let ghost all = entries@;
    let mut rest = entries;
    let mut out: Vec<RemoteFileEntry> = Vec::new();
    let ghost mut taken: int = 0;
    assert(all.subrange(0, 0) =~= Seq::<RemoteFileEntry>::empty());
    assert(all.subrange(0, all.len() as int) =~= all);
    while rest.len() > 0
        invariant
            0 <= taken <= all.len(),
            rest@ == all.subrange(taken, all.len() as int),
            forall|i: int, j: int| 0 <= i < j < out@.len() ==> !entry_before(#[trigger] out@[j], #[trigger] out@[i]),
            forall|k: (bool, Seq<char>)| #[trigger] with_rank(out@, k) == with_rank(all.subrange(0, taken), k),
        decreases rest@.len(),
    {
        let x = rest.remove(0);
        let x_low = lowercase(x.name.as_str());
        let x_key = str_chars(x_low.as_str());
        let mut p: usize = 0;
        let mut found = false;
        while p < out.len() && !found
            invariant
                p <= out@.len(),
                x_key@ == lowercase_text(x.name@),
                forall|i: int| 0 <= i < p ==> !entry_before(x, #[trigger] out@[i]),
                found ==> p < out@.len() && entry_before(x, out@[p as int]),
            decreases out@.len() - p + (if found { 0int } else { 1int }),
        {
            let y = &out[p];
            let y_low = lowercase(y.name.as_str());
            let y_key = str_chars(y_low.as_str());
            let after = (x.is_dir && !y.is_dir) || (x.is_dir == y.is_dir && chars_less(&x_key, &y_key));
            if after {
                found = true;
            } else {
                p = p + 1;
            }
        }
        let ghost old_out = out@;
        let ghost s = all.subrange(0, taken);
        proof {
            assert forall|j: int| p <= j < old_out.len() implies entry_before(x, #[trigger] old_out[j]) by {
                if j > p {
                    lemma_rank_order(entry_rank(x), entry_rank(old_out[p as int]), entry_rank(old_out[j]));
                    lemma_rank_order(entry_rank(old_out[j]), entry_rank(old_out[p as int]), entry_rank(x));
                    lemma_rank_order(entry_rank(old_out[p as int]), entry_rank(old_out[j]), entry_rank(x));
                }
            }
        }
        out.insert(p, x);
        proof {
            let ins = old_out.insert(p as int, x);
            assert(out@ == ins);
            assert forall|i: int, j: int| 0 <= i < j < out@.len() implies !entry_before(#[trigger] out@[j], #[trigger] out@[i]) by {
                if i < p && j == p {
                } else if i == p && j > p {
                    assert(out@[j] == old_out[j - 1]);
                    lemma_rank_order(entry_rank(x), entry_rank(old_out[j - 1]), entry_rank(x));
                } else if i < p && j > p {
                    assert(out@[j] == old_out[j - 1]);
                } else if i > p {
                    assert(out@[i] == old_out[i - 1]);
                    assert(out@[j] == old_out[j - 1]);
                }
            }
            let front = old_out.subrange(0, p as int);
            let back = old_out.subrange(p as int, old_out.len() as int);
            assert(old_out =~= front + back);
            assert(ins =~= front + seq![x] + back);
            assert(all.subrange(0, taken + 1) =~= s.push(x));
            assert(s.push(x).drop_last() =~= s);
            assert forall|k: (bool, Seq<char>)| #[trigger] with_rank(out@, k) == with_rank(all.subrange(0, taken + 1), k) by {
                lemma_with_rank_add(front, back, k);
                lemma_with_rank_add(front + seq![x], back, k);
                lemma_with_rank_add(front, seq![x], k);
                assert(seq![x].drop_last() =~= Seq::<RemoteFileEntry>::empty());
                assert(with_rank(Seq::<RemoteFileEntry>::empty(), k) =~= Seq::<RemoteFileEntry>::empty());
                assert(seq![x].last() == x);
                if entry_rank(x) == k {
                    assert forall|i: int| 0 <= i < back.len() implies entry_rank(#[trigger] back[i]) != k by {
                        assert(back[i] == old_out[p + i]);
                        lemma_rank_order(entry_rank(x), entry_rank(back[i]), entry_rank(x));
                    }
                    lemma_with_rank_none(back, k);
                    assert(with_rank(front, k) + with_rank(back, k) =~= with_rank(front, k));
                    assert(with_rank(seq![x], k) =~= seq![x]);
                    assert(with_rank(front, k) + seq![x] + with_rank(back, k) =~= with_rank(front, k).push(x));
                } else {
                    assert(with_rank(seq![x], k) =~= Seq::<RemoteFileEntry>::empty());
                    assert(with_rank(front, k) + with_rank(seq![x], k) =~= with_rank(front, k));
                }
            }
        }
        proof {
            assert(rest@ =~= all.subrange(taken + 1, all.len() as int));
            taken = taken + 1;
        }
    }
    proof {
        assert(all.subrange(0, taken) =~= all);
    }
    out
}

/// `a` comes strictly before `b` in the order of character codes.
fn chars_less(a: &Vec<char>, b: &Vec<char>) -> (r: bool)
    ensures
        r == chars_before(a@, b@),
{
    let mut i: usize = 0;
    assert(a@.subrange(0, a@.len() as int) =~= a@);
    assert(b@.subrange(0, b@.len() as int) =~= b@);
    while i < a.len() && i < b.len()
        invariant
            i <= a@.len(),
            i <= b@.len(),
            chars_before(a@, b@) == chars_before(a@.subrange(i as int, a@.len() as int), b@.subrange(
                i as int,
                b@.len() as int,
            )),
        decreases a@.len() - i,
    {
        let ghost sa = a@.subrange(i as int, a@.len() as int);
        let ghost sb = b@.subrange(i as int, b@.len() as int);
        assert(sa[0] == a@[i as int]);
        assert(sb[0] == b@[i as int]);
        if a[i] != b[i] {
            return a[i] < b[i];
        }
        assert(sa.drop_first() =~= a@.subrange(i + 1, a@.len() as int));
        assert(sb.drop_first() =~= b@.subrange(i + 1, b@.len() as int));
        i = i + 1;
    }
    i == a.len() && i < b.len()
}

} // verus!
