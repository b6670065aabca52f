//! Rules on remote paths, names and file attributes.
use vstd::prelude::*;
use crate::text::{
    hex_char, hex_digit, is_unicode_space, push_chars, push_str_chars, str_chars, string_from_chars, trim,
    trim_chars,
};

verus! {

/// The kind of a remote file, as SFTP reports it.
#[derive(Debug, Clone, Copy, PartialEq, Eq, Structural)]
pub enum RemoteFileType {
    Dir,
    Symlink,
    File,
    Other,
}

/// A file's kind, as the listing shows it.
#[derive(Debug, Clone)]
pub struct FileKindInfo {
    pub is_dir: bool,
    pub is_file: bool,
    pub is_symlink: bool,
    pub file_type: String,
}

/// The name shown for a kind of file.
pub open spec fn file_type_name(t: RemoteFileType) -> Seq<char> {
    match t {
        RemoteFileType::Dir => "directory"@,
        RemoteFileType::Symlink => "symlink"@,
        RemoteFileType::File => "file"@,
        RemoteFileType::Other => "unknown"@,
    }
}

/// The flags and the name shown for a kind of file.
pub fn parse_file_kind(file_type: RemoteFileType) -> (r: FileKindInfo)
    ensures
        r.is_dir == (file_type == RemoteFileType::Dir),
        r.is_file == (file_type == RemoteFileType::File),
        r.is_symlink == (file_type == RemoteFileType::Symlink),
        r.file_type@ == file_type_name(file_type),
{
    match file_type {
        RemoteFileType::Dir => FileKindInfo {
            is_dir: true,
            is_file: false,
            is_symlink: false,
            file_type: "directory".to_owned(),
        },
        RemoteFileType::Symlink => FileKindInfo {
            is_dir: false,
            is_file: false,
            is_symlink: true,
            file_type: "symlink".to_owned(),
        },
        RemoteFileType::File => FileKindInfo {
            is_dir: false,
            is_file: true,
            is_symlink: false,
            file_type: "file".to_owned(),
        },
        RemoteFileType::Other => FileKindInfo {
            is_dir: false,
            is_file: false,
            is_symlink: false,
            file_type: "unknown".to_owned(),
        },
    }
}

/// The low nine permission bits as three octal digits, such as "755".
pub open spec fn octal_permissions(p: u32) -> Seq<char> {
    let q = p % 512;
    seq![hex_char((q / 64) as u8, false), hex_char(((q / 8) % 8) as u8, false), hex_char((q % 8) as u8, false)]
}

/// The permission bits as three octal digits, where there are any.
pub fn format_permission_text(permissions: Option<u32>) -> (r: Option<String>)
    ensures
        permissions is None ==> r is None,
        permissions matches Some(p) ==> (r matches Some(s) && s@ == octal_permissions(p)),
{
    match permissions {
        None => None,
        Some(perm) => {
            let q = perm & 0o777;
            assert(q == perm % 512) by (bit_vector)
                requires
                    q == perm & 0o777,
            ;
            let mut v: Vec<char> = Vec::new();
            v.push(hex_digit((q / 64) as u8, false));
            v.push(hex_digit(((q / 8) % 8) as u8, false));
            v.push(hex_digit((q % 8) as u8, false));
            assert(v@ =~= octal_permissions(perm));
            Some(string_from_chars(v))
        },
    }
}

/// `s` without its trailing slashes.
pub open spec fn trim_end_slashes(s: Seq<char>) -> Seq<char>
    decreases s.len(),
{
    if s.len() > 0 && s.last() == '/' {
        trim_end_slashes(s.drop_last())
    } else {
        s
    }
}

/// Whether `a` holds the same characters as `b`.
pub(crate) fn same_chars(a: &Vec<char>, b: &Vec<char>) -> (r: bool)
    ensures
        r == (a@ == b@),
{
    if a.len() != b.len() {
        return false;
    }
    let mut i: usize = 0;
    while i < a.len()
        invariant
            a@.len() == b@.len(),
            i <= a@.len(),
            forall|j: int| 0 <= j < i ==> a@[j] == b@[j],
        decreases a@.len() - i,
    {
        if a[i] != b[i] {
            return false;
        }
        i = i + 1;
    }
    assert(a@ =~= b@);
    true
}

/// The child `file_name` of the directory `parent`, with one slash between.
pub open spec fn joined_remote_path(parent: Seq<char>, file_name: Seq<char>) -> Seq<char> {
    if parent == seq!['/'] {
        seq!['/'] + file_name
    } else {
        trim_end_slashes(parent) + seq!['/'] + file_name
    }
}

/// Joins a directory and a name into a POSIX path.
pub fn join_remote_path(parent: &str, file_name: &str) -> (r: String)
    ensures
        r@ == joined_remote_path(parent@, file_name@),
{
    let p = str_chars(parent);
    let mut root: Vec<char> = Vec::new();
    root.push('/');
    let mut v: Vec<char> = Vec::new();
    if same_chars(&p, &root) {
        v.push('/');
        push_str_chars(&mut v, file_name);
        return string_from_chars(v);
    }
    let mut end = p.len();
    assert(p@.subrange(0, end as int) =~= p@);
    while end > 0 && p[end - 1] == '/'
        invariant
            end <= p@.len(),
            trim_end_slashes(p@.subrange(0, end as int)) == trim_end_slashes(p@),
        decreases end,
    {
        assert(p@.subrange(0, end as int).drop_last() =~= p@.subrange(0, end - 1));
        end = end - 1;
    }
    let mut k: usize = 0;
    while k < end
        invariant
            k <= end <= p@.len(),
            v@ == p@.subrange(0, k as int),
        decreases end - k,
    {
        v.push(p[k]);
        k = k + 1;
        assert(p@.subrange(0, k as int) =~= p@.subrange(0, k - 1) + seq![p@[k - 1]]);
    }
    assert(trim_end_slashes(p@.subrange(0, end as int)) == p@.subrange(0, end as int));
    v.push('/');
    push_str_chars(&mut v, file_name);
    assert(v@ =~= joined_remote_path(parent@, file_name@));
    string_from_chars(v)
}

/// A backslash read as a slash.
pub open spec fn as_slash(c: char) -> char {
    if c == '\\' {
        '/'
    } else {
        c
    }
}

/// `s` with backslashes as slashes and each run of slashes made one.
pub open spec fn collapse_slashes(s: Seq<char>) -> Seq<char>
    decreases s.len(),
{
    if s.len() == 0 {
        s
    } else {
        let prev = collapse_slashes(s.drop_last());
        let c = as_slash(s.last());
        if c == '/' && prev.len() > 0 && prev.last() == '/' {
            prev
        } else {
            prev.push(c)
        }
    }
}

/// A remote path in its usual form: trimmed, with slashes only and no two
/// in a row; "/" for an empty path.
pub open spec fn normalized_remote_path(path: Seq<char>) -> Seq<char> {
    let t = trim_chars(path);
    if t.len() == 0 {
        seq!['/']
    } else {
        collapse_slashes(t)
    }
}

proof fn lemma_collapse_nonempty(s: Seq<char>)
    requires
        s.len() > 0,
    ensures
        collapse_slashes(s).len() > 0,
    decreases s.len(),
{
    if s.len() > 1 {
        lemma_collapse_nonempty(s.drop_last());
    }
}

/// Puts a remote path in its usual form.
pub fn normalize_remote_path(path: &str) -> (r: String)
    ensures
        r@ == normalized_remote_path(path@),
{
    let all = str_chars(path);
    let t = trim(&all);
    let mut out: Vec<char> = Vec::new();
    if t.len() == 0 {
        out.push('/');
        return string_from_chars(out);
    }
    let mut last_was_slash = false;
    proof {
        if t@ == seq!['.'] || t@ == seq!['.', '.'] {
            assert(t@[0] == '.');
        }
    }
    let mut i: usize = 0;
    while i < t.len()
        invariant
            i <= t@.len(),
            out@ == collapse_slashes(t@.subrange(0, i as int)),
            last_was_slash == (out@.len() > 0 && out@.last() == '/'),
        decreases t@.len() - i,
    {
        let ghost pre = t@.subrange(0, i as int);
        let c = if t[i] == '\\' {
            '/'
        } else {
            t[i]
        };
        assert(t@.subrange(0, i + 1).drop_last() =~= pre);
        if c == '/' {
            if !last_was_slash {
                out.push(c);
            }
            last_was_slash = true;
        } else {
            out.push(c);
            last_was_slash = false;
        }
        i = i + 1;
    }
    assert(t@.subrange(0, t@.len() as int) =~= t@);
    proof {
        lemma_collapse_nonempty(t@);
    }
    string_from_chars(out)
}

/// What `trim_chars` leaves is empty or starts and ends with a non-space.
proof fn lemma_trim_ends(cs: Seq<char>)
    ensures
        trim_chars(cs).len() > 0 ==> !is_unicode_space(trim_chars(cs)[0]) && !is_unicode_space(
            trim_chars(cs).last(),
        ),
    decreases cs.len(),
{
    if cs.len() > 0 {
        if is_unicode_space(cs[0]) {
            lemma_trim_ends(cs.subrange(1, cs.len() as int));
        } else if is_unicode_space(cs[cs.len() - 1]) {
            lemma_trim_ends(cs.subrange(0, cs.len() - 1));
        }
    }
}

/// Collapsing keeps the first and the last character, backslashes read as
/// slashes.
proof fn lemma_collapse_ends(s: Seq<char>)
    requires
        s.len() > 0,
    ensures
        collapse_slashes(s).len() > 0,
        collapse_slashes(s)[0] == as_slash(s[0]),
        collapse_slashes(s).last() == as_slash(s.last()),
    decreases s.len(),
{
    let prev = collapse_slashes(s.drop_last());
    let c = as_slash(s.last());
    if s.len() > 1 {
        lemma_collapse_ends(s.drop_last());
        assert(s.drop_last()[0] == s[0]);
        assert(prev.push(c)[0] == prev[0]);
    } else {
        assert(s.drop_last() =~= Seq::<char>::empty());
        assert(prev =~= Seq::<char>::empty());
        assert(prev.push(c)[0] == c);
    }
}

/// Collapsing what is already collapsed changes nothing.
proof fn lemma_collapse_idempotent(s: Seq<char>)
    ensures
        collapse_slashes(collapse_slashes(s)) == collapse_slashes(s),
    decreases s.len(),
{
    if s.len() > 0 {
        let prev = collapse_slashes(s.drop_last());
        lemma_collapse_idempotent(s.drop_last());
        let c = as_slash(s.last());
        if !(c == '/' && prev.len() > 0 && prev.last() == '/') {
            let n = prev.push(c);
            assert(n.drop_last() =~= prev);
            assert(n.last() == c);
        }
    }
}

/// Putting a remote path in its usual form twice gives what once gives.
pub proof fn lemma_normalize_idempotent(path: Seq<char>)
    ensures
        normalized_remote_path(normalized_remote_path(path)) == normalized_remote_path(path),
{
    let t = trim_chars(path);
    let n = normalized_remote_path(path);
    if t.len() == 0 {
        let root = seq!['/'];
        assert(trim_chars(root) == root);
        assert(root.drop_last() =~= Seq::<char>::empty());
        reveal_with_fuel(collapse_slashes, 2);
        assert(collapse_slashes(root) =~= root);
    } else {
        lemma_trim_ends(path);
        lemma_collapse_ends(t);
        assert(trim_chars(n) == n);
        lemma_collapse_idempotent(t);
    }
}

/// The pieces of `s` between slashes read so far, and the piece being
/// read, scanning from the left.
pub open spec fn segment_scan(s: Seq<char>) -> (Seq<Seq<char>>, Seq<char>)
    decreases s.len(),
{
    if s.len() == 0 {
        (Seq::empty(), Seq::empty())
    } else {
        let (done, cur) = segment_scan(s.drop_last());
        if s.last() == '/' {
            if cur.len() > 0 {
                (done.push(cur), Seq::empty())
            } else {
                (done, Seq::empty())
            }
        } else {
            (done, cur.push(s.last()))
        }
    }
}

/// The non-empty pieces of `s` between slashes, in order.
pub open spec fn path_segments(s: Seq<char>) -> Seq<Seq<char>> {
    let (done, cur) = segment_scan(s);
    if cur.len() > 0 {
        done.push(cur)
    } else {
        done
    }
}

/// The pieces joined with a slash between each two.
pub open spec fn join_segments(segs: Seq<Seq<char>>) -> Seq<char>
    decreases segs.len(),
{
    if segs.len() == 0 {
        Seq::empty()
    } else if segs.len() == 1 {
        segs[0]
    } else {
        join_segments(segs.drop_last()) + seq!['/'] + segs.last()
    }
}

/// The directory that holds a remote path: "/" for the root and for the
/// entries of the root.
pub open spec fn parent_remote_path(path: Seq<char>) -> Seq<char> {
    let n = normalized_remote_path(path);
    let segs = path_segments(n);
    if n == seq!['/'] || segs.len() <= 1 {
        seq!['/']
    } else {
        seq!['/'] + join_segments(segs.drop_last())
    }
}

/// The non-empty pieces of `s` between slashes.
fn split_segments(s: &Vec<char>) -> (r: Vec<Vec<char>>)
    ensures
        r@.len() == path_segments(s@).len(),
        forall|i: int| 0 <= i < r@.len() ==> #[trigger] r@[i]@ == path_segments(s@)[i],
{
    let mut done: Vec<Vec<char>> = Vec::new();
    let mut cur: Vec<char> = Vec::new();
    let mut i: usize = 0;
    while i < s.len()
        invariant
            i <= s@.len(),
            done@.len() == segment_scan(s@.subrange(0, i as int)).0.len(),
            forall|j: int| 0 <= j < done@.len() ==> #[trigger] done@[j]@ == segment_scan(s@.subrange(0, i as int)).0[j],
            cur@ == segment_scan(s@.subrange(0, i as int)).1,
        decreases s@.len() - i,
    {
        assert(s@.subrange(0, i + 1).drop_last() =~= s@.subrange(0, i as int));
        if s[i] == '/' {
            if cur.len() > 0 {
                let mut piece: Vec<char> = Vec::new();
                std::mem::swap(&mut piece, &mut cur);
                done.push(piece);
            }
        } else {
            cur.push(s[i]);
        }
        i = i + 1;
    }
    assert(s@.subrange(0, s@.len() as int) =~= s@);
    if cur.len() > 0 {
        done.push(cur);
    }
    done
}

/// The pieces joined with a slash between each two, appended to `out`.
fn push_joined(out: &mut Vec<char>, segs: &Vec<Vec<char>>, n: usize)
    requires
        n <= segs@.len(),
    ensures
        final(out)@ == old(out)@ + join_segments(segs@.subrange(0, n as int).map_values(|v: Vec<char>| v@)),
{
    let ghost start = out@;
    let mut k: usize = 0;
    while k < n
        invariant
            k <= n <= segs@.len(),
            out@ == start + join_segments(segs@.subrange(0, k as int).map_values(|v: Vec<char>| v@)),
        decreases n - k,
    {
        let ghost before = segs@.subrange(0, k as int).map_values(|v: Vec<char>| v@);
        let ghost after = segs@.subrange(0, k + 1).map_values(|v: Vec<char>| v@);
        assert(after.drop_last() =~= before);
        assert(after.last() == segs@[k as int]@);
        if k > 0 {
            out.push('/');
        }
        push_chars(out, &segs[k]);
        k = k + 1;
    }
}

/// The directory that holds a remote path.
pub fn get_parent_remote_path(path: &str) -> (r: String)
    ensures
        r@ == parent_remote_path(path@),
{
    let normalized = normalize_remote_path(path);
    let n = str_chars(normalized.as_str());
    let segs = split_segments(&n);
    let mut out: Vec<char> = Vec::new();
    out.push('/');
    let mut root: Vec<char> = Vec::new();
    root.push('/');
    if same_chars(&n, &root) || segs.len() <= 1 {
        return string_from_chars(out);
    }
    let keep = segs.len() - 1;
    push_joined(&mut out, &segs, keep);
    proof {
        let ps = path_segments(n@);
        assert(segs@.subrange(0, keep as int).map_values(|v: Vec<char>| v@) =~= ps.drop_last());
    }
    string_from_chars(out)
}

/// The pieces of the local cache path of a remote file, below the cache
/// directory: "remote_file_cache", the session, the pieces of the remote
/// path, and "index.txt" for a path that ends with a slash.
pub open spec fn cache_path_pieces(session_id: Seq<char>, remote_path: Seq<char>) -> Seq<Seq<char>> {
    let head = seq!["remote_file_cache"@, session_id] + path_segments(remote_path);
    if remote_path.len() > 0 && remote_path.last() == '/' {
        head.push("index.txt"@)
    } else {
        head
    }
}

/// The pieces of the local cache path of a remote file, below the cache
/// directory.
pub fn cache_path_segments(session_id: &str, remote_path: &str) -> (r: Vec<String>)
    ensures
        r@.map_values(|s: String| s@) == cache_path_pieces(session_id@, remote_path@),
{
    let rp = str_chars(remote_path);
    let segs = split_segments(&rp);
    let mut out: Vec<String> = Vec::new();
    out.push("remote_file_cache".to_owned());
    out.push(session_id.to_owned());
    let mut k: usize = 0;
    while k < segs.len()
        invariant
            k <= segs@.len(),
            segs@.len() == path_segments(rp@).len(),
            forall|i: int| 0 <= i < segs@.len() ==> #[trigger] segs@[i]@ == path_segments(rp@)[i],
            out@.map_values(|s: String| s@) == seq!["remote_file_cache"@, session_id@]
                + path_segments(rp@).subrange(0, k as int),
        decreases segs@.len() - k,
    {
        let mut copy: Vec<char> = Vec::new();
        push_chars(&mut copy, &segs[k]);
        let piece = string_from_chars(copy);
        let ghost before = out@;
        out.push(piece);
        assert(out@.map_values(|s: String| s@) =~= before.map_values(|s: String| s@).push(segs@[k as int]@));
        k = k + 1;
        assert(out@.map_values(|s: String| s@) =~= seq!["remote_file_cache"@, session_id@]
            + path_segments(rp@).subrange(0, k as int));
    }
    assert(path_segments(rp@).subrange(0, segs@.len() as int) =~= path_segments(rp@));
    if rp.len() > 0 && rp[rp.len() - 1] == '/' {
        out.push("index.txt".to_owned());
    }
    assert(out@.map_values(|s: String| s@) =~= cache_path_pieces(session_id@, remote_path@));
    out
}

/// What follows the last dot of `s`, or all of `s` where it has no dot.
pub open spec fn after_last_dot(s: Seq<char>) -> Seq<char>
    decreases s.len(),
{
    if s.len() == 0 {
        s
    } else if s.last() == '.' {
        Seq::empty()
    } else {
        after_last_dot(s.drop_last()).push(s.last())
    }
}

/// An ASCII capital letter in lower case; other characters unchanged.
pub open spec fn ascii_lower(c: char) -> char {
    if 'A' <= c <= 'Z' {
        ((c as u32) + 32) as char
    } else {
        c
    }
}

/// The extensions of files shown as text.
pub open spec fn text_extensions() -> Seq<Seq<char>> {
    seq![
        "txt"@, "log"@, "conf"@, "cfg"@, "ini"@, "json"@, "yaml"@, "yml"@, "xml"@, "toml"@, "md"@,
        "sh"@, "py"@, "rs"@, "ts"@, "js"@, "vue"@, "java"@, "c"@, "cpp"@, "h"@, "hpp"@, "csv"@,
    ]
}

/// Whether a remote file is one of the usual text files, by the extension
/// after its last dot, in either case.
pub open spec fn is_text_path(path: Seq<char>) -> bool {
    text_extensions().contains(after_last_dot(path).map_values(|c: char| ascii_lower(c)))
}

/// Lower-cases an ASCII capital letter.
fn to_ascii_lower(c: char) -> (r: char)
    ensures
        r == ascii_lower(c),
{
    if 'A' <= c && c <= 'Z' {
        ((c as u8) + 32) as char
    } else {
        c
    }
}

/// Whether a remote file is one of the usual text files.
#[verifier::spinoff_prover]
pub fn is_text_file(path: &str) -> (r: bool)
    ensures
        r == is_text_path(path@),
{
    let cs = str_chars(path);
    let mut start = cs.len();
    assert(cs@.subrange(0, start as int) =~= cs@);
    assert(cs@.subrange(start as int, cs@.len() as int) =~= Seq::<char>::empty());
    while start > 0 && cs[start - 1] != '.'
        invariant
            start <= cs@.len(),
            after_last_dot(cs@) == after_last_dot(cs@.subrange(0, start as int)) + cs@.subrange(
                start as int,
                cs@.len() as int,
            ),
        decreases start,
    {
        let ghost pre = cs@.subrange(0, start as int);
        assert(pre.drop_last() =~= cs@.subrange(0, start - 1));
        assert(cs@.subrange(start - 1, cs@.len() as int) =~= seq![pre.last()] + cs@.subrange(
            start as int,
            cs@.len() as int,
        ));
        start = start - 1;
    }
    proof {
        if start > 0 {
            assert(after_last_dot(cs@.subrange(0, start as int)) =~= Seq::<char>::empty());
        } else {
            assert(cs@.subrange(0, 0) =~= Seq::<char>::empty());
        }
    }
    let mut ext: Vec<char> = Vec::new();
    let mut k = start;
    while k < cs.len()
        invariant
            start <= k <= cs@.len(),
            ext@ == cs@.subrange(start as int, k as int).map_values(|c: char| ascii_lower(c)),
        decreases cs@.len() - k,
    {
        ext.push(to_ascii_lower(cs[k]));
        k = k + 1;
        assert(ext@ =~= cs@.subrange(start as int, k as int).map_values(|c: char| ascii_lower(c)));
    }
    assert(ext@ =~= after_last_dot(path@).map_values(|c: char| ascii_lower(c)));
    let names: [&str; 23] = [
        "txt", "log", "conf", "cfg", "ini", "json", "yaml", "yml", "xml", "toml", "md", "sh", "py",
        "rs", "ts", "js", "vue", "java", "c", "cpp", "h", "hpp", "csv",
    ];
    let mut i: usize = 0;
    while i < 23
        invariant
            i <= 23,
            names@.len() == 23,
            forall|j: int| 0 <= j < 23 ==> #[trigger] names@[j]@ == text_extensions()[j],
            forall|j: int| 0 <= j < i ==> text_extensions()[j] != ext@,
            ext@ == after_last_dot(path@).map_values(|c: char| ascii_lower(c)),
        decreases 23 - i,
    {
        let candidate = str_chars(names[i]);
        if same_chars(&candidate, &ext) {
            assert(text_extensions()[i as int] == ext@);
            assert(text_extensions().len() == 23);
            assert(text_extensions().contains(ext@));
            return true;
        }
        i = i + 1;
    }
    false
}

/// What is wrong with a name for a new or renamed remote entry, which must
/// be one path piece: empty once trimmed, a dot or two dots, or holding a
/// slash or backslash.
pub open spec fn entry_name_error(name: Seq<char>) -> Option<Seq<char>> {
    let t = trim_chars(name);
    if t.len() == 0 {
        Some("名称不能为空"@)
    } else if t == seq!['.'] || t == seq!['.', '.'] {
        Some("名称不能为 . 或 .."@)
    } else if t.contains('/') || t.contains('\\') {
        Some("名称中不能包含路径分隔符"@)
    } else {
        None
    }
}

/// The trimmed name, where it is one remote path piece; the message of the
/// rule it breaks otherwise.
pub fn validate_remote_entry_name(name: &str) -> (r: Result<String, String>)
    ensures
        entry_name_error(name@) is None ==> (r matches Ok(s) && s@ == trim_chars(name@)),
        entry_name_error(name@) matches Some(m) ==> (r matches Err(e) && e@ == m),
{
    let all = str_chars(name);
    let t = trim(&all);
    let mut msg: Vec<char> = Vec::new();
    if t.len() == 0 {
        push_str_chars(&mut msg, "名称不能为空");
        return Err(string_from_chars(msg));
    }
    if (t.len() == 1 && t[0] == '.') || (t.len() == 2 && t[0] == '.' && t[1] == '.') {
        proof {
            if t@.len() == 1 {
                assert(t@ =~= seq!['.']);
            } else {
                assert(t@ =~= seq!['.', '.']);
            }
        }
        push_str_chars(&mut msg, "名称不能为 . 或 ..");
        return Err(string_from_chars(msg));
    }
    proof {
        if t@ == seq!['.'] || t@ == seq!['.', '.'] {
            assert(t@[0] == '.');
        }
    }
    let mut i: usize = 0;
    while i < t.len()
        invariant
            i <= t@.len(),
            forall|j: int| 0 <= j < i ==> t@[j] != '/' && t@[j] != '\\',
            t@ == trim_chars(name@),
            t@.len() > 0,
            t@ != seq!['.'],
            t@ != seq!['.', '.'],
            msg@ == Seq::<char>::empty(),
        decreases t@.len() - i,
    {
        if t[i] == '/' || t[i] == '\\' {
            assert(t@.contains(t@[i as int]));
            push_str_chars(&mut msg, "名称中不能包含路径分隔符");
            return Err(string_from_chars(msg));
        }
        i = i + 1;
    }
    Ok(string_from_chars(t))
}

/// Whether the `time` crate can represent the date `secs` seconds after
/// the Unix epoch.
pub uninterp spec fn unix_time_representable(secs: i64) -> bool;

/// The RFC 3339 text of the date `secs` seconds after the Unix epoch, in
/// UTC, as the `time` crate writes it.
pub uninterp spec fn rfc3339_text(secs: i64) -> Seq<char>;

/// `OffsetDateTime::from_unix_timestamp`, then `format` with `Rfc3339`:
/// the date as RFC 3339 text, or `None` where either step fails.
#[verifier::external_body]
fn format_rfc3339(secs: i64) -> (r: Option<String>)
    ensures
        r is Some == unix_time_representable(secs),
        r matches Some(s) ==> s@ == rfc3339_text(secs),
{
    match time::OffsetDateTime::from_unix_timestamp(secs) {
        Ok(t) => t.format(&time::format_description::well_known::Rfc3339).ok(),
        Err(_) => None,
    }
}

/// The RFC 3339 text of a file time given as seconds after the Unix epoch,
/// where it is known and can be written.
pub fn format_system_time_result(unix_time: Option<i64>) -> (r: Option<String>)
    ensures
        unix_time is None ==> r is None,
        unix_time matches Some(secs) ==> (r is Some == unix_time_representable(secs)) && (r matches Some(s) ==> s@ == rfc3339_text(secs)),
{
    match unix_time {
        None => None,
        Some(secs) => format_rfc3339(secs),
    }
}

} // verus!
