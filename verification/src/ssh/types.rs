//! Values exchanged with the user interface.
use vstd::prelude::*;

verus! {

/// What is needed to open a session.
#[derive(Debug, Clone)]
pub struct SshConnectRequest {
    pub host: String,
    pub port: u16,
    pub username: String,
    pub password: String,
    /// The host key fingerprint that the user accepted, if any.
    pub expected_host_fingerprint: Option<String>,
    /// The remote directory to start in.
    pub initial_path: Option<String>,
}

/// The answer to a command: its data, or the message of its error.
#[derive(Debug, Clone)]
pub struct SshCmdResult<T> {
    pub success: bool,
    pub data: Option<T>,
    pub error: Option<String>,
}

impl<T> SshCmdResult<T> {
    /// A successful answer carrying `data`.
    pub fn ok(data: T) -> (r: SshCmdResult<T>)
        ensures
            r.success,
            r.data == Some(data),
            r.error is None,
    {
        SshCmdResult { success: true, data: Some(data), error: None }
    }

    /// A failed answer carrying `message`.
    pub fn err(message: &str) -> (r: SshCmdResult<T>)
        ensures
            !r.success,
            r.data is None,
            r.error matches Some(m) && m@ == message@,
    {
        SshCmdResult { success: false, data: None, error: Some(message.to_owned()) }
    }
}

/// An open session.
#[derive(Debug, Clone)]
pub struct SshSessionInfo {
    pub session_id: String,
    pub host: String,
    pub port: u16,
    pub username: String,
    pub current_path: String,
    /// The host key fingerprint checked on this connection.
    pub host_fingerprint: String,
}

/// A request to read a host's key fingerprint.
#[derive(Debug, Clone)]
pub struct SshHostProbeRequest {
    pub host: String,
    pub port: u16,
}

/// A host's key fingerprint, in the OpenSSH form.
#[derive(Debug, Clone)]
pub struct SshHostProbeResult {
    pub host: String,
    pub port: u16,
    pub fingerprint: String,
}

/// One entry of a remote directory listing.
#[derive(Debug, Clone)]
pub struct RemoteFileEntry {
    pub name: String,
    pub path: String,
    pub is_dir: bool,
    pub is_file: bool,
    pub is_symlink: bool,
    /// "directory", "file", "symlink" or "unknown".
    pub file_type: String,
    pub size: u64,
    pub permissions: Option<u32>,
    /// The permission bits in octal, such as "755".
    pub permission_text: Option<String>,
    pub uid: Option<u32>,
    pub gid: Option<u32>,
    pub modified_at: Option<String>,
    pub accessed_at: Option<String>,
}

/// The properties of a remote file.
#[derive(Debug, Clone)]
pub struct RemoteFileProperties {
    pub name: String,
    pub path: String,
    pub is_dir: bool,
    pub is_file: bool,
    pub is_symlink: bool,
    pub file_type: String,
    pub size: u64,
    pub permissions: Option<u32>,
    pub permission_text: Option<String>,
    pub uid: Option<u32>,
    pub gid: Option<u32>,
    pub modified_at: Option<String>,
    pub accessed_at: Option<String>,
}

/// A finished download.
#[derive(Debug, Clone)]
pub struct FileDownloadResult {
    pub remote_path: String,
    pub local_path: String,
    pub file_size: u64,
    pub duration_ms: u64,
}

/// A finished upload.
#[derive(Debug, Clone)]
pub struct FileUploadResult {
    pub local_path: String,
    pub remote_path: String,
    pub file_size: u64,
    pub duration_ms: u64,
}

/// A remote directory that was made.
#[derive(Debug, Clone)]
pub struct CreateDirectoryResult {
    pub path: String,
}

/// A remote path that was renamed.
#[derive(Debug, Clone)]
pub struct RenamePathResult {
    pub old_path: String,
    pub new_path: String,
}

/// A remote path that was deleted.
#[derive(Debug, Clone)]
pub struct DeletePathResult {
    pub path: String,
    pub is_dir: bool,
}

/// Where a download would be saved.
#[derive(Debug, Clone)]
pub struct SuggestedDownloadPath {
    pub suggested_path: String,
}

/// A remote file copied to a local cache to be opened.
#[derive(Debug, Clone)]
pub struct OpenFileResult {
    pub remote_path: String,
    pub local_path: String,
    pub file_size: u64,
    pub is_text: bool,
    pub text_content: Option<String>,
}

} // verus!
