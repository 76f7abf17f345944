//! The process-wide configuration record: remote endpoint, base paths,
//! pull-back pattern, PID-file naming template and transport mode. It is
//! loaded once per invocation (outside this library) and passed by
//! reference into every component that needs it.

use vstd::prelude::*;

verus! {

/// Immutable configuration for one process invocation.
pub struct SyncConfig {
    /// User part of the remote account identity.
    pub remote_user: String,
    /// Host part of the remote account identity.
    pub remote_host: String,
    /// Filesystem root under which every repository's working copy lives.
    pub base_local_path: String,
    /// Filesystem root on the remote side under which every mirror lives.
    pub base_remote_path: String,
    /// Pattern selecting which remote-generated files are pulled back.
    pub sync_back: String,
    /// Directory that holds the PID files.
    pub pid_file_dir: String,
    /// Name prefix of every PID file.
    pub pid_file_prefix: String,
    /// Extension of every PID file (without the dot).
    pub pid_file_extension: String,
    /// Transport mode: `true` selects the managed-transfer-server address
    /// form, `false` the remote-login (`user@host:path`) form.
    pub use_server: bool,
}

/// Mathematical view of a configuration: every text field as a
/// sequence of characters.
#[verifier::ext_equal]
pub struct ConfigView {
    pub remote_user: Seq<char>,
    pub remote_host: Seq<char>,
    pub base_local_path: Seq<char>,
    pub base_remote_path: Seq<char>,
    pub sync_back: Seq<char>,
    pub pid_file_dir: Seq<char>,
    pub pid_file_prefix: Seq<char>,
    pub pid_file_extension: Seq<char>,
    pub use_server: bool,
}

impl View for SyncConfig {
    type V = ConfigView;

    open spec fn view(&self) -> ConfigView {
        ConfigView {
            remote_user: self.remote_user@,
            remote_host: self.remote_host@,
            base_local_path: self.base_local_path@,
            base_remote_path: self.base_remote_path@,
            sync_back: self.sync_back@,
            pid_file_dir: self.pid_file_dir@,
            pid_file_prefix: self.pid_file_prefix@,
            pid_file_extension: self.pid_file_extension@,
            use_server: self.use_server,
        }
    }
}

/// A configuration is well formed when the fields that open a transfer
/// command line cannot be mistaken for an option: the local base path and
/// the remote user are non-empty and do not begin with a hyphen.
pub open spec fn config_wf(c: ConfigView) -> bool {
    &&& c.base_local_path.len() > 0
    &&& c.base_local_path[0] != '-'
    &&& c.remote_user.len() > 0
    &&& c.remote_user[0] != '-'
}

} // verus!
