//! The sync-target resolver: from the configuration and a repository name
//! it derives the concrete local path, remote path and PID-file path, and
//! builds the remote address in the form the transport mode selects.

use vstd::prelude::*;
use vstd::string::*;
use crate::config::{SyncConfig, ConfigView};

verus! {

/// The resolved sync target for one repository: a pure function of the
/// configuration and the repository name.
pub struct SyncHandle<'a> {
    /// `<pid_file_dir>/<prefix>_<repoName>.<extension>`.
    pub pid_file: String,
    /// `<base_local_path>/<repoName>`.
    pub local_path: String,
    /// `<base_remote_path>/<repoName>`.
    pub remote_path: String,
    /// The repository this target was resolved for.
    pub repo_name: String,
    /// The configuration the target was resolved from.
    pub config: &'a SyncConfig,
}

/// Mathematical view of a sync target.
#[verifier::ext_equal]
pub struct TargetView {
    pub pid_file: Seq<char>,
    pub local_path: Seq<char>,
    pub remote_path: Seq<char>,
    pub repo_name: Seq<char>,
    pub config: ConfigView,
}

impl<'a> View for SyncHandle<'a> {
    type V = TargetView;

    open spec fn view(&self) -> TargetView {
        TargetView {
            pid_file: self.pid_file@,
            local_path: self.local_path@,
            remote_path: self.remote_path@,
            repo_name: self.repo_name@,
            config: self.config@,
        }
    }
}

/// The PID-file path for a repository under a configuration.
pub open spec fn pid_file_spec(c: ConfigView, repo: Seq<char>) -> Seq<char> {
    c.pid_file_dir + "/"@ + c.pid_file_prefix + "_"@ + repo + "."@ + c.pid_file_extension
}

/// The local working-copy path for a repository.
pub open spec fn local_path_spec(c: ConfigView, repo: Seq<char>) -> Seq<char> {
    c.base_local_path + "/"@ + repo
}

/// The remote mirror path for a repository.
pub open spec fn remote_path_spec(c: ConfigView, repo: Seq<char>) -> Seq<char> {
    c.base_remote_path + "/"@ + repo
}

/// The whole target is a pure function of (configuration, repository
/// name): no two targets for the same repository differ within a process.
pub open spec fn target_spec(c: ConfigView, repo: Seq<char>) -> TargetView {
    TargetView {
        pid_file: pid_file_spec(c, repo),
        local_path: local_path_spec(c, repo),
        remote_path: remote_path_spec(c, repo),
        repo_name: repo,
        config: c,
    }
}

/// The remote address handed to the transfer tool: a protocol-prefixed
/// host+path under the managed-server mode, `user@host:path` under the
/// remote-login mode.
pub open spec fn remote_url_spec(t: TargetView) -> Seq<char> {
    if t.config.use_server {
        "rsync://"@ + t.config.remote_host + "/"@ + t.remote_path
    } else {
        t.config.remote_user + "@"@ + t.config.remote_host + ":"@ + t.remote_path
    }
}

impl<'a> SyncHandle<'a> {
    /// Resolves the sync target for `repo_name` under `config`.
    pub fn new(config: &'a SyncConfig, repo_name: &str) -> (result: Self)
        ensures
            result@ == target_spec(config@, repo_name@),
    {
        let mut pid_file = String::clone(&config.pid_file_dir);
        pid_file.append("/");
        pid_file.append(config.pid_file_prefix.as_str());
        pid_file.append("_");
        pid_file.append(repo_name);
        pid_file.append(".");
        pid_file.append(config.pid_file_extension.as_str());

        let mut local_path = String::clone(&config.base_local_path);
        local_path.append("/");
        local_path.append(repo_name);

        let mut remote_path = String::clone(&config.base_remote_path);
        remote_path.append("/");
        remote_path.append(repo_name);

        let result = SyncHandle {
            pid_file,
            local_path,
            remote_path,
            repo_name: repo_name.to_owned(),
            config,
        };
        proof {
            assert(result@ =~= target_spec(config@, repo_name@));
        }
        result
    }

    /// Builds the remote address for this target in the configured form.
    pub fn make_remote_url(&self) -> (r: String)
        ensures
            r@ == remote_url_spec(self@),
    {
        if self.config.use_server {
            let mut url = String::from_str("rsync://");
            url.append(self.config.remote_host.as_str());
            url.append("/");
            url.append(self.remote_path.as_str());
            proof {
                assert(url@ =~= remote_url_spec(self@));
            }
            url
        } else {
            let mut url = String::clone(&self.config.remote_user);
            url.append("@");
            url.append(self.config.remote_host.as_str());
            url.append(":");
            url.append(self.remote_path.as_str());
            proof {
                assert(url@ =~= remote_url_spec(self@));
            }
            url
        }
    }
}

} // verus!
