//! The transfer engine: builds the two command lines handed to the
//! external line-oriented transfer tool. Push mirrors the local path onto
//! the remote path with archive semantics and delete-of-extraneous-files;
//! pull copies back only the files matching the configured pull-back
//! pattern. Running the tool is the caller's business; success of a push
//! is judged solely by the tool's exit status.

use vstd::prelude::*;
use vstd::string::*;
use crate::config::{ConfigView, config_wf};
use crate::sync::{SyncHandle, TargetView, remote_url_spec, target_spec};

verus! {

/// The push command line: archive/compress/recurse, delete extraneous
/// remote files, always exclude version-control metadata, honor the
/// ignore-pattern file in the local tree.
pub open spec fn push_args_spec(t: TargetView) -> Seq<Seq<char>> {
    seq![
        "-avz"@,
        "--delete"@,
        t.local_path,
        "--exclude='.git/'"@,
        "--filter=':- .gitignore'"@,
        remote_url_spec(t),
    ]
}

/// The sole inclusion filter of a pull: the configured pull-back pattern.
pub open spec fn include_arg_spec(pattern: Seq<char>) -> Seq<char> {
    "--include='"@ + pattern + "'"@
}

/// The pull command line: copy back from remote to local only the files
/// matching the pull-back pattern, excluding everything else.
pub open spec fn pull_args_spec(t: TargetView) -> Seq<Seq<char>> {
    seq![
        "-avz"@,
        include_arg_spec(t.config.sync_back),
        "--exclude='*'"@,
        remote_url_spec(t),
        t.local_path,
    ]
}

/// Whether one argument is an inclusion filter.
pub open spec fn is_include_arg(a: Seq<char>) -> bool {
    a.len() >= 11 && a.subrange(0, 11) == "--include='"@
}

impl<'a> SyncHandle<'a> {
    /// Builds the push command line for this target.
    pub fn push_args(&self) -> (r: Vec<String>)
        ensures
            r.deep_view() == push_args_spec(self@),
    {
        let mut v: Vec<String> = Vec::new();
        v.push(String::from_str("-avz"));
        v.push(String::from_str("--delete"));
        v.push(String::clone(&self.local_path));
        v.push(String::from_str("--exclude='.git/'"));
        v.push(String::from_str("--filter=':- .gitignore'"));
        v.push(self.make_remote_url());
        proof {
            assert(v.deep_view() =~~= push_args_spec(self@));
        }
        v
    }

    /// Builds the pull command line for this target.
    pub fn pull_args(&self) -> (r: Vec<String>)
        ensures
            r.deep_view() == pull_args_spec(self@),
    {
        let mut pull_filter = String::from_str("--include='");
        pull_filter.append(self.config.sync_back.as_str());
        pull_filter.append("'");

        let mut v: Vec<String> = Vec::new();
        v.push(String::from_str("-avz"));
        v.push(pull_filter);
        v.push(String::from_str("--exclude='*'"));
        v.push(self.make_remote_url());
        v.push(String::clone(&self.local_path));
        proof {
            assert(v.deep_view() =~~= pull_args_spec(self@));
        }
        v
    }
}

/// A pull command carries the configured pull-back pattern as its sole
/// inclusion filter, and a push command carries none, for every
/// well-formed configuration and repository name.
pub proof fn lemma_pull_sole_include(c: ConfigView, repo: Seq<char>)
    requires
        config_wf(c),
    ensures
        pull_args_spec(target_spec(c, repo))[1] == include_arg_spec(c.sync_back),
        forall|i: int|
            0 <= i < pull_args_spec(target_spec(c, repo)).len() ==> (is_include_arg(
                #[trigger] pull_args_spec(target_spec(c, repo))[i],
            ) <==> i == 1),
        forall|i: int|
            0 <= i < push_args_spec(target_spec(c, repo)).len() ==> !is_include_arg(
                #[trigger] push_args_spec(target_spec(c, repo))[i],
            ),
{
    let t = target_spec(c, repo);
    let tag = "--include='"@;
    reveal_strlit("--include='");
    reveal_strlit("-avz");
    reveal_strlit("--delete");
    reveal_strlit("--exclude='.git/'");
    reveal_strlit("--filter=':- .gitignore'");
    reveal_strlit("--exclude='*'");
    reveal_strlit("rsync://");
    reveal_strlit("/");
    reveal_strlit("'");

    assert(is_include_arg(include_arg_spec(c.sync_back))) by {
        assert(include_arg_spec(c.sync_back).subrange(0, 11) =~= tag);
    };

    // The local path opens with the local base's first character, which a
    // well-formed configuration keeps distinct from an option hyphen.
    assert(t.local_path[0] == c.base_local_path[0]);
    assert(!is_include_arg(t.local_path)) by {
        if is_include_arg(t.local_path) {
            assert(t.local_path[0] == tag[0]);
        }
    };

    // The remote address opens with the protocol prefix or the user name.
    assert(!is_include_arg(remote_url_spec(t))) by {
        if is_include_arg(remote_url_spec(t)) {
            assert(remote_url_spec(t)[0] == tag[0]);
            if c.use_server {
                assert(remote_url_spec(t)[0] == 'r');
            } else {
                assert(remote_url_spec(t)[0] == c.remote_user[0]);
            }
        }
    };

    assert(!is_include_arg("-avz"@));
    assert(!is_include_arg("--delete"@));
    assert(!is_include_arg("--exclude='.git/'"@)) by {
        if is_include_arg("--exclude='.git/'"@) {
            assert("--exclude='.git/'"@.subrange(0, 11)[2] == tag[2]);
        }
    };
    assert(!is_include_arg("--filter=':- .gitignore'"@)) by {
        if is_include_arg("--filter=':- .gitignore'"@) {
            assert("--filter=':- .gitignore'"@.subrange(0, 11)[2] == tag[2]);
        }
    };
    assert(!is_include_arg("--exclude='*'"@)) by {
        if is_include_arg("--exclude='*'"@) {
            assert("--exclude='*'"@.subrange(0, 11)[2] == tag[2]);
        }
    };
}

} // verus!
