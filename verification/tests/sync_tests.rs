use msync::config::SyncConfig;
use msync::sync::SyncHandle;
use msync::watch::{Phase, WatchEvent, WatchState};

fn test_config(use_server: bool) -> SyncConfig {
    SyncConfig {
        remote_user: String::from("alice"),
        remote_host: String::from("build-host"),
        base_local_path: String::from("/home/alice/src"),
        base_remote_path: String::from("work/mirrors"),
        sync_back: String::from("compile_commands.json"),
        pid_file_dir: String::from("/run/user/1000/msync"),
        pid_file_prefix: String::from("repo_sync"),
        pid_file_extension: String::from("pid"),
        use_server,
    }
}

#[test]
fn target_resolves_paths() {
    let config = test_config(false);
    let handle = SyncHandle::new(&config, "foo");
    assert_eq!(handle.repo_name, "foo");
    assert_eq!(handle.local_path, "/home/alice/src/foo");
    assert_eq!(handle.remote_path, "work/mirrors/foo");
    assert_eq!(handle.pid_file, "/run/user/1000/msync/repo_sync_foo.pid");
}

#[test]
fn target_for_wildcard_enumeration() {
    let config = test_config(false);
    let handle = SyncHandle::new(&config, "*");
    assert_eq!(handle.pid_file, "/run/user/1000/msync/repo_sync_*.pid");
}

#[test]
fn remote_login_address() {
    let config = test_config(false);
    let handle = SyncHandle::new(&config, "foo");
    assert_eq!(handle.make_remote_url(), "alice@build-host:work/mirrors/foo");
}

#[test]
fn managed_server_address() {
    let config = test_config(true);
    let handle = SyncHandle::new(&config, "foo");
    assert_eq!(handle.make_remote_url(), "rsync://build-host/work/mirrors/foo");
}

#[test]
fn push_command_line() {
    let config = test_config(false);
    let handle = SyncHandle::new(&config, "foo");
    assert_eq!(
        handle.push_args(),
        vec![
            String::from("-avz"),
            String::from("--delete"),
            String::from("/home/alice/src/foo"),
            String::from("--exclude='.git/'"),
            String::from("--filter=':- .gitignore'"),
            String::from("alice@build-host:work/mirrors/foo"),
        ]
    );
}

#[test]
fn pull_command_line_sole_inclusion_filter() {
    let config = test_config(false);
    let handle = SyncHandle::new(&config, "foo");
    let args = handle.pull_args();
    assert_eq!(
        args,
        vec![
            String::from("-avz"),
            String::from("--include='compile_commands.json'"),
            String::from("--exclude='*'"),
            String::from("alice@build-host:work/mirrors/foo"),
            String::from("/home/alice/src/foo"),
        ]
    );
    let inclusion_filters = args
        .iter()
        .filter(|a| a.starts_with("--include='"))
        .count();
    assert_eq!(inclusion_filters, 1);
}

#[test]
fn notification_triggers_push() {
    let config = test_config(false);
    let handle = SyncHandle::new(&config, "foo");
    let s0 = WatchState::initial();
    assert_eq!(s0.phase, Phase::Waiting);
    assert_eq!(s0.pending, 0);

    let (s1, cmd) = msync::watch::watch_step(s0, &handle, WatchEvent::Notification);
    assert_eq!(s1.phase, Phase::Pushing);
    assert_eq!(cmd, Some(handle.push_args()));
}

#[test]
fn failed_push_runs_no_pull() {
    let config = test_config(false);
    let handle = SyncHandle::new(&config, "foo");
    let s0 = WatchState::initial();
    let (s1, _) = msync::watch::watch_step(s0, &handle, WatchEvent::Notification);

    let (s2, cmd) = msync::watch::watch_step(s1, &handle, WatchEvent::PushFinished(false));
    assert_eq!(cmd, None);
    assert_eq!(s2.phase, Phase::Waiting);
}

#[test]
fn successful_push_runs_exactly_one_pull() {
    let config = test_config(false);
    let handle = SyncHandle::new(&config, "foo");
    let s0 = WatchState::initial();
    let (s1, _) = msync::watch::watch_step(s0, &handle, WatchEvent::Notification);

    let (s2, cmd) = msync::watch::watch_step(s1, &handle, WatchEvent::PushFinished(true));
    assert_eq!(s2.phase, Phase::Pulling);
    assert_eq!(cmd, Some(handle.pull_args()));

    let (s3, cmd3) = msync::watch::watch_step(s2, &handle, WatchEvent::PullFinished(true));
    assert_eq!(s3.phase, Phase::Waiting);
    assert_eq!(cmd3, None);
}

#[test]
fn notification_during_transfer_is_queued_not_run() {
    let config = test_config(false);
    let handle = SyncHandle::new(&config, "foo");
    let s0 = WatchState::initial();
    let (pushing, _) = msync::watch::watch_step(s0, &handle, WatchEvent::Notification);

    // A change arrives while the push is in flight: nothing is launched.
    let (queued, cmd) = msync::watch::watch_step(pushing, &handle, WatchEvent::Notification);
    assert_eq!(cmd, None);
    assert_eq!(queued.phase, Phase::Pushing);
    assert_eq!(queued.pending, 1);

    // The in-flight pair completes; only then does the queued
    // notification start its own push.
    let (pulling, cmd) = msync::watch::watch_step(queued, &handle, WatchEvent::PushFinished(true));
    assert_eq!(pulling.pending, 1);
    assert_eq!(cmd, Some(handle.pull_args()));
    let (drained, cmd) = msync::watch::watch_step(pulling, &handle, WatchEvent::PullFinished(true));
    assert_eq!(drained.phase, Phase::Pushing);
    assert_eq!(drained.pending, 0);
    assert_eq!(cmd, Some(handle.push_args()));
}

#[test]
fn watch_error_is_not_fatal() {
    let config = test_config(false);
    let handle = SyncHandle::new(&config, "foo");
    let s0 = WatchState::initial();
    let (s1, cmd) = msync::watch::watch_step(s0, &handle, WatchEvent::WatchError);
    assert_eq!(cmd, None);
    assert_eq!(s1, s0);
}
