use msync::registry::{
    check_registration, list_plan, parse_pid, repo_of_file_name, start_check, status_plan,
    stop_plan, ListEntry, RegistryError, StartError, StatusPlan, StopPlan,
};

#[test]
fn parse_pid_plain() {
    assert_eq!(parse_pid("1234"), Some(1234));
}

#[test]
fn parse_pid_trimmed() {
    assert_eq!(parse_pid(" 42\n"), Some(42));
    assert_eq!(parse_pid("\t7\r\n"), Some(7));
}

#[test]
fn parse_pid_zero() {
    assert_eq!(parse_pid("0"), Some(0));
    assert_eq!(parse_pid("007"), Some(7));
}

#[test]
fn parse_pid_empty_is_corrupt() {
    assert_eq!(parse_pid(""), None);
    assert_eq!(parse_pid("  \n"), None);
}

#[test]
fn parse_pid_non_digit_is_corrupt() {
    assert_eq!(parse_pid("12a4"), None);
    assert_eq!(parse_pid("-5"), None);
    assert_eq!(parse_pid("+5"), None);
    assert_eq!(parse_pid("12 34"), None);
}

#[test]
fn parse_pid_overflow_is_corrupt() {
    assert_eq!(parse_pid("4294967295"), Some(u32::MAX));
    assert_eq!(parse_pid("4294967296"), None);
    assert_eq!(parse_pid("99999999999999999999"), None);
}

#[test]
fn registration_missing_file_is_not_running() {
    assert_eq!(check_registration(None), Err(RegistryError::NotRunning));
}

#[test]
fn registration_corrupt_content() {
    let content = String::from("not a pid");
    assert_eq!(
        check_registration(Some(&content)),
        Err(RegistryError::CorruptState)
    );
}

#[test]
fn registration_reads_pid() {
    let content = String::from("31337\n");
    assert_eq!(check_registration(Some(&content)), Ok(31337));
}

#[test]
fn start_requires_local_path() {
    assert_eq!(start_check(false, false), Err(StartError::LocalPathMissing));
    assert_eq!(start_check(false, true), Err(StartError::LocalPathMissing));
}

#[test]
fn start_blocked_when_already_running() {
    // The first start registers; an immediate second start finds the PID
    // file and is refused.
    assert_eq!(start_check(true, false), Ok(()));
    assert_eq!(start_check(true, true), Err(StartError::AlreadyRunning));
}

#[test]
fn stop_terminates_live_process() {
    assert_eq!(stop_plan(1000, true), StopPlan::Terminate(1000));
}

#[test]
fn stop_cleans_stale_file() {
    assert_eq!(stop_plan(1000, false), StopPlan::CleanStale(1000));
}

#[test]
fn status_reports_running() {
    assert_eq!(status_plan(77, true), StatusPlan::Running(77));
}

#[test]
fn status_cleans_stale_file() {
    assert_eq!(status_plan(77, false), StatusPlan::CleanStale(77));
}

#[test]
fn status_after_stale_cleanup_reports_not_running() {
    // A PID file records a process that no longer exists: status heals
    // the stale state by deleting the file...
    let content = String::from("4242");
    let pid = check_registration(Some(&content)).unwrap();
    assert_eq!(status_plan(pid, false), StatusPlan::CleanStale(4242));
    // ...so the next status finds no file and reports not running.
    assert_eq!(check_registration(None), Err(RegistryError::NotRunning));
}

#[test]
fn file_name_parses_back_to_repo() {
    assert_eq!(
        repo_of_file_name("repo_sync_myrepo.pid", "repo_sync", "pid"),
        Some(String::from("myrepo"))
    );
}

#[test]
fn file_name_with_wrong_prefix_is_refused() {
    assert_eq!(repo_of_file_name("other_myrepo.pid", "repo_sync", "pid"), None);
}

#[test]
fn file_name_with_wrong_extension_is_refused() {
    assert_eq!(repo_of_file_name("repo_sync_myrepo.tmp", "repo_sync", "pid"), None);
}

#[test]
fn file_name_too_short_is_refused() {
    assert_eq!(repo_of_file_name("repo_sync", "repo_sync", "pid"), None);
    assert_eq!(repo_of_file_name("", "repo_sync", "pid"), None);
}

#[test]
fn empty_repo_name_parses() {
    assert_eq!(
        repo_of_file_name("repo_sync_.pid", "repo_sync", "pid"),
        Some(String::new())
    );
}

fn entry(name: &str, pid: u32, alive: bool) -> ListEntry {
    ListEntry { file_name: String::from(name), pid, alive }
}

#[test]
fn list_splits_live_and_stale() {
    // Three PID files, two live and one stale: the stale one is handed
    // back for deletion, so exactly the two live ones remain afterwards.
    let entries = vec![
        entry("repo_sync_alpha.pid", 11, true),
        entry("repo_sync_beta.pid", 22, false),
        entry("repo_sync_gamma.pid", 33, true),
    ];
    let outcome = list_plan(&entries, "repo_sync", "pid");
    assert_eq!(outcome.live.len(), 2);
    assert_eq!(outcome.stale.len(), 1);
    assert_eq!(outcome.live[0].repo_name, "alpha");
    assert_eq!(outcome.live[0].pid, 11);
    assert_eq!(outcome.live[1].repo_name, "gamma");
    assert_eq!(outcome.live[1].pid, 33);
    assert_eq!(outcome.stale[0].repo_name, "beta");
    assert_eq!(outcome.stale[0].file_name, "repo_sync_beta.pid");
}

#[test]
fn list_of_nothing_is_empty() {
    let entries: Vec<ListEntry> = Vec::new();
    let outcome = list_plan(&entries, "repo_sync", "pid");
    assert_eq!(outcome.live.len(), 0);
    assert_eq!(outcome.stale.len(), 0);
}

#[test]
fn list_all_stale_deletes_everything() {
    let entries = vec![
        entry("repo_sync_a.pid", 1, false),
        entry("repo_sync_b.pid", 2, false),
    ];
    let outcome = list_plan(&entries, "repo_sync", "pid");
    assert_eq!(outcome.live.len(), 0);
    assert_eq!(outcome.stale.len(), 2);
    assert_eq!(outcome.stale[0].repo_name, "a");
    assert_eq!(outcome.stale[1].repo_name, "b");
}
