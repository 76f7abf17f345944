//! A model of the PID-file directory and the registry's laws. The
//! directory is a map from repository name to what that repository's PID
//! file records — `Some(pid)` for a readable registration, `None` for
//! corrupt content — and the set of identifiers of currently existing
//! processes stands beside it. Each operator command is one transition
//! of this map; the laws below pin down what the commands leave behind,
//! and the bridge lemmas show that the staged decisions of
//! [`crate::registry`] reproduce the one-step transitions.

use vstd::prelude::*;
use crate::registry::{
    check_registration_spec, start_check_spec, stop_plan_spec, status_plan_spec, pid_of,
    RegistryError, StartError, StopPlan, StatusPlan,
};

verus! {

/// What `stop` leaves behind and reports.
pub enum StopOutcome {
    /// No PID file existed: a no-op.
    NotRunning,
    /// The PID file's content is unreadable: the command aborts and the
    /// file stays for the operator.
    CorruptState,
    /// The recorded process existed: it was signalled to terminate and
    /// the PID file was deleted.
    Terminated(u32),
    /// The recorded process was gone: the stale PID file was deleted.
    CleanedStale(u32),
}

/// What `status` leaves behind and reports.
pub enum StatusOutcome {
    /// No PID file existed.
    NotRunning,
    /// The PID file's content is unreadable: the file stays.
    CorruptState,
    /// The recorded process exists: the daemon is running, nothing
    /// changes.
    Running(u32),
    /// The recorded process was gone: the stale PID file was deleted.
    CleanedStale(u32),
}

/// The `start` transition: under an existing local path and no prior
/// registration, the new daemon's identifier is registered; any failed
/// precondition leaves the directory untouched.
pub open spec fn start_step(
    reg: Map<Seq<char>, Option<u32>>,
    repo: Seq<char>,
    local_exists: bool,
    pid: u32,
) -> (Map<Seq<char>, Option<u32>>, Result<(), StartError>) {
    let check = start_check_spec(local_exists, reg.dom().contains(repo));
    if check is Ok {
        (reg.insert(repo, Some(pid)), check)
    } else {
        (reg, check)
    }
}

/// The `stop` transition.
pub open spec fn stop_step(
    reg: Map<Seq<char>, Option<u32>>,
    live: Set<u32>,
    repo: Seq<char>,
) -> (Map<Seq<char>, Option<u32>>, StopOutcome) {
    if !reg.dom().contains(repo) {
        (reg, StopOutcome::NotRunning)
    } else {
        match reg[repo] {
            None => (reg, StopOutcome::CorruptState),
            Some(p) => if live.contains(p) {
                (reg.remove(repo), StopOutcome::Terminated(p))
            } else {
                (reg.remove(repo), StopOutcome::CleanedStale(p))
            },
        }
    }
}

/// The `status` transition.
pub open spec fn status_step(
    reg: Map<Seq<char>, Option<u32>>,
    live: Set<u32>,
    repo: Seq<char>,
) -> (Map<Seq<char>, Option<u32>>, StatusOutcome) {
    if !reg.dom().contains(repo) {
        (reg, StatusOutcome::NotRunning)
    } else {
        match reg[repo] {
            None => (reg, StatusOutcome::CorruptState),
            Some(p) => if live.contains(p) {
                (reg, StatusOutcome::Running(p))
            } else {
                (reg.remove(repo), StatusOutcome::CleanedStale(p))
            },
        }
    }
}

/// The `list` transition over a directory of readable registrations:
/// every stale entry is deleted during enumeration, every live one kept.
pub open spec fn list_step(reg: Map<Seq<char>, Option<u32>>, live: Set<u32>) -> Map<
    Seq<char>,
    Option<u32>,
> {
    Map::new(
        |r: Seq<char>| reg.dom().contains(r) && reg[r] is Some && live.contains(reg[r]->0),
        |r: Seq<char>| reg[r],
    )
}

/// Starting twice in succession for the same repository, with the local
/// path present, fails the second call with `AlreadyRunning` and leaves
/// exactly one registration for that repository — the directory maps a
/// repository to at most one PID file, and the second call changes
/// nothing.
pub proof fn lemma_start_twice(
    reg: Map<Seq<char>, Option<u32>>,
    repo: Seq<char>,
    p1: u32,
    p2: u32,
)
    ensures
        start_step(start_step(reg, repo, true, p1).0, repo, true, p2).1 == Err::<
            (),
            StartError,
        >(StartError::AlreadyRunning),
        start_step(start_step(reg, repo, true, p1).0, repo, true, p2).0 == start_step(
            reg,
            repo,
            true,
            p1,
        ).0,
        start_step(reg, repo, true, p1).0.dom().contains(repo),
{
}

/// `stop` against a repository with no PID file reports `NotRunning` and
/// mutates nothing.
pub proof fn lemma_stop_not_running(
    reg: Map<Seq<char>, Option<u32>>,
    live: Set<u32>,
    repo: Seq<char>,
)
    requires
        !reg.dom().contains(repo),
    ensures
        stop_step(reg, live, repo).0 == reg,
        stop_step(reg, live, repo).1 == StopOutcome::NotRunning,
{
}

/// `status` against a PID file whose recorded process is gone deletes
/// the file and reports the healed staleness; asked again, it reports
/// `NotRunning`.
pub proof fn lemma_status_stale_then_not_running(
    reg: Map<Seq<char>, Option<u32>>,
    live: Set<u32>,
    repo: Seq<char>,
    p: u32,
)
    requires
        reg.dom().contains(repo),
        reg[repo] == Some(p),
        !live.contains(p),
    ensures
        status_step(reg, live, repo).0 == reg.remove(repo),
        status_step(reg, live, repo).1 == StatusOutcome::CleanedStale(p),
        status_step(status_step(reg, live, repo).0, live, repo).1 == StatusOutcome::NotRunning,
{
}

/// After `list`, exactly the registrations whose recorded process exists
/// remain, unchanged; every stale one is gone. Running `list` again
/// changes nothing more.
pub proof fn lemma_list_cleans_stale(reg: Map<Seq<char>, Option<u32>>, live: Set<u32>)
    ensures
        forall|r: Seq<char>|
            list_step(reg, live).dom().contains(r) <==> (reg.dom().contains(r) && reg[r] is Some
                && live.contains(#[trigger] reg[r]->0)),
        forall|r: Seq<char>|
            list_step(reg, live).dom().contains(r) ==> #[trigger] list_step(reg, live)[r]
                == reg[r],
        list_step(list_step(reg, live), live) == list_step(reg, live),
{
    assert(list_step(list_step(reg, live), live) =~= list_step(reg, live));
}

/// The staged `stop` — check the file, read it, probe the recorded
/// process, act — reproduces the one-step transition, whenever the
/// observed content is the registered one.
pub proof fn lemma_stop_stages_sound(
    reg: Map<Seq<char>, Option<u32>>,
    live: Set<u32>,
    repo: Seq<char>,
    content: Option<Seq<char>>,
)
    requires
        content is Some <==> reg.dom().contains(repo),
        content matches Some(s) ==> reg[repo] == pid_of(s),
    ensures
        check_registration_spec(content) == Err::<u32, RegistryError>(RegistryError::NotRunning)
            ==> stop_step(reg, live, repo) == (reg, StopOutcome::NotRunning),
        check_registration_spec(content) == Err::<u32, RegistryError>(RegistryError::CorruptState)
            ==> stop_step(reg, live, repo) == (reg, StopOutcome::CorruptState),
        forall|p: u32|
            check_registration_spec(content) == Ok::<u32, RegistryError>(p) ==> stop_step(
                reg,
                live,
                repo,
            ) == (
                reg.remove(repo),
                if stop_plan_spec(p, live.contains(p)) == StopPlan::Terminate(p) {
                    StopOutcome::Terminated(p)
                } else {
                    StopOutcome::CleanedStale(p)
                },
            ),
{
}

/// The staged `status` reproduces the one-step transition in the same
/// way.
pub proof fn lemma_status_stages_sound(
    reg: Map<Seq<char>, Option<u32>>,
    live: Set<u32>,
    repo: Seq<char>,
    content: Option<Seq<char>>,
)
    requires
        content is Some <==> reg.dom().contains(repo),
        content matches Some(s) ==> reg[repo] == pid_of(s),
    ensures
        check_registration_spec(content) == Err::<u32, RegistryError>(RegistryError::NotRunning)
            ==> status_step(reg, live, repo) == (reg, StatusOutcome::NotRunning),
        check_registration_spec(content) == Err::<u32, RegistryError>(RegistryError::CorruptState)
            ==> status_step(reg, live, repo) == (reg, StatusOutcome::CorruptState),
        forall|p: u32|
            check_registration_spec(content) == Ok::<u32, RegistryError>(p) ==> status_step(
                reg,
                live,
                repo,
            ) == (if status_plan_spec(p, live.contains(p)) == StatusPlan::Running(p) {
                (reg, StatusOutcome::Running(p))
            } else {
                (reg.remove(repo), StatusOutcome::CleanedStale(p))
            }),
{
}

} // verus!
