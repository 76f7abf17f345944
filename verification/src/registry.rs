//! The process registry: PID-file bookkeeping that represents "a sync
//! daemon is running for repository X". A PID file holds the decimal
//! process identifier as text; its name is
//! `<prefix>_<repoName>.<extension>`. This module decides — from plain
//! observations such as "the file exists", "its content", "a process
//! with that identifier exists" — what each operator command reports and
//! which files it deletes; reading, deleting and signalling are the
//! caller's business. A spec-level model of the PID-file directory ties
//! the staged decisions to one-step transitions and carries the
//! registry's laws.

use vstd::prelude::*;
use vstd::string::*;
use vstd::pervasive::unreached;

verus! {

// ---------------------------------------------------------------------
// PID-file content: a decimal process identifier, surrounded by nothing
// but optional ASCII whitespace.
// ---------------------------------------------------------------------

/// ASCII whitespace accepted around the recorded identifier.
pub open spec fn is_space(c: char) -> bool {
    c == ' ' || c == '\t' || c == '\n' || c == '\r'
}

/// A decimal digit.
pub open spec fn is_digit(c: char) -> bool {
    48 <= c as int && c as int <= 57
}

/// The value of one decimal digit.
pub open spec fn digit_val(c: char) -> int {
    c as int - 48
}

/// Every character of the sequence is a decimal digit.
pub open spec fn all_digits(s: Seq<char>) -> bool {
    forall|i: int| 0 <= i < s.len() ==> is_digit(#[trigger] s[i])
}

/// The value of a digit sequence read in base ten.
pub open spec fn digits_val(s: Seq<char>) -> int
    decreases s.len(),
{
    if s.len() == 0 {
        0
    } else {
        digits_val(s.drop_last()) * 10 + digit_val(s.last())
    }
}

/// The sequence with its leading whitespace removed.
pub open spec fn trim_front(s: Seq<char>) -> Seq<char>
    decreases s.len(),
{
    if s.len() > 0 && is_space(s[0]) {
        trim_front(s.drop_first())
    } else {
        s
    }
}

/// The sequence with its trailing whitespace removed.
pub open spec fn trim_back(s: Seq<char>) -> Seq<char>
    decreases s.len(),
{
    if s.len() > 0 && is_space(s.last()) {
        trim_back(s.drop_last())
    } else {
        s
    }
}

/// The sequence with whitespace removed at both ends.
pub open spec fn trim_spec(s: Seq<char>) -> Seq<char> {
    trim_back(trim_front(s))
}

/// What a PID file's content records: the non-negative integer its
/// trimmed text spells in decimal, if it spells one that a process
/// identifier can hold; anything else is corrupt.
pub open spec fn pid_of(s: Seq<char>) -> Option<u32> {
    let t = trim_spec(s);
    if t.len() > 0 && all_digits(t) && digits_val(t) <= u32::MAX {
        Some(digits_val(t) as u32)
    } else {
        None
    }
}

proof fn lemma_trim_front_at(s: Seq<char>, i: int)
    requires
        0 <= i <= s.len(),
        forall|k: int| 0 <= k < i ==> is_space(#[trigger] s[k]),
        i < s.len() ==> !is_space(s[i]),
    ensures
        trim_front(s) == s.subrange(i, s.len() as int),
    decreases i,
{
    if i == 0 {
        assert(trim_front(s) =~= s.subrange(0, s.len() as int));
    } else {
        let s2 = s.drop_first();
        lemma_trim_front_at(s2, i - 1);
        assert(s2.subrange(i - 1, s2.len() as int) =~= s.subrange(i, s.len() as int));
    }
}

proof fn lemma_trim_back_at(s: Seq<char>, e: int)
    requires
        0 <= e <= s.len(),
        forall|k: int| e <= k < s.len() ==> is_space(#[trigger] s[k]),
        e > 0 ==> !is_space(s[e - 1]),
    ensures
        trim_back(s) == s.subrange(0, e),
    decreases s.len(),
{
    if s.len() == 0 {
        assert(trim_back(s) =~= s.subrange(0, 0));
    } else if e == s.len() {
        assert(trim_back(s) =~= s.subrange(0, e));
    } else {
        let s2 = s.drop_last();
        lemma_trim_back_at(s2, e);
        assert(s2.subrange(0, e) =~= s.subrange(0, e));
    }
}

proof fn lemma_digits_val_nonneg(s: Seq<char>)
    requires
        all_digits(s),
    ensures
        digits_val(s) >= 0,
    decreases s.len(),
{
    if s.len() > 0 {
        assert(all_digits(s.drop_last()));
        lemma_digits_val_nonneg(s.drop_last());
    }
}

proof fn lemma_digits_prefix_le(s: Seq<char>, i: int)
    requires
        all_digits(s),
        0 <= i <= s.len(),
    ensures
        digits_val(s.take(i)) <= digits_val(s),
    decreases s.len() - i,
{
    if i == s.len() {
        assert(s.take(i) =~= s);
    } else {
        let s2 = s.drop_last();
        assert(all_digits(s2));
        assert(s2.take(i) =~= s.take(i));
        lemma_digits_prefix_le(s2, i);
        lemma_digits_val_nonneg(s2);
    }
}

fn is_space_c(c: char) -> (b: bool)
    ensures
        b == is_space(c),
{
    c == ' ' || c == '\t' || c == '\n' || c == '\r'
}

/// Reads the recorded process identifier out of a PID file's text:
/// `Some` exactly when the trimmed text is a non-empty run of decimal
/// digits whose value fits a process identifier.
pub fn parse_pid(s: &str) -> (r: Option<u32>)
    ensures
        r == pid_of(s@),
{
    let n = s.unicode_len();

    let mut start: usize = 0;
    while start < n && is_space_c(s.get_char(start))
        invariant
            0 <= start <= n,
            n == s@.len(),
            forall|k: int| 0 <= k < start ==> is_space(#[trigger] s@[k]),
        decreases n - start,
    {
        start = start + 1;
    }

    let mut end: usize = n;
    while end > start && is_space_c(s.get_char(end - 1))
        invariant
            start <= end <= n,
            n == s@.len(),
            forall|k: int| end <= k < n ==> is_space(#[trigger] s@[k]),
        decreases end,
    {
        end = end - 1;
    }

    let ghost t = trim_spec(s@);
    proof {
        lemma_trim_front_at(s@, start as int);
        let tf = s@.subrange(start as int, n as int);
        lemma_trim_back_at(tf, end - start);
        assert(tf.subrange(0, end - start) =~= s@.subrange(start as int, end as int));
        assert(t == s@.subrange(start as int, end as int));
    }

    if start == end {
        // Nothing but whitespace: no identifier recorded.
        return None;
    }

    let mut acc: u32 = 0;
    let mut k: usize = start;
    while k < end
        invariant
            start <= k <= end <= n,
            start < end,
            n == s@.len(),
            t == trim_spec(s@),
            t == s@.subrange(start as int, end as int),
            forall|j: int| start <= j < k ==> is_digit(#[trigger] s@[j]),
            acc == digits_val(s@.subrange(start as int, k as int)),
        decreases end - k,
    {
        let c = s.get_char(k);
        let cv = c as u32;
        if cv < 48 || cv > 57 {
            // A non-digit inside the trimmed text: corrupt content.
            proof {
                assert(t[k - start as int] == s@[k as int]);
                assert(!all_digits(t));
            }
            return None;
        }
        let d = cv - 48;
        if acc > (u32::MAX - d) / 10 {
            // The value outgrows a process identifier: corrupt content.
            proof {
                let prefix = s@.subrange(start as int, k + 1 as int);
                assert(prefix.drop_last() =~= s@.subrange(start as int, k as int));
                assert(prefix.last() == s@[k as int]);
                assert(digits_val(prefix) == acc * 10 + d);
                assert(acc * 10 + d > u32::MAX) by {
                    assert(acc >= (u32::MAX - d) / 10 + 1);
                    assert(((u32::MAX - d) / 10 + 1) * 10 >= u32::MAX - d + 1) by (nonlinear_arith);
                    assert(acc * 10 >= ((u32::MAX - d) / 10 + 1) * 10) by (nonlinear_arith)
                        requires acc >= (u32::MAX - d) / 10 + 1;
                };
                if all_digits(t) {
                    assert(t.take(k + 1 - start as int) =~= prefix);
                    lemma_digits_prefix_le(t, k + 1 - start as int);
                }
            }
            return None;
        }
        proof {
            let prefix = s@.subrange(start as int, k + 1 as int);
            assert(prefix.drop_last() =~= s@.subrange(start as int, k as int));
            assert(prefix.last() == s@[k as int]);
            assert(acc <= (u32::MAX - d) / 10);
            assert(acc * 10 <= u32::MAX - d) by (nonlinear_arith)
                requires acc <= (u32::MAX - d) / 10;
        }
        acc = acc * 10 + d;
        k = k + 1;
    }
    proof {
        assert(t =~= s@.subrange(start as int, end as int));
        assert(all_digits(t)) by {
            assert(forall|j: int|
                0 <= j < t.len() ==> #[trigger] t[j] == s@[start as int + j] && is_digit(
                    s@[start as int + j],
                ));
        };
        assert(digits_val(t) == acc);
    }
    Some(acc)
}

// ---------------------------------------------------------------------
// PID-file names: `<prefix>_<repoName>.<extension>`.
// ---------------------------------------------------------------------

/// The file name the registry gives a repository's PID file.
pub open spec fn file_name_spec(prefix: Seq<char>, repo: Seq<char>, ext: Seq<char>) -> Seq<char> {
    prefix + "_"@ + repo + "."@ + ext
}

/// The repository name a PID-file name records, if the name follows the
/// convention for the given prefix and extension.
pub open spec fn repo_of_name(n: Seq<char>, prefix: Seq<char>, ext: Seq<char>) -> Option<
    Seq<char>,
> {
    if n.len() >= prefix.len() + ext.len() + 2 && n.subrange(0, prefix.len() as int + 1) == prefix
        + "_"@ && n.subrange(n.len() - ext.len() - 1, n.len() as int) == "."@ + ext {
        Some(n.subrange(prefix.len() as int + 1, n.len() - ext.len() - 1))
    } else {
        None
    }
}

/// Naming and parsing are inverse: the name built for a repository
/// always parses back to that repository, under every prefix and
/// extension.
pub proof fn lemma_file_name_round_trip(prefix: Seq<char>, repo: Seq<char>, ext: Seq<char>)
    ensures
        repo_of_name(file_name_spec(prefix, repo, ext), prefix, ext) == Some(repo),
{
    reveal_strlit("_");
    reveal_strlit(".");
    let n = file_name_spec(prefix, repo, ext);
    assert(n.subrange(0, prefix.len() as int + 1) =~= prefix + "_"@);
    assert(n.subrange(n.len() - ext.len() - 1, n.len() as int) =~= "."@ + ext);
    assert(n.subrange(prefix.len() as int + 1, n.len() - ext.len() - 1) =~= repo);
}

/// Recovers the repository name from a PID-file name: `Some` exactly
/// when the name follows the convention for this prefix and extension.
pub fn repo_of_file_name(name: &str, prefix: &str, extension: &str) -> (r: Option<String>)
    ensures
        match r {
            Some(repo) => repo_of_name(name@, prefix@, extension@) == Some(repo@),
            None => repo_of_name(name@, prefix@, extension@) is None,
        },
{
    proof {
        reveal_strlit("_");
        reveal_strlit(".");
    }
    let nl = name.unicode_len();
    let pl = prefix.unicode_len();
    let el = extension.unicode_len();
    if nl < pl {
        return None;
    }
    let rem = nl - pl;
    if rem < el {
        return None;
    }
    if rem - el < 2 {
        return None;
    }

    // The name opens with `<prefix>_`.
    let mut i: usize = 0;
    while i < pl
        invariant
            0 <= i <= pl,
            nl == name@.len(),
            pl == prefix@.len(),
            el == extension@.len(),
            nl >= pl + el + 2,
            forall|k: int| 0 <= k < i ==> name@[k] == prefix@[k],
        decreases pl - i,
    {
        if name.get_char(i) != prefix.get_char(i) {
            proof {
                assert(name@.subrange(0, pl as int + 1)[i as int] != (prefix@ + "_"@)[i as int]);
            }
            return None;
        }
        i = i + 1;
    }
    if name.get_char(pl) != '_' {
        proof {
            assert(name@.subrange(0, pl as int + 1)[pl as int] != (prefix@ + "_"@)[pl as int]);
        }
        return None;
    }

    // The name closes with `.<extension>`.
    if name.get_char(nl - el - 1) != '.' {
        proof {
            assert(name@.subrange(nl - el - 1, nl as int)[0] != ("."@ + extension@)[0]);
        }
        return None;
    }
    let mut j: usize = 0;
    while j < el
        invariant
            0 <= j <= el,
            nl == name@.len(),
            pl == prefix@.len(),
            el == extension@.len(),
            nl >= pl + el + 2,
            forall|k: int| 0 <= k < j ==> name@[nl - el + k] == extension@[k],
        decreases el - j,
    {
        if name.get_char(nl - el + j) != extension.get_char(j) {
            proof {
                reveal_strlit(".");
                assert(name@.subrange(nl - el - 1, nl as int)[j + 1] != ("."@ + extension@)[j
                    + 1]);
            }
            return None;
        }
        j = j + 1;
    }

    let repo = name.substring_char(pl + 1, nl - el - 1).to_owned();
    proof {
        assert(name@.subrange(0, pl as int + 1) =~= prefix@ + "_"@);
        assert(name@.subrange(nl - el - 1, nl as int) =~= "."@ + extension@);
    }
    Some(repo)
}

// ---------------------------------------------------------------------
// Foreground command decisions, over plain observations.
// ---------------------------------------------------------------------

/// Why a `start` refuses to proceed.
#[derive(PartialEq, Eq, Structural, Clone, Copy, Debug)]
pub enum StartError {
    /// The repository's local working copy does not exist.
    LocalPathMissing,
    /// A PID file for the repository already exists.
    AlreadyRunning,
}

/// Why an existing registration cannot be read.
#[derive(PartialEq, Eq, Structural, Clone, Copy, Debug)]
pub enum RegistryError {
    /// No PID file exists for the repository.
    NotRunning,
    /// The PID file exists but does not record a valid identifier; the
    /// command aborts and leaves the file for the operator.
    CorruptState,
}

/// What `stop` does once the registration is read.
#[derive(PartialEq, Eq, Structural, Clone, Copy, Debug)]
pub enum StopPlan {
    /// The recorded process exists: deliver the termination signal, then
    /// delete the PID file.
    Terminate(u32),
    /// The recorded process is gone: delete the stale PID file only.
    CleanStale(u32),
}

/// What `status` reports once the registration is read.
#[derive(PartialEq, Eq, Structural, Clone, Copy, Debug)]
pub enum StatusPlan {
    /// The recorded process exists: the sync daemon is running.
    Running(u32),
    /// The recorded process is gone: delete the stale PID file and
    /// report the healed state.
    CleanStale(u32),
}

/// The `start` precondition: the local path must exist and no PID file
/// may already be present, checked in that order.
pub open spec fn start_check_spec(local_exists: bool, already_registered: bool) -> Result<
    (),
    StartError,
> {
    if !local_exists {
        Err(StartError::LocalPathMissing)
    } else if already_registered {
        Err(StartError::AlreadyRunning)
    } else {
        Ok(())
    }
}

/// Decides whether a `start` may proceed to detach and register.
pub fn start_check(local_exists: bool, already_registered: bool) -> (r: Result<(), StartError>)
    ensures
        r == start_check_spec(local_exists, already_registered),
{
    if !local_exists {
        Err(StartError::LocalPathMissing)
    } else if already_registered {
        Err(StartError::AlreadyRunning)
    } else {
        Ok(())
    }
}

/// The view of an optionally-present PID file's text.
pub open spec fn content_view(content: Option<&String>) -> Option<Seq<char>> {
    match content {
        Some(s) => Some(s@),
        None => None,
    }
}

/// Reading a registration: absent file, corrupt content, or the recorded
/// identifier.
pub open spec fn check_registration_spec(content: Option<Seq<char>>) -> Result<
    u32,
    RegistryError,
> {
    match content {
        None => Err(RegistryError::NotRunning),
        Some(s) => match pid_of(s) {
            None => Err(RegistryError::CorruptState),
            Some(p) => Ok(p),
        },
    }
}

/// Reads a registration from the PID file's text, if the file exists.
pub fn check_registration(content: Option<&String>) -> (r: Result<u32, RegistryError>)
    ensures
        r == check_registration_spec(content_view(content)),
{
    match content {
        None => Err(RegistryError::NotRunning),
        Some(s) => match parse_pid(s.as_str()) {
            None => Err(RegistryError::CorruptState),
            Some(p) => Ok(p),
        },
    }
}

/// The `stop` decision over a read registration.
pub open spec fn stop_plan_spec(pid: u32, alive: bool) -> StopPlan {
    if alive {
        StopPlan::Terminate(pid)
    } else {
        StopPlan::CleanStale(pid)
    }
}

/// Decides what `stop` does for a recorded identifier, given whether a
/// process with that identifier exists.
pub fn stop_plan(pid: u32, alive: bool) -> (r: StopPlan)
    ensures
        r == stop_plan_spec(pid, alive),
{
    if alive {
        StopPlan::Terminate(pid)
    } else {
        StopPlan::CleanStale(pid)
    }
}

/// The `status` decision over a read registration.
pub open spec fn status_plan_spec(pid: u32, alive: bool) -> StatusPlan {
    if alive {
        StatusPlan::Running(pid)
    } else {
        StatusPlan::CleanStale(pid)
    }
}

/// Decides what `status` reports for a recorded identifier, given
/// whether a process with that identifier exists.
pub fn status_plan(pid: u32, alive: bool) -> (r: StatusPlan)
    ensures
        r == status_plan_spec(pid, alive),
{
    if alive {
        StatusPlan::Running(pid)
    } else {
        StatusPlan::CleanStale(pid)
    }
}

// ---------------------------------------------------------------------
// Enumeration: `list` walks every PID file matching the naming
// convention, reports each repository's liveness and deletes the stale
// entries as it goes.
// ---------------------------------------------------------------------

/// One enumerated PID file, as observed: its name, the identifier it
/// records, and whether a process with that identifier exists.
pub struct ListEntry {
    pub file_name: String,
    pub pid: u32,
    pub alive: bool,
}

/// Mathematical view of an enumerated PID file.
#[verifier::ext_equal]
pub struct EntryView {
    pub file_name: Seq<char>,
    pub pid: u32,
    pub alive: bool,
}

impl View for ListEntry {
    type V = EntryView;

    open spec fn view(&self) -> EntryView {
        EntryView { file_name: self.file_name@, pid: self.pid, alive: self.alive }
    }
}

/// One line of the enumeration's outcome: the repository parsed from the
/// file name, the file itself, and the recorded identifier.
pub struct ListReport {
    pub repo_name: String,
    pub file_name: String,
    pub pid: u32,
}

/// Mathematical view of one enumeration line.
#[verifier::ext_equal]
pub struct ReportView {
    pub repo_name: Seq<char>,
    pub file_name: Seq<char>,
    pub pid: u32,
}

impl View for ListReport {
    type V = ReportView;

    open spec fn view(&self) -> ReportView {
        ReportView {
            repo_name: self.repo_name@,
            file_name: self.file_name@,
            pid: self.pid,
        }
    }
}

/// The report built for one entry.
pub open spec fn report_spec(en: EntryView, prefix: Seq<char>, ext: Seq<char>) -> ReportView {
    ReportView {
        repo_name: repo_of_name(en.file_name, prefix, ext)->0,
        file_name: en.file_name,
        pid: en.pid,
    }
}

/// The reports for the entries whose recorded process exists, in
/// enumeration order.
pub open spec fn live_reports_spec(es: Seq<EntryView>, prefix: Seq<char>, ext: Seq<char>) -> Seq<
    ReportView,
>
    decreases es.len(),
{
    if es.len() == 0 {
        Seq::empty()
    } else {
        let rest = live_reports_spec(es.drop_last(), prefix, ext);
        if es.last().alive {
            rest.push(report_spec(es.last(), prefix, ext))
        } else {
            rest
        }
    }
}

/// The reports for the entries whose recorded process is gone — the
/// stale files `list` deletes — in enumeration order.
pub open spec fn stale_reports_spec(es: Seq<EntryView>, prefix: Seq<char>, ext: Seq<char>) -> Seq<
    ReportView,
>
    decreases es.len(),
{
    if es.len() == 0 {
        Seq::empty()
    } else {
        let rest = stale_reports_spec(es.drop_last(), prefix, ext);
        if !es.last().alive {
            rest.push(report_spec(es.last(), prefix, ext))
        } else {
            rest
        }
    }
}

/// Every enumerated entry lands in exactly one of the two lists: of N
/// entries with M live, the live list holds M and the stale list the
/// other N − M.
pub proof fn lemma_live_stale_partition(es: Seq<EntryView>, prefix: Seq<char>, ext: Seq<char>)
    ensures
        live_reports_spec(es, prefix, ext).len() + stale_reports_spec(es, prefix, ext).len()
            == es.len(),
    decreases es.len(),
{
    if es.len() > 0 {
        lemma_live_stale_partition(es.drop_last(), prefix, ext);
    }
}

/// The enumeration's outcome: what to report as running, and which stale
/// files to report and delete.
pub struct ListOutcome {
    pub live: Vec<ListReport>,
    pub stale: Vec<ListReport>,
}

/// Splits the enumerated PID files into live registrations and stale
/// ones; every stale file is handed back for deletion, so that after the
/// caller acts, exactly the live files remain.
pub fn list_plan(entries: &Vec<ListEntry>, prefix: &str, extension: &str) -> (r: ListOutcome)
    requires
        forall|i: int|
            0 <= i < entries@.len() ==> (#[trigger] repo_of_name(
                entries@[i]@.file_name,
                prefix@,
                extension@,
            )) is Some,
    ensures
        r.live@.map_values(|x: ListReport| x@) == live_reports_spec(
            entries@.map_values(|en: ListEntry| en@),
            prefix@,
            extension@,
        ),
        r.stale@.map_values(|x: ListReport| x@) == stale_reports_spec(
            entries@.map_values(|en: ListEntry| en@),
            prefix@,
            extension@,
        ),
{
    let ghost es = entries@.map_values(|en: ListEntry| en@);
    let mut live: Vec<ListReport> = Vec::new();
    let mut stale: Vec<ListReport> = Vec::new();
    let mut i: usize = 0;
    while i < entries.len()
        invariant
            0 <= i <= entries@.len(),
            es == entries@.map_values(|en: ListEntry| en@),
            forall|k: int|
                0 <= k < entries@.len() ==> (#[trigger] repo_of_name(
                    entries@[k]@.file_name,
                    prefix@,
                    extension@,
                )) is Some,
            live@.map_values(|x: ListReport| x@) == live_reports_spec(
                es.take(i as int),
                prefix@,
                extension@,
            ),
            stale@.map_values(|x: ListReport| x@) == stale_reports_spec(
                es.take(i as int),
                prefix@,
                extension@,
            ),
        decreases entries@.len() - i,
    {
        let en = &entries[i];
        let repo_name = match repo_of_file_name(en.file_name.as_str(), prefix, extension) {
            Some(s) => s,
            None => {
                proof {
                    assert(repo_of_name(entries@[i as int]@.file_name, prefix@, extension@)
                        is Some);
                }
                unreached()
            },
        };
        let report = ListReport {
            repo_name,
            file_name: String::clone(&en.file_name),
            pid: en.pid,
        };
        proof {
            assert(report@ == report_spec(es[i as int], prefix@, extension@));
            assert(es.take(i + 1).drop_last() =~= es.take(i as int));
            assert(es.take(i + 1).last() == es[i as int]);
        }
        if en.alive {
            live.push(report);
            proof {
                assert(live@.map_values(|x: ListReport| x@) =~= live_reports_spec(
                    es.take(i + 1),
                    prefix@,
                    extension@,
                ));
            }
        } else {
            stale.push(report);
            proof {
                assert(stale@.map_values(|x: ListReport| x@) =~= stale_reports_spec(
                    es.take(i + 1),
                    prefix@,
                    extension@,
                ));
            }
        }
        i = i + 1;
    }
    proof {
        assert(es.take(entries@.len() as int) =~= es);
    }
    ListOutcome { live, stale }
}

} // verus!

