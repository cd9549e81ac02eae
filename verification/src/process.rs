use crate::error::ControlError;
use crate::platform::Platform;
use crate::text::{
    chars_of, find_token_end, find_token_start, parse_number, parse_u32, tokens, tokens_from,
};
use vstd::prelude::*;

verus! {

/// Seconds that a whole cleanup of stray engine processes may take.
pub const CLEANUP_TIMEOUT_SECS: u64 = 30;

/// Seconds that the lookup of one executable name may take.
pub const LOOKUP_TIMEOUT_SECS: u64 = 5;

/// Seconds that the termination of one process may take.
pub const KILL_TIMEOUT_SECS: u64 = 3;

/// Milliseconds between a termination and the check that it worked.
pub const KILL_SETTLE_MILLIS: u64 = 100;

/// The exit code that Windows reports for a process that still runs.
pub const STILL_ACTIVE: u32 = 259;

/// The processes found under one executable name.
#[derive(Debug, Clone, PartialEq, Eq)]
pub struct ProcessGroup {
    pub name: String,
    pub pids: Vec<u32>,
}

/// What a `ProcessGroup` holds, as mathematical values.
pub ghost struct GroupView {
    pub name: Seq<char>,
    pub pids: Seq<u32>,
}

impl View for ProcessGroup {
    type V = GroupView;

    open spec fn view(&self) -> GroupView {
        GroupView { name: self.name@, pids: self.pids@ }
    }
}

/// A process to terminate, with the executable name it was found under.
#[derive(Debug, Clone, PartialEq, Eq)]
pub struct KillTarget {
    pub pid: u32,
    pub name: String,
}

impl View for KillTarget {
    type V = (u32, Seq<char>);

    open spec fn view(&self) -> (u32, Seq<char>) {
        (self.pid, self.name@)
    }
}

/// How the lookup of one executable name ended.
#[derive(Debug, Clone, PartialEq, Eq)]
pub enum LookupOutcome {
    /// The lookup command ran: its exit status and what it printed.
    Completed { succeeded: bool, stdout: String },
    /// The process table was walked and these processes bear the name.
    Enumerated(Vec<u32>),
    /// The lookup took longer than `LOOKUP_TIMEOUT_SECS`.
    TimedOut,
    /// The lookup could not be made, for this reason.
    Failed(String),
}

/// What is known of a process after an attempt to find out whether it runs.
#[derive(Clone, Copy, Debug, PartialEq, Eq, Structural)]
pub enum LivenessProbe {
    /// `ps -p` ran: its exit status and the number of bytes it printed.
    Ps { succeeded: bool, stdout_len: usize },
    /// The process could not be opened for a query.
    NotOpened,
    /// The process was opened but its exit code could not be read.
    QueryFailed,
    /// The exit code that the system reports for the process.
    ExitCode(u32),
}

/// The numbers that a list of tokens names: each token that stands for a
/// number gives that number, every other token gives nothing.
pub open spec fn pids_of(tokens: Seq<Seq<char>>) -> Seq<u32>
    decreases tokens.len(),
{
    if tokens.len() == 0 {
        Seq::empty()
    } else {
        let rest = pids_of(tokens.drop_first());
        match parse_u32(tokens[0]) {
            Some(pid) => seq![pid] + rest,
            None => rest,
        }
    }
}

/// The process ids that the output of a lookup command names.
pub open spec fn pid_list(stdout: Seq<char>) -> Seq<u32> {
    pids_of(tokens(stdout))
}

/// The processes that a lookup found: those that the command printed
/// where it succeeded, those that the walk found, none where the command
/// failed or the lookup timed out. A lookup that could not be made found
/// nothing that can be named.
pub open spec fn found_pids(outcome: LookupOutcome) -> Option<Seq<u32>> {
    match outcome {
        LookupOutcome::Completed { succeeded, stdout } => Some(
            if succeeded {
                pid_list(stdout@)
            } else {
                Seq::empty()
            },
        ),
        LookupOutcome::Enumerated(pids) => Some(pids@),
        LookupOutcome::TimedOut => Some(Seq::empty()),
        LookupOutcome::Failed(_) => None,
    }
}

/// The processes of `pids` other than `current`, each with `name`.
pub open spec fn orphans_in(pids: Seq<u32>, name: Seq<char>, current: Option<u32>) -> Seq<
    (u32, Seq<char>),
>
    decreases pids.len(),
{
    if pids.len() == 0 {
        Seq::empty()
    } else {
        let earlier = orphans_in(pids.drop_last(), name, current);
        if current == Some(pids.last()) {
            earlier
        } else {
            earlier.push((pids.last(), name))
        }
    }
}

/// The processes to terminate: every process of every lookup that came
/// back, in order, but for `current`.
pub open spec fn orphans(lookups: Seq<Option<GroupView>>, current: Option<u32>) -> Seq<
    (u32, Seq<char>),
>
    decreases lookups.len(),
{
    if lookups.len() == 0 {
        Seq::empty()
    } else {
        let earlier = orphans(lookups.drop_last(), current);
        match lookups.last() {
            Some(group) => earlier + orphans_in(group.pids, group.name, current),
            None => earlier,
        }
    }
}

/// A lookup as the cleanup sees it: the group where it came back, nothing
/// where it failed.
pub open spec fn lookup_view(lookup: Result<ProcessGroup, ControlError>) -> Option<GroupView> {
    match lookup {
        Ok(group) => Some(group@),
        Err(_) => None,
    }
}

/// The views of a list of kill targets.
pub open spec fn target_views(targets: Seq<KillTarget>) -> Seq<(u32, Seq<char>)> {
    targets.map_values(|t: KillTarget| t@)
}

/// The number of `true` in a list.
pub open spec fn count_true(results: Seq<bool>) -> nat
    decreases results.len(),
{
    if results.len() == 0 {
        0
    } else {
        count_true(results.drop_last()) + if results.last() {
            1nat
        } else {
            0nat
        }
    }
}

/// Whether a probe shows that the process runs: `ps` succeeded and
/// printed something, or the system reports the exit code `STILL_ACTIVE`.
pub open spec fn shows_running(probe: LivenessProbe) -> bool {
    match probe {
        LivenessProbe::Ps { succeeded, stdout_len } => succeeded && stdout_len > 0,
        LivenessProbe::NotOpened => false,
        LivenessProbe::QueryFailed => false,
        LivenessProbe::ExitCode(code) => code == STILL_ACTIVE,
    }
}

/// The lower-case form of an ASCII capital letter; any other code point
/// as it is.
pub open spec fn ascii_lower(code: u32) -> u32 {
    if 0x41 <= code <= 0x5A {
        (code + 0x20) as u32
    } else {
        code
    }
}

/// Whether two names are equal but for the case of ASCII letters.
pub open spec fn same_name(first: Seq<char>, second: Seq<char>) -> bool {
    &&& first.len() == second.len()
    &&& forall|i: int|
        0 <= i < first.len() ==> ascii_lower(first[i] as u32) == ascii_lower(second[i] as u32)
}

/// The position of the first zero in `buffer`; its length where it holds
/// none.
pub open spec fn terminator(buffer: Seq<u16>) -> int
    decreases buffer.len(),
{
    if buffer.len() == 0 || buffer[0] == 0 {
        0
    } else {
        1 + terminator(buffer.drop_first())
    }
}

fn lower(code: u32) -> (r: u32)
    ensures
        r == ascii_lower(code),
{
    if 0x41 <= code && code <= 0x5A {
        code + 0x20
    } else {
        code
    }
}

/// Finds and terminates stray engine processes.
///
/// The work with the operating system is the caller's; the decisions are
/// made here.
pub struct ProcessManager;

impl ProcessManager {
    /// The executable names under which the engine runs.
    pub fn target_process_names(platform: Platform) -> (names: Vec<String>)
        ensures
            names.deep_view() == if platform == Platform::Windows {
                seq!["verge-mihomo.exe"@, "verge-mihomo-alpha.exe"@]
            } else {
                seq!["verge-mihomo"@, "verge-mihomo-alpha"@]
            },
    {
        let mut names: Vec<String> = Vec::new();
        match platform {
            Platform::Windows => {
                names.push(String::from_str("verge-mihomo.exe"));
                names.push(String::from_str("verge-mihomo-alpha.exe"));
                assert(names.deep_view() =~= seq![
                    "verge-mihomo.exe"@,
                    "verge-mihomo-alpha.exe"@,
                ]);
            },
            _ => {
                names.push(String::from_str("verge-mihomo"));
                names.push(String::from_str("verge-mihomo-alpha"));
                assert(names.deep_view() =~= seq!["verge-mihomo"@, "verge-mihomo-alpha"@]);
            },
        }
        names
    }

    /// The command that lists the processes of an executable name; none
    /// on Windows, where the process table is walked.
    pub fn lookup_command(platform: Platform) -> (command: Option<String>)
        ensures
            command.deep_view() == match platform {
                Platform::Windows => None,
                Platform::MacOs => Some("pgrep"@),
                Platform::Linux => Some("pidof"@),
            },
    {
        match platform {
            Platform::Windows => None,
            Platform::MacOs => Some(String::from_str("pgrep")),
            Platform::Linux => Some(String::from_str("pidof")),
        }
    }

    /// Reads the process ids out of what a lookup command printed: the
    /// output is cut at white space, and each piece that is a number gives
    /// a process id. Pieces that are no number are passed over.
    pub fn parse_pid_list(stdout: &str) -> (pids: Vec<u32>)
        ensures
            pids@ == pid_list(stdout@),
    {
        let text = chars_of(stdout);
        let mut pids: Vec<u32> = Vec::new();
        let mut position: usize = 0;
        loop
            invariant
                position <= text.len(),
                text@ == stdout@,
                pids@ + pids_of(tokens_from(text@, position as int)) == pid_list(stdout@),
            ensures
                pids@ == pid_list(stdout@),
            decreases text.len() - position,
        {
            let start = find_token_start(&text, position);
            if start >= text.len() {
                assert(pids@ + Seq::<u32>::empty() =~= pids@);
                break ;
            }
            let end = find_token_end(&text, start + 1);
            let ghost rest = tokens_from(text@, end as int);
            let ghost token = text@.subrange(start as int, end as int);
            assert((seq![token] + rest).drop_first() =~= rest);
            let ghost before = pids@;
            match parse_number(&text, start, end) {
                Some(pid) => {
                    pids.push(pid);
                    assert(pids@ + pids_of(rest) =~= before + (seq![pid] + pids_of(rest)));
                },
                None => {},
            }
            position = end;
        }
        pids
    }

    /// Works out which processes a lookup found under `process_name`.
    ///
    /// A lookup that timed out, or whose command failed, found none. One
    /// that could not be made is passed on as an error, which the cleanup
    /// treats as "nothing found".
    pub fn find_processes_by_name(process_name: String, outcome: LookupOutcome) -> (found: Result<
        ProcessGroup,
        ControlError,
    >)
        ensures
            match found_pids(outcome) {
                Some(pids) => found matches Ok(group) && group@ == (GroupView {
                    name: process_name@,
                    pids,
                }),
                None => found matches Err(ControlError::TransientLookupFailure(text))
                    && outcome matches LookupOutcome::Failed(reason) && text@ == reason@,
            },
    {
        match outcome {
            LookupOutcome::Completed { succeeded, stdout } => {
                let pids = if succeeded {
                    Self::parse_pid_list(stdout.as_str())
                } else {
                    Vec::new()
                };
                Ok(ProcessGroup { name: process_name, pids })
            },
            LookupOutcome::Enumerated(pids) => Ok(ProcessGroup { name: process_name, pids }),
            LookupOutcome::TimedOut => Ok(ProcessGroup { name: process_name, pids: Vec::new() }),
            LookupOutcome::Failed(reason) => Err(ControlError::TransientLookupFailure(reason)),
        }
    }

    /// Whether an entry of the process table bears `process_name`, the
    /// case of ASCII letters set aside.
    pub fn snapshot_entry_matches(exe_file: &str, process_name: &str) -> (r: bool)
        ensures
            r == same_name(exe_file@, process_name@),
    {
        let first = chars_of(exe_file);
        let second = chars_of(process_name);
        if first.len() != second.len() {
            return false;
        }
        let mut i: usize = 0;
        while i < first.len()
            invariant
                i <= first.len(),
                first.len() == second.len(),
                first@ == exe_file@,
                second@ == process_name@,
                forall|j: int|
                    0 <= j < i ==> ascii_lower(first[j] as u32) == ascii_lower(second[j] as u32),
            decreases first.len() - i,
        {
            if lower(first[i] as u32) != lower(second[i] as u32) {
                return false;
            }
            i += 1;
        }
        true
    }

    /// The length of the name in a zero-terminated buffer of UTF-16 code
    /// units: the position of the first zero, or the whole buffer where it
    /// holds none.
    pub fn exe_name_len(buffer: &[u16]) -> (len: usize)
        ensures
            len == terminator(buffer@),
            len <= buffer@.len(),
    {
        let mut i: usize = 0;
        assert(buffer@.skip(0) =~= buffer@);
        while i < buffer.len() && buffer[i] != 0
            invariant
                i <= buffer.len(),
                terminator(buffer@) == i + terminator(buffer@.skip(i as int)),
            decreases buffer.len() - i,
        {
            assert(buffer@.skip(i as int).drop_first() =~= buffer@.skip(i + 1));
            i += 1;
        }
        i
    }

    /// Lists the processes to terminate: all that the lookups found, in
    /// the order of the lookups, but for the one that the engine
    /// controller supervises. Lookups that failed are passed over.
    pub fn cleanup_orphaned_processes(
        current_pid: Option<u32>,
        lookups: Vec<Result<ProcessGroup, ControlError>>,
    ) -> (targets: Vec<KillTarget>)
        ensures
            target_views(targets@) == orphans(lookups@.map_values(|l| lookup_view(l)), current_pid),
    {
        let ghost views = lookups@.map_values(|l| lookup_view(l));
        let mut targets: Vec<KillTarget> = Vec::new();
        let mut i: usize = 0;
        assert(target_views(targets@) =~= orphans(views.take(0), current_pid));
        while i < lookups.len()
            invariant
                i <= lookups.len(),
                views == lookups@.map_values(|l| lookup_view(l)),
                target_views(targets@) == orphans(views.take(i as int), current_pid),
            decreases lookups.len() - i,
        {
            assert(views.take(i + 1).drop_last() =~= views.take(i as int));
            assert(views.take(i + 1).last() == lookup_view(lookups[i as int]));
            match &lookups[i] {
                Ok(group) => {
                    let ghost earlier = targets@;
                    let mut j: usize = 0;
                    assert(group.pids@.take(0) =~= Seq::<u32>::empty());
                    assert(target_views(targets@) =~= target_views(earlier) + orphans_in(
                        group.pids@.take(0),
                        group.name@,
                        current_pid,
                    ));
                    while j < group.pids.len()
                        invariant
                            j <= group.pids.len(),
                            target_views(targets@) == target_views(earlier) + orphans_in(
                                group.pids@.take(j as int),
                                group.name@,
                                current_pid,
                            ),
                        decreases group.pids.len() - j,
                    {
                        let pid = group.pids[j];
                        assert(group.pids@.take(j + 1).drop_last() =~= group.pids@.take(j as int));
                        assert(group.pids@.take(j + 1).last() == pid);
                        let skip = match current_pid {
                            Some(current) => pid == current,
                            None => false,
                        };
                        if !skip {
                            let ghost before = targets@;
                            let target = KillTarget { pid, name: group.name.clone() };
                            targets.push(target);
                            assert(target_views(targets@) =~= target_views(before).push(target@));
                            assert(target_views(targets@) =~= target_views(earlier) + orphans_in(
                                group.pids@.take(j + 1),
                                group.name@,
                                current_pid,
                            ));
                        }
                        j += 1;
                    }
                    assert(group.pids@.take(group.pids.len() as int) =~= group.pids@);
                },
                Err(_) => {},
            }
            i += 1;
        }
        assert(views.take(lookups.len() as int) =~= views);
        targets
    }

    /// Whether a probe shows that the process runs.
    pub fn is_process_running(probe: LivenessProbe) -> (running: bool)
        ensures
            running == shows_running(probe),
    {
        match probe {
            LivenessProbe::Ps { succeeded, stdout_len } => succeeded && stdout_len > 0,
            LivenessProbe::NotOpened => false,
            LivenessProbe::QueryFailed => false,
            LivenessProbe::ExitCode(code) => code == STILL_ACTIVE,
        }
    }

    /// Whether a process counts as terminated: the system accepted the
    /// termination, and the probe made afterwards does not show the
    /// process running. A probe that could not be made (`None`) shows
    /// nothing.
    pub fn kill_process_with_verification(kill_succeeded: bool, probe: Option<LivenessProbe>) -> (killed:
        bool)
        ensures
            killed == (kill_succeeded && !(probe matches Some(p) && shows_running(p))),
    {
        if !kill_succeeded {
            return false;
        }
        let still_running = match probe {
            Some(p) => Self::is_process_running(p),
            None => false,
        };
        !still_running
    }

    /// The number of processes that a cleanup terminated.
    pub fn killed_count(kill_results: &Vec<bool>) -> (killed: usize)
        ensures
            killed == count_true(kill_results@),
    {
        let mut killed: usize = 0;
        let mut i: usize = 0;
        assert(kill_results@.take(0) =~= Seq::<bool>::empty());
        while i < kill_results.len()
            invariant
                i <= kill_results.len(),
                killed <= i,
                killed == count_true(kill_results@.take(i as int)),
            decreases kill_results.len() - i,
        {
            assert(kill_results@.take(i + 1).drop_last() =~= kill_results@.take(i as int));
            if kill_results[i] {
                killed += 1;
            }
            i += 1;
        }
        assert(kill_results@.take(kill_results.len() as int) =~= kill_results@);
        killed
    }

    /// The result of a cleanup.
    ///
    /// `finished` holds, for each termination, whether it counted, where
    /// the cleanup came to its end within `CLEANUP_TIMEOUT_SECS`; it is
    /// `None` where that ceiling was hit. Only the ceiling is an error:
    /// a cleanup that came to its end succeeded, however its terminations
    /// ended, and answers with the number of processes terminated.
    pub fn cleanup_result(finished: Option<Vec<bool>>) -> (r: Result<usize, ControlError>)
        ensures
            match finished {
                Some(kill_results) => r == Ok::<usize, ControlError>(
                    count_true(kill_results@) as usize,
                ) && count_true(kill_results@) <= usize::MAX,
                None => r matches Err(ControlError::Timeout(text)) && text@ == "清理进程超时"@,
            },
    {
        match finished {
            Some(kill_results) => Ok(Self::killed_count(&kill_results)),
            None => Err(ControlError::Timeout(String::from_str("清理进程超时"))),
        }
    }
}

/// Whether a kill list names the process `pid`.
pub open spec fn names_pid(targets: Seq<(u32, Seq<char>)>, pid: u32) -> bool {
    exists|i: int| 0 <= i < targets.len() && (#[trigger] targets[i]).0 == pid
}

/// The process that the engine controller supervises is never on the kill
/// list, whatever the lookups found.
pub proof fn lemma_current_not_in_orphans(lookups: Seq<Option<GroupView>>, current: u32)
    ensures
        !names_pid(orphans(lookups, Some(current)), current),
    decreases lookups.len(),
{
    let all = orphans(lookups, Some(current));
    if lookups.len() > 0 {
        let earlier = orphans(lookups.drop_last(), Some(current));
        lemma_current_not_in_orphans(lookups.drop_last(), current);
        match lookups.last() {
            Some(group) => {
                let tail = orphans_in(group.pids, group.name, Some(current));
                lemma_current_not_in_group_orphans(group.pids, group.name, current);
                assert forall|i: int| 0 <= i < all.len() implies (#[trigger] all[i]).0
                    != current by {
                    if i < earlier.len() {
                        assert(all[i] == earlier[i]);
                    } else {
                        assert(all[i] == tail[i - earlier.len()]);
                    }
                }
            },
            None => {},
        }
    }
}

proof fn lemma_current_not_in_group_orphans(pids: Seq<u32>, name: Seq<char>, current: u32)
    ensures
        !names_pid(orphans_in(pids, name, Some(current)), current),
    decreases pids.len(),
{
    let all = orphans_in(pids, name, Some(current));
    if pids.len() > 0 {
        let earlier = orphans_in(pids.drop_last(), name, Some(current));
        lemma_current_not_in_group_orphans(pids.drop_last(), name, current);
        assert forall|i: int| 0 <= i < all.len() implies (#[trigger] all[i]).0 != current by {
            if i < earlier.len() {
                assert(all[i] == earlier[i]);
            }
        }
    }
}

/// Every process that a lookup found is on the kill list, but for the one
/// that the engine controller supervises.
pub proof fn lemma_found_process_is_orphan(
    lookups: Seq<Option<GroupView>>,
    current: Option<u32>,
    at: int,
    index: int,
)
    requires
        0 <= at < lookups.len(),
        lookups[at] matches Some(group) && 0 <= index < group.pids.len() && current != Some(
            group.pids[index],
        ),
    ensures
        orphans(lookups, current).contains((lookups[at].unwrap().pids[index], lookups[at].unwrap().name)),
    decreases lookups.len(),
{
    let all = orphans(lookups, current);
    let earlier = orphans(lookups.drop_last(), current);
    let group = lookups[at].unwrap();
    let wanted = (group.pids[index], group.name);
    if at == lookups.len() - 1 {
        lemma_pid_is_group_orphan(group.pids, group.name, current, index);
        let tail = orphans_in(group.pids, group.name, current);
        let k = choose|k: int| 0 <= k < tail.len() && tail[k] == wanted;
        assert(all[earlier.len() + k] == wanted);
    } else {
        lemma_found_process_is_orphan(lookups.drop_last(), current, at, index);
        let k = choose|k: int| 0 <= k < earlier.len() && earlier[k] == wanted;
        assert(all[k] == wanted);
    }
}

proof fn lemma_pid_is_group_orphan(
    pids: Seq<u32>,
    name: Seq<char>,
    current: Option<u32>,
    index: int,
)
    requires
        0 <= index < pids.len(),
        current != Some(pids[index]),
    ensures
        orphans_in(pids, name, current).contains((pids[index], name)),
    decreases pids.len(),
{
    let all = orphans_in(pids, name, current);
    let earlier = orphans_in(pids.drop_last(), name, current);
    if index == pids.len() - 1 {
        assert(all[all.len() - 1] == (pids[index], name));
    } else {
        lemma_pid_is_group_orphan(pids.drop_last(), name, current, index);
        let k = choose|k: int| 0 <= k < earlier.len() && earlier[k] == (pids[index], name);
        assert(all[k] == (pids[index], name));
    }
}

} // verus!
