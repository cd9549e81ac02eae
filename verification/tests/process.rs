use verge_core::error::ControlError;
use verge_core::platform::Platform;
use verge_core::process::{
    KillTarget, LivenessProbe, LookupOutcome, ProcessGroup, ProcessManager, CLEANUP_TIMEOUT_SECS,
    KILL_SETTLE_MILLIS, KILL_TIMEOUT_SECS, LOOKUP_TIMEOUT_SECS, STILL_ACTIVE,
};

fn group(name: &str, pids: &[u32]) -> Result<ProcessGroup, ControlError> {
    Ok(ProcessGroup { name: String::from(name), pids: pids.to_vec() })
}

fn target(pid: u32, name: &str) -> KillTarget {
    KillTarget { pid, name: String::from(name) }
}

#[test]
fn timeouts_of_the_cleanup() {
    assert_eq!(CLEANUP_TIMEOUT_SECS, 30);
    assert_eq!(LOOKUP_TIMEOUT_SECS, 5);
    assert_eq!(KILL_TIMEOUT_SECS, 3);
    assert_eq!(KILL_SETTLE_MILLIS, 100);
    assert_eq!(STILL_ACTIVE, 259);
}

#[test]
fn engine_names_per_platform() {
    assert_eq!(
        ProcessManager::target_process_names(Platform::Linux),
        vec![String::from("verge-mihomo"), String::from("verge-mihomo-alpha")]
    );
    assert_eq!(
        ProcessManager::target_process_names(Platform::MacOs),
        vec![String::from("verge-mihomo"), String::from("verge-mihomo-alpha")]
    );
    assert_eq!(
        ProcessManager::target_process_names(Platform::Windows),
        vec![String::from("verge-mihomo.exe"), String::from("verge-mihomo-alpha.exe")]
    );
}

#[test]
fn lookup_command_per_platform() {
    assert_eq!(ProcessManager::lookup_command(Platform::Linux), Some(String::from("pidof")));
    assert_eq!(ProcessManager::lookup_command(Platform::MacOs), Some(String::from("pgrep")));
    assert_eq!(ProcessManager::lookup_command(Platform::Windows), None);
}

#[test]
fn pid_list_is_cut_at_white_space() {
    assert_eq!(ProcessManager::parse_pid_list("123 456"), vec![123, 456]);
    assert_eq!(ProcessManager::parse_pid_list("123\n456\n"), vec![123, 456]);
    assert_eq!(ProcessManager::parse_pid_list("  \t 7 \r\n  8\t9  "), vec![7, 8, 9]);
    assert_eq!(ProcessManager::parse_pid_list("1\u{3000}2\u{a0}3\u{2003}4"), vec![1, 2, 3, 4]);
    assert_eq!(ProcessManager::parse_pid_list("42"), vec![42]);
}

#[test]
fn pid_list_of_nothing_is_empty() {
    assert_eq!(ProcessManager::parse_pid_list(""), Vec::<u32>::new());
    assert_eq!(ProcessManager::parse_pid_list(" \n\t "), Vec::<u32>::new());
}

#[test]
fn pieces_that_are_no_number_are_passed_over() {
    assert_eq!(
        ProcessManager::parse_pid_list("abc 12 1x 13 -3 3.5 0x10 14"),
        vec![12, 13, 14]
    );
    assert_eq!(ProcessManager::parse_pid_list("+ - ++1 +-1 1+ ٣"), Vec::<u32>::new());
}

#[test]
fn numbers_may_have_a_plus_sign_and_leading_zeros() {
    assert_eq!(ProcessManager::parse_pid_list("+7 007 +0 0"), vec![7, 7, 0, 0]);
}

#[test]
fn numbers_must_fit_in_32_bits() {
    assert_eq!(
        ProcessManager::parse_pid_list("4294967295 4294967296 99999999999999999999999 1"),
        vec![4294967295, 1]
    );
    assert_eq!(ProcessManager::parse_pid_list("00000000004294967295"), vec![4294967295]);
}

#[test]
fn pid_list_agrees_with_the_standard_library() {
    let samples = [
        "1 2 3",
        "",
        "0 7 +7 -7 + 007 4294967295 4294967296 12a a12 ++1",
        "  12\n+13\t-14 015 4294967296 x",
        "9\u{85}10\u{1680}11\u{2028}12\u{2029}13\u{202f}14\u{205f}15",
        "1\u{200b}2 3",
        "٣ 4 ５",
    ];
    for sample in samples {
        let expected: Vec<u32> =
            sample.split_whitespace().filter_map(|piece| piece.parse::<u32>().ok()).collect();
        assert_eq!(ProcessManager::parse_pid_list(sample), expected);
    }
}

#[test]
fn lookup_that_printed_pids() {
    let outcome = LookupOutcome::Completed { succeeded: true, stdout: String::from("10 20\n") };
    assert_eq!(
        ProcessManager::find_processes_by_name(String::from("verge-mihomo"), outcome),
        group("verge-mihomo", &[10, 20])
    );
}

#[test]
fn lookup_whose_command_failed_found_nothing() {
    let outcome = LookupOutcome::Completed { succeeded: false, stdout: String::from("10 20") };
    assert_eq!(
        ProcessManager::find_processes_by_name(String::from("verge-mihomo"), outcome),
        group("verge-mihomo", &[])
    );
}

#[test]
fn lookup_by_enumeration() {
    assert_eq!(
        ProcessManager::find_processes_by_name(
            String::from("verge-mihomo.exe"),
            LookupOutcome::Enumerated(vec![4, 8])
        ),
        group("verge-mihomo.exe", &[4, 8])
    );
}

#[test]
fn lookup_that_timed_out_found_nothing() {
    assert_eq!(
        ProcessManager::find_processes_by_name(String::from("n"), LookupOutcome::TimedOut),
        group("n", &[])
    );
}

#[test]
fn lookup_that_could_not_be_made_is_an_error() {
    assert_eq!(
        ProcessManager::find_processes_by_name(
            String::from("n"),
            LookupOutcome::Failed(String::from("pidof: not found"))
        ),
        Err(ControlError::TransientLookupFailure(String::from("pidof: not found")))
    );
}

#[test]
fn snapshot_names_match_without_regard_to_ascii_case() {
    assert!(ProcessManager::snapshot_entry_matches("Verge-Mihomo.EXE", "verge-mihomo.exe"));
    assert!(ProcessManager::snapshot_entry_matches("verge-mihomo.exe", "verge-mihomo.exe"));
    assert!(ProcessManager::snapshot_entry_matches("", ""));
    assert!(!ProcessManager::snapshot_entry_matches("verge-mihomo.exe", "verge-mihomo"));
    assert!(!ProcessManager::snapshot_entry_matches("verge_mihomo.exe", "verge-mihomo.exe"));
    assert!(!ProcessManager::snapshot_entry_matches("É", "é"));
    assert!(!ProcessManager::snapshot_entry_matches("@", "`"));
    assert!(!ProcessManager::snapshot_entry_matches("[", "{"));
    assert!(ProcessManager::snapshot_entry_matches("AZ", "az"));
}

#[test]
fn name_in_a_buffer_ends_at_the_first_zero() {
    assert_eq!(ProcessManager::exe_name_len(&[97, 98, 0, 99, 0]), 2);
    assert_eq!(ProcessManager::exe_name_len(&[0, 97]), 0);
    assert_eq!(ProcessManager::exe_name_len(&[97, 98, 99]), 3);
    assert_eq!(ProcessManager::exe_name_len(&[]), 0);
}

#[test]
fn known_pid_is_never_on_the_kill_list() {
    let lookups = vec![group("verge-mihomo", &[10, 20, 30]), group("verge-mihomo-alpha", &[20, 40])];
    let targets = ProcessManager::cleanup_orphaned_processes(Some(20), lookups);
    assert_eq!(
        targets,
        vec![
            target(10, "verge-mihomo"),
            target(30, "verge-mihomo"),
            target(40, "verge-mihomo-alpha"),
        ]
    );
    assert!(targets.iter().all(|t| t.pid != 20));
}

#[test]
fn without_a_known_pid_everything_found_is_killed() {
    let lookups = vec![group("a", &[1, 2]), group("b", &[3])];
    assert_eq!(
        ProcessManager::cleanup_orphaned_processes(None, lookups),
        vec![target(1, "a"), target(2, "a"), target(3, "b")]
    );
}

#[test]
fn failed_lookups_are_passed_over() {
    let lookups = vec![
        Err(ControlError::TransientLookupFailure(String::from("x"))),
        group("b", &[3, 5]),
        Err(ControlError::TransientLookupFailure(String::from("y"))),
    ];
    assert_eq!(
        ProcessManager::cleanup_orphaned_processes(Some(5), lookups),
        vec![target(3, "b")]
    );
}

#[test]
fn nothing_found_means_nothing_to_kill() {
    assert_eq!(ProcessManager::cleanup_orphaned_processes(Some(1), Vec::new()), Vec::new());
    assert_eq!(
        ProcessManager::cleanup_orphaned_processes(Some(1), vec![group("a", &[1]), group("b", &[])]),
        Vec::new()
    );
}

#[test]
fn liveness_by_ps() {
    assert!(ProcessManager::is_process_running(LivenessProbe::Ps { succeeded: true, stdout_len: 1 }));
    assert!(!ProcessManager::is_process_running(LivenessProbe::Ps { succeeded: true, stdout_len: 0 }));
    assert!(!ProcessManager::is_process_running(LivenessProbe::Ps {
        succeeded: false,
        stdout_len: 9
    }));
}

#[test]
fn liveness_by_exit_code() {
    assert!(ProcessManager::is_process_running(LivenessProbe::ExitCode(259)));
    assert!(!ProcessManager::is_process_running(LivenessProbe::ExitCode(0)));
    assert!(!ProcessManager::is_process_running(LivenessProbe::ExitCode(1)));
    assert!(!ProcessManager::is_process_running(LivenessProbe::NotOpened));
    assert!(!ProcessManager::is_process_running(LivenessProbe::QueryFailed));
}

#[test]
fn kill_counts_only_when_verified() {
    let running = LivenessProbe::Ps { succeeded: true, stdout_len: 10 };
    let gone = LivenessProbe::Ps { succeeded: false, stdout_len: 0 };
    assert!(ProcessManager::kill_process_with_verification(true, Some(gone)));
    assert!(!ProcessManager::kill_process_with_verification(true, Some(running)));
    assert!(ProcessManager::kill_process_with_verification(true, None));
    assert!(!ProcessManager::kill_process_with_verification(false, Some(gone)));
    assert!(!ProcessManager::kill_process_with_verification(false, Some(running)));
    assert!(!ProcessManager::kill_process_with_verification(false, None));
    assert!(!ProcessManager::kill_process_with_verification(
        true,
        Some(LivenessProbe::ExitCode(STILL_ACTIVE))
    ));
    assert!(ProcessManager::kill_process_with_verification(true, Some(LivenessProbe::NotOpened)));
}

#[test]
fn killed_count_counts_successes() {
    assert_eq!(ProcessManager::killed_count(&Vec::new()), 0);
    assert_eq!(ProcessManager::killed_count(&vec![false, false]), 0);
    assert_eq!(ProcessManager::killed_count(&vec![true, false, true, true]), 3);
}

#[test]
fn only_the_overall_ceiling_fails_a_cleanup() {
    assert_eq!(
        ProcessManager::cleanup_result(None),
        Err(ControlError::Timeout(String::from("清理进程超时")))
    );
    assert_eq!(ProcessManager::cleanup_result(Some(Vec::new())), Ok(0));
    assert_eq!(ProcessManager::cleanup_result(Some(vec![false, false, false])), Ok(0));
    assert_eq!(ProcessManager::cleanup_result(Some(vec![true, false, true])), Ok(2));
    assert_eq!(ProcessManager::cleanup_result(Some(vec![true])), Ok(1));
}
