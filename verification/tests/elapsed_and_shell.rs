use chokidar::command::{
    completion_banner, count_label, count_tone, error_line, initial_banner, invocation, report_run,
    running_banner, watching_banner, CountTone, ExecutionResult, ExitStatus,
};
use chokidar::elapsed::{decimal_string, round_to_seconds, time_to_str};
use chokidar::errors::WatchError;
use chokidar::{Args, Shell};

#[test]
fn elapsed_zero_is_immediately() {
    assert_eq!(time_to_str(0), "immediately");
}

#[test]
fn elapsed_below_a_minute_is_seconds() {
    assert_eq!(time_to_str(1), "in 1s");
    assert_eq!(time_to_str(45), "in 45s");
    assert_eq!(time_to_str(59), "in 59s");
}

#[test]
fn elapsed_whole_minutes_drop_the_seconds() {
    assert_eq!(time_to_str(60), "in 1m");
    assert_eq!(time_to_str(180), "in 3m");
    assert_eq!(time_to_str(3600), "in 60m");
}

#[test]
fn elapsed_minutes_and_seconds() {
    assert_eq!(time_to_str(61), "in 1m 1s");
    assert_eq!(time_to_str(125), "in 2m 5s");
    assert_eq!(time_to_str(3599), "in 59m 59s");
}

#[test]
fn elapsed_largest_value() {
    assert_eq!(time_to_str(u64::MAX), "in 307445734561825860m 15s");
}

#[test]
fn decimal_string_matches_std() {
    for n in [0u64, 7, 9, 10, 11, 99, 100, 101, 1000, 4999, 12345678901234567890, u64::MAX] {
        assert_eq!(decimal_string(n), format!("{}", n));
    }
}

#[test]
fn shell_from_known_names() {
    assert_eq!(Shell::from("bash"), Shell::Bash);
    assert_eq!(Shell::from("zsh"), Shell::Zsh);
    assert_eq!(Shell::from("sh"), Shell::Sh);
    assert_eq!(Shell::from("fish"), Shell::Fish);
    assert_eq!(Shell::from("cmd"), Shell::Cmd);
    assert_eq!(Shell::from("powershell"), Shell::Powershell);
    assert_eq!(Shell::from("pwsh"), Shell::Pwsh);
}

#[test]
fn shell_from_unknown_name_is_bash() {
    assert_eq!(Shell::from(""), Shell::Bash);
    assert_eq!(Shell::from("BASH"), Shell::Bash);
    assert_eq!(Shell::from("tcsh"), Shell::Bash);
    assert_eq!(Shell::from("zsh "), Shell::Bash);
}

#[test]
fn shell_names_round_trip() {
    let all = [
        (Shell::Bash, "bash"),
        (Shell::Zsh, "zsh"),
        (Shell::Sh, "sh"),
        (Shell::Fish, "fish"),
        (Shell::Cmd, "cmd"),
        (Shell::Powershell, "powershell"),
        (Shell::Pwsh, "pwsh"),
    ];
    for (shell, name) in all {
        assert_eq!(shell.name(), name);
        assert_eq!(shell.to_string(), name);
        assert_eq!(Shell::from(shell.name()), shell);
    }
}

#[test]
fn shell_default_is_bash() {
    assert_eq!(Shell::default(), Shell::Bash);
}

#[test]
fn inline_flag_is_slash_c_only_for_cmd() {
    assert_eq!(Shell::Cmd.inline_flag(), "/c");
    for shell in [Shell::Bash, Shell::Zsh, Shell::Sh, Shell::Fish, Shell::Powershell, Shell::Pwsh] {
        assert_eq!(shell.inline_flag(), "-c");
    }
}

#[test]
fn invocation_runs_in_the_working_directory() {
    let inv = invocation(Shell::Sh, "pwd", "/srv/project");
    assert_eq!(inv.program, "sh");
    assert_eq!(inv.flag, "-c");
    assert_eq!(inv.command, "pwd");
    assert_eq!(inv.dir, "/srv/project");
    let inv = invocation(Shell::Cmd, "dir", "C:\\work");
    assert_eq!(inv.program, "cmd");
    assert_eq!(inv.flag, "/c");
    assert_eq!(inv.command, "dir");
    assert_eq!(inv.dir, "C:\\work");
}

#[test]
fn banners_have_the_documented_shape() {
    assert_eq!(running_banner(Shell::Bash, "cargo test"), "[Running(bash): cargo test]");
    assert_eq!(running_banner(Shell::Pwsh, ""), "[Running(pwsh): ]");
    assert_eq!(completion_banner(0), "[Command was successful immediately]");
    assert_eq!(completion_banner(45), "[Command was successful in 45s]");
    assert_eq!(completion_banner(125), "[Command was successful in 2m 5s]");
    assert_eq!(completion_banner(180), "[Command was successful in 3m]");
    assert_eq!(initial_banner(), "[initial run]");
    assert_eq!(watching_banner("12", "src/**/*.rs"), "[watching(12): src/**/*.rs]");
    assert_eq!(error_line("watch limit reached"), "Error watch limit reached");
}

#[test]
fn count_label_is_decimal() {
    assert_eq!(count_label(0), "0");
    assert_eq!(count_label(42), "42");
    assert_eq!(count_label(5000), "5000");
}

#[test]
fn count_tone_thresholds() {
    assert_eq!(count_tone(0), CountTone::Green);
    assert_eq!(count_tone(999), CountTone::Green);
    assert_eq!(count_tone(1000), CountTone::Yellow);
    assert_eq!(count_tone(4999), CountTone::Yellow);
    assert_eq!(count_tone(5000), CountTone::Red);
    assert_eq!(count_tone(usize::MAX), CountTone::Red);
}

#[test]
fn startup_errors_are_fatal_and_later_ones_are_not() {
    assert!(WatchError::InvalidPattern.is_fatal());
    assert!(WatchError::PathResolution.is_fatal());
    assert!(WatchError::WatchRegistration.is_fatal());
    assert!(!WatchError::NotificationStream.is_fatal());
    assert!(!WatchError::CommandSpawn.is_fatal());
}

#[test]
fn args_new_keeps_every_field() {
    let args = Args::new(
        400,
        true,
        Some(String::from("/tmp/work")),
        Shell::Fish,
        String::from("make"),
        String::from("src/**"),
    );
    assert_eq!(args.debounce(), 400);
    assert_eq!(args.debounce_millis(), 400);
    assert!(args.initial());
    assert_eq!(args.shell(), Shell::Fish);
    assert_eq!(args.cmd(), "make");
    assert_eq!(args.pattern(), "src/**");
    assert_eq!(args.cwd(), Some("/tmp/work"));
    assert_eq!(args.working_dir("/elsewhere"), "/tmp/work");
}

#[test]
fn args_without_cwd_use_the_current_directory() {
    let args = Args::new(0, false, None, Shell::Bash, String::from("ls"), String::from("*"));
    assert_eq!(args.cwd(), None);
    assert_eq!(args.working_dir("/home/me"), "/home/me");
    assert!(!args.initial());
    assert_eq!(args.debounce_millis(), 0);
}

#[test]
fn args_default_is_empty() {
    let args = Args::default();
    assert_eq!(args.debounce(), 0);
    assert!(!args.initial());
    assert_eq!(args.shell(), Shell::Bash);
    assert_eq!(args.cmd(), "");
    assert_eq!(args.pattern(), "");
    assert_eq!(args.working_dir("."), ".");
}

#[test]
fn error_names_follow_the_taxonomy() {
    assert_eq!(WatchError::InvalidPattern.name(), "InvalidPatternError");
    assert_eq!(WatchError::PathResolution.name(), "PathResolutionError");
    assert_eq!(WatchError::WatchRegistration.name(), "WatchRegistrationError");
    assert_eq!(WatchError::NotificationStream.name(), "NotificationStreamError");
    assert_eq!(WatchError::CommandSpawn.name(), "CommandSpawnError");
}

#[test]
fn report_ignores_the_exit_status_and_names_a_spawn_failure() {
    let ok =
        ExecutionResult { started_at: 10, elapsed_seconds: 125, exit_status: ExitStatus::Success };
    let failed =
        ExecutionResult { started_at: 10, elapsed_seconds: 125, exit_status: ExitStatus::Failure };
    assert_eq!(report_run(Some(ok)), "[Command was successful in 2m 5s]");
    assert_eq!(report_run(Some(failed)), "[Command was successful in 2m 5s]");
    assert_eq!(report_run(None), "Error CommandSpawnError");
}

#[test]
fn milliseconds_round_to_the_nearest_second() {
    assert_eq!(round_to_seconds(0), 0);
    assert_eq!(round_to_seconds(499), 0);
    assert_eq!(round_to_seconds(500), 1);
    assert_eq!(round_to_seconds(1499), 1);
    assert_eq!(round_to_seconds(1500), 2);
    assert_eq!(round_to_seconds(125_400), 125);
    assert_eq!(round_to_seconds(u64::MAX), 18_446_744_073_709_552);
}

#[test]
fn measured_result_keeps_the_start_and_rounds_the_span() {
    let r = ExecutionResult::measured(2_000, 127_400, ExitStatus::Failure);
    assert_eq!(r.started_at, 2_000);
    assert_eq!(r.elapsed_seconds, 125);
    assert_eq!(r.exit_status, ExitStatus::Failure);
    assert_eq!(report_run(Some(r)), "[Command was successful in 2m 5s]");
    let quick = ExecutionResult::measured(2_000, 2_499, ExitStatus::Success);
    assert_eq!(quick.elapsed_seconds, 0);
    assert_eq!(report_run(Some(quick)), "[Command was successful immediately]");
    let back = ExecutionResult::measured(2_000, 1_000, ExitStatus::Success);
    assert_eq!(back.started_at, 2_000);
    assert_eq!(back.elapsed_seconds, 0);
}
