use dnf_widget::controller::{apply, Action, ApplicationState, Event};
use dnf_widget::runner::{
    body_start, check_summary, classify_check, classify_upgrade, completion, list_nonempty,
    upgrade_summary, ExternalCommandResult, Invocation, Outcome, Policy,
};
use dnf_widget::text::{chars_of, string_of};

fn result(success: bool, exit_code: Option<i32>, stdout: &str, stderr: &str) -> ExternalCommandResult {
    ExternalCommandResult {
        success,
        stdout: stdout.to_string(),
        stderr: stderr.to_string(),
        exit_code,
    }
}

fn found(stdout: &str) -> ExternalCommandResult {
    result(false, Some(100), stdout, "")
}

fn rows(lines: &[&str]) -> Vec<Vec<char>> {
    lines.iter().map(|line| chars_of(line)).collect()
}

#[test]
fn dnf_policy() {
    let policy = Policy::dnf();
    assert_eq!(policy.manager, "dnf");
    assert_eq!(policy.elevation, "pkexec");
    assert_eq!(policy.updates_found_code, 100);
}

#[test]
fn check_runs_the_manager_without_elevation() {
    let command = Policy::dnf().invocation(Action::CheckForUpdates);
    assert_eq!(
        command,
        Invocation { program: "dnf".to_string(), arguments: vec!["check-update".to_string()] }
    );
}

#[test]
fn upgrade_runs_elevated_and_asks_nothing() {
    let command = Policy::dnf().invocation(Action::PerformUpgrade);
    assert_eq!(command.program, "pkexec");
    assert_eq!(command.arguments, ["dnf", "upgrade", "-y"]);
}

#[test]
fn invocation_follows_the_policy() {
    let policy = Policy {
        manager: "yum".to_string(),
        elevation: "sudo".to_string(),
        updates_found_code: 7,
    };
    assert_eq!(policy.invocation(Action::CheckForUpdates).program, "yum");
    let upgrade = policy.invocation(Action::PerformUpgrade);
    assert_eq!(upgrade.program, "sudo");
    assert_eq!(upgrade.arguments, ["yum", "upgrade", "-y"]);
}

#[test]
fn updates_found_are_counted_and_listed() {
    let text = classify_check(&Policy::dnf(), &found("pkgA\npkgB\npkgC"));
    assert_eq!(text, "3 packages available for update:\npkgA\npkgB\npkgC");
}

#[test]
fn no_updates_on_success() {
    let text = classify_check(&Policy::dnf(), &result(true, Some(0), "", ""));
    assert_eq!(text, "No packages available");
}

#[test]
fn no_updates_on_success_whatever_was_printed() {
    let text = classify_check(&Policy::dnf(), &result(true, Some(0), "Nothing to do.\n", "note"));
    assert_eq!(text, "No packages available");
}

#[test]
fn check_not_started() {
    let text = check_summary(&Policy::dnf(), &Outcome::LaunchFailed);
    assert_eq!(text, "Failed to fetch updates. Is DNF installed?");
}

#[test]
fn upgrade_not_started() {
    assert_eq!(upgrade_summary(&Outcome::LaunchFailed), "Failed to upgrade packages. Is DNF installed?");
}

#[test]
fn check_failure_relays_standard_error() {
    let text = classify_check(&Policy::dnf(), &result(false, Some(1), "ignored", "Error: no network\n"));
    assert_eq!(text, "Failed to fetch updates:\nError: no network\n");
    let killed = classify_check(&Policy::dnf(), &result(false, None, "", ""));
    assert_eq!(killed, "Failed to fetch updates:\n");
}

#[test]
fn updates_found_with_nothing_printed() {
    for stdout in ["", "\n", "  \n\t\r\n  "] {
        assert_eq!(classify_check(&Policy::dnf(), &found(stdout)), "No packages available");
    }
}

#[test]
fn surrounding_white_space_and_empty_lines_do_not_count() {
    let text = classify_check(&Policy::dnf(), &found("\n\npkgA.x86_64  1.2  updates\r\npkgB.noarch  3.4  updates\n\n"));
    assert_eq!(
        text,
        "2 packages available for update:\npkgA.x86_64  1.2  updates\npkgB.noarch  3.4  updates"
    );
}

#[test]
fn header_before_the_first_empty_line_is_left_out() {
    let stdout = "Last metadata expiration check: 0:10:00 ago.\n\npkgA 1.0 updates\npkgB 2.0 updates\n\npkgC 3.0 updates\n";
    let text = classify_check(&Policy::dnf(), &found(stdout));
    assert_eq!(
        text,
        "3 packages available for update:\npkgA 1.0 updates\npkgB 2.0 updates\npkgC 3.0 updates"
    );
}

#[test]
fn one_package() {
    assert_eq!(
        classify_check(&Policy::dnf(), &found("only\n")),
        "1 packages available for update:\nonly"
    );
}

#[test]
fn many_packages() {
    let stdout: String = (0..12).map(|i| format!("pkg{}\n", i)).collect();
    let text = classify_check(&Policy::dnf(), &found(&stdout));
    let expected = format!("12 packages available for update:\n{}", stdout.trim_end());
    assert_eq!(text, expected);
}

#[test]
fn the_policy_names_the_exit_code() {
    let policy = Policy {
        manager: "m".to_string(),
        elevation: "e".to_string(),
        updates_found_code: 3,
    };
    assert_eq!(classify_check(&policy, &result(false, Some(3), "a\nb", "")), "2 packages available for update:\na\nb");
    assert_eq!(classify_check(&policy, &result(false, Some(100), "a\nb", "bad")), "Failed to fetch updates:\nbad");
}

#[test]
fn the_exit_code_for_updates_comes_before_success() {
    let policy = Policy {
        manager: "m".to_string(),
        elevation: "e".to_string(),
        updates_found_code: 0,
    };
    assert_eq!(classify_check(&policy, &result(true, Some(0), "a", "")), "1 packages available for update:\na");
}

#[test]
fn classification_is_repeatable() {
    let policy = Policy::dnf();
    let inputs = [
        found("pkgA\npkgB"),
        result(true, Some(0), "", ""),
        result(false, Some(2), "", "boom"),
        result(false, None, "x", "y"),
    ];
    for input in &inputs {
        let first = classify_check(&policy, input);
        let second = classify_check(&policy, &input.clone());
        assert_eq!(first, second);
        let outcome = Outcome::Exited(input.clone());
        assert_eq!(check_summary(&policy, &outcome), first);
        assert_eq!(check_summary(&policy, &outcome), check_summary(&policy, &outcome));
    }
}

#[test]
fn upgrade_counts_the_lines_that_are_not_empty() {
    let text = classify_upgrade(&result(true, Some(0), "one\ntwo\nthree\nfour\nfive\n", ""));
    assert_eq!(text, "5 packages upgraded.");
    let gaps = classify_upgrade(&result(true, Some(0), "\none\n\ntwo\r\n\r\nthree\n\n", "warn"));
    assert_eq!(gaps, "3 packages upgraded.");
}

#[test]
fn upgrade_with_nothing_printed() {
    assert_eq!(classify_upgrade(&result(true, Some(0), "", "")), "0 packages upgraded.");
    assert_eq!(classify_upgrade(&result(true, Some(0), " \n ", "")), "0 packages upgraded.");
}

#[test]
fn upgrade_failure_relays_trimmed_standard_error() {
    let text = classify_upgrade(&result(false, Some(1), "a\nb", "\n Error: not authorized \n"));
    assert_eq!(text, "Error: not authorized");
    assert_eq!(classify_upgrade(&result(false, Some(126), "", "")), "");
    assert_eq!(classify_upgrade(&result(false, None, "", "line 1\n line 2\n")), "line 1\n line 2");
}

#[test]
fn upgrade_goes_by_success_not_by_the_code() {
    assert_eq!(classify_upgrade(&result(true, Some(100), "a", "e")), "1 packages upgraded.");
    assert_eq!(classify_upgrade(&result(false, Some(0), "a", " e ")), "e");
}

#[test]
fn summaries_of_a_finished_run() {
    let policy = Policy::dnf();
    let outcome = Outcome::Exited(found("a\nb"));
    assert_eq!(check_summary(&policy, &outcome), "2 packages available for update:\na\nb");
    let upgraded = Outcome::Exited(result(true, Some(0), "a\nb", ""));
    assert_eq!(upgrade_summary(&upgraded), "2 packages upgraded.");
}

#[test]
fn completion_events() {
    let policy = Policy::dnf();
    let ran = Outcome::Exited(result(true, Some(0), "a\n", ""));
    assert_eq!(
        completion(&policy, Action::CheckForUpdates, &ran),
        Event::CheckCompleted("No packages available".to_string())
    );
    assert_eq!(
        completion(&policy, Action::PerformUpgrade, &ran),
        Event::UpgradeCompleted("1 packages upgraded.".to_string())
    );
    assert_eq!(
        completion(&policy, Action::CheckForUpdates, &Outcome::LaunchFailed),
        Event::CheckCompleted("Failed to fetch updates. Is DNF installed?".to_string())
    );
    assert_eq!(
        completion(&policy, Action::PerformUpgrade, &Outcome::LaunchFailed),
        Event::UpgradeCompleted("Failed to upgrade packages. Is DNF installed?".to_string())
    );
}

#[test]
fn successful_upgrade_ends_the_upgrade_and_refreshes() {
    let policy = Policy::dnf();
    let (state, action) = apply(ApplicationState::new(), Event::RequestUpgrade);
    assert!(state.is_upgrading);
    assert_eq!(action, Some(Action::PerformUpgrade));
    let outcome = Outcome::Exited(result(true, Some(0), "alpha\nbeta\ngamma\ndelta\nepsilon", ""));
    let event = completion(&policy, Action::PerformUpgrade, &outcome);
    let (state, action) = apply(state, event);
    assert!(!state.is_upgrading);
    assert_eq!(state.status_message, "5 packages upgraded.");
    assert_eq!(action, Some(Action::CheckForUpdates));
}

#[test]
fn raw_output_is_decoded() {
    let decoded = ExternalCommandResult::from_raw(false, Some(100), b"pkgA\npkg\xC3\xA9\n", b"");
    assert_eq!(decoded, result(false, Some(100), "pkgA\npkgé\n", ""));
    assert_eq!(
        classify_check(&Policy::dnf(), &decoded),
        "2 packages available for update:\npkgA\npkgé"
    );
}

#[test]
fn malformed_output_is_replaced() {
    let decoded = ExternalCommandResult::from_raw(true, None, b"a\xFFb", b"\xC3");
    assert!(decoded.success);
    assert_eq!(decoded.exit_code, None);
    assert_eq!(decoded.stdout, "a\u{FFFD}b");
    assert_eq!(decoded.stderr, "\u{FFFD}");
}

#[test]
fn body_begins_after_the_first_empty_row() {
    assert_eq!(body_start(&rows(&["head", "", "a", "", "b"])), 2);
    assert_eq!(body_start(&rows(&["a", "b"])), 0);
    assert_eq!(body_start(&rows(&[])), 0);
    assert_eq!(body_start(&rows(&["", "a"])), 1);
    assert_eq!(body_start(&rows(&["a", ""])), 2);
}

#[test]
fn rows_are_counted_and_listed() {
    let all = rows(&["a", "", "bc", ""]);
    let (count, list) = list_nonempty(&all, 0);
    assert_eq!(count, 2);
    assert_eq!(string_of(&list), "\na\nbc");
    let (count, list) = list_nonempty(&all, 1);
    assert_eq!((count, string_of(&list)), (1, "\nbc".to_string()));
    let (count, list) = list_nonempty(&all, 4);
    assert_eq!((count, list), (0, Vec::new()));
}
