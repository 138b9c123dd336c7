use alarm_master::installer::{
    classify_run, escalation_script, is_user_cancellation, prepare_run, HelperAction, HelperError,
    ScriptRun,
};
use alarm_master::paths::HELPER_SERVICE_ID;
use alarm_master::schedule::{alarm_label, WakeSchedule};
use alarm_master::status::{daemon_listed, is_installed, HelperStatus};
use alarm_master::text::{contains_text, join_last_lines, log_tail, split_lines};
use alarm_master::timestamp::{before, compute_next_wake, LocalDateTime};

fn at(year: i32, month: u32, day: u32, hour: u32, minute: u32, second: u32) -> LocalDateTime {
    LocalDateTime { year, month, day, hour, minute, second }
}

fn text(s: &str) -> Option<String> {
    Some(s.to_string())
}

#[test]
fn next_wake_later_today() {
    let r = compute_next_wake(7, 30, at(2024, 1, 2, 6, 59, 59));
    assert_eq!(r, at(2024, 1, 2, 7, 30, 0));
}

#[test]
fn next_wake_already_passed_rolls_to_tomorrow() {
    let r = compute_next_wake(7, 0, at(2024, 1, 2, 8, 0, 0));
    assert_eq!(r, at(2024, 1, 3, 7, 0, 0));
    assert_eq!(r.to_iso_string(), "2024-01-03T07:00:00");
}

#[test]
fn next_wake_at_the_same_instant_counts_as_passed() {
    let r = compute_next_wake(7, 0, at(2024, 1, 2, 7, 0, 0));
    assert_eq!(r, at(2024, 1, 3, 7, 0, 0));
}

#[test]
fn next_wake_rolls_over_month_and_year() {
    assert_eq!(compute_next_wake(0, 0, at(2024, 1, 31, 12, 0, 0)), at(2024, 2, 1, 0, 0, 0));
    assert_eq!(compute_next_wake(6, 15, at(2023, 12, 31, 23, 0, 0)), at(2024, 1, 1, 6, 15, 0));
}

#[test]
fn next_wake_respects_leap_years() {
    assert_eq!(compute_next_wake(5, 0, at(2024, 2, 28, 9, 0, 0)), at(2024, 2, 29, 5, 0, 0));
    assert_eq!(compute_next_wake(5, 0, at(2023, 2, 28, 9, 0, 0)), at(2023, 3, 1, 5, 0, 0));
    assert_eq!(compute_next_wake(5, 0, at(1900, 2, 28, 9, 0, 0)), at(1900, 3, 1, 5, 0, 0));
}

#[test]
fn next_wake_is_always_within_a_day() {
    let now = at(2024, 6, 15, 13, 45, 10);
    for hour in 0u8..24 {
        for minute in [0u8, 30, 45, 46, 59] {
            let r = compute_next_wake(hour, minute, now);
            assert!(before(&now, &r));
            assert_eq!((r.hour, r.minute, r.second), (hour as u32, minute as u32, 0));
            assert!(r.day == 15 || r.day == 16);
            assert_eq!((r.year, r.month), (2024, 6));
        }
    }
}

#[test]
fn iso_string_is_zero_padded() {
    assert_eq!(at(987, 3, 4, 5, 6, 7).to_iso_string(), "0987-03-04T05:06:07");
    assert_eq!(at(2024, 11, 30, 23, 59, 58).to_iso_string(), "2024-11-30T23:59:58");
}

#[test]
fn current_time_is_a_valid_moment() {
    let now = LocalDateTime::now();
    assert!((1..=12).contains(&now.month));
    assert!((1..=31).contains(&now.day));
    assert!(now.hour < 24 && now.minute < 60 && now.second < 60);
    assert!(!now.is_last_date());
}

#[test]
fn alarm_labels_are_two_digit_pairs() {
    assert_eq!(alarm_label(7, 0), "07:00");
    assert_eq!(alarm_label(23, 5), "23:05");
}

#[test]
fn update_with_wake_is_armed_record() {
    let s = WakeSchedule::from_request(
        text("2024-01-02T07:00:00"),
        text("07:00"),
        text("Morning alarm"),
    );
    assert_eq!(
        s,
        WakeSchedule {
            next_wake: text("2024-01-02T07:00:00"),
            enabled: true,
            alarm_time: text("07:00"),
            label: text("Morning alarm"),
        }
    );
    assert!(s.is_armed());
    assert_eq!(s.update_message(), "Wake-Schedule aktualisiert: 2024-01-02T07:00:00");
}

#[test]
fn update_without_wake_clears_schedule() {
    let s = WakeSchedule::from_request(None, None, None);
    assert_eq!(
        s,
        WakeSchedule { next_wake: None, enabled: false, alarm_time: None, label: None }
    );
    assert_eq!(s.next_wake, None);
    assert!(!s.enabled);
    assert!(!s.is_armed());
    assert_eq!(s.update_message(), "Wake-Schedule deaktiviert");
}

#[test]
fn update_without_wake_keeps_metadata_but_is_not_armed() {
    let s = WakeSchedule::from_request(None, text("07:00"), text("Morning alarm"));
    assert!(!s.enabled);
    assert_eq!(s.alarm_time, text("07:00"));
    assert!(!s.is_armed());
}

#[test]
fn armed_needs_flag_and_moment() {
    let mut s = WakeSchedule::from_request(text("2024-01-02T07:00:00"), None, None);
    s.enabled = false;
    assert!(!s.is_armed());
    assert_eq!(s.armed_wake(), None);
    let stale = WakeSchedule { next_wake: None, enabled: true, alarm_time: None, label: None };
    assert!(!stale.is_armed());
    assert_eq!(stale.armed_wake(), None);
}

#[test]
fn planned_wake_after_passed_time_is_tomorrow() {
    let s = WakeSchedule::plan_wake(7, 0, at(2024, 1, 2, 8, 0, 0));
    assert_eq!(
        s,
        WakeSchedule {
            next_wake: text("2024-01-03T07:00:00"),
            enabled: true,
            alarm_time: text("07:00"),
            label: None,
        }
    );
    assert_eq!(s.planned_message(), "Aufwachen geplant für 2024-01-03T07:00:00");
}

#[test]
fn planned_wake_from_clock_is_armed() {
    let s = WakeSchedule::plan_wake_now(6, 30).unwrap();
    assert!(s.is_armed());
    assert_eq!(s.alarm_time, text("06:30"));
    assert_eq!(s.next_wake.unwrap().len(), 19);
}

#[test]
fn planning_rejects_times_that_do_not_exist() {
    let now = at(2024, 1, 2, 8, 0, 0);
    assert_eq!(WakeSchedule::plan_wake_at(24, 0, now), None);
    assert_eq!(WakeSchedule::plan_wake_at(7, 60, now), None);
    assert_eq!(WakeSchedule::plan_wake_now(25, 0), None);
    assert_eq!(WakeSchedule::plan_wake_now(0, 99), None);
}

#[test]
fn planning_on_the_last_date_has_no_wake() {
    assert_eq!(WakeSchedule::plan_wake_at(7, 0, at(262142, 12, 31, 8, 0, 0)), None);
    assert!(at(262142, 12, 31, 8, 0, 0).is_last_date());
}

#[test]
fn planning_at_a_given_moment() {
    let s = WakeSchedule::plan_wake_at(23, 59, at(2024, 2, 29, 23, 59, 0)).unwrap();
    assert_eq!(s.next_wake, text("2024-03-01T23:59:00"));
    assert_eq!(s.alarm_time, text("23:59"));
    let t = WakeSchedule::plan_wake_at(9, 0, at(2024, 2, 29, 8, 59, 59)).unwrap();
    assert_eq!(t.next_wake, text("2024-02-29T09:00:00"));
}

#[test]
fn iso_string_of_years_outside_four_digits() {
    assert_eq!(at(12345, 1, 2, 3, 4, 5).to_iso_string(), "+12345-01-02T03:04:05");
    assert_eq!(at(-5, 1, 2, 3, 4, 5).to_iso_string(), "-0005-01-02T03:04:05");
    assert_eq!(at(-12345, 1, 2, 3, 4, 5).to_iso_string(), "-12345-01-02T03:04:05");
}

#[test]
fn log_tail_of_short_log_keeps_every_line() {
    assert_eq!(log_tail("a\nb\nc\n"), "a\nb\nc");
    assert_eq!(log_tail("one\r\ntwo"), "one\ntwo");
    assert_eq!(log_tail(""), "");
}

#[test]
fn log_tail_of_long_log_keeps_last_ten() {
    let content: String = (1..=15).map(|i| format!("line {}\n", i)).collect();
    let expected: Vec<String> = (6..=15).map(|i| format!("line {}", i)).collect();
    assert_eq!(log_tail(&content), expected.join("\n"));
    let exactly_ten: String = (1..=10).map(|i| format!("l{}\n", i)).collect();
    assert_eq!(log_tail(&exactly_ten).lines().count(), 10);
}

#[test]
fn lines_split_on_both_endings() {
    assert_eq!(split_lines("x\r\ny\n\nz"), vec!["x", "y", "", "z"]);
    assert_eq!(split_lines("a\r"), vec!["a\r"]);
    assert_eq!(split_lines("\n"), vec![""]);
    let lines = vec!["a".to_string(), "b".to_string(), "c".to_string()];
    assert_eq!(join_last_lines(&lines, 2), "b\nc");
    assert_eq!(join_last_lines(&lines, 5), "a\nb\nc");
    assert_eq!(join_last_lines(&lines, 0), "");
}

#[test]
fn substring_search() {
    assert!(contains_text("abc", "bc"));
    assert!(contains_text("abc", ""));
    assert!(!contains_text("abc", "cb"));
}

#[test]
fn daemon_listing_is_recognised() {
    let listing = format!("PID\tStatus\tLabel\n123\t0\t{}\n", HELPER_SERVICE_ID);
    assert!(daemon_listed(&listing));
    assert!(!daemon_listed("PID\tStatus\tLabel\n1\t0\tcom.apple.other\n"));
}

#[test]
fn installed_needs_binary_and_descriptor() {
    assert!(is_installed(true, true));
    assert!(!is_installed(true, false));
    assert!(!is_installed(false, true));
}

#[test]
fn status_composes_observations() {
    let schedule = WakeSchedule::from_request(text("2024-01-03T07:00:00"), text("07:00"), None);
    let st = HelperStatus::compose(
        true,
        true,
        text("123\t0\tcom.alarmmaster.wake-helper"),
        Some(schedule),
        text("started\nwoke\n"),
    );
    assert_eq!(
        st,
        HelperStatus {
            installed: true,
            daemon_loaded: true,
            has_schedule: true,
            next_wake: text("2024-01-03T07:00:00"),
            log_tail: text("started\nwoke"),
        }
    );
}

#[test]
fn status_degrades_missing_sources() {
    let st = HelperStatus::compose(true, false, None, None, None);
    assert_eq!(
        st,
        HelperStatus {
            installed: false,
            daemon_loaded: false,
            has_schedule: false,
            next_wake: None,
            log_tail: None,
        }
    );
    assert_eq!(HelperStatus::unavailable(), st);
}

#[test]
fn status_hides_wake_of_disabled_schedule() {
    let stale = WakeSchedule {
        next_wake: text("2024-01-03T07:00:00"),
        enabled: false,
        alarm_time: None,
        label: None,
    };
    let st = HelperStatus::compose(false, false, text(""), Some(stale), None);
    assert!(!st.has_schedule);
    assert_eq!(st.next_wake, None);
}

#[test]
fn install_without_script_fails_before_prompt() {
    let r = prepare_run(HelperAction::Install, "/res/helpers/install.sh", false, "/res/helpers");
    assert_eq!(r, Err(HelperError::ResourceNotFound("/res/helpers/install.sh".to_string())));
    assert_eq!(
        r.unwrap_err().message(HelperAction::Install),
        "Install script not found at: /res/helpers/install.sh"
    );
}

#[test]
fn install_prompt_passes_helpers_dir() {
    let r = prepare_run(HelperAction::Install, "/res/helpers/install.sh", true, "/res/helpers");
    assert_eq!(
        r.unwrap(),
        "do shell script \"bash '/res/helpers/install.sh' '/res/helpers'\" with administrator privileges"
    );
    assert_eq!(
        escalation_script(HelperAction::Uninstall, "/res/helpers/uninstall.sh", "/res/helpers"),
        "do shell script \"bash '/res/helpers/uninstall.sh'\" with administrator privileges"
    );
}

fn failed(stderr: &str) -> Result<ScriptRun, String> {
    Ok(ScriptRun { success: false, stdout: String::new(), stderr: stderr.to_string() })
}

#[test]
fn install_cancelled_by_user() {
    let r = classify_run(HelperAction::Install, failed("execution error: User canceled. (-128)"));
    assert_eq!(r, Err(HelperError::UserCancelled));
    assert_eq!(
        HelperError::UserCancelled.message(HelperAction::Install),
        "Installation vom Benutzer abgebrochen."
    );
    assert!(is_user_cancellation("error -128"));
    assert!(!is_user_cancellation("permission denied"));
}

#[test]
fn install_script_failure_keeps_stderr() {
    let r = classify_run(HelperAction::Install, failed("cp: permission denied"));
    assert_eq!(r, Err(HelperError::ScriptFailed("cp: permission denied".to_string())));
    assert_eq!(
        r.unwrap_err().message(HelperAction::Install),
        "Installation fehlgeschlagen: cp: permission denied"
    );
}

#[test]
fn install_success_reports_stdout() {
    let run = ScriptRun { success: true, stdout: "done".to_string(), stderr: String::new() };
    assert_eq!(
        classify_run(HelperAction::Install, Ok(run.clone())),
        Ok("Wake Helper erfolgreich installiert.\ndone".to_string())
    );
    assert_eq!(
        classify_run(HelperAction::Uninstall, Ok(run)),
        Ok("Wake Helper erfolgreich deinstalliert.".to_string())
    );
}

#[test]
fn prompt_that_cannot_start_is_escalation_error() {
    let r = classify_run(HelperAction::Uninstall, Err("no osascript".to_string()));
    assert_eq!(r, Err(HelperError::EscalationUnavailable("no osascript".to_string())));
    assert_eq!(
        r.unwrap_err().message(HelperAction::Uninstall),
        "Failed to run uninstaller: no osascript"
    );
}

#[test]
fn uninstall_errors_have_their_own_texts() {
    assert_eq!(
        HelperError::UserCancelled.message(HelperAction::Uninstall),
        "Deinstallation vom Benutzer abgebrochen."
    );
    assert_eq!(
        HelperError::ScriptFailed("x".to_string()).message(HelperAction::Uninstall),
        "Deinstallation fehlgeschlagen: x"
    );
    assert_eq!(
        HelperError::ResourceDirUnavailable("gone".to_string()).message(HelperAction::Uninstall),
        "Resource dir error: gone"
    );
    assert_eq!(HelperError::Unsupported.message(HelperAction::Install), "Nur auf macOS unterstützt");
}
