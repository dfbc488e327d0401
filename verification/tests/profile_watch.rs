use ec2_manager_gui::models::{DependencyStatus, GuiOptions, Mode};
use ec2_manager_gui::profile::{
    now_unix, profile_change_debounce_elapsed, profile_choice_changed, profile_poll_due,
    ProfilePoll, ProfileWatch, Span, Timestamp,
};
use ec2_manager_gui::state::Ec2GuiApp;

fn at(secs: i64) -> Timestamp {
    Timestamp { secs, nanos: 0 }
}

#[test]
fn profile_choice_change_detected_when_mtime_differs() {
    let t1 = at(10);
    let t2 = at(20);
    assert!(profile_choice_changed(Some(t1), Some(t2)));
    assert!(profile_choice_changed(Some(t1), None));
    assert!(profile_choice_changed(None, Some(t2)));
}

#[test]
fn profile_choice_change_not_detected_when_mtime_same() {
    let t1 = at(10);
    assert!(!profile_choice_changed(Some(t1), Some(t1)));
    assert!(!profile_choice_changed(None, None));
}

#[test]
fn profile_change_debounce_elapsed_when_duration_met() {
    let started = at(10);
    let now = at(13);
    assert!(profile_change_debounce_elapsed(Some(started), now, Span { secs: 2, nanos: 0 }));
}

#[test]
fn profile_change_debounce_not_elapsed_when_too_soon_or_missing_start() {
    let started = at(10);
    let now = at(11);
    assert!(!profile_change_debounce_elapsed(Some(started), now, Span { secs: 2, nanos: 0 }));
    assert!(!profile_change_debounce_elapsed(None, now, Span { secs: 2, nanos: 0 }));
}

#[test]
fn debounce_counts_nanoseconds() {
    let started = Timestamp { secs: 10, nanos: 500_000_000 };
    let wait = Span { secs: 2, nanos: 0 };
    let early = Timestamp { secs: 12, nanos: 499_999_999 };
    let late = Timestamp { secs: 12, nanos: 500_000_000 };
    assert!(!profile_change_debounce_elapsed(Some(started), early, wait));
    assert!(profile_change_debounce_elapsed(Some(started), late, wait));
    assert!(!profile_change_debounce_elapsed(Some(started), at(9), Span { secs: 0, nanos: 0 }));
    assert!(profile_change_debounce_elapsed(Some(started), started, Span { secs: 0, nanos: 0 }));
}

#[test]
fn the_file_is_looked_at_once_a_second() {
    assert!(!profile_poll_due(Span { secs: 0, nanos: 999_999_999 }));
    assert!(profile_poll_due(Span { secs: 1, nanos: 0 }));
    assert!(profile_poll_due(Span { secs: 7, nanos: 1 }));
}

#[test]
fn unix_seconds_start_at_the_epoch() {
    assert_eq!(now_unix(Timestamp { secs: 1_700_000_000, nanos: 999 }), 1_700_000_000);
    assert_eq!(now_unix(Timestamp { secs: -1, nanos: 999_999_999 }), 0);
}

#[test]
fn a_lasting_change_is_applied_once() {
    let mut watch = ProfileWatch::new(Some(at(1)));
    assert_eq!(watch.poll(at(100), Some(at(1))), ProfilePoll::Unchanged);
    assert_eq!(watch.poll(at(101), Some(at(90))), ProfilePoll::DebounceStarted);
    assert_eq!(watch.poll(at(102), Some(at(90))), ProfilePoll::Waiting);
    assert_eq!(watch.poll(at(103), Some(at(90))), ProfilePoll::Apply);
    assert_eq!(watch.last_choice, Some(at(90)));
    assert_eq!(watch.poll(at(104), Some(at(90))), ProfilePoll::Unchanged);
}

#[test]
fn another_change_restarts_the_wait_and_undoing_ends_it() {
    let mut watch = ProfileWatch::new(Some(at(1)));
    assert_eq!(watch.poll(at(100), Some(at(90))), ProfilePoll::DebounceStarted);
    assert_eq!(watch.poll(at(102), Some(at(91))), ProfilePoll::DebounceStarted);
    assert_eq!(watch.poll(at(103), Some(at(91))), ProfilePoll::Waiting);
    assert_eq!(watch.poll(at(104), Some(at(1))), ProfilePoll::Unchanged);
    assert_eq!(watch, ProfileWatch::new(Some(at(1))));
}

#[test]
fn a_file_that_vanishes_is_a_change() {
    let mut watch = ProfileWatch::new(Some(at(1)));
    assert_eq!(watch.poll(at(100), None), ProfilePoll::DebounceStarted);
    assert_eq!(watch.last_choice, Some(at(1)));
    assert_eq!(watch.pending_choice, None);
    assert_eq!(watch.pending_since, Some(at(100)));
    assert_eq!(watch.poll(at(101), None), ProfilePoll::Waiting);
    assert_eq!(watch.poll(at(200), None), ProfilePoll::Apply);
    assert_eq!(watch, ProfileWatch::new(None));
    assert_eq!(watch.poll(at(201), None), ProfilePoll::Unchanged);
    assert_eq!(watch.poll(at(202), Some(at(5))), ProfilePoll::DebounceStarted);
    assert_eq!(watch.poll(at(203), None), ProfilePoll::Unchanged);
}

#[test]
fn a_file_that_vanishes_after_another_change_waits_anew() {
    let mut watch = ProfileWatch::new(Some(at(1)));
    assert_eq!(watch.poll(at(201), Some(at(5))), ProfilePoll::DebounceStarted);
    assert_eq!(watch.poll(at(202), None), ProfilePoll::DebounceStarted);
    assert_eq!(watch.poll(at(203), None), ProfilePoll::Waiting);
    assert_eq!(watch.poll(at(204), None), ProfilePoll::Apply);
}

#[test]
fn polling_logs_what_it_finds() {
    let mut app = Ec2GuiApp::new(
        GuiOptions {
            mode: Mode::Sim,
            mode_label: "sim".to_string(),
            region: None,
            dry_run: true,
        },
        DependencyStatus { aws_cli_found: true, ssm_plugin_found: true },
        vec![],
        String::new(),
        Some(at(1)),
    );
    assert!(!app.poll_profile_choice_changes(at(9), Some(at(1))));
    assert_eq!(app.logs.len(), 1);
    assert!(!app.poll_profile_choice_changes(at(10), Some(at(2))));
    assert_eq!(app.logs[1].message, "profileChoice changed; waiting for debounce window");
    assert!(!app.poll_profile_choice_changes(at(11), Some(at(2))));
    assert_eq!(app.logs.len(), 2);
    assert!(app.poll_profile_choice_changes(at(12), Some(at(2))));
    assert_eq!(
        app.logs[2].message,
        "detected profileChoice change, refreshing context and inventory"
    );
}

#[test]
fn times_differ_by_a_nanosecond() {
    let early = Timestamp { secs: -1, nanos: 999_999_999 };
    let epoch = Timestamp { secs: 0, nanos: 0 };
    assert!(profile_choice_changed(Some(early), Some(epoch)));
    assert!(profile_change_debounce_elapsed(Some(early), epoch, Span { secs: 0, nanos: 1 }));
    assert!(!profile_change_debounce_elapsed(Some(early), epoch, Span { secs: 0, nanos: 2 }));
}
