use ec2_manager_gui::error::AppError;
use ec2_manager_gui::models::{AuthStatus, AwsContext, Mode, TerminalOption};
use ec2_manager_gui::screen::{
    terminal_text_in_view, terminal_text_with_cursor, text_of_rows, TerminalSession,
};
use ec2_manager_gui::sessions::TerminalSessions;
use ec2_manager_gui::terminal::{
    find_terminal, initial_terminal_id, pty_command, pty_error, reader_step, shell_plan,
    terminal_event_payload, terminal_payloads, ProcEvent, PtyStep, ReadOutcome, TerminalEvent,
    TerminalKey,
};

fn option(id: &str, display_name: &str) -> TerminalOption {
    TerminalOption {
        id: id.to_string(),
        display_name: display_name.to_string(),
        program: format!("{id}.exe"),
    }
}

fn key(key: TerminalKey, ctrl: bool) -> TerminalEvent {
    TerminalEvent::Key { key, pressed: true, ctrl }
}

#[test]
fn shell_plan_has_program() {
    let (prog, args) = shell_plan(false, None);
    assert!(!prog.is_empty());
    assert!(!args.is_empty());

    let (prog, args) = shell_plan(true, None);
    assert!(!prog.is_empty());
    assert!(!args.is_empty());
}

#[test]
fn shell_plan_follows_the_terminal_on_windows_only() {
    for id in ["pwsh", "powershell", "wt", "git-bash", "msys2-bash"] {
        let terminal = option(id, id);
        assert_eq!(shell_plan(true, Some(&terminal)), (format!("{id}.exe"), vec![]));
        assert_eq!(
            shell_plan(false, Some(&terminal)),
            ("/bin/bash".to_string(), vec!["-i".to_string()])
        );
    }
    assert_eq!(
        shell_plan(true, Some(&option("wsl", "WSL"))),
        ("wsl.exe".to_string(), vec!["--".to_string(), "bash".to_string()])
    );
    let cmd = ("cmd".to_string(), vec!["/Q".to_string(), "/K".to_string()]);
    assert_eq!(shell_plan(true, Some(&option("kitty", "Kitty"))), cmd);
    assert_eq!(shell_plan(true, None), cmd);
}

#[test]
fn shells_know_profile_and_region() {
    let context = AwsContext {
        mode: Mode::Live,
        mode_label: "live".to_string(),
        profile: "ops".to_string(),
        account_id: None,
        region: "eu-west-1".to_string(),
        auth_status: AuthStatus { ok: true, label: "ok".to_string() },
    };
    let plan = pty_command(false, None, &context);
    assert_eq!(plan.program, "/bin/bash");
    assert_eq!(plan.args, vec!["-i"]);
    assert_eq!(
        plan.envs,
        vec![
            ("AWS_PROFILE".to_string(), "ops".to_string()),
            ("AWS_REGION".to_string(), "eu-west-1".to_string()),
        ]
    );
}

#[test]
fn failed_steps_are_named() {
    assert_eq!(
        pty_error(PtyStep::Allocate, "Permission denied"),
        AppError::Parse("Failed to allocate PTY: Permission denied".to_string())
    );
    assert_eq!(
        pty_error(PtyStep::Spawn, "x"),
        AppError::Parse("Failed to spawn PTY shell: x".to_string())
    );
    assert_eq!(
        pty_error(PtyStep::Reader, "x"),
        AppError::Parse("Failed to create PTY reader: x".to_string())
    );
    assert_eq!(
        pty_error(PtyStep::Writer, "x"),
        AppError::Parse("Failed to create PTY writer: x".to_string())
    );
}

#[test]
fn initial_terminal_id_prefers_configured_terminal() {
    let terminals = vec![
        TerminalOption {
            id: "xterm".to_string(),
            display_name: "XTerm".to_string(),
            program: "xterm".to_string(),
        },
        TerminalOption {
            id: "kitty".to_string(),
            display_name: "Kitty".to_string(),
            program: "kitty".to_string(),
        },
    ];

    assert_eq!(initial_terminal_id(Some(&terminals[1]), &terminals), "kitty");
}

#[test]
fn initial_terminal_id_empty_when_no_terminals() {
    assert!(initial_terminal_id(None, &[]).is_empty());
}

#[test]
fn initial_terminal_id_is_the_first_one_otherwise() {
    let terminals = vec![option("xterm", "XTerm"), option("kitty", "Kitty")];
    assert_eq!(initial_terminal_id(None, &terminals), "xterm");
}

#[test]
fn the_first_terminal_with_an_id_is_found() {
    let terminals = vec![option("a", "first"), option("b", "second"), option("b", "third")];
    assert_eq!(find_terminal(&terminals, "b").map(|t| t.display_name.as_str()), Some("second"));
    assert_eq!(find_terminal(&terminals, "c"), None);
    assert_eq!(find_terminal(&[], ""), None);
}

#[test]
fn terminal_event_payload_maps_ctrl_c_enter_and_paste() {
    let ctrl_c = TerminalEvent::Key { key: TerminalKey::C, pressed: true, ctrl: true };
    assert_eq!(terminal_event_payload(&ctrl_c), Some(vec![0x03]));

    let enter = TerminalEvent::Key { key: TerminalKey::Enter, pressed: true, ctrl: false };
    assert_eq!(terminal_event_payload(&enter), Some(b"\r".to_vec()));

    let paste = TerminalEvent::Paste("echo hi".to_string());
    assert_eq!(terminal_event_payload(&paste), Some("echo hi".as_bytes().to_vec()));
}

#[test]
fn every_key_has_its_bytes() {
    assert_eq!(terminal_event_payload(&key(TerminalKey::Backspace, false)), Some(vec![0x7f]));
    assert_eq!(terminal_event_payload(&key(TerminalKey::Tab, false)), Some(b"\t".to_vec()));
    assert_eq!(terminal_event_payload(&key(TerminalKey::Escape, true)), Some(vec![0x1b]));
    assert_eq!(terminal_event_payload(&key(TerminalKey::ArrowUp, false)), Some(b"\x1b[A".to_vec()));
    assert_eq!(
        terminal_event_payload(&key(TerminalKey::ArrowDown, false)),
        Some(b"\x1b[B".to_vec())
    );
    assert_eq!(
        terminal_event_payload(&key(TerminalKey::ArrowRight, false)),
        Some(b"\x1b[C".to_vec())
    );
    assert_eq!(
        terminal_event_payload(&key(TerminalKey::ArrowLeft, false)),
        Some(b"\x1b[D".to_vec())
    );
    assert_eq!(terminal_event_payload(&key(TerminalKey::D, true)), Some(vec![0x04]));
    assert_eq!(terminal_event_payload(&key(TerminalKey::L, true)), Some(vec![0x0c]));
    assert_eq!(terminal_event_payload(&key(TerminalKey::C, false)), None);
    assert_eq!(terminal_event_payload(&key(TerminalKey::D, false)), None);
    assert_eq!(terminal_event_payload(&key(TerminalKey::L, false)), None);
    assert_eq!(terminal_event_payload(&key(TerminalKey::Other, true)), None);
    assert_eq!(terminal_event_payload(&TerminalEvent::Other), None);
    assert_eq!(
        terminal_event_payload(&TerminalEvent::Key {
            key: TerminalKey::Enter,
            pressed: false,
            ctrl: false
        }),
        None
    );
    assert_eq!(
        terminal_event_payload(&TerminalEvent::Text("\u{e9}".to_string())),
        Some(vec![0xc3, 0xa9])
    );
}

#[test]
fn payloads_keep_the_order_of_events() {
    let events = vec![
        TerminalEvent::Text("ls".to_string()),
        TerminalEvent::Other,
        key(TerminalKey::Enter, false),
    ];
    assert_eq!(terminal_payloads(&events), vec![b"ls".to_vec(), b"\r".to_vec()]);
}

#[test]
fn the_reader_stops_at_the_end_and_at_errors() {
    assert_eq!(
        reader_step(4, ReadOutcome::Data(vec![1, 2])),
        (Some(ProcEvent::Output { tab_id: 4, bytes: vec![1, 2] }), true)
    );
    assert_eq!(reader_step(4, ReadOutcome::Data(vec![])), (None, false));
    assert_eq!(
        reader_step(4, ReadOutcome::Failed("gone".to_string())),
        (Some(ProcEvent::Error { tab_id: 4, error: "gone".to_string() }), false)
    );
}

#[test]
fn terminal_text_with_cursor_places_cursor_marker() {
    let mut parser = vt100::Parser::new(3, 20, 100);
    parser.process(b"hello");
    let text = terminal_text_with_cursor(parser.screen(), true);
    assert!(text.lines().next().unwrap_or_default().contains("hello|"));
}

#[test]
fn terminal_text_with_cursor_can_hide_marker() {
    let mut parser = vt100::Parser::new(2, 10, 100);
    parser.process(b"abc");
    let text = terminal_text_with_cursor(parser.screen(), false);
    assert!(!text.lines().next().unwrap_or_default().contains('|'));
}

#[test]
fn the_cursor_replaces_what_it_stands_on() {
    let mut parser = vt100::Parser::new(3, 20, 100);
    parser.process(b"hello\r\nworld\x1b[1;3H");
    assert_eq!(terminal_text_with_cursor(parser.screen(), true), "he|lo\nworld\n");
    assert_eq!(terminal_text_with_cursor(parser.screen(), false), "hello\nworld\n");
}

#[test]
fn the_cursor_is_reached_by_spaces() {
    let mut parser = vt100::Parser::new(3, 20, 100);
    parser.process(b"ab\x1b[2;5H");
    assert_eq!(terminal_text_with_cursor(parser.screen(), true), "ab\n    |\n");
}

#[test]
fn rows_are_added_down_to_the_cursor() {
    let rows = vec!["x".to_string()];
    assert_eq!(text_of_rows(rows.clone(), 0, Some((2, 1))), "x\n\n |");
    assert_eq!(text_of_rows(rows.clone(), 2, None), "x\n");
    assert_eq!(text_of_rows(rows, 1, Some((0, 0))), "|");
    assert_eq!(text_of_rows(vec![], 0, None), "");
}

#[test]
fn sessions_do_not_depend_on_how_output_is_cut() {
    let output = "one \u{e9}\x1b[31mred\r\ntwo".as_bytes();
    let whole = TerminalSession::new().process(output);
    let mut pieces = TerminalSession::new();
    for byte in output {
        pieces = pieces.process(&[*byte]);
    }
    assert_eq!(whole.text(true), pieces.text(true));
    let text = whole.text(true);
    assert_eq!(text.lines().next(), Some("one \u{e9}red"));
    assert_eq!(text.lines().nth(1), Some("two|"));
    assert_eq!(text.matches('\n').count(), 44);
}

#[test]
fn a_fresh_session_shows_only_the_cursor() {
    let session = TerminalSession::new();
    assert!(session.text(true).starts_with("|\n"));
    assert_eq!(session.text(false), "\n".repeat(44));
}

#[test]
fn views_scrolled_back_too_far_have_no_text() {
    let mut parser = vt100::Parser::new(2, 10, 100);
    parser.process(b"a\r\nb\r\nc\r\nd\r\ne");
    assert_eq!(terminal_text_in_view(parser.screen(), false), Some("d\ne".to_string()));
    parser.set_scrollback(2);
    assert_eq!(terminal_text_in_view(parser.screen(), false), Some("b\nc".to_string()));
    assert_eq!(terminal_text_in_view(parser.screen(), true), Some("b\nc|".to_string()));
    parser.set_scrollback(3);
    assert_eq!(terminal_text_in_view(parser.screen(), false), None);
}

#[test]
fn wide_and_combined_characters_stay_together() {
    let session = TerminalSession::new().process("\u{4e16}e\u{301}x".as_bytes());
    assert!(session.text(false).starts_with("\u{4e16}e\u{301}x\n"));
}

#[test]
fn sessions_scroll() {
    let mut session = TerminalSession::new();
    for i in 0..50 {
        session = session.process(format!("line {i}\r\n").as_bytes());
    }
    let text = session.text(true);
    assert_eq!(text.lines().next(), Some("line 6"));
    assert_eq!(text.lines().last(), Some("|"));
    assert_eq!(text.lines().count(), 45);
}

#[test]
fn output_goes_to_the_terminal_of_its_tab() {
    let mut sessions = TerminalSessions::new();
    assert!(sessions.is_empty());
    sessions.open(1);
    sessions.open(2);
    sessions.feed(1, b"one");
    sessions.feed(3, b"lost");
    sessions.feed(1, b" more");
    assert!(sessions.text(1, true).expect("open").starts_with("one more|\n"));
    assert!(sessions.text(2, true).expect("open").starts_with("|\n"));
    assert_eq!(sessions.text(3, true), None);
    sessions.open(1);
    assert!(sessions.text(1, true).expect("open").starts_with("|\n"));
    sessions.close(1);
    sessions.close(1);
    assert_eq!(sessions.text(1, false), None);
    assert!(!sessions.is_empty());
    sessions.close(2);
    assert!(sessions.is_empty());
}

#[test]
fn the_cursor_changes_its_own_line_only() {
    let mut parser = vt100::Parser::new(4, 12, 0);
    parser.process(b"first\r\nsecond\r\n\r\nlast\x1b[2;9H");
    let plain = terminal_text_with_cursor(parser.screen(), false);
    let drawn = terminal_text_with_cursor(parser.screen(), true);
    let plain: Vec<&str> = plain.split('\n').collect();
    let drawn: Vec<&str> = drawn.split('\n').collect();
    assert_eq!(plain, vec!["first", "second", "", "last"]);
    assert_eq!(drawn, vec!["first", "second  |", "", "last"]);
}
