use ec2_manager_gui::aws_cli::{run_aws_cli, run_capture, CommandOutcome};
use ec2_manager_gui::connect::{
    connect_command, port_forward_command, should_auto_send_prefilled_command,
};
use ec2_manager_gui::error::AppError;
use ec2_manager_gui::events::WaitOutcome;
use ec2_manager_gui::inventory::{resolve_row_action, row_highlight, RowAction, RowHighlight};
use ec2_manager_gui::log::{LogFilters, LogLevel, MAX_LOG_LINES};
use ec2_manager_gui::models::{
    AuthStatus, AwsContext, DependencyStatus, GuiOptions, Instance, Mode, TerminalOption,
};
use ec2_manager_gui::panels::{
    connection_ip, connections_label, cursor_shown, format_connection_summary_line, forwards_keys,
    shown_choice, tab_label, DiagnosticsReport,
};
use ec2_manager_gui::profile::Timestamp;
use ec2_manager_gui::state::{
    wants_help, Ec2GuiApp, MainTab, GUI_DEFAULT_HEIGHT, GUI_DEFAULT_WIDTH, GUI_MIN_HEIGHT,
    GUI_MIN_WIDTH,
};
use ec2_manager_gui::terminal::ProcEvent;

fn options(dry_run: bool, region: Option<&str>) -> GuiOptions {
    GuiOptions {
        mode: Mode::Sim,
        mode_label: "sim".to_string(),
        region: region.map(|r| r.to_string()),
        dry_run,
    }
}

fn app(dry_run: bool) -> Ec2GuiApp {
    Ec2GuiApp::new(
        options(dry_run, None),
        DependencyStatus { aws_cli_found: true, ssm_plugin_found: false },
        vec![],
        String::new(),
        None,
    )
}

fn context(mode: Mode, ok: bool) -> AwsContext {
    AwsContext {
        mode,
        mode_label: if mode == Mode::Sim { "sim".to_string() } else { "live".to_string() },
        profile: "sim-profile".to_string(),
        account_id: Some("000000000000".to_string()),
        region: "eu-north-1".to_string(),
        auth_status: AuthStatus { ok, label: "OK".to_string() },
    }
}

fn instance(id: &str, name: Option<&str>) -> Instance {
    Instance {
        instance_id: id.to_string(),
        name: name.map(|n| n.to_string()),
        state: "running".to_string(),
        ssm_managed: true,
        ssm_ping: None,
        private_ip: Some("10.0.1.25".to_string()),
        env: None,
        app_service: None,
    }
}

fn last_log(app: &Ec2GuiApp) -> (LogLevel, String) {
    let entry = app.logs.back().expect("a line was logged");
    (entry.level, entry.message.clone())
}

#[test]
fn default_window_size_is_large_enough() {
    assert!(GUI_DEFAULT_WIDTH as f32 >= 1600.0);
    assert!(GUI_DEFAULT_HEIGHT as f32 >= 900.0);
    assert!(GUI_MIN_WIDTH as f32 >= 1200.0);
    assert!(GUI_MIN_HEIGHT as f32 >= 700.0);
}

#[test]
fn quick_connect_row_action_connects_and_selects() {
    let action = resolve_row_action(false, false, true);
    assert_eq!(action, RowAction { select: true, connect: true });
}

#[test]
fn single_click_row_action_selects_only() {
    let action = resolve_row_action(true, false, false);
    assert_eq!(action, RowAction { select: true, connect: false });
}

#[test]
fn other_row_actions() {
    assert_eq!(
        resolve_row_action(true, true, false),
        RowAction { select: true, connect: true }
    );
    assert_eq!(
        resolve_row_action(false, false, false),
        RowAction { select: false, connect: false }
    );
    assert_eq!(row_highlight(true, true), RowHighlight::Selected);
    assert_eq!(row_highlight(false, true), RowHighlight::Hovered);
    assert_eq!(row_highlight(false, false), RowHighlight::Plain);
}

#[test]
fn open_connection_tab_dry_run_does_not_spawn_child() {
    let mut app = app(true);
    let context = AwsContext {
        mode: Mode::Sim,
        mode_label: "sim".to_string(),
        profile: "sim-profile".to_string(),
        account_id: Some("000000000000".to_string()),
        region: "us-east-1".to_string(),
        auth_status: AuthStatus { ok: true, label: "ok".to_string() },
    };

    let plan = app.open_connection_tab(1, "i-sim0001", "echo hi", &context);

    assert!(app.pty_sessions.is_empty());
    assert!(!plan.launch);
    assert!(plan.lines.iter().any(|line| line.contains("[dry-run]")));
    assert_eq!(
        plan.lines,
        vec![
            "$ echo hi",
            "profile=sim-profile region=us-east-1 mode=sim",
            "SSM command is auto-sent. Click terminal area to focus and type directly.",
            "[dry-run] launch skipped",
        ]
    );
    assert_eq!(app.message, "Opened connection tab (dry-run)");
    assert_eq!(app.logs[1].message, "opened connection tab id=1 instance=i-sim0001");
    assert_eq!(app.logs[2].message, "dry-run mode: process launch skipped");
    let now = Timestamp { secs: 5, nanos: 0 };
    let launch =
        app.session_started(1, "i-sim0001".to_string(), "api-a".to_string(), "echo hi", now);
    assert_eq!(launch.payload, None);
    assert_eq!(launch.recent, None);
    assert!(app.pty_sessions.is_empty());
}

#[test]
fn a_live_tab_names_its_shell_and_is_launched() {
    let mut app = Ec2GuiApp::new(
        options(false, None),
        DependencyStatus { aws_cli_found: true, ssm_plugin_found: true },
        vec![TerminalOption {
            id: "kitty".to_string(),
            display_name: "Kitty".to_string(),
            program: "kitty".to_string(),
        }],
        "kitty".to_string(),
        None,
    );
    let context = context(Mode::Live, true);
    assert!(app.accept_context(context.clone()));
    let plan = app.open_connection_tab(12, "i-1", "aws ssm", &context);
    assert!(plan.launch);
    assert_eq!(
        plan.lines,
        vec![
            "$ aws ssm",
            "profile=sim-profile region=eu-north-1 mode=live",
            "[shell profile] Kitty (kitty)",
            "SSM command is auto-sent. Click terminal area to focus and type directly.",
            "note: live SSM start-session may require a full TTY; embedded mode is best-effort.",
        ]
    );
    let command = app.spawn_pty_session(true, &context);
    assert_eq!(command.program, "cmd");
    assert_eq!(last_log(&app), (LogLevel::Debug, "spawning PTY shell via cmd".to_string()));
    let now = Timestamp { secs: 1234, nanos: 5 };
    let launch = app.session_started(12, "i-1".to_string(), "t".to_string(), "aws \u{e9}", now);
    assert_eq!(launch.payload, Some(vec![b'a', b'w', b's', b' ', 0xc3, 0xa9, b'\n']));
    let recent = launch.recent.expect("a launched connection is remembered");
    assert_eq!(recent.account_id, "000000000000");
    assert_eq!(recent.region, "eu-north-1");
    assert_eq!(recent.instance_id, "i-1");
    assert_eq!(recent.name, Some("t".to_string()));
    assert_eq!(recent.timestamp_unix, 1234);
    assert_eq!(
        last_log(&app),
        (LogLevel::Info, "tab=12 auto-sent prefilled command".to_string())
    );
    assert!(!app.pty_sessions.is_empty());
    app.connection_opened();
    assert_eq!(app.message, "Opened connection tab");
    app.show_connections();
    assert_eq!(app.main_tab, MainTab::Connections);
}

#[test]
fn connecting_is_refused_with_a_reason() {
    let mut app = app(true);
    let target = instance("i-1", None);
    assert_eq!(
        app.connect_selected(Some(&target)),
        Err(AppError::Parse("Context not loaded".to_string()))
    );
    app.accept_context(context(Mode::Live, true));
    assert_eq!(
        app.connect_selected(None),
        Err(AppError::NotFound("Select an instance first".to_string()))
    );
    assert_eq!(
        app.connect_selected(Some(&target)),
        Err(AppError::Parse(
            "Connect requires aws CLI + session-manager-plugin in PATH".to_string()
        ))
    );
    assert_eq!(last_log(&app), (LogLevel::Info, "connect requested for i-1".to_string()));
    assert_eq!(
        app.port_forward_selected(Some(&target)),
        Err(AppError::Parse(
            "Port forward requires aws CLI + session-manager-plugin in PATH".to_string()
        ))
    );
}

#[test]
fn simulated_connections_only_show_the_command() {
    let mut app = app(true);
    app.accept_context(context(Mode::Sim, false));
    let named = instance("i-9", Some("api-a"));
    let target = app.connect_selected(Some(&named)).expect("a simulation needs no programs");
    assert_eq!(target.title, "api-a");
    assert_eq!(target.region, "eu-north-1");
    assert_eq!(
        connect_command(&target, "aws ssm"),
        "echo '[SIM MODE] aws ssm'; echo '[SIM MODE] session open for i-9'"
    );

    let nameless = instance("i-9", Some("  "));
    let target = app.port_forward_selected(Some(&nameless)).expect("as above");
    assert_eq!(
        last_log(&app),
        (LogLevel::Info, "port-forward requested for i-9 local=2222 remote=22".to_string())
    );
    assert_eq!(target.title, "i-9 pf 2222:22");
    assert_eq!(
        port_forward_command(&target, "aws ssm", 2222, 22),
        "echo '[SIM MODE] aws ssm'; echo '[SIM MODE] port-forward 2222:22 for i-9'"
    );
}

#[test]
fn live_connections_send_the_command() {
    let mut app = app(true);
    app.dependencies.ssm_plugin_found = true;
    app.accept_context(context(Mode::Live, true));
    let target = app.connect_selected(Some(&instance("i-9", None))).expect("all is there");
    assert_eq!(target.title, "i-9");
    assert_eq!(connect_command(&target, "aws ssm"), "aws ssm");
    assert_eq!(port_forward_command(&target, "aws ssm", 1, 2), "aws ssm");
}

#[test]
fn auto_send_prefilled_command_is_disabled_for_dry_run_only() {
    assert!(!should_auto_send_prefilled_command(true));
    assert!(should_auto_send_prefilled_command(false));
}

#[test]
fn log_filters_include_expected_levels() {
    let mut filters = LogFilters::default();
    assert!(filters.includes(LogLevel::Info));
    assert!(!filters.includes(LogLevel::Debug));
    assert!(!filters.includes(LogLevel::Trace));

    filters.set_verbosity_high();
    assert!(filters.includes(LogLevel::Debug));
    assert!(filters.includes(LogLevel::Trace));
}

#[test]
fn verbosities_grow() {
    let mut filters = LogFilters::default();
    filters.set_verbosity_medium();
    assert!(filters.includes(LogLevel::Debug));
    assert!(!filters.includes(LogLevel::Trace));
    filters.set_verbosity_low();
    assert!(filters.includes(LogLevel::Error));
    assert!(filters.includes(LogLevel::Warn));
    assert!(!filters.includes(LogLevel::Debug));
}

#[test]
fn app_log_is_capped_to_max_lines() {
    let mut app = app(true);

    for i in 0..(MAX_LOG_LINES + 5) {
        app.log_info(format!("line-{i}"));
    }

    assert_eq!(app.logs.len(), MAX_LOG_LINES);
    assert_eq!(app.logs.front().map(|e| e.message.as_str()), Some("line-5"));
    assert_eq!(app.logs.back().map(|e| e.message.as_str()), Some("line-20004"));
}

#[test]
fn blank_messages_are_replaced() {
    let mut app = app(true);
    app.log(LogLevel::Trace, " \u{2009}\n".to_string());
    assert_eq!(last_log(&app), (LogLevel::Trace, "<empty>".to_string()));
    app.log_warn(" kept as it is ".to_string());
    assert_eq!(last_log(&app), (LogLevel::Warn, " kept as it is ".to_string()));
}

#[test]
fn the_log_panel_shows_the_chosen_levels() {
    let mut app = app(true);
    app.log_debug("hidden".to_string());
    app.log_error("bad".to_string());
    let (heading, lines) = app.log_panel();
    assert_eq!(heading, "Showing 2 / 3 log lines");
    assert_eq!(
        lines,
        vec![
            (LogLevel::Info, "[INFO] application started".to_string()),
            (LogLevel::Error, "[ERROR] bad".to_string()),
        ]
    );
    app.clear_log();
    let (heading, lines) = app.log_panel();
    assert_eq!(heading, "Showing 1 / 1 log lines");
    assert_eq!(lines, vec![(LogLevel::Info, "[INFO] log cleared".to_string())]);
    assert_eq!(LogLevel::Warn.as_str(), "WARN");
    assert_eq!(LogLevel::Debug.as_str(), "DEBUG");
    assert_eq!(LogLevel::Trace.as_str(), "TRACE");
}

#[test]
fn errors_are_shown_and_logged() {
    let mut app = app(true);
    app.report_error("no network");
    assert_eq!(app.message, "error: no network");
    assert_eq!(last_log(&app), (LogLevel::Error, "error: no network".to_string()));
}

#[test]
fn a_refresh_loads_and_lists() {
    let mut app = app(true);
    app.begin_refresh(true);
    assert_eq!(
        last_log(&app),
        (LogLevel::Info, "refresh inventory requested (force=true)".to_string())
    );
    assert!(app.accept_context(context(Mode::Sim, false)));
    app.accept_inventory(
        vec![instance("i-1", None), instance("i-2", None)],
        vec![instance("i-2", None)],
    );
    assert_eq!(app.message, "Loaded 2 instances (1 filtered)");
    assert_eq!(
        app.logs[2].message,
        "filters applied -> 1 visible / 2 total"
    );
    assert_eq!(app.logs[2].level, LogLevel::Debug);
    assert_eq!(app.inventory_heading(), "Instances: 1 filtered / 2 total");
    app.accept_filtered(vec![]);
    assert_eq!(app.inventory_heading(), "Instances: 0 filtered / 2 total");
}

#[test]
fn bad_credentials_empty_the_lists_in_live_mode() {
    let mut app = app(true);
    app.accept_inventory(vec![instance("i-1", None)], vec![instance("i-1", None)]);
    assert!(!app.accept_context(context(Mode::Live, false)));
    assert!(app.inventory.is_empty());
    assert!(app.filtered.is_empty());
    assert_eq!(app.message, "Auth is not OK (live mode). Refresh credentials and retry.");
    assert_eq!(
        last_log(&app),
        (LogLevel::Warn, "inventory refresh blocked: auth not OK in live mode".to_string())
    );
}

#[test]
fn the_start_region_is_remembered_for_known_accounts() {
    let mut app = app(true);
    let known = context(Mode::Live, true);
    assert_eq!(app.region_to_remember(&known), None);
    app.options.region = Some("us-west-2".to_string());
    assert_eq!(
        app.region_to_remember(&known),
        Some(("000000000000".to_string(), "us-west-2".to_string()))
    );
    let mut unknown = context(Mode::Live, true);
    unknown.account_id = None;
    assert_eq!(app.region_to_remember(&unknown), None);
}

#[test]
fn scopes_fall_back() {
    let mut app = app(true);
    assert_eq!(app.account_scope(), "unknown-account");
    assert_eq!(app.region_scope(), "us-east-1");
    app.options.region = Some("us-west-2".to_string());
    assert_eq!(app.region_scope(), "us-west-2");
    let mut unknown = context(Mode::Sim, true);
    unknown.account_id = None;
    app.accept_context(unknown);
    assert_eq!(app.account_scope(), "unknown-account");
    assert_eq!(app.region_scope(), "eu-north-1");
}

#[test]
fn listed_instances_are_preferred() {
    let mut app = app(true);
    let listed = instance("i-1", Some("listed"));
    let known = instance("i-1", Some("known"));
    assert_eq!(app.wanted_instance_id(), None);
    assert_eq!(app.selected_instance(Some(&listed), Some(&known)), None);
    app.selected_instance_id = "  i-1 ".to_string();
    assert_eq!(app.wanted_instance_id(), Some("i-1".to_string()));
    assert_eq!(app.selected_instance(Some(&listed), Some(&known)), Some(&listed));
    assert_eq!(app.selected_instance(None, Some(&known)), Some(&known));
    assert_eq!(app.selected_instance(None, None), None);
}

#[test]
fn rows_show_their_instance() {
    let mut app = app(true);
    let mut i = instance("i-1", None);
    let row = app.inventory_row(&i, true);
    assert_eq!(row.favorite, "*");
    assert_eq!(row.instance_id, "i-1");
    assert_eq!(row.name, "");
    assert_eq!(row.state, "running");
    assert_eq!(row.ssm, "Managed");
    assert_eq!(row.private_ip, "10.0.1.25");
    assert!(!row.selected);
    i.ssm_ping = Some("Online".to_string());
    app.selected_instance_id = "i-1".to_string();
    let row = app.inventory_row(&i, false);
    assert_eq!(row.favorite, "");
    assert_eq!(row.ssm, "Online");
    assert!(row.selected);
    i.ssm_managed = false;
    assert_eq!(app.inventory_row(&i, false).ssm, "No");
}

#[test]
fn row_clicks_select_and_connect() {
    let mut app = app(true);
    let id = "i-1".to_string();
    let pending = app.act_on_row(&id, RowAction { select: true, connect: false }, None);
    assert_eq!(pending, None);
    assert_eq!(app.selected_instance_id, "i-1");
    let other = "i-2".to_string();
    let none = RowAction { select: false, connect: false };
    let pending = app.act_on_row(&other, none, Some("i-0".to_string()));
    assert_eq!(pending, Some("i-0".to_string()));
    assert_eq!(app.selected_instance_id, "i-1");
    let pending = app.act_on_row(&other, RowAction { select: true, connect: true }, pending);
    assert_eq!(pending, Some("i-2".to_string()));
    app.select_for_connection("i-3".to_string());
    assert_eq!(app.selected_instance_id, "i-3");
}

#[test]
fn favorites_need_a_selection() {
    let mut app = app(true);
    assert_eq!(
        app.favorite_target(None),
        Err(AppError::NotFound("Select an instance first".to_string()))
    );
    app.accept_context(context(Mode::Sim, true));
    let target = app.favorite_target(Some(&instance("i-1", None))).expect("one is selected");
    assert_eq!(target.account_id, "000000000000");
    assert_eq!(target.region, "eu-north-1");
    assert_eq!(target.instance_id, "i-1");
    app.favorite_toggled("i-1", true);
    assert_eq!(app.message, "Favorite enabled: i-1");
    app.favorite_toggled("i-1", false);
    assert_eq!(last_log(&app), (LogLevel::Info, "Favorite disabled: i-1".to_string()));
}

#[test]
fn events_update_their_tabs() {
    let mut app = app(true);
    let update = app.handle_event(&ProcEvent::Output { tab_id: 3, bytes: vec![0; 1024] });
    assert_eq!(update.line, None);
    assert!(!update.stopped);
    assert_eq!(last_log(&app), (LogLevel::Trace, "tab=3 output bytes=1024".to_string()));
    let update = app.handle_event(&ProcEvent::Error { tab_id: 3, error: "io".to_string() });
    assert_eq!(update.line, Some("[error] io".to_string()));
    assert!(!update.stopped);
    assert_eq!(last_log(&app), (LogLevel::Error, "tab=3 process error: io".to_string()));
    let update = app.handle_event(&ProcEvent::Exited { tab_id: 3, code: i32::MIN });
    assert_eq!(update.tab_id, 3);
    assert_eq!(update.line, Some("[exit] code=-2147483648".to_string()));
    assert!(update.stopped);
    assert_eq!(
        last_log(&app),
        (LogLevel::Info, "tab=3 process exited with code -2147483648".to_string())
    );
    app.close_connection_tab(u64::MAX);
    assert_eq!(
        last_log(&app),
        (LogLevel::Info, "closed connection tab id=18446744073709551615".to_string())
    );
}

#[test]
fn gone_processes_are_reaped() {
    let mut app = app(true);
    let plan = app.reap(&[
        (1, WaitOutcome::Running),
        (2, WaitOutcome::Ended(0)),
        (3, WaitOutcome::Failed("no child".to_string())),
        (4, WaitOutcome::Ended(u32::MAX)),
        (5, WaitOutcome::Ended(0x8000_0000)),
        (6, WaitOutcome::Ended(130)),
    ]);
    assert_eq!(plan.exited, vec![(2, 0), (3, -1), (4, -1), (5, i32::MIN), (6, 130)]);
    assert_eq!(plan.lines, vec![(3, "[wait error] no child".to_string())]);
    assert_eq!(app.logs.len(), 2);
    assert_eq!(last_log(&app), (LogLevel::Error, "tab=3 wait error: no child".to_string()));
}

#[test]
fn format_connection_summary_line_contains_instance_ip_and_status() {
    let line = format_connection_summary_line("api-a", "i-123", "10.0.1.25", true);
    assert!(line.contains("Instance: api-a (i-123)"));
    assert!(line.contains("Private IP: 10.0.1.25"));
    assert!(line.contains("Status: Running"));
    assert!(line.contains('\t'));
}

#[test]
fn connection_panel_texts() {
    assert_eq!(
        format_connection_summary_line("a", "i-1", "-", false),
        "Instance: a (i-1)\tPrivate IP: -\tStatus: Closed"
    );
    assert_eq!(connection_ip(Some(&instance("i-1", None))), "10.0.1.25");
    let mut hidden = instance("i-1", None);
    hidden.private_ip = None;
    assert_eq!(connection_ip(Some(&hidden)), "-");
    assert_eq!(connection_ip(None), "-");
    assert_eq!(tab_label(true, "api"), "api");
    assert_eq!(tab_label(false, "api"), "[done] api");
    assert_eq!(connections_label(0), "Connections (0)");
    assert_eq!(connections_label(105), "Connections (105)");
    assert!(cursor_shown(0));
    assert!(!cursor_shown(3));
    assert!(!cursor_shown(-3));
    assert!(cursor_shown(-4));
    assert!(forwards_keys(false, true));
    assert!(forwards_keys(true, false));
    assert!(!forwards_keys(false, false));
    assert_eq!(shown_choice("", "No filter"), "No filter");
    assert_eq!(shown_choice("running", "No filter"), "running");
}

#[test]
fn the_header_names_the_context() {
    let mut app = app(true);
    assert_eq!(app.header_labels(), vec!["Mode: sim"]);
    let mut unknown = context(Mode::Sim, true);
    unknown.account_id = None;
    app.accept_context(unknown);
    assert_eq!(
        app.header_labels(),
        vec![
            "Mode: sim",
            "Profile: sim-profile",
            "Account: unknown",
            "Region: eu-north-1",
            "Auth: OK"
        ]
    );
    assert_eq!(app.footer(), "aws CLI: true | ssm plugin: false | terminals: 0");
}

#[test]
fn rescanning_selects_anew() {
    let mut app = app(true);
    assert_eq!(app.selected_terminal_label(), "(none detected)");
    let kitty = TerminalOption {
        id: "kitty".to_string(),
        display_name: "Kitty".to_string(),
        program: "kitty".to_string(),
    };
    app.rescan_terminals(vec![kitty.clone()], None);
    assert_eq!(app.selected_terminal_id, "kitty");
    assert_eq!(app.selected_terminal_label(), "Kitty (kitty)");
    assert_eq!(
        last_log(&app),
        (LogLevel::Info, "terminal selection updated to kitty after rescan".to_string())
    );
    let lines = app.logs.len();
    app.rescan_terminals(vec![kitty.clone()], Some(&kitty));
    assert_eq!(app.logs.len(), lines);
    assert_eq!(app.default_terminal_change("kitty"), None);
    assert_eq!(app.default_terminal_change("xterm"), Some(Some("kitty".to_string())));
    app.default_terminal_saved();
    assert_eq!(app.message, "Default terminal set to Kitty (kitty)");
    app.rescan_terminals(vec![], None);
    assert_eq!(
        last_log(&app),
        (LogLevel::Info, "terminal selection updated to (none) after rescan".to_string())
    );
    assert_eq!(app.default_terminal_change("kitty"), Some(None));
}

#[test]
fn diagnostics_are_listed() {
    let mut app = app(true);
    app.diagnostics_completed(&DiagnosticsReport {
        mode: "sim".to_string(),
        profile: "p".to_string(),
        auth_status: "OK".to_string(),
        aws_cli_found: "true".to_string(),
        ssm_plugin_found: "false".to_string(),
        ec2_check: "None".to_string(),
        ssm_check: "Some(true)".to_string(),
    });
    assert_eq!(
        app.diagnostics,
        "mode=sim\nprofile=p\nauth=OK\naws_cli=true\nssm_plugin=false\nec2_check=None\nssm_check=Some(true)"
    );
    assert_eq!(last_log(&app), (LogLevel::Info, "diagnostics completed".to_string()));
}

#[test]
fn the_cursor_blinks_among_connections_only() {
    let mut app = app(true);
    app.show_connections();
    assert!(!app.cursor_blinks());
    app.pty_sessions.open(1);
    assert!(app.cursor_blinks());
    app.main_tab = MainTab::Log;
    assert!(!app.cursor_blinks());
}

#[test]
fn help_is_asked_for() {
    assert!(wants_help(&["x".to_string(), "-h".to_string()]));
    assert!(wants_help(&["--help".to_string()]));
    assert!(!wants_help(&["--helper".to_string()]));
    assert!(!wants_help(&[]));
}

#[test]
fn aws_arguments_follow_the_global_flags() {
    let plan = run_aws_cli(Some("ops"), Some("eu-west-1"), &["ec2", "describe-instances"]);
    assert_eq!(plan.program, "aws");
    assert_eq!(
        plan.args,
        vec!["--profile", "ops", "--region", "eu-west-1", "ec2", "describe-instances"]
    );
    assert!(plan.envs.is_empty());
    assert_eq!(run_aws_cli(None, Some("r"), &["x"]).args, vec!["--region", "r", "x"]);
    assert!(run_aws_cli(None, None, &[]).args.is_empty());
}

#[test]
fn captured_output_is_decoded() {
    let args = vec!["sts".to_string()];
    let ok = CommandOutcome::Finished {
        success: true,
        stdout: vec![b'o', 0xc3, 0xa9, 0xff],
        stderr: vec![b'x'],
    };
    assert_eq!(run_capture("aws", &args, &ok), Ok("o\u{e9}\u{fffd}".to_string()));
    let failed = CommandOutcome::Finished {
        success: false,
        stdout: vec![b'o'],
        stderr: vec![0xff, b'!'],
    };
    assert_eq!(
        run_capture("aws", &args, &failed),
        Err(AppError::CommandFailed {
            program: "aws".to_string(),
            args: vec!["sts".to_string()],
            stderr: "\u{fffd}!".to_string(),
        })
    );
    let missing = CommandOutcome::NotRun("not found".to_string());
    assert_eq!(
        run_capture("aws", &args, &missing),
        Err(AppError::Io("not found".to_string()))
    );
}

#[test]
fn tabs_show_their_terminal_or_their_lines() {
    let mut app = app(false);
    let now = Timestamp { secs: 0, nanos: 0 };
    app.session_started(7, "i-1".to_string(), "t".to_string(), "ls", now);
    let lines = vec!["a".to_string(), "".to_string(), "b".to_string()];
    assert_eq!(app.tab_text(8, &lines, true), "a\n\nb");
    assert_eq!(app.tab_text(8, &vec![], true), "");
    app.handle_event(&ProcEvent::Output { tab_id: 7, bytes: b"out".to_vec() });
    app.handle_event(&ProcEvent::Output { tab_id: 8, bytes: b"lost".to_vec() });
    assert!(app.tab_text(7, &lines, true).starts_with("out|\n"));
    app.handle_event(&ProcEvent::Exited { tab_id: 7, code: 0 });
    assert!(app.tab_text(7, &lines, false).starts_with("out\n"));
    app.reap(&[(7, WaitOutcome::Running)]);
    assert!(!app.pty_sessions.is_empty());
    app.reap(&[(7, WaitOutcome::Ended(0))]);
    assert_eq!(app.tab_text(7, &lines, true), "a\n\nb");
    app.session_started(9, "i-1".to_string(), "t".to_string(), "ls", now);
    app.reap(&[(9, WaitOutcome::Failed("gone".to_string()))]);
    assert!(app.pty_sessions.is_empty());
    app.session_started(9, "i-1".to_string(), "t".to_string(), "ls", now);
    app.close_connection_tab(9);
    assert!(app.pty_sessions.is_empty());
}

#[test]
fn the_last_row_clicked_wins() {
    let mut app = app(true);
    app.selected_instance_id = "i-0".to_string();
    let none = resolve_row_action(false, false, false);
    let click = resolve_row_action(true, false, false);
    let connect = resolve_row_action(true, true, false);
    let rows = [("i-1", none), ("i-2", connect), ("i-3", connect), ("i-4", click), ("i-5", none)];
    let mut pending = None;
    for (id, action) in rows {
        pending = app.act_on_row(&id.to_string(), action, pending);
    }
    assert_eq!(pending, Some("i-3".to_string()));
    assert_eq!(app.selected_instance_id, "i-4");

    let mut pending = None;
    for id in ["i-1", "i-2"] {
        pending = app.act_on_row(&id.to_string(), none, pending);
    }
    assert_eq!(pending, None);
    assert_eq!(app.selected_instance_id, "i-4");
}

#[test]
fn clearing_and_closing_are_logged_last() {
    let mut app = app(false);
    let now = Timestamp { secs: 0, nanos: 0 };
    app.session_started(3, "i-1".to_string(), "t".to_string(), "ls", now);
    assert_eq!(last_log(&app).1, "tab=3 auto-sent prefilled command");
    app.close_connection_tab(3);
    assert!(app.pty_sessions.is_empty());
    assert_eq!(last_log(&app).1, "closed connection tab id=3");
    app.clear_log();
    assert_eq!(app.logs.len(), 1);
}
