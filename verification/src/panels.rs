//! What the panels of the window show, and what their controls change.

use vstd::prelude::*;
use vstd::string::*;

use crate::log::{displayed_log, log_after, line_texts, log_summary, visible_lines, LogLevel};
use crate::models::{text_or, Instance, TerminalOption};
use crate::screen::session_text;
use crate::state::{AppView, Ec2GuiApp, MainTab};
use crate::terminal::{initial_terminal, initial_terminal_id};
use crate::text::{
    are_lines,
    bool_str,
    bool_text,
    decimal,
    decimal_string,
    join,
    joined,
    joined_lines_come_back,
    joining_adds_at_the_end,
    lines_of,
    same_text,
    texts,
};

verus! {

/// How many characters of a title the label of a tab shows.
pub const SHOWN_TITLE_CHARS: usize = 28;

/// The line above the terminal of a connection.
pub open spec fn summary_line(
    title: Seq<char>,
    instance_id: Seq<char>,
    private_ip: Seq<char>,
    running: bool,
) -> Seq<char> {
    "Instance: "@ + title + " ("@ + instance_id + ")\tPrivate IP: "@ + private_ip + "\tStatus: "@
        + if running {
        "Running"@
    } else {
        "Closed"@
    }
}

/// The line above the terminal of a connection.
pub fn format_connection_summary_line(
    title: &str,
    instance_id: &str,
    private_ip: &str,
    running: bool,
) -> (r: String)
    ensures
        r@ == summary_line(title@, instance_id@, private_ip@, running),
{
    let status = if running {
        "Running"
    } else {
        "Closed"
    };
    "Instance: ".to_string().concat(title).concat(" (").concat(instance_id).concat(
        ")\tPrivate IP: ",
    ).concat(private_ip).concat("\tStatus: ").concat(status)
}

/// The address that is shown for a connection: that of its instance, if the
/// instance is still listed and has one.
pub fn connection_ip(instance: Option<&Instance>) -> (r: String)
    ensures
        r@ == match instance {
            Some(i) => text_or(i.private_ip, "-"@),
            None => "-"@,
        },
{
    if let Some(i) = instance {
        if let Some(ip) = &i.private_ip {
            return ip.clone();
        }
    }
    "-".to_string()
}

/// The label of a connection's tab, where `shown_title` is its title, cut to
/// [`SHOWN_TITLE_CHARS`].
pub fn tab_label(running: bool, shown_title: &str) -> (r: String)
    ensures
        r@ == if running {
            shown_title@
        } else {
            "[done] "@ + shown_title@
        },
{
    if running {
        shown_title.to_string()
    } else {
        "[done] ".to_string().concat(shown_title)
    }
}

/// Whether the cursor is drawn in the given half second: in every other one.
pub fn cursor_shown(half_seconds: i64) -> (r: bool)
    ensures
        r == (half_seconds % 2 == 0),
{
    let rest: i64 = half_seconds % 2;
    rest == 0
}

/// Whether keys go to the terminal that is shown.
pub fn forwards_keys(clicked: bool, running: bool) -> (r: bool)
    ensures
        r == (clicked || running),
{
    clicked || running
}

/// What is shown for a choice: the text, or `otherwise` if it is empty.
pub fn shown_choice(text: &str, otherwise: &str) -> (r: String)
    ensures
        r@ == if text@.len() == 0 {
            otherwise@
        } else {
            text@
        },
{
    if text.is_empty() {
        otherwise.to_string()
    } else {
        text.to_string()
    }
}

/// The label of the switch to the connections, of which there are `count`.
pub fn connections_label(count: usize) -> (r: String)
    ensures
        r@ == "Connections ("@ + decimal(count as nat) + ")"@,
{
    "Connections (".to_string().concat(decimal_string(count as u64).as_str()).concat(")")
}

/// How a terminal is listed.
pub open spec fn terminal_text(terminal: TerminalOption) -> Seq<char> {
    terminal.display_name@ + " ("@ + terminal.id@ + ")"@
}

/// How a terminal is listed.
pub fn terminal_label(terminal: &TerminalOption) -> (r: String)
    ensures
        r@ == terminal_text(*terminal),
{
    terminal.display_name.clone().concat(" (").concat(terminal.id.as_str()).concat(")")
}

impl AppView {
    /// The labels at the top of the window.
    pub open spec fn header(self) -> Seq<Seq<char>> {
        seq!["Mode: "@ + self.options.mode_label@] + match self.context {
            Some(c) => seq![
                "Profile: "@ + c.profile@,
                "Account: "@ + text_or(c.account_id, "unknown"@),
                "Region: "@ + c.region@,
                "Auth: "@ + c.auth_status.label@,
            ],
            None => Seq::empty(),
        }
    }

    /// This state once the diagnostics found what `text` says.
    pub open spec fn with_diagnostics(self, text: Seq<char>) -> AppView {
        AppView { diagnostics: text, ..self }.logged(LogLevel::Info, "diagnostics completed"@)
    }

    /// This state once the terminals were looked for again.
    pub open spec fn rescanned(
        self,
        terminals: Seq<TerminalOption>,
        selected: Seq<char>,
    ) -> AppView {
        let next = AppView { terminals, selected_terminal_id: selected, ..self };
        if selected == self.selected_terminal_id {
            next
        } else {
            next.logged(
                LogLevel::Info,
                "terminal selection updated to "@ + if selected.len() == 0 {
                    "(none)"@
                } else {
                    selected
                } + " after rescan"@,
            )
        }
    }
}

impl Ec2GuiApp {
    /// Whether the window is to be redrawn for the sake of the cursor: while the
    /// connections are shown, and one of them has a terminal.
    pub fn cursor_blinks(&self) -> (r: bool)
        ensures
            r == (self@.main_tab is Connections && self@.pty_sessions != Map::<
                u64,
                Seq<u8>,
            >::empty()),
    {
        self.main_tab == MainTab::Connections && !self.pty_sessions.is_empty()
    }

    /// What a tab shows: its terminal, or the lines that were added to it if it has
    /// none.
    pub fn tab_text(&self, tab_id: u64, lines: &Vec<String>, show_cursor: bool) -> (r: String)
        ensures
            r@ == if self@.pty_sessions.dom().contains(tab_id) {
                session_text(self@.pty_sessions[tab_id], show_cursor)
            } else {
                joined(texts(lines@), "\n"@)
            },
    {
        match self.pty_sessions.text(tab_id, show_cursor) {
            Some(text) => text,
            None => join(lines, "\n"),
        }
    }

    /// The labels at the top of the window.
    pub fn header_labels(&self) -> (r: Vec<String>)
        ensures
            texts(r@) == self@.header(),
    {
        let mut labels: Vec<String> = Vec::new();
        labels.push("Mode: ".to_string().concat(self.options.mode_label.as_str()));
        if let Some(c) = &self.context {
            labels.push("Profile: ".to_string().concat(c.profile.as_str()));
            let account = match &c.account_id {
                Some(id) => id.as_str(),
                None => "unknown",
            };
            labels.push("Account: ".to_string().concat(account));
            labels.push("Region: ".to_string().concat(c.region.as_str()));
            labels.push("Auth: ".to_string().concat(c.auth_status.label.as_str()));
        }
        assert(texts(labels@) =~= self@.header());
        labels
    }

    /// Takes a new list of terminals, of which `picked` is the one that the
    /// configuration asks for, and selects anew.
    pub fn rescan_terminals(
        &mut self,
        terminals: Vec<TerminalOption>,
        picked: Option<&TerminalOption>,
    )
        ensures
            final(self)@ == old(self)@.rescanned(
                terminals@,
                initial_terminal(picked, terminals@),
            ),
            old(self)@.wf() ==> final(self)@.wf(),
    {
        let selected = initial_terminal_id(picked, terminals.as_slice());
        let changed = !same_text(selected.as_str(), self.selected_terminal_id.as_str());
        self.terminals = terminals;
        self.selected_terminal_id = selected.clone();
        if changed {
            self.log_info(
                "terminal selection updated to ".to_string().concat(
                    shown_choice(selected.as_str(), "(none)").as_str(),
                ).concat(" after rescan"),
            );
        }
    }

    /// What the list of terminals shows as selected.
    pub fn selected_terminal_label(&self) -> (r: String)
        ensures
            r@ == match self@.selected_terminal() {
                Some(t) => terminal_text(t),
                None => "(none detected)"@,
            },
    {
        match self.selected_terminal() {
            Some(t) => terminal_label(t),
            None => "(none detected)".to_string(),
        }
    }

    /// The terminal that the configuration is to ask for from now on, if another
    /// one than `before` is selected: none, or the selected one.
    pub fn default_terminal_change(&self, before: &str) -> (r: Option<Option<String>>)
        ensures
            if self@.selected_terminal_id == before@ {
                r is None
            } else if self@.selected_terminal_id.len() == 0 {
                r == Some(None::<String>)
            } else {
                r matches Some(Some(id)) && id@ == self@.selected_terminal_id
            },
    {
        if same_text(self.selected_terminal_id.as_str(), before) {
            None
        } else if self.selected_terminal_id.as_str().is_empty() {
            Some(None)
        } else {
            Some(Some(self.selected_terminal_id.clone()))
        }
    }

    /// Tells which terminal the configuration asks for from now on.
    pub fn default_terminal_saved(&mut self)
        ensures
            final(self)@ == match old(self)@.selected_terminal() {
                Some(t) => old(self)@.told(
                    LogLevel::Info,
                    "Default terminal set to "@ + terminal_text(t),
                ),
                None => old(self)@,
            },
            old(self)@.wf() ==> final(self)@.wf(),
    {
        let label = match self.selected_terminal() {
            Some(t) => Some(terminal_label(t)),
            None => None,
        };
        if let Some(l) = label {
            self.announce("Default terminal set to ".to_string().concat(l.as_str()));
        }
    }

    /// The heading above the log, and the lines to display under it, each with its
    /// level.
    pub fn log_panel(&self) -> (r: (String, Vec<(LogLevel, String)>))
        ensures
            line_texts(r.1@) == displayed_log(self@.logs, self@.log_filters),
            r.0@ == "Showing "@ + decimal(r.1@.len()) + " / "@ + decimal(self@.logs.len())
                + " log lines"@,
    {
        let lines = visible_lines(&self.logs, &self.log_filters);
        let heading = log_summary(lines.len(), self.logs.len());
        (heading, lines)
    }

    /// The line at the foot of the controls.
    pub fn footer(&self) -> (r: String)
        ensures
            r@ == "aws CLI: "@ + bool_text(self@.dependencies.aws_cli_found) + " | ssm plugin: "@
                + bool_text(self@.dependencies.ssm_plugin_found) + " | terminals: "@ + decimal(
                self@.terminals.len(),
            ),
    {
        "aws CLI: ".to_string().concat(bool_str(self.dependencies.aws_cli_found)).concat(
            " | ssm plugin: ",
        ).concat(bool_str(self.dependencies.ssm_plugin_found)).concat(" | terminals: ").concat(
            decimal_string(self.terminals.len() as u64).as_str(),
        )
    }

    /// Shows what the diagnostics found.
    pub fn diagnostics_completed(&mut self, report: &DiagnosticsReport)
        ensures
            final(self)@ == old(self)@.with_diagnostics(report.text()),
            old(self)@.wf() ==> final(self)@.wf(),
    {
        self.diagnostics = "mode=".to_string().concat(report.mode.as_str()).concat(
            "\nprofile=",
        ).concat(report.profile.as_str()).concat("\nauth=").concat(
            report.auth_status.as_str(),
        ).concat("\naws_cli=").concat(report.aws_cli_found.as_str()).concat(
            "\nssm_plugin=",
        ).concat(report.ssm_plugin_found.as_str()).concat("\nec2_check=").concat(
            report.ec2_check.as_str(),
        ).concat("\nssm_check=").concat(report.ssm_check.as_str());
        self.log_info("diagnostics completed".to_string());
    }
}

/// What the diagnostics found, each finding as the text to show for it.
#[derive(Debug, Clone, PartialEq, Eq)]
pub struct DiagnosticsReport {
    pub mode: String,
    pub profile: String,
    pub auth_status: String,
    pub aws_cli_found: String,
    pub ssm_plugin_found: String,
    pub ec2_check: String,
    pub ssm_check: String,
}

impl DiagnosticsReport {
    /// The findings, one per line.
    pub open spec fn text(self) -> Seq<char> {
        "mode="@ + self.mode@ + "\nprofile="@ + self.profile@ + "\nauth="@ + self.auth_status@
            + "\naws_cli="@ + self.aws_cli_found@ + "\nssm_plugin="@ + self.ssm_plugin_found@
            + "\nec2_check="@ + self.ec2_check@ + "\nssm_check="@ + self.ssm_check@
    }
}

/// The line above a terminal holds the title, the id and the address whole and in that
/// order, and says whether the connection runs.
pub proof fn summaries_tell_everything(
    title: Seq<char>,
    instance_id: Seq<char>,
    private_ip: Seq<char>,
)
    ensures
        summary_line(title, instance_id, private_ip, true) == "Instance: "@ + title + " ("@
            + instance_id + ")\tPrivate IP: "@ + private_ip + "\tStatus: "@ + "Running"@,
        summary_line(title, instance_id, private_ip, false) == "Instance: "@ + title + " ("@
            + instance_id + ")\tPrivate IP: "@ + private_ip + "\tStatus: "@ + "Closed"@,
        summary_line(title, instance_id, private_ip, true).subrange(10, 10 + title.len() as int) == title,
        summary_line(title, instance_id, private_ip, true).len() == summary_line(
            title,
            instance_id,
            private_ip,
            false,
        ).len() + 1,
{
    reveal_strlit("Instance: ");
    reveal_strlit("Running");
    reveal_strlit("Closed");
    assert(summary_line(title, instance_id, private_ip, true).subrange(10, 10 + title.len() as int)
        =~= title);
}

/// A terminal is listed under its whole name, with its whole id in brackets behind it.
pub proof fn terminals_are_listed_by_name_and_id(terminal: TerminalOption)
    ensures
        ({
            let text = terminal_text(terminal);
            let n = terminal.display_name@.len() as int;
            let m = terminal.id@.len() as int;
            &&& text.len() == n + m + 3
            &&& text.take(n) == terminal.display_name@
            &&& text.subrange(n, n + 2) == " ("@
            &&& text.subrange(n + 2, n + 2 + m) == terminal.id@
            &&& text.last() == ')'
        }),
{
    reveal_strlit(" (");
    reveal_strlit(")");
    let text = terminal_text(terminal);
    let n = terminal.display_name@.len() as int;
    let m = terminal.id@.len() as int;
    assert(text.take(n) =~= terminal.display_name@);
    assert(text.subrange(n, n + 2) =~= " ("@);
    assert(text.subrange(n + 2, n + 2 + m) =~= terminal.id@);
}

/// The header always tells the mode, and once there is a context also its profile,
/// account, region and credentials, each behind its name.
pub proof fn headers_tell_the_context(app: AppView)
    ensures
        app.header()[0] == "Mode: "@ + app.options.mode_label@,
        app.context is None ==> app.header().len() == 1,
        app.context matches Some(c) ==> {
            &&& app.header().len() == 5
            &&& app.header()[1] == "Profile: "@ + c.profile@
            &&& c.account_id matches Some(id) ==> app.header()[2] == "Account: "@ + id@
            &&& c.account_id is None ==> app.header()[2] == "Account: "@ + "unknown"@
            &&& app.header()[3] == "Region: "@ + c.region@
            &&& app.header()[4] == "Auth: "@ + c.auth_status.label@
        },
{
}

/// After a rescan the new terminals and the new selection are in use; the log tells of
/// a selection exactly if it is another one, and nothing else changes.
pub proof fn rescans_take_the_new_terminals(
    app: AppView,
    terminals: Seq<TerminalOption>,
    selected: Seq<char>,
)
    ensures
        ({
            let next = app.rescanned(terminals, selected);
            &&& next == AppView {
                terminals,
                selected_terminal_id: selected,
                logs: next.logs,
                ..app
            }
            &&& selected == app.selected_terminal_id ==> next.logs == app.logs
            &&& selected != app.selected_terminal_id && selected.len() > 0 ==> next.logs
                == log_after(
                app.logs,
                LogLevel::Info,
                "terminal selection updated to "@ + selected + " after rescan"@,
            )
            &&& selected != app.selected_terminal_id && selected.len() == 0 ==> next.logs
                == log_after(
                app.logs,
                LogLevel::Info,
                "terminal selection updated to "@ + "(none)"@ + " after rescan"@,
            )
        }),
{
}

/// What the diagnostics found is shown as it is; nothing else changes but the log.
pub proof fn diagnostics_are_shown(app: AppView, text: Seq<char>)
    ensures
        app.with_diagnostics(text) == (AppView {
            diagnostics: text,
            logs: log_after(app.logs, LogLevel::Info, "diagnostics completed"@),
            ..app
        }),
{
}

/// A report tells each finding whole, behind its name, in seven lines.
pub proof fn reports_tell_each_finding(report: DiagnosticsReport)
    requires
        are_lines(
            seq![
                report.mode@,
                report.profile@,
                report.auth_status@,
                report.aws_cli_found@,
                report.ssm_plugin_found@,
                report.ec2_check@,
                report.ssm_check@,
            ],
        ),
    ensures
        lines_of(report.text()) == seq![
            "mode="@ + report.mode@,
            "profile="@ + report.profile@,
            "auth="@ + report.auth_status@,
            "aws_cli="@ + report.aws_cli_found@,
            "ssm_plugin="@ + report.ssm_plugin_found@,
            "ec2_check="@ + report.ec2_check@,
            "ssm_check="@ + report.ssm_check@,
        ],
{
    let found = seq![
        report.mode@,
        report.profile@,
        report.auth_status@,
        report.aws_cli_found@,
        report.ssm_plugin_found@,
        report.ec2_check@,
        report.ssm_check@,
    ];
    let names = seq![
        "mode="@,
        "profile="@,
        "auth="@,
        "aws_cli="@,
        "ssm_plugin="@,
        "ec2_check="@,
        "ssm_check="@,
    ];
    let lines = Seq::new(7, |i: int| names[i] + found[i]);
    lemma_finding_names(names);
    assert forall|i: int| 0 <= i < 7 implies !(#[trigger] lines[i]).contains('\n') by {
        assert(!found[i].contains('\n') && !names[i].contains('\n'));
        if lines[i].contains('\n') {
            let k = choose|k: int| 0 <= k < lines[i].len() && lines[i][k] == '\n';
            if k < names[i].len() {
                assert(names[i][k] == '\n');
            } else {
                assert(found[i][k - names[i].len()] == '\n');
            }
        }
    }
    lemma_report_is_joined(report, lines);
    joined_lines_come_back(lines);
    assert(lines =~= seq![
        "mode="@ + report.mode@,
        "profile="@ + report.profile@,
        "auth="@ + report.auth_status@,
        "aws_cli="@ + report.aws_cli_found@,
        "ssm_plugin="@ + report.ssm_plugin_found@,
        "ec2_check="@ + report.ec2_check@,
        "ssm_check="@ + report.ssm_check@,
    ]);
}

proof fn lemma_finding_names(names: Seq<Seq<char>>)
    requires
        names == seq![
            "mode="@,
            "profile="@,
            "auth="@,
            "aws_cli="@,
            "ssm_plugin="@,
            "ec2_check="@,
            "ssm_check="@,
        ],
    ensures
        are_lines(names),
{
    reveal_strlit("mode=");
    reveal_strlit("profile=");
    reveal_strlit("auth=");
    reveal_strlit("aws_cli=");
    reveal_strlit("ssm_plugin=");
    reveal_strlit("ec2_check=");
    reveal_strlit("ssm_check=");
}

proof fn lemma_report_is_joined(report: DiagnosticsReport, lines: Seq<Seq<char>>)
    requires
        lines.len() == 7,
        lines[0] == "mode="@ + report.mode@,
        lines[1] == "profile="@ + report.profile@,
        lines[2] == "auth="@ + report.auth_status@,
        lines[3] == "aws_cli="@ + report.aws_cli_found@,
        lines[4] == "ssm_plugin="@ + report.ssm_plugin_found@,
        lines[5] == "ec2_check="@ + report.ec2_check@,
        lines[6] == "ssm_check="@ + report.ssm_check@,
    ensures
        joined(lines, "\n"@) == report.text(),
{
    reveal_strlit("\n");
    reveal_strlit("profile=");
    reveal_strlit("\nprofile=");
    reveal_strlit("auth=");
    reveal_strlit("\nauth=");
    reveal_strlit("aws_cli=");
    reveal_strlit("\naws_cli=");
    reveal_strlit("ssm_plugin=");
    reveal_strlit("\nssm_plugin=");
    reveal_strlit("ec2_check=");
    reveal_strlit("\nec2_check=");
    reveal_strlit("ssm_check=");
    reveal_strlit("\nssm_check=");
    assert("\nprofile="@ =~= "\n"@ + "profile="@);
    assert("\nauth="@ =~= "\n"@ + "auth="@);
    assert("\naws_cli="@ =~= "\n"@ + "aws_cli="@);
    assert("\nssm_plugin="@ =~= "\n"@ + "ssm_plugin="@);
    assert("\nec2_check="@ =~= "\n"@ + "ec2_check="@);
    assert("\nssm_check="@ =~= "\n"@ + "ssm_check="@);
    lemma_join_step(lines, 1, "\nprofile="@, "profile="@, report.profile@);
    lemma_join_step(lines, 2, "\nauth="@, "auth="@, report.auth_status@);
    lemma_join_step(lines, 3, "\naws_cli="@, "aws_cli="@, report.aws_cli_found@);
    lemma_join_step(lines, 4, "\nssm_plugin="@, "ssm_plugin="@, report.ssm_plugin_found@);
    lemma_join_step(lines, 5, "\nec2_check="@, "ec2_check="@, report.ec2_check@);
    lemma_join_step(lines, 6, "\nssm_check="@, "ssm_check="@, report.ssm_check@);
    assert(lines.take(1) =~= seq![lines[0]]);
    joining_adds_at_the_end(lines, lines[0], "\n"@);
    assert(lines.take(7) =~= lines);
}

proof fn lemma_join_step(
    lines: Seq<Seq<char>>,
    i: int,
    marked: Seq<char>,
    name: Seq<char>,
    found: Seq<char>,
)
    requires
        0 < i < lines.len(),
        lines[i] == name + found,
        marked == "\n"@ + name,
    ensures
        joined(lines.take(i + 1), "\n"@) == joined(lines.take(i), "\n"@) + marked + found,
{
    assert(lines.take(i + 1) =~= lines.take(i).push(lines[i]));
    joining_adds_at_the_end(lines.take(i), lines[i], "\n"@);
    let front = joined(lines.take(i), "\n"@);
    assert(front + "\n"@ + (name + found) =~= front + marked + found);
}

} // verus!
