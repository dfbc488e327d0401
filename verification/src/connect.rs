//! Opening connections: what is checked, what is run, and what the tab shows.

use vstd::prelude::*;
use vstd::string::*;

use crate::aws_cli::CommandPlan;
use crate::error::{AppError, AppErrorView};
use crate::log::{log_after, LogLevel};
use crate::models::{AwsContext, DependencyStatus, Instance, Mode, RecentConnection, TerminalOption};
use crate::profile::{now_unix, Timestamp};
use crate::state::{AppView, Ec2GuiApp};
use crate::terminal::{env_texts, pty_command, shell_env, shell_of};
use crate::text::{blank, decimal, decimal_string, is_blank, texts};

verus! {

/// How many characters of a command the tab shows.
pub const SHOWN_COMMAND_CHARS: usize = 220;

/// An instance to connect to, and the title of its tab.
#[derive(Debug, Clone, PartialEq, Eq)]
pub struct ConnectTarget {
    pub instance_id: String,
    pub region: String,
    pub mode: Mode,
    pub title: String,
}

/// What to do with a tab that was opened.
#[derive(Debug, Clone, PartialEq, Eq)]
pub struct OpenPlan {
    /// The lines to show in it.
    pub lines: Vec<String>,
    /// Whether a terminal is to be started; if not, the tab is not running.
    pub launch: bool,
}

/// What to do once the terminal of a tab was started.
#[derive(Debug, Clone, PartialEq, Eq)]
pub struct LaunchPlan {
    /// The bytes to send to it.
    pub payload: Option<Vec<u8>>,
    /// The connection to remember.
    pub recent: Option<RecentConnection>,
}

/// What an instance is called: its name, or its id if the name is blank.
pub open spec fn display_name(instance: Instance) -> Seq<char> {
    match instance.name {
        Some(name) => if is_blank(name@) {
            instance.instance_id@
        } else {
            name@
        },
        None => instance.instance_id@,
    }
}

/// Whether a program is missing that a connection in `mode` needs.
pub open spec fn lacks_programs(mode: Mode, dependencies: DependencyStatus) -> bool {
    mode is Live && !(dependencies.aws_cli_found && dependencies.ssm_plugin_found)
}

/// The title of the tab of a port forward.
pub open spec fn forward_title(name: Seq<char>, local: u16, remote: u16) -> Seq<char> {
    name + " pf "@ + decimal(local as nat) + ":"@ + decimal(remote as nat)
}

/// The command to send for a session: in a simulation it is only shown.
pub open spec fn session_command(mode: Mode, instance_id: Seq<char>, command: Seq<char>) -> Seq<
    char,
> {
    if mode is Sim {
        "echo '[SIM MODE] "@ + command + "'; echo '[SIM MODE] session open for "@ + instance_id
            + "'"@
    } else {
        command
    }
}

/// The command to send for a port forward: in a simulation it is only shown.
pub open spec fn forward_command(
    mode: Mode,
    instance_id: Seq<char>,
    command: Seq<char>,
    local: u16,
    remote: u16,
) -> Seq<char> {
    if mode is Sim {
        "echo '[SIM MODE] "@ + command + "'; echo '[SIM MODE] port-forward "@ + decimal(
            local as nat,
        ) + ":"@ + decimal(remote as nat) + " for "@ + instance_id + "'"@
    } else {
        command
    }
}

/// The line that says under which account data a connection runs.
pub open spec fn context_line(context: AwsContext) -> Seq<char> {
    "profile="@ + context.profile@ + " region="@ + context.region@ + " mode="@
        + context.mode_label@
}

/// The line that says which terminal was selected.
pub open spec fn shell_line(terminal: TerminalOption) -> Seq<char> {
    "[shell profile] "@ + terminal.display_name@ + " ("@ + terminal.id@ + ")"@
}

/// `line`, if `wanted`.
pub open spec fn line_if(wanted: bool, line: Seq<char>) -> Seq<Seq<char>> {
    if wanted {
        seq![line]
    } else {
        Seq::empty()
    }
}

impl AppView {
    /// The lines that a tab is opened with.
    pub open spec fn tab_lines(self, shown_command: Seq<char>, context: AwsContext) -> Seq<
        Seq<char>,
    > {
        seq!["$ "@ + shown_command, context_line(context)] + match self.selected_terminal() {
            Some(t) => seq![shell_line(t)],
            None => Seq::empty(),
        } + seq![
            "SSM command is auto-sent. Click terminal area to focus and type directly."@,
        ] + line_if(
            context.mode is Live,
            "note: live SSM start-session may require a full TTY; embedded mode is best-effort."@,
        ) + line_if(self.options.dry_run, "[dry-run] launch skipped"@)
    }

    /// This state once a tab was opened.
    pub open spec fn with_tab(self, tab_id: u64, instance_id: Seq<char>) -> AppView {
        let next = self.logged(
            LogLevel::Info,
            "opened connection tab id="@ + decimal(tab_id as nat) + " instance="@ + instance_id,
        );
        if self.options.dry_run {
            AppView { message: "Opened connection tab (dry-run)"@, ..next }.logged(
                LogLevel::Info,
                "dry-run mode: process launch skipped"@,
            )
        } else {
            next
        }
    }

    /// This state once the terminal of a tab was started.
    pub open spec fn with_session(self, tab_id: u64) -> AppView {
        AppView { pty_sessions: self.pty_sessions.insert(tab_id, Seq::empty()), ..self }.logged(
            LogLevel::Info,
            "tab="@ + decimal(tab_id as nat) + " auto-sent prefilled command"@,
        )
    }

    /// What a request to connect comes to, given the selected instance: why it is
    /// refused, or the context and the instance to connect to.
    pub open spec fn connect_check(self, instance: Option<&Instance>, refusal: Seq<char>) -> Result<
        (AwsContext, Instance),
        AppErrorView,
    > {
        match self.context {
            None => Err(AppErrorView::Parse("Context not loaded"@)),
            Some(context) => match instance {
                None => Err(AppErrorView::NotFound("Select an instance first"@)),
                Some(i) => if lacks_programs(context.mode, self.dependencies) {
                    Err(AppErrorView::Parse(refusal))
                } else {
                    Ok((context, *i))
                },
            },
        }
    }

    /// This state once a connection was requested: the request is logged if there
    /// is a context to connect in and an instance to connect to.
    pub open spec fn requested(self, instance: Option<&Instance>, request: Seq<char>) -> AppView {
        if self.context is Some && instance is Some {
            self.logged(LogLevel::Info, request)
        } else {
            self
        }
    }
}

/// What is logged when a session is requested.
pub open spec fn session_request(instance: Option<&Instance>) -> Seq<char> {
    match instance {
        Some(i) => "connect requested for "@ + i.instance_id@,
        None => Seq::empty(),
    }
}

/// What is logged when a port forward is requested.
pub open spec fn forward_request(instance: Option<&Instance>, local: u16, remote: u16) -> Seq<char> {
    match instance {
        Some(i) => "port-forward requested for "@ + i.instance_id@ + " local="@ + decimal(
            local as nat,
        ) + " remote="@ + decimal(remote as nat),
        None => Seq::empty(),
    }
}

fn name_of(instance: &Instance) -> (r: String)
    ensures
        r@ == display_name(*instance),
{
    if let Some(name) = &instance.name {
        if !blank(name.as_str()) {
            return name.clone();
        }
    }
    instance.instance_id.clone()
}

fn programs_missing(mode: Mode, dependencies: DependencyStatus) -> (r: bool)
    ensures
        r == lacks_programs(mode, dependencies),
{
    mode == Mode::Live && (!dependencies.aws_cli_found || !dependencies.ssm_plugin_found)
}

/// The command to send for a session, where `command` is the one that starts it.
pub fn connect_command(target: &ConnectTarget, command: &str) -> (r: String)
    ensures
        r@ == session_command(target.mode, target.instance_id@, command@),
{
    if target.mode == Mode::Sim {
        "echo '[SIM MODE] ".to_string().concat(command).concat(
            "'; echo '[SIM MODE] session open for ",
        ).concat(target.instance_id.as_str()).concat("'")
    } else {
        command.to_string()
    }
}

/// The command to send for a port forward, where `command` is the one that starts
/// it.
pub fn port_forward_command(
    target: &ConnectTarget,
    command: &str,
    local_port: u16,
    remote_port: u16,
) -> (r: String)
    ensures
        r@ == forward_command(
            target.mode,
            target.instance_id@,
            command@,
            local_port,
            remote_port,
        ),
{
    if target.mode == Mode::Sim {
        "echo '[SIM MODE] ".to_string().concat(command).concat(
            "'; echo '[SIM MODE] port-forward ",
        ).concat(decimal_string(local_port as u64).as_str()).concat(":").concat(
            decimal_string(remote_port as u64).as_str(),
        ).concat(" for ").concat(target.instance_id.as_str()).concat("'")
    } else {
        command.to_string()
    }
}

/// Whether the command of a connection is sent by itself.
pub fn should_auto_send_prefilled_command(dry_run: bool) -> (r: bool)
    ensures
        r == !dry_run,
{
    !dry_run
}

impl Ec2GuiApp {
    /// Checks a request for a session with the selected instance, and says what to
    /// connect to.
    pub fn connect_selected(&mut self, instance: Option<&Instance>) -> (r: Result<
        ConnectTarget,
        AppError,
    >)
        ensures
            final(self)@ == old(self)@.requested(instance, session_request(instance)),
            match old(self)@.connect_check(
                instance,
                "Connect requires aws CLI + session-manager-plugin in PATH"@,
            ) {
                Ok((context, i)) => r matches Ok(t) && t.instance_id == i.instance_id && t.region
                    == context.region && t.mode == context.mode && t.title@ == display_name(i),
                Err(error) => r matches Err(e) && e@ == error,
            },
            old(self)@.wf() ==> final(self)@.wf(),
    {
        let (mode, region) = match &self.context {
            Some(c) => (c.mode, c.region.clone()),
            None => return Err(AppError::Parse("Context not loaded".to_string())),
        };
        let instance = match instance {
            Some(i) => i,
            None => return Err(AppError::NotFound("Select an instance first".to_string())),
        };
        self.log_info("connect requested for ".to_string().concat(instance.instance_id.as_str()));
        if programs_missing(mode, self.dependencies) {
            return Err(
                AppError::Parse(
                    "Connect requires aws CLI + session-manager-plugin in PATH".to_string(),
                ),
            );
        }
        Ok(
            ConnectTarget {
                instance_id: instance.instance_id.clone(),
                region,
                mode,
                title: name_of(instance),
            },
        )
    }

    /// Checks a request for a port forward to the selected instance, and says what
    /// to connect to.
    pub fn port_forward_selected(&mut self, instance: Option<&Instance>) -> (r: Result<
        ConnectTarget,
        AppError,
    >)
        ensures
            final(self)@ == old(self)@.requested(
                instance,
                forward_request(instance, old(self)@.local_port, old(self)@.remote_port),
            ),
            match old(self)@.connect_check(
                instance,
                "Port forward requires aws CLI + session-manager-plugin in PATH"@,
            ) {
                Ok((context, i)) => r matches Ok(t) && t.instance_id == i.instance_id && t.region
                    == context.region && t.mode == context.mode && t.title@ == forward_title(
                    display_name(i),
                    old(self)@.local_port,
                    old(self)@.remote_port,
                ),
                Err(error) => r matches Err(e) && e@ == error,
            },
            old(self)@.wf() ==> final(self)@.wf(),
    {
        let (mode, region) = match &self.context {
            Some(c) => (c.mode, c.region.clone()),
            None => return Err(AppError::Parse("Context not loaded".to_string())),
        };
        let instance = match instance {
            Some(i) => i,
            None => return Err(AppError::NotFound("Select an instance first".to_string())),
        };
        let local = decimal_string(self.local_port as u64);
        let remote = decimal_string(self.remote_port as u64);
        self.log_info(
            "port-forward requested for ".to_string().concat(instance.instance_id.as_str()).concat(
                " local=",
            ).concat(local.as_str()).concat(" remote=").concat(remote.as_str()),
        );
        if programs_missing(mode, self.dependencies) {
            return Err(
                AppError::Parse(
                    "Port forward requires aws CLI + session-manager-plugin in PATH".to_string(),
                ),
            );
        }
        Ok(
            ConnectTarget {
                instance_id: instance.instance_id.clone(),
                region,
                mode,
                title: name_of(instance).concat(" pf ").concat(local.as_str()).concat(":").concat(
                    remote.as_str(),
                ),
            },
        )
    }

    /// Says what a tab that was just opened shows, and whether a terminal is to be
    /// started in it. `shown_command` is the command, cut to
    /// [`SHOWN_COMMAND_CHARS`].
    pub fn open_connection_tab(
        &mut self,
        tab_id: u64,
        instance_id: &str,
        shown_command: &str,
        context: &AwsContext,
    ) -> (r: OpenPlan)
        ensures
            final(self)@ == old(self)@.with_tab(tab_id, instance_id@),
            texts(r.lines@) == old(self)@.tab_lines(shown_command@, *context),
            r.launch == !old(self)@.options.dry_run,
            old(self)@.wf() ==> final(self)@.wf(),
    {
        let ghost before = self@;
        let mut lines: Vec<String> = Vec::new();
        lines.push("$ ".to_string().concat(shown_command));
        lines.push(
            "profile=".to_string().concat(context.profile.as_str()).concat(" region=").concat(
                context.region.as_str(),
            ).concat(" mode=").concat(context.mode_label.as_str()),
        );
        if let Some(terminal) = self.selected_terminal() {
            lines.push(
                "[shell profile] ".to_string().concat(terminal.display_name.as_str()).concat(
                    " (",
                ).concat(terminal.id.as_str()).concat(")"),
            );
        }
        lines.push(
            "SSM command is auto-sent. Click terminal area to focus and type directly.".to_string(),
        );
        if context.mode == Mode::Live {
            lines.push(
                "note: live SSM start-session may require a full TTY; embedded mode is best-effort.".to_string(),
            );
        }
        self.log_info(
            "opened connection tab id=".to_string().concat(
                decimal_string(tab_id).as_str(),
            ).concat(" instance=").concat(instance_id),
        );
        let dry_run = self.options.dry_run;
        if dry_run {
            lines.push("[dry-run] launch skipped".to_string());
            self.message = "Opened connection tab (dry-run)".to_string();
            self.log_info("dry-run mode: process launch skipped".to_string());
        }
        assert(texts(lines@) =~= before.tab_lines(shown_command@, *context));
        OpenPlan { lines, launch: !dry_run }
    }

    /// The command that runs in the terminal of a connection; that it is started
    /// is logged.
    pub fn spawn_pty_session(&mut self, windows: bool, context: &AwsContext) -> (r: CommandPlan)
        ensures
            ({
                let terminal = match old(self)@.selected_terminal() {
                    Some(t) => Some(&t),
                    None => None,
                };
                let shell = shell_of(windows, terminal);
                &&& (r.program@, texts(r.args@)) == shell
                &&& final(self)@ == old(self)@.logged(
                    LogLevel::Debug,
                    "spawning PTY shell via "@ + shell.0,
                )
            }),
            env_texts(r.envs@) == shell_env(*context),
            old(self)@.wf() ==> final(self)@.wf(),
    {
        let plan = pty_command(windows, self.selected_terminal(), context);
        self.log_debug("spawning PTY shell via ".to_string().concat(plan.program.as_str()));
        plan
    }

    /// Gives a tab its terminal, whose shell was just started, and says what to send
    /// to it and which connection to remember. In a dry run there is nothing to do.
    pub fn session_started(
        &mut self,
        tab_id: u64,
        instance_id: String,
        title: String,
        command: &str,
        now: Timestamp,
    ) -> (r: LaunchPlan)
        ensures
            old(self)@.options.dry_run ==> {
                &&& r.payload is None
                &&& r.recent is None
                &&& final(self)@ == old(self)@
            },
            !old(self)@.options.dry_run ==> {
                &&& r.payload matches Some(bytes) && bytes@ == vstd::utf8::encode_utf8(
                    command@,
                ).push(0x0au8)
                &&& r.payload matches Some(bytes) && vstd::utf8::valid_utf8(bytes@)
                    && vstd::utf8::decode_utf8(bytes@) == command@.push('\n')
                &&& r.recent matches Some(c) && c.account_id@ == old(self)@.account_scope()
                    && c.region@ == old(self)@.region_scope() && c.instance_id == instance_id
                    && c.name == Some(title) && c.timestamp_unix == if now.secs >= 0 {
                    now.secs as int
                } else {
                    0
                }
                &&& final(self)@ == old(self)@.with_session(tab_id)
            },
            old(self)@.wf() ==> final(self)@.wf(),
    {
        if !should_auto_send_prefilled_command(self.options.dry_run) {
            return LaunchPlan { payload: None, recent: None };
        }
        self.pty_sessions.open(tab_id);
        let mut payload = command.as_bytes_vec();
        payload.push(0x0a);
        proof {
            lemma_encoding_of_a_line(command@);
            vstd::utf8::encode_utf8_valid_utf8(command@.push('\n'));
            vstd::utf8::encode_utf8_decode_utf8(command@.push('\n'));
        }
        self.log_info(
            "tab=".to_string().concat(decimal_string(tab_id).as_str()).concat(
                " auto-sent prefilled command",
            ),
        );
        let recent = RecentConnection {
            account_id: self.account_scope(),
            region: self.region_scope(),
            instance_id,
            name: Some(title),
            timestamp_unix: now_unix(now),
        };
        LaunchPlan { payload: Some(payload), recent: Some(recent) }
    }

    /// Tells that a connection was opened.
    pub fn connection_opened(&mut self)
        ensures
            final(self)@ == (AppView { message: "Opened connection tab"@, ..old(self)@ }),
            old(self)@.wf() ==> final(self)@.wf(),
    {
        self.message = "Opened connection tab".to_string();
    }
}

/// In a dry run the last line of the tab says that nothing was launched.
pub proof fn dry_runs_say_so(app: AppView, shown_command: Seq<char>, context: AwsContext)
    requires
        app.options.dry_run,
    ensures
        app.tab_lines(shown_command, context).last() == "[dry-run] launch skipped"@,
{
}

/// A connection is never refused for missing programs in a simulation, and in live
/// mode exactly when one of the two is missing.
pub proof fn simulations_need_no_programs(
    app: AppView,
    context: AwsContext,
    instance: &Instance,
    refusal: Seq<char>,
)
    requires
        app.context == Some(context),
    ensures
        app.connect_check(Some(instance), refusal) is Err <==> context.mode is Live && !(
        app.dependencies.aws_cli_found && app.dependencies.ssm_plugin_found),
{
}

/// In live mode the command is sent as it is.
pub proof fn live_commands_are_unchanged(
    instance_id: Seq<char>,
    command: Seq<char>,
    local: u16,
    remote: u16,
)
    ensures
        session_command(Mode::Live, instance_id, command) == command,
        forward_command(Mode::Live, instance_id, command, local, remote) == command,
{
}

/// An instance is called by its name as it is, and by its id exactly if it has no name
/// or a blank one.
pub proof fn instances_are_called_by_name(instance: Instance)
    ensures
        instance.name is None ==> display_name(instance) == instance.instance_id@,
        instance.name matches Some(name) ==> (if is_blank(name@) {
            display_name(instance) == instance.instance_id@
        } else {
            display_name(instance) == name@
        }),
{
}

/// A request to connect is refused exactly if there is no context, no instance, or, in
/// live mode, one of the two programs is missing, in that order; else it comes to the
/// context in use and the instance asked for.
pub proof fn requests_are_checked_in_order(
    app: AppView,
    instance: Option<&Instance>,
    refusal: Seq<char>,
)
    ensures
        ({
            let check = app.connect_check(instance, refusal);
            &&& app.context is None ==> check == Err::<(AwsContext, Instance), AppErrorView>(
                AppErrorView::Parse("Context not loaded"@),
            )
            &&& app.context is Some && instance is None ==> check == Err::<
                (AwsContext, Instance),
                AppErrorView,
            >(AppErrorView::NotFound("Select an instance first"@))
            &&& app.context is Some && instance is Some ==> ({
                let missing = app.context->0.mode is Live && (!app.dependencies.aws_cli_found
                    || !app.dependencies.ssm_plugin_found);
                check == if missing {
                    Err::<(AwsContext, Instance), AppErrorView>(AppErrorView::Parse(refusal))
                } else {
                    Ok::<(AwsContext, Instance), AppErrorView>((app.context->0, *instance->0))
                }
            })
        }),
{
}

/// A request is logged exactly if there are a context and an instance, and changes
/// nothing else; what is logged names the whole id, and the two ports of a forward.
pub proof fn requests_are_logged(
    app: AppView,
    instance: &Instance,
    request: Seq<char>,
    local: u16,
    remote: u16,
)
    ensures
        app.requested(None, request) == app,
        app.context is None ==> app.requested(Some(instance), request) == app,
        app.context is Some ==> app.requested(Some(instance), request) == (AppView {
            logs: log_after(app.logs, LogLevel::Info, request),
            ..app
        }),
        session_request(Some(instance)) == "connect requested for "@ + instance.instance_id@,
        forward_request(Some(instance), local, remote) == "port-forward requested for "@
            + instance.instance_id@ + " local="@ + decimal(local as nat) + " remote="@ + decimal(
            remote as nat,
        ),
{
}

/// In a simulation the command is only shown: what is sent begins with an echo of the
/// whole command and ends with the whole id; nothing of either is lost.
pub proof fn simulated_commands_are_only_shown(
    instance_id: Seq<char>,
    command: Seq<char>,
    local: u16,
    remote: u16,
)
    ensures
        ({
            let session = session_command(Mode::Sim, instance_id, command);
            let forward = forward_command(Mode::Sim, instance_id, command, local, remote);
            let front = "echo '[SIM MODE] "@;
            let end = instance_id + "'"@;
            let n = front.len() as int;
            let m = command.len() as int;
            &&& session.take(n) == front && forward.take(n) == front
            &&& session.subrange(n, n + m) == command && forward.subrange(n, n + m) == command
            &&& session.skip(n + m) == "'; echo '[SIM MODE] session open for "@ + end
            &&& forward.skip(n + m) == "'; echo '[SIM MODE] port-forward "@ + decimal(local as nat)
                + ":"@ + decimal(remote as nat) + " for "@ + end
        }),
{
    let session = session_command(Mode::Sim, instance_id, command);
    let forward = forward_command(Mode::Sim, instance_id, command, local, remote);
    let front = "echo '[SIM MODE] "@;
    let end = instance_id + "'"@;
    let n = front.len() as int;
    let m = command.len() as int;
    let rest = "'; echo '[SIM MODE] port-forward "@ + decimal(local as nat) + ":"@ + decimal(
        remote as nat,
    ) + " for "@ + end;
    assert(session =~= front + command + ("'; echo '[SIM MODE] session open for "@ + end));
    assert(forward =~= front + command + rest);
    assert(session.take(n) =~= front && forward.take(n) =~= front);
    assert(session.subrange(n, n + m) =~= command && forward.subrange(n, n + m) =~= command);
    assert(session.skip(n + m) =~= "'; echo '[SIM MODE] session open for "@ + end);
    assert(forward.skip(n + m) =~= rest);
}

/// The title of a forward begins with the whole name and tells both ports, the local
/// one first.
pub proof fn forward_titles_tell_name_and_ports(name: Seq<char>, local: u16, remote: u16)
    ensures
        forward_title(name, local, remote).take(name.len() as int) == name,
        forward_title(name, local, remote).skip(name.len() as int) == " pf "@ + decimal(
            local as nat,
        ) + ":"@ + decimal(remote as nat),
{
    let rest = " pf "@ + decimal(local as nat) + ":"@ + decimal(remote as nat);
    assert(forward_title(name, local, remote) =~= name + rest);
    assert(forward_title(name, local, remote).take(name.len() as int) =~= name);
    assert(forward_title(name, local, remote).skip(name.len() as int) =~= rest);
}

/// A tab shows the command, then under what it runs, then the selected terminal if
/// there is one, then how to use it, then a note in live mode, then that nothing was
/// launched in a dry run, and nothing else.
pub proof fn tabs_show_their_lines(app: AppView, shown_command: Seq<char>, context: AwsContext)
    ensures
        ({
            let lines = app.tab_lines(shown_command, context);
            let t: int = if app.selected_terminal() is Some {
                1
            } else {
                0
            };
            let live: int = if context.mode is Live {
                1
            } else {
                0
            };
            let dry: int = if app.options.dry_run {
                1
            } else {
                0
            };
            &&& lines.len() == 3 + t + live + dry
            &&& lines[0] == "$ "@ + shown_command
            &&& lines[1] == "profile="@ + context.profile@ + " region="@ + context.region@
                + " mode="@ + context.mode_label@
            &&& app.selected_terminal() matches Some(terminal) ==> lines[2] == "[shell profile] "@
                + terminal.display_name@ + " ("@ + terminal.id@ + ")"@
            &&& lines[2 + t]
                == "SSM command is auto-sent. Click terminal area to focus and type directly."@
            &&& live == 1 ==> lines[3 + t]
                == "note: live SSM start-session may require a full TTY; embedded mode is best-effort."@
            &&& dry == 1 ==> lines.last() == "[dry-run] launch skipped"@
        }),
{
}

/// Opening a tab is logged with its id and the instance, and changes nothing else,
/// except that a dry run says so as well. No terminal is opened by it.
pub proof fn opened_tabs_are_told(app: AppView, tab_id: u64, instance_id: Seq<char>)
    ensures
        ({
            let next = app.with_tab(tab_id, instance_id);
            let logs = log_after(
                app.logs,
                LogLevel::Info,
                "opened connection tab id="@ + decimal(tab_id as nat) + " instance="@ + instance_id,
            );
            &&& !app.options.dry_run ==> next == AppView { logs, ..app }
            &&& app.options.dry_run ==> next == AppView {
                message: "Opened connection tab (dry-run)"@,
                logs: log_after(logs, LogLevel::Info, "dry-run mode: process launch skipped"@),
                ..app
            }
        }),
{
}

/// A tab whose shell was started has a terminal that was given nothing yet; the other
/// terminals stay, and nothing else changes but the log.
pub proof fn started_sessions_have_a_terminal(app: AppView, tab_id: u64, other: u64)
    ensures
        ({
            let next = app.with_session(tab_id);
            &&& next.pty_sessions.dom().contains(tab_id)
            &&& next.pty_sessions[tab_id].len() == 0
            &&& other != tab_id ==> (next.pty_sessions.dom().contains(other)
                <==> app.pty_sessions.dom().contains(other))
            &&& other != tab_id && app.pty_sessions.dom().contains(other)
                ==> next.pty_sessions[other] == app.pty_sessions[other]
            &&& next == AppView { pty_sessions: next.pty_sessions, logs: next.logs, ..app }
            &&& next.logs == log_after(
                app.logs,
                LogLevel::Info,
                "tab="@ + decimal(tab_id as nat) + " auto-sent prefilled command"@,
            )
        }),
{
}

proof fn lemma_encoding_of_a_line(text: Seq<char>)
    ensures
        vstd::utf8::encode_utf8(text.push('\n')) == vstd::utf8::encode_utf8(text).push(0x0au8),
    decreases text.len(),
{
    let none = Seq::<char>::empty();
    if text.len() == 0 {
        assert(text.push('\n').drop_first() =~= none);
        assert(vstd::utf8::encode_utf8(none).len() == 0);
        assert(0x0au32 & 0x7f == 0x0a) by (bit_vector);
        assert(vstd::utf8::encode_utf8(text.push('\n')) =~= seq![0x0au8]);
        assert(vstd::utf8::encode_utf8(text).push(0x0au8) =~= seq![0x0au8]);
    } else {
        let rest = text.drop_first();
        lemma_encoding_of_a_line(rest);
        assert(text.push('\n').drop_first() =~= rest.push('\n'));
        assert(text.push('\n')[0] == text[0]);
        assert(vstd::utf8::encode_utf8(text.push('\n')) =~= vstd::utf8::encode_utf8(text).push(
            0x0au8,
        ));
    }
}

} // verus!
