//! The state of the explorer, and its log.

use std::collections::VecDeque;

use vstd::prelude::*;
use vstd::string::*;

use crate::log::{
    append_log,
    entries,
    log_after,
    verbosity,
    LogEntry,
    LogEntryView,
    LogFilters,
    LogLevel,
    MAX_LOG_LINES,
};
use crate::models::{
    copy_or,
    text_or,
    AwsContext,
    DependencyStatus,
    GuiOptions,
    Instance,
    TerminalOption,
};
use crate::profile::{polled, settled, ProfilePoll, ProfileWatch, Timestamp};
use crate::search::{default_rule, rules_of, SearchRuleInput, SearchRuleView, STATE_FILTER_NONE};
use crate::sessions::TerminalSessions;
use crate::terminal::{find_terminal, first_terminal_is_found, terminal_with_id};
use crate::text::same_text;

verus! {

/// Width of the window when it opens, in points.
pub const GUI_DEFAULT_WIDTH: u32 = 1720;

/// Height of the window when it opens, in points.
pub const GUI_DEFAULT_HEIGHT: u32 = 980;

/// Least width of the window, in points.
pub const GUI_MIN_WIDTH: u32 = 1280;

/// Least height of the window, in points.
pub const GUI_MIN_HEIGHT: u32 = 760;

/// Milliseconds between two changes of the cursor.
pub const CURSOR_BLINK_INTERVAL_MILLIS: u64 = 450;

/// The local end of a port forward that is offered at first.
pub const DEFAULT_LOCAL_PORT: u16 = 2222;

/// The remote end of a port forward that is offered at first.
pub const DEFAULT_REMOTE_PORT: u16 = 22;

/// What the main part of the window shows.
#[derive(Debug, Clone, Copy, PartialEq, Eq, Structural)]
pub enum MainTab {
    Inventory,
    Connections,
    Log,
}

/// Everything that the explorer shows and acts on.
pub struct Ec2GuiApp {
    pub options: GuiOptions,
    pub context: Option<AwsContext>,
    pub dependencies: DependencyStatus,
    pub inventory: Vec<Instance>,
    pub filtered: Vec<Instance>,
    pub search_rules: Vec<SearchRuleInput>,
    pub selected_state_filter: String,
    pub only_ssm: bool,
    pub save_filter_name: String,
    pub selected_saved_filter: String,
    pub selected_instance_id: String,
    pub local_port: u16,
    pub remote_port: u16,
    pub message: String,
    pub diagnostics: String,
    pub main_tab: MainTab,
    pub logs: VecDeque<LogEntry>,
    pub log_filters: LogFilters,
    pub terminals: Vec<TerminalOption>,
    pub selected_terminal_id: String,
    pub profile: ProfileWatch,
    pub pty_sessions: TerminalSessions,
}

/// The mathematical value of an [`Ec2GuiApp`].
#[verifier::ext_equal]
pub struct AppView {
    pub options: GuiOptions,
    pub context: Option<AwsContext>,
    pub dependencies: DependencyStatus,
    pub inventory: Seq<Instance>,
    pub filtered: Seq<Instance>,
    pub search_rules: Seq<SearchRuleView>,
    pub selected_state_filter: Seq<char>,
    pub only_ssm: bool,
    pub save_filter_name: Seq<char>,
    pub selected_saved_filter: Seq<char>,
    pub selected_instance_id: Seq<char>,
    pub local_port: u16,
    pub remote_port: u16,
    pub message: Seq<char>,
    pub diagnostics: Seq<char>,
    pub main_tab: MainTab,
    pub logs: Seq<LogEntryView>,
    pub log_filters: LogFilters,
    pub terminals: Seq<TerminalOption>,
    pub selected_terminal_id: Seq<char>,
    pub profile: ProfileWatch,
    pub pty_sessions: Map<u64, Seq<u8>>,
}

impl View for Ec2GuiApp {
    type V = AppView;

    open spec fn view(&self) -> AppView {
        AppView {
            options: self.options,
            context: self.context,
            dependencies: self.dependencies,
            inventory: self.inventory@,
            filtered: self.filtered@,
            search_rules: rules_of(self.search_rules@),
            selected_state_filter: self.selected_state_filter@,
            only_ssm: self.only_ssm,
            save_filter_name: self.save_filter_name@,
            selected_saved_filter: self.selected_saved_filter@,
            selected_instance_id: self.selected_instance_id@,
            local_port: self.local_port,
            remote_port: self.remote_port,
            message: self.message@,
            diagnostics: self.diagnostics@,
            main_tab: self.main_tab,
            logs: entries(self.logs@),
            log_filters: self.log_filters,
            terminals: self.terminals@,
            selected_terminal_id: self.selected_terminal_id@,
            profile: self.profile,
            pty_sessions: self.pty_sessions@,
        }
    }
}

impl AppView {
    /// There is always a search rule to edit, and the log has its bound.
    pub open spec fn wf(self) -> bool {
        &&& self.search_rules.len() >= 1
        &&& self.logs.len() <= MAX_LOG_LINES
    }

    /// This state with one more line in the log.
    pub open spec fn logged(self, level: LogLevel, message: Seq<char>) -> AppView {
        AppView { logs: log_after(self.logs, level, message), ..self }
    }

    /// This state with `message` shown, and logged at `level`.
    pub open spec fn told(self, level: LogLevel, message: Seq<char>) -> AppView {
        AppView { message, ..self }.logged(level, message)
    }

    /// This state with nothing in the log but a line that says so.
    pub open spec fn with_log_cleared(self) -> AppView {
        AppView { logs: Seq::empty(), ..self }.logged(LogLevel::Info, "log cleared"@)
    }

    /// The account that favourites and filters are kept for.
    pub open spec fn account_scope(self) -> Seq<char> {
        match self.context {
            Some(c) => text_or(c.account_id, "unknown-account"@),
            None => "unknown-account"@,
        }
    }

    /// The region that favourites and filters are kept for.
    pub open spec fn region_scope(self) -> Seq<char> {
        match self.context {
            Some(c) => c.region@,
            None => text_or(self.options.region, "us-east-1"@),
        }
    }

    /// The terminal that is selected, if it is still there.
    pub open spec fn selected_terminal(self) -> Option<TerminalOption> {
        terminal_with_id(self.terminals, self.selected_terminal_id)
    }

    /// This state after a look at the file with the chosen profile.
    pub open spec fn after_poll(self, now: Timestamp, current: Option<Timestamp>) -> AppView {
        let (profile, found) = polled(self.profile, now, current);
        let next = AppView { profile, ..self };
        match found {
            ProfilePoll::DebounceStarted => next.logged(
                LogLevel::Debug,
                "profileChoice changed; waiting for debounce window"@,
            ),
            ProfilePoll::Apply => next.logged(
                LogLevel::Info,
                "detected profileChoice change, refreshing context and inventory"@,
            ),
            _ => next,
        }
    }
}

/// Whether one of the arguments asks for the help text.
pub fn wants_help(args: &[String]) -> (r: bool)
    ensures
        r == exists|i: int|
            0 <= i < args@.len() && ((#[trigger] args@[i])@ == "--help"@ || args@[i]@ == "-h"@),
{
    let mut i: usize = 0;
    while i < args.len()
        invariant
            i <= args.len(),
            forall|j: int|
                0 <= j < i ==> (#[trigger] args@[j])@ != "--help"@ && args@[j]@ != "-h"@,
        decreases args.len() - i,
    {
        if same_text(args[i].as_str(), "--help") || same_text(args[i].as_str(), "-h") {
            return true;
        }
        i = i + 1;
    }
    false
}

/// The state of an explorer that was just started.
pub open spec fn started(
    options: GuiOptions,
    dependencies: DependencyStatus,
    terminals: Seq<TerminalOption>,
    selected_terminal_id: Seq<char>,
    profile_choice: Option<Timestamp>,
) -> AppView {
    AppView {
        options,
        context: None,
        dependencies,
        inventory: Seq::empty(),
        filtered: Seq::empty(),
        search_rules: seq![default_rule()],
        selected_state_filter: STATE_FILTER_NONE@,
        only_ssm: false,
        save_filter_name: Seq::empty(),
        selected_saved_filter: Seq::empty(),
        selected_instance_id: Seq::empty(),
        local_port: DEFAULT_LOCAL_PORT,
        remote_port: DEFAULT_REMOTE_PORT,
        message: Seq::empty(),
        diagnostics: Seq::empty(),
        main_tab: MainTab::Inventory,
        logs: Seq::empty(),
        log_filters: verbosity(false, false),
        terminals,
        selected_terminal_id,
        profile: settled(profile_choice),
        pty_sessions: Map::empty(),
    }.logged(LogLevel::Info, "application started"@)
}

impl Ec2GuiApp {
    /// An explorer that has loaded nothing yet.
    pub fn new(
        options: GuiOptions,
        dependencies: DependencyStatus,
        terminals: Vec<TerminalOption>,
        selected_terminal_id: String,
        profile_choice: Option<Timestamp>,
    ) -> (r: Self)
        ensures
            r@ == started(
                options,
                dependencies,
                terminals@,
                selected_terminal_id@,
                profile_choice,
            ),
            r@.wf(),
    {
        let rule = SearchRuleInput::default();
        let mut search_rules: Vec<SearchRuleInput> = Vec::new();
        search_rules.push(rule);
        assert(rules_of(search_rules@) =~= seq![rule@]);
        let mut app = Ec2GuiApp {
            options,
            context: None,
            dependencies,
            inventory: Vec::new(),
            filtered: Vec::new(),
            search_rules,
            selected_state_filter: STATE_FILTER_NONE.to_string(),
            only_ssm: false,
            save_filter_name: String::new(),
            selected_saved_filter: String::new(),
            selected_instance_id: String::new(),
            local_port: DEFAULT_LOCAL_PORT,
            remote_port: DEFAULT_REMOTE_PORT,
            message: String::new(),
            diagnostics: String::new(),
            main_tab: MainTab::Inventory,
            logs: VecDeque::new(),
            log_filters: LogFilters::default(),
            terminals,
            selected_terminal_id,
            profile: ProfileWatch::new(profile_choice),
            pty_sessions: TerminalSessions::new(),
        };
        assert(app@.logs =~= Seq::empty());
        app.log_info("application started".to_string());
        app
    }

    /// Adds a line to the log.
    pub fn log(&mut self, level: LogLevel, message: String)
        ensures
            final(self)@ == old(self)@.logged(level, message@),
            old(self)@.wf() ==> final(self)@.wf(),
    {
        append_log(&mut self.logs, level, message);
    }

    /// Logs an error.
    pub fn log_error(&mut self, message: String)
        ensures
            final(self)@ == old(self)@.logged(LogLevel::Error, message@),
            old(self)@.wf() ==> final(self)@.wf(),
    {
        self.log(LogLevel::Error, message);
    }

    /// Logs a warning.
    pub fn log_warn(&mut self, message: String)
        ensures
            final(self)@ == old(self)@.logged(LogLevel::Warn, message@),
            old(self)@.wf() ==> final(self)@.wf(),
    {
        self.log(LogLevel::Warn, message);
    }

    /// Logs a piece of information.
    pub fn log_info(&mut self, message: String)
        ensures
            final(self)@ == old(self)@.logged(LogLevel::Info, message@),
            old(self)@.wf() ==> final(self)@.wf(),
    {
        self.log(LogLevel::Info, message);
    }

    /// Logs a detail.
    pub fn log_debug(&mut self, message: String)
        ensures
            final(self)@ == old(self)@.logged(LogLevel::Debug, message@),
            old(self)@.wf() ==> final(self)@.wf(),
    {
        self.log(LogLevel::Debug, message);
    }

    /// Shows a message, and logs it as information.
    pub fn announce(&mut self, message: String)
        ensures
            final(self)@ == old(self)@.told(LogLevel::Info, message@),
            old(self)@.wf() ==> final(self)@.wf(),
    {
        self.message = message.clone();
        self.log_info(message);
    }

    /// Shows an error, and logs it.
    pub fn report_error(&mut self, error: &str)
        ensures
            final(self)@ == old(self)@.told(LogLevel::Error, "error: "@ + error@),
            old(self)@.wf() ==> final(self)@.wf(),
    {
        let message = "error: ".to_string().concat(error);
        self.message = message.clone();
        self.log_error(message);
    }

    /// Empties the log, but for a line that says so.
    pub fn clear_log(&mut self)
        ensures
            final(self)@ == old(self)@.with_log_cleared(),
            old(self)@.wf() ==> final(self)@.wf(),
    {
        self.logs.clear();
        assert(entries(self.logs@) =~= Seq::empty());
        self.log_info("log cleared".to_string());
    }

    /// The account that favourites and filters are kept for.
    pub fn account_scope(&self) -> (r: String)
        ensures
            r@ == self@.account_scope(),
    {
        match &self.context {
            Some(c) => copy_or(&c.account_id, "unknown-account"),
            None => "unknown-account".to_string(),
        }
    }

    /// The region that favourites and filters are kept for.
    pub fn region_scope(&self) -> (r: String)
        ensures
            r@ == self@.region_scope(),
    {
        match &self.context {
            Some(c) => c.region.clone(),
            None => copy_or(&self.options.region, "us-east-1"),
        }
    }

    /// The terminal that is selected, if it is still there.
    pub fn selected_terminal(&self) -> (r: Option<&TerminalOption>)
        ensures
            match self@.selected_terminal() {
                Some(t) => r == Some(&t),
                None => r is None,
            },
    {
        find_terminal(self.terminals.as_slice(), self.selected_terminal_id.as_str())
    }

    /// Takes note of the modification time of the file with the chosen profile,
    /// and says whether context and inventory are to be loaded anew.
    pub fn poll_profile_choice_changes(&mut self, now: Timestamp, current: Option<Timestamp>) -> (r:
        bool)
        ensures
            final(self)@ == old(self)@.after_poll(now, current),
            r == (polled(old(self)@.profile, now, current).1 is Apply),
            old(self)@.wf() ==> final(self)@.wf(),
    {
        match self.profile.poll(now, current) {
            ProfilePoll::DebounceStarted => {
                self.log_debug("profileChoice changed; waiting for debounce window".to_string());
                false
            },
            ProfilePoll::Apply => {
                self.log_info(
                    "detected profileChoice change, refreshing context and inventory".to_string(),
                );
                true
            },
            ProfilePoll::Unchanged => false,
            ProfilePoll::Waiting => false,
        }
    }
}

/// Logging adds to the log and changes nothing else; telling also sets the message
/// that is shown, to what is logged.
pub proof fn logging_touches_the_log_only(app: AppView, level: LogLevel, message: Seq<char>)
    ensures
        app.logged(level, message) == (AppView {
            logs: log_after(app.logs, level, message),
            ..app
        }),
        app.told(level, message) == (AppView {
            message,
            logs: log_after(app.logs, level, message),
            ..app
        }),
        app.with_log_cleared() == (AppView {
            logs: log_after(seq![], LogLevel::Info, "log cleared"@),
            ..app
        }),
{
}

/// The explorer keeps the watch that a look at the profile file leaves, and a look
/// changes nothing else but the log, to which it adds one line when a wait begins or
/// ends, and none otherwise.
pub proof fn explorers_keep_the_watch(app: AppView, now: Timestamp, current: Option<Timestamp>)
    ensures
        ({
            let next = app.after_poll(now, current);
            let (watch, found) = polled(app.profile, now, current);
            &&& next.profile == watch
            &&& next == AppView { profile: next.profile, logs: next.logs, ..app }
            &&& found is Unchanged || found is Waiting ==> next.logs == app.logs
            &&& found is DebounceStarted ==> next.logs == log_after(
                app.logs,
                LogLevel::Debug,
                "profileChoice changed; waiting for debounce window"@,
            )
            &&& found is Apply ==> next.logs == log_after(
                app.logs,
                LogLevel::Info,
                "detected profileChoice change, refreshing context and inventory"@,
            )
        }),
{
}

/// An explorer that acted on a change of the profile file does not act on it again:
/// however often it looks at the same file, it finds nothing new.
pub proof fn explorers_act_once_on_a_change(
    app: AppView,
    now: Timestamp,
    later: Timestamp,
    latest: Timestamp,
    current: Option<Timestamp>,
)
    requires
        polled(app.profile, now, current).1 is Apply,
    ensures
        ({
            let acted = app.after_poll(now, current);
            let again = acted.after_poll(later, current);
            &&& polled(acted.profile, later, current).1 is Unchanged
            &&& again == acted
            &&& polled(again.profile, latest, current).1 is Unchanged
        }),
{
}

/// Favourites and filters are kept for the account and region of the context, where
/// it has them; else for an unknown account, and for the region that the explorer
/// was started with or the default one.
pub proof fn scopes_come_from_the_context(app: AppView)
    ensures
        app.context matches Some(c) ==> app.region_scope() == c.region@ && (c.account_id matches Some(
            id,
        ) ==> app.account_scope() == id@) && (c.account_id is None ==> app.account_scope()
            == "unknown-account"@),
        app.context is None ==> app.account_scope() == "unknown-account"@,
        app.context is None ==> (app.options.region matches Some(r) ==> app.region_scope() == r@),
        app.context is None && app.options.region is None ==> app.region_scope() == "us-east-1"@,
{
}

/// The selected terminal is the first of those found that has the selected id, and
/// there is none exactly if none of them has it.
pub proof fn selected_terminals_have_the_selected_id(app: AppView)
    ensures
        match app.selected_terminal() {
            Some(t) => exists|k: int|
                0 <= k < app.terminals.len() && #[trigger] app.terminals[k] == t && t.id@
                    == app.selected_terminal_id && forall|j: int|
                    0 <= j < k ==> (#[trigger] app.terminals[j]).id@ != app.selected_terminal_id,
            None => forall|j: int|
                0 <= j < app.terminals.len() ==> (#[trigger] app.terminals[j]).id@
                    != app.selected_terminal_id,
        },
{
    first_terminal_is_found(app.terminals, app.selected_terminal_id);
}

/// A new explorer has loaded and selected nothing, asks for everything, shows the
/// inventory, and has acted on the profile file as it is.
pub proof fn explorers_start_empty(
    options: GuiOptions,
    dependencies: DependencyStatus,
    terminals: Seq<TerminalOption>,
    selected_terminal_id: Seq<char>,
    profile_choice: Option<Timestamp>,
)
    ensures
        ({
            let app = started(
                options,
                dependencies,
                terminals,
                selected_terminal_id,
                profile_choice,
            );
            &&& app.options == options && app.dependencies == dependencies
            &&& app.terminals == terminals && app.selected_terminal_id == selected_terminal_id
            &&& app.context is None && app.inventory.len() == 0 && app.filtered.len() == 0
            &&& app.search_rules.len() == 1 && app.search_rules[0].term.len() == 0
            &&& app.selected_state_filter.len() == 0 && !app.only_ssm
            &&& app.save_filter_name.len() == 0 && app.selected_saved_filter.len() == 0
            &&& app.selected_instance_id.len() == 0 && app.message.len() == 0
            &&& app.diagnostics.len() == 0 && app.main_tab is Inventory
            &&& app.local_port == 2222 && app.remote_port == 22
            &&& app.profile.last_choice == profile_choice && app.profile.pending_since is None
            &&& app.profile.pending_choice is None && app.search_rules[0].kind is Include
            &&& app.log_filters.error && app.log_filters.warn && app.log_filters.info
            &&& !app.log_filters.debug && !app.log_filters.trace
            &&& app.pty_sessions.dom() == Set::<u64>::empty()
            &&& app.logs.len() == 1 && app.logs == log_after(
                seq![],
                LogLevel::Info,
                "application started"@,
            )
        }),
{
    reveal_strlit("");
}

/// Explorers of the same value show the same and act alike: the value leaves out no
/// field.
pub proof fn equal_explorers_show_the_same(a: Ec2GuiApp, b: Ec2GuiApp)
    requires
        a@ == b@,
    ensures
        a.options == b.options && a.context == b.context && a.dependencies == b.dependencies,
        a.inventory@ == b.inventory@ && a.filtered@ == b.filtered@,
        rules_of(a.search_rules@) == rules_of(b.search_rules@),
        a.selected_state_filter@ == b.selected_state_filter@ && a.only_ssm == b.only_ssm,
        a.save_filter_name@ == b.save_filter_name@,
        a.selected_saved_filter@ == b.selected_saved_filter@,
        a.selected_instance_id@ == b.selected_instance_id@,
        a.local_port == b.local_port && a.remote_port == b.remote_port,
        a.message@ == b.message@ && a.diagnostics@ == b.diagnostics@,
        a.main_tab == b.main_tab && entries(a.logs@) == entries(b.logs@),
        a.log_filters == b.log_filters && a.terminals@ == b.terminals@,
        a.selected_terminal_id@ == b.selected_terminal_id@,
        a.profile == b.profile && a.pty_sessions@ == b.pty_sessions@,
{
}

/// A state is sound exactly if there is a search rule to edit and the log is within
/// its bound.
pub proof fn sound_states_have_a_rule_and_a_bounded_log(app: AppView)
    ensures
        app.wf() <==> app.search_rules.len() >= 1 && app.logs.len() <= 20_000,
{
}

} // verus!
