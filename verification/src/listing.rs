//! What stays true of the list of instances, whatever is clicked or typed: it is what
//! the filters let through of the inventory.

use vstd::prelude::*;

use crate::events::WaitOutcome;
use crate::inventory::{last_selecting_row_wins, RowAction};
use crate::log::{LogFilters, LogLevel, MAX_LOG_LINES};
use crate::models::{
    AwsContext,
    DependencyStatus,
    FiltersView,
    GuiOptions,
    Instance,
    SavedFilterView,
    TerminalOption,
};
use crate::profile::Timestamp;
use crate::search::{restored_rules_are_never_empty, SearchRuleView};
use crate::state::{started, AppView, MainTab};
use crate::terminal::ProcEvent;
use crate::text::decimal;

verus! {

/// What can happen to the state while the window is drawn. Each operation on the
/// state is one of these, or a few of them in a row.
pub enum Step {
    Log(LogLevel, Seq<char>),
    Tell(LogLevel, Seq<char>),
    ClearLog,
    ChooseLogLevels(LogFilters),
    PollProfile(Timestamp, Option<Timestamp>),
    UseContext(AwsContext),
    LoadInventory(Seq<Instance>),
    AddRule,
    RemoveRule(int),
    EditRule(int, SearchRuleView),
    ChooseState(Seq<char>),
    OnlySsm(bool),
    ApplySaved(SavedFilterView),
    NameFilter(Seq<char>),
    ChooseSaved(Seq<char>),
    SelectInstance(Seq<char>),
    SetPorts(u16, u16),
    ShowTab(MainTab),
    ShowMessage(Seq<char>),
    ShowDiagnostics(Seq<char>),
    ChooseTerminal(Seq<char>),
    Rescan(Seq<TerminalOption>, Seq<char>),
    OpenTab(u64, Seq<char>),
    StartTerminal(u64),
    CloseTerminal(u64),
    Event(ProcEvent),
    Waits(Seq<(u64, WaitOutcome)>),
}

/// Whether the two states have the same inventory, list the same instances, and ask
/// for the same.
pub open spec fn same_listing(a: AppView, b: AppView) -> bool {
    &&& a.inventory == b.inventory
    &&& a.filtered == b.filtered
    &&& a.filters() == b.filters()
}

/// The filter that decides instance by instance: it lists, in order, those of which
/// `meets` says that they meet the filters.
pub open spec fn each_meeting(
    meets: spec_fn(Instance, FiltersView) -> bool,
) -> spec_fn(Seq<Instance>, FiltersView) -> Seq<Instance> {
    |instances: Seq<Instance>, filters: FiltersView|
        instances.filter(|i: Instance| meets(i, filters))
}

/// Whether a filter lets nothing through where there is nothing.
pub open spec fn adds_nothing(
    lets_through: spec_fn(Seq<Instance>, FiltersView) -> Seq<Instance>,
) -> bool {
    forall|filters: FiltersView| (#[trigger] lets_through(Seq::empty(), filters)).len() == 0
}

impl AppView {
    /// Whether the instances that are listed are those of the inventory that the
    /// current filters let through.
    pub open spec fn lists(
        self,
        lets_through: spec_fn(Seq<Instance>, FiltersView) -> Seq<Instance>,
    ) -> bool {
        self.filtered == lets_through(self.inventory, self.filters())
    }

    /// This state once the current filters were applied.
    pub open spec fn refiltered(
        self,
        lets_through: spec_fn(Seq<Instance>, FiltersView) -> Seq<Instance>,
    ) -> AppView {
        self.with_filtered(lets_through(self.inventory, self.filters()))
    }

    /// This state after one step; a change of what is searched for, or of the
    /// inventory, is followed by applying the filters. A rule that is not there is
    /// neither removed nor edited.
    #[verifier::opaque]
    pub open spec fn after(
        self,
        step: Step,
        lets_through: spec_fn(Seq<Instance>, FiltersView) -> Seq<Instance>,
    ) -> AppView {
        match step {
            Step::Log(level, message) => self.logged(level, message),
            Step::Tell(level, message) => self.told(level, message),
            Step::ClearLog => AppView { logs: Seq::empty(), ..self },
            Step::ChooseLogLevels(log_filters) => AppView { log_filters, ..self },
            Step::PollProfile(now, current) => self.after_poll(now, current),
            Step::UseContext(context) => self.with_context(context),
            Step::LoadInventory(instances) => self.with_inventory(
                instances,
                lets_through(instances, self.filters()),
            ),
            Step::AddRule => self.with_rule_added().refiltered(lets_through),
            Step::RemoveRule(index) => if 0 <= index < self.search_rules.len() {
                self.with_rule_removed(index).refiltered(lets_through)
            } else {
                self
            },
            Step::EditRule(index, rule) => if 0 <= index < self.search_rules.len() {
                self.with_rule_edited(index, rule).refiltered(lets_through)
            } else {
                self
            },
            Step::ChooseState(state) => if state == self.selected_state_filter {
                self
            } else {
                AppView { selected_state_filter: state, ..self }.refiltered(lets_through)
            },
            Step::OnlySsm(only_ssm) => if only_ssm == self.only_ssm {
                self
            } else {
                AppView { only_ssm, ..self }.refiltered(lets_through)
            },
            Step::ApplySaved(saved) => self.with_saved(saved).refiltered(lets_through),
            Step::NameFilter(name) => AppView { save_filter_name: name, ..self },
            Step::ChooseSaved(name) => AppView { selected_saved_filter: name, ..self },
            Step::SelectInstance(id) => AppView { selected_instance_id: id, ..self },
            Step::SetPorts(local_port, remote_port) => AppView {
                local_port,
                remote_port,
                ..self
            },
            Step::ShowTab(main_tab) => AppView { main_tab, ..self },
            Step::ShowMessage(message) => AppView { message, ..self },
            Step::ShowDiagnostics(diagnostics) => AppView { diagnostics, ..self },
            Step::ChooseTerminal(id) => AppView { selected_terminal_id: id, ..self },
            Step::Rescan(terminals, selected) => self.rescanned(terminals, selected),
            Step::OpenTab(tab_id, instance_id) => self.with_tab(tab_id, instance_id),
            Step::StartTerminal(tab_id) => AppView {
                pty_sessions: self.pty_sessions.insert(tab_id, Seq::empty()),
                ..self
            },
            Step::CloseTerminal(tab_id) => AppView {
                pty_sessions: self.pty_sessions.remove(tab_id),
                ..self
            },
            Step::Event(event) => self.with_event(event),
            Step::Waits(waits) => self.with_waits(waits),
        }
    }

    /// This state after the steps, one after the other.
    pub open spec fn after_all(
        self,
        steps: Seq<Step>,
        lets_through: spec_fn(Seq<Instance>, FiltersView) -> Seq<Instance>,
    ) -> AppView
        decreases steps.len(),
    {
        if steps.len() == 0 {
            self
        } else {
            self.after_all(steps.drop_last(), lets_through).after(steps.last(), lets_through)
        }
    }
}

proof fn lemma_waits_keep_the_listing(app: AppView, waits: Seq<(u64, WaitOutcome)>)
    ensures
        same_listing(app.with_waits(waits), app),
        app.with_waits(waits).search_rules == app.search_rules,
        app.wf() ==> app.with_waits(waits).wf(),
    decreases waits.len(),
{
    if waits.len() > 0 {
        lemma_waits_keep_the_listing(app, waits.drop_last());
    }
}

/// Logging, showing messages, looking at the profile file, opening tabs, events and
/// exits of connections, looking for terminals, and taking a context into use that
/// is not blocked leave the inventory, the list, and what is asked for as they were.
pub proof fn other_operations_keep_the_listing(
    app: AppView,
    level: LogLevel,
    message: Seq<char>,
    now: Timestamp,
    current: Option<Timestamp>,
    tab_id: u64,
    instance_id: Seq<char>,
    event: ProcEvent,
    waits: Seq<(u64, WaitOutcome)>,
    terminals: Seq<TerminalOption>,
    selected: Seq<char>,
    context: AwsContext,
)
    ensures
        same_listing(app.logged(level, message), app),
        same_listing(app.told(level, message), app),
        same_listing(app.after_poll(now, current), app),
        same_listing(app.with_tab(tab_id, instance_id), app),
        same_listing(app.with_event(event), app),
        same_listing(app.with_waits(waits), app),
        same_listing(app.rescanned(terminals, selected), app),
        !AppView::is_blocked(context) ==> same_listing(app.with_context(context), app),
{
    lemma_waits_keep_the_listing(app, waits);
}

/// Applying the filters lists what they let through, whatever was listed before.
pub proof fn refiltering_lists_what_is_asked_for(
    app: AppView,
    instances: Seq<Instance>,
    lets_through: spec_fn(Seq<Instance>, FiltersView) -> Seq<Instance>,
)
    ensures
        app.refiltered(lets_through).lists(lets_through),
        app.with_inventory(instances, lets_through(instances, app.filters())).lists(lets_through),
{
}

/// Whether a step empties the lists, because it takes a context into use that is
/// blocked.
pub open spec fn is_blocking(step: Step) -> bool {
    step matches Step::UseContext(context) && AppView::is_blocked(context)
}

/// Whether a step neither changes what is searched for nor the inventory.
pub open spec fn is_aside(step: Step) -> bool {
    match step {
        Step::UseContext(_) => false,
        Step::LoadInventory(_) => false,
        Step::AddRule => false,
        Step::RemoveRule(_) => false,
        Step::EditRule(_, _) => false,
        Step::ChooseState(_) => false,
        Step::OnlySsm(_) => false,
        Step::ApplySaved(_) => false,
        _ => true,
    }
}

proof fn lemma_aside(app: AppView, next: AppView)
    requires
        app.wf(),
        next.inventory == app.inventory,
        next.filtered == app.filtered,
        next.search_rules == app.search_rules,
        next.selected_state_filter == app.selected_state_filter,
        next.only_ssm == app.only_ssm,
        next.logs.len() <= MAX_LOG_LINES,
    ensures
        next.wf(),
        same_listing(next, app),
{
}

/// A step aside leaves the inventory, the list, and what is asked for as they were.
pub proof fn steps_aside_keep_the_listing(
    app: AppView,
    step: Step,
    lets_through: spec_fn(Seq<Instance>, FiltersView) -> Seq<Instance>,
)
    requires
        app.wf(),
        is_aside(step),
    ensures
        app.after(step, lets_through).wf(),
        same_listing(app.after(step, lets_through), app),
{
    reveal(AppView::after);
    match step {
        Step::Log(level, message) => lemma_aside(app, app.logged(level, message)),
        Step::Tell(level, message) => lemma_aside(app, app.told(level, message)),
        Step::PollProfile(now, current) => lemma_aside(app, app.after_poll(now, current)),
        Step::Rescan(terminals, selected) => lemma_aside(app, app.rescanned(terminals, selected)),
        Step::OpenTab(tab_id, instance_id) => lemma_aside(app, app.with_tab(tab_id, instance_id)),
        Step::Event(event) => lemma_aside(app, app.with_event(event)),
        Step::Waits(waits) => lemma_waits_keep_the_listing(app, waits),
        _ => lemma_aside(app, app.after(step, lets_through)),
    }
}

proof fn lemma_refiltered(
    app: AppView,
    lets_through: spec_fn(Seq<Instance>, FiltersView) -> Seq<Instance>,
)
    requires
        app.wf(),
    ensures
        app.refiltered(lets_through).wf(),
        app.refiltered(lets_through).lists(lets_through),
{
}

proof fn lemma_contexts_keep_the_listing(
    app: AppView,
    context: AwsContext,
    lets_through: spec_fn(Seq<Instance>, FiltersView) -> Seq<Instance>,
)
    requires
        app.wf(),
        app.lists(lets_through),
        AppView::is_blocked(context) ==> adds_nothing(lets_through),
    ensures
        app.with_context(context).wf(),
        app.with_context(context).lists(lets_through),
{
    let next = app.with_context(context);
    assert(next.filters() == app.filters());
    if AppView::is_blocked(context) {
        assert(lets_through(Seq::empty(), next.filters()).len() == 0);
        assert(next.inventory == Seq::<Instance>::empty());
        assert(next.filtered =~= lets_through(Seq::empty(), next.filters()));
    }
}

/// There is always a search rule, the log has its bound, and what is listed is what
/// the filters let through of the inventory: a step that finds it so leaves it so.
/// Only where a blocked context empties the lists does the filter matter: it has to
/// let nothing through of nothing.
pub proof fn steps_keep_the_listing(
    app: AppView,
    step: Step,
    lets_through: spec_fn(Seq<Instance>, FiltersView) -> Seq<Instance>,
)
    requires
        app.wf(),
        app.lists(lets_through),
        is_blocking(step) ==> adds_nothing(lets_through),
    ensures
        app.after(step, lets_through).wf(),
        app.after(step, lets_through).lists(lets_through),
{
    reveal(AppView::after);
    match step {
        Step::UseContext(context) => {
            lemma_contexts_keep_the_listing(app, context, lets_through);
        },
        Step::LoadInventory(instances) => {
            refiltering_lists_what_is_asked_for(app, instances, lets_through);
        },
        Step::AddRule => {
            lemma_refiltered(app.with_rule_added(), lets_through);
        },
        Step::RemoveRule(index) => {
            if 0 <= index < app.search_rules.len() {
                lemma_refiltered(app.with_rule_removed(index), lets_through);
            }
        },
        Step::EditRule(index, rule) => {
            if 0 <= index < app.search_rules.len() {
                lemma_refiltered(app.with_rule_edited(index, rule), lets_through);
            }
        },
        Step::ChooseState(state) => {
            lemma_refiltered(AppView { selected_state_filter: state, ..app }, lets_through);
        },
        Step::OnlySsm(only_ssm) => {
            lemma_refiltered(AppView { only_ssm, ..app }, lets_through);
        },
        Step::ApplySaved(saved) => {
            restored_rules_are_never_empty(saved.include_terms, saved.exclude_terms);
            lemma_refiltered(app.with_saved(saved), lets_through);
        },
        _ => {
            steps_aside_keep_the_listing(app, step, lets_through);
        },
    }
}

/// An explorer that was just started has a search rule, a log within its bound, and
/// lists what the filters let through of its empty inventory.
pub proof fn explorers_start_listed(
    options: GuiOptions,
    dependencies: DependencyStatus,
    terminals: Seq<TerminalOption>,
    selected_terminal_id: Seq<char>,
    profile_choice: Option<Timestamp>,
    lets_through: spec_fn(Seq<Instance>, FiltersView) -> Seq<Instance>,
)
    requires
        adds_nothing(lets_through),
    ensures
        ({
            let app = started(
                options,
                dependencies,
                terminals,
                selected_terminal_id,
                profile_choice,
            );
            app.wf() && app.lists(lets_through)
        }),
{
    let app = started(options, dependencies, terminals, selected_terminal_id, profile_choice);
    assert(lets_through(Seq::empty(), app.filters()).len() == 0);
    assert(app.filtered =~= lets_through(Seq::empty(), app.filters()));
}

/// Whatever is clicked or typed, in whatever order, there is always a search rule,
/// the log has its bound, and what is listed is what the filters let through of the
/// inventory, where the filter lets nothing through of nothing if one of the steps
/// empties the lists.
pub proof fn frames_keep_the_listing(
    app: AppView,
    steps: Seq<Step>,
    lets_through: spec_fn(Seq<Instance>, FiltersView) -> Seq<Instance>,
)
    requires
        app.wf(),
        app.lists(lets_through),
        adds_nothing(lets_through) || forall|i: int|
            0 <= i < steps.len() ==> !is_blocking(#[trigger] steps[i]),
    ensures
        app.after_all(steps, lets_through).wf(),
        app.after_all(steps, lets_through).lists(lets_through),
    decreases steps.len(),
{
    if steps.len() > 0 {
        let earlier = steps.drop_last();
        assert(forall|i: int| 0 <= i < earlier.len() ==> #[trigger] earlier[i] == steps[i]);
        assert(steps.last() == steps[steps.len() - 1]);
        frames_keep_the_listing(app, earlier, lets_through);
        steps_keep_the_listing(app.after_all(earlier, lets_through), steps.last(), lets_through);
    }
}

/// Whatever is clicked or typed, in whatever order, from a state on that has a search
/// rule, a log within its bound, and lists the instances that meet the filters, the
/// state is like that again: for every rule by which an instance meets filters.
pub proof fn what_meets_the_filters_is_listed(
    app: AppView,
    steps: Seq<Step>,
    meets: spec_fn(Instance, FiltersView) -> bool,
)
    requires
        app.wf(),
        app.lists(each_meeting(meets)),
    ensures
        app.after_all(steps, each_meeting(meets)).wf(),
        app.after_all(steps, each_meeting(meets)).lists(each_meeting(meets)),
{
    lemma_each_meeting_adds_nothing(meets);
    frames_keep_the_listing(app, steps, each_meeting(meets));
}

proof fn lemma_each_meeting_adds_nothing(meets: spec_fn(Instance, FiltersView) -> bool)
    ensures
        adds_nothing(each_meeting(meets)),
{
    reveal(Seq::filter);
}

/// From its start on, whatever is clicked or typed, the explorer has a search rule
/// and a log within its bound, and lists the instances of the inventory that meet
/// the filters: for every rule by which an instance meets filters.
pub proof fn explorers_list_what_meets_the_filters(
    options: GuiOptions,
    dependencies: DependencyStatus,
    terminals: Seq<TerminalOption>,
    selected_terminal_id: Seq<char>,
    profile_choice: Option<Timestamp>,
    steps: Seq<Step>,
    meets: spec_fn(Instance, FiltersView) -> bool,
)
    ensures
        ({
            let app = started(
                options,
                dependencies,
                terminals,
                selected_terminal_id,
                profile_choice,
            ).after_all(steps, each_meeting(meets));
            &&& app.wf()
            &&& app.filtered == app.inventory.filter(|i: Instance| meets(i, app.filters()))
        }),
{
    lemma_each_meeting_adds_nothing(meets);
    explorers_start_listed(
        options,
        dependencies,
        terminals,
        selected_terminal_id,
        profile_choice,
        each_meeting(meets),
    );
    what_meets_the_filters_is_listed(
        started(options, dependencies, terminals, selected_terminal_id, profile_choice),
        steps,
        meets,
    );
}

proof fn lemma_two_steps(
    app: AppView,
    first: Step,
    second: Step,
    lets_through: spec_fn(Seq<Instance>, FiltersView) -> Seq<Instance>,
)
    ensures
        app.after_all(seq![first, second], lets_through) == app.after(first, lets_through).after(
            second,
            lets_through,
        ),
{
    let both = seq![first, second];
    assert(both.drop_last() =~= seq![first]);
    assert(seq![first].drop_last() =~= Seq::empty());
    assert(app.after_all(Seq::empty(), lets_through) == app);
    assert(app.after_all(seq![first], lets_through) == app.after(first, lets_through));
}

proof fn lemma_step_then_log(
    app: AppView,
    first: Step,
    next: AppView,
    message: Seq<char>,
    lets_through: spec_fn(Seq<Instance>, FiltersView) -> Seq<Instance>,
)
    requires
        app.after(first, lets_through) == next,
    ensures
        app.after_all(seq![first, Step::Log(LogLevel::Info, message)], lets_through)
            == next.logged(LogLevel::Info, message),
{
    lemma_two_steps(app, first, Step::Log(LogLevel::Info, message), lets_through);
    reveal(AppView::after);
}

/// Clearing the log is emptying it and logging that.
pub proof fn clearing_the_log_is_two_steps(
    app: AppView,
    lets_through: spec_fn(Seq<Instance>, FiltersView) -> Seq<Instance>,
)
    ensures
        app.with_log_cleared() == app.after_all(
            seq![
                Step::ClearLog,
                Step::Log(LogLevel::Info, "log cleared"@),
            ],
            lets_through,
        ),
{
    let next = AppView { logs: Seq::empty(), ..app };
    assert(app.after(Step::ClearLog, lets_through) == next) by {
        reveal(AppView::after);
    }
    lemma_step_then_log(app, Step::ClearLog, next, "log cleared"@, lets_through);
}

/// Closing a tab is taking its terminal away and logging that.
pub proof fn closing_a_tab_is_two_steps(
    app: AppView,
    tab_id: u64,
    lets_through: spec_fn(Seq<Instance>, FiltersView) -> Seq<Instance>,
)
    ensures
        app.with_tab_closed(tab_id) == app.after_all(
            seq![
                Step::CloseTerminal(tab_id),
                Step::Log(LogLevel::Info, "closed connection tab id="@ + decimal(tab_id as nat)),
            ],
            lets_through,
        ),
{
    let next = AppView { pty_sessions: app.pty_sessions.remove(tab_id), ..app };
    assert(app.after(Step::CloseTerminal(tab_id), lets_through) == next) by {
        reveal(AppView::after);
    }
    lemma_step_then_log(
        app,
        Step::CloseTerminal(tab_id),
        next,
        "closed connection tab id="@ + decimal(tab_id as nat),
        lets_through,
    );
}

/// Starting a session is giving its tab a terminal and logging that.
pub proof fn starting_a_session_is_two_steps(
    app: AppView,
    tab_id: u64,
    lets_through: spec_fn(Seq<Instance>, FiltersView) -> Seq<Instance>,
)
    ensures
        app.with_session(tab_id) == app.after_all(
            seq![
                Step::StartTerminal(tab_id),
                Step::Log(
                    LogLevel::Info,
                    "tab="@ + decimal(tab_id as nat) + " auto-sent prefilled command"@,
                ),
            ],
            lets_through,
        ),
{
    let next = AppView { pty_sessions: app.pty_sessions.insert(tab_id, Seq::empty()), ..app };
    assert(app.after(Step::StartTerminal(tab_id), lets_through) == next) by {
        reveal(AppView::after);
    }
    lemma_step_then_log(
        app,
        Step::StartTerminal(tab_id),
        next,
        "tab="@ + decimal(tab_id as nat) + " auto-sent prefilled command"@,
        lets_through,
    );
}

/// Finishing the diagnostics is showing what they found and logging that.
pub proof fn finishing_diagnostics_is_two_steps(
    app: AppView,
    diagnostics: Seq<char>,
    lets_through: spec_fn(Seq<Instance>, FiltersView) -> Seq<Instance>,
)
    ensures
        app.with_diagnostics(diagnostics) == app.after_all(
            seq![
                Step::ShowDiagnostics(diagnostics),
                Step::Log(LogLevel::Info, "diagnostics completed"@),
            ],
            lets_through,
        ),
{
    let next = AppView { diagnostics, ..app };
    assert(app.after(Step::ShowDiagnostics(diagnostics), lets_through) == next) by {
        reveal(AppView::after);
    }
    lemma_step_then_log(
        app,
        Step::ShowDiagnostics(diagnostics),
        next,
        "diagnostics completed"@,
        lets_through,
    );
}

/// A control that changes what is searched for, followed by listing what the filters
/// that it hands back let through, is one step; a control that is left as it was
/// changes nothing, and neither does its step.
pub proof fn controls_are_steps(
    app: AppView,
    index: int,
    rule: SearchRuleView,
    state: Seq<char>,
    only_ssm: bool,
    saved: SavedFilterView,
    lets_through: spec_fn(Seq<Instance>, FiltersView) -> Seq<Instance>,
)
    requires
        0 <= index < app.search_rules.len(),
    ensures
        ({
            let next = app.with_rule_added();
            next.with_filtered(lets_through(next.inventory, next.filters())) == app.after(
                Step::AddRule,
                lets_through,
            )
        }),
        ({
            let next = app.with_rule_removed(index);
            next.with_filtered(lets_through(next.inventory, next.filters())) == app.after(
                Step::RemoveRule(index),
                lets_through,
            )
        }),
        ({
            let next = app.with_rule_edited(index, rule);
            next.with_filtered(lets_through(next.inventory, next.filters())) == app.after(
                Step::EditRule(index, rule),
                lets_through,
            )
        }),
        ({
            let next = AppView { selected_state_filter: state, ..app };
            app.after(Step::ChooseState(state), lets_through) == if state
                == app.selected_state_filter {
                next
            } else {
                next.with_filtered(lets_through(next.inventory, next.filters()))
            }
        }),
        ({
            let next = AppView { only_ssm, ..app };
            app.after(Step::OnlySsm(only_ssm), lets_through) == if only_ssm == app.only_ssm {
                next
            } else {
                next.with_filtered(lets_through(next.inventory, next.filters()))
            }
        }),
        ({
            let next = app.with_saved(saved);
            next.with_filtered(lets_through(next.inventory, next.filters())) == app.after(
                Step::ApplySaved(saved),
                lets_through,
            )
        }),
{
    reveal(AppView::after);
}

/// Carrying out what was clicked in the rows is selecting an instance, and a request
/// to connect is a line in the log or nothing.
pub proof fn rows_and_requests_are_steps(
    app: AppView,
    rows: Seq<(String, RowAction)>,
    instance: Option<&Instance>,
    request: Seq<char>,
    lets_through: spec_fn(Seq<Instance>, FiltersView) -> Seq<Instance>,
)
    ensures
        app.with_rows(rows) == app.after(
            Step::SelectInstance(app.with_rows(rows).selected_instance_id),
            lets_through,
        ),
        app.requested(instance, request) == app || app.requested(instance, request) == app.after(
            Step::Log(LogLevel::Info, request),
            lets_through,
        ),
{
    reveal(AppView::after);
    last_selecting_row_wins(app, rows);
}

} // verus!
