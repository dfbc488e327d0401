//! Loading, filtering and listing instances.

use vstd::prelude::*;
use vstd::string::*;

use crate::error::{AppError, AppErrorView};
use crate::log::{log_after, LogLevel};
use crate::models::{
    copy_or,
    text_or,
    AwsContext,
    Filters,
    FiltersView,
    Instance,
    Mode,
};
use crate::search::{
    each_rule_adds_its_term,
    filter_states,
    no_rule_is_ignored,
    search_terms,
    search_terms_from_rules,
    states_are_asked_for_and_brought_back,
    states_from_state_filter,
    SearchRuleKind,
    SearchRuleView,
};
use crate::state::{AppView, Ec2GuiApp, MainTab};
use crate::text::{
    blank,
    bool_str,
    bool_text,
    decimal,
    decimal_string,
    is_blank,
    same_text,
    trimmed,
};

verus! {

/// What a click on a row does.
#[derive(Debug, Clone, Copy, PartialEq, Eq, Structural)]
pub struct RowAction {
    pub select: bool,
    pub connect: bool,
}

/// What the clicks on a row do: any of them selects it, a double click or the
/// menu entry also connects.
pub fn resolve_row_action(
    row_clicked: bool,
    row_double_clicked: bool,
    quick_connect_clicked: bool,
) -> (r: RowAction)
    ensures
        r == row_action(row_clicked, row_double_clicked, quick_connect_clicked),
{
    RowAction {
        select: row_clicked || row_double_clicked || quick_connect_clicked,
        connect: row_double_clicked || quick_connect_clicked,
    }
}

/// What the clicks on a row do.
pub open spec fn row_action(clicked: bool, double_clicked: bool, quick_connect: bool) -> RowAction {
    RowAction {
        select: clicked || double_clicked || quick_connect,
        connect: double_clicked || quick_connect,
    }
}

/// A row that is connected to is selected too.
pub proof fn connecting_selects(clicked: bool, double_clicked: bool, quick_connect: bool)
    ensures
        row_action(clicked, double_clicked, quick_connect).connect ==> row_action(
            clicked,
            double_clicked,
            quick_connect,
        ).select,
{
}

/// The id to connect to after a row: its own if it is to be connected to, else the
/// one that was to be connected to before.
pub open spec fn pending_after(
    pending: Option<String>,
    instance_id: String,
    action: RowAction,
) -> Option<String> {
    if action.connect {
        Some(instance_id)
    } else {
        pending
    }
}

/// The id to connect to after all rows, in order.
pub open spec fn pending_of(rows: Seq<(String, RowAction)>) -> Option<String>
    decreases rows.len(),
{
    if rows.len() == 0 {
        None
    } else {
        pending_after(pending_of(rows.drop_last()), rows.last().0, rows.last().1)
    }
}

/// Whether the row at `k` is the last one that is to be connected to.
pub open spec fn is_last_connecting(rows: Seq<(String, RowAction)>, k: int) -> bool {
    &&& 0 <= k < rows.len()
    &&& rows[k].1.connect
    &&& forall|j: int| k < j < rows.len() ==> !(#[trigger] rows[j]).1.connect
}

/// Whether the row at `k` is the last one that is to be selected.
pub open spec fn is_last_selecting(rows: Seq<(String, RowAction)>, k: int) -> bool {
    &&& 0 <= k < rows.len()
    &&& rows[k].1.select
    &&& forall|j: int| k < j < rows.len() ==> !(#[trigger] rows[j]).1.select
}

/// Of all rows the last one that is to be connected to is connected to, and none if
/// there is no such row.
pub proof fn last_connecting_row_wins(rows: Seq<(String, RowAction)>)
    ensures
        match pending_of(rows) {
            Some(id) => exists|k: int| #[trigger] is_last_connecting(rows, k) && rows[k].0 == id,
            None => forall|j: int| 0 <= j < rows.len() ==> !(#[trigger] rows[j]).1.connect,
        },
        forall|k: int| #[trigger]
            is_last_connecting(rows, k) ==> pending_of(rows) == Some(rows[k].0),
    decreases rows.len(),
{
    if rows.len() > 0 {
        let rest = rows.drop_last();
        let end = rows.len() - 1;
        last_connecting_row_wins(rest);
        assert(forall|j: int| 0 <= j < rest.len() ==> rest[j] == #[trigger] rows[j]);
        if rows.last().1.connect {
            assert(is_last_connecting(rows, end));
        } else if pending_of(rest) is Some {
            let k = choose|k: int| #[trigger]
                is_last_connecting(rest, k) && rest[k].0 == pending_of(rest)->0;
            assert(is_last_connecting(rows, k));
        }
        assert forall|k: int| #[trigger] is_last_connecting(rows, k) implies pending_of(rows)
            == Some(rows[k].0) by {
            assert(rows[end] == rows.last());
            if k < end {
                assert(forall|j: int| 0 <= j < rest.len() ==> #[trigger] rest[j] == rows[j]);
                assert(is_last_connecting(rest, k));
            }
        }
    }
}

/// Of all rows the last one that is to be selected is selected afterwards; if there
/// is no such row the selection stays. Nothing else changes.
pub proof fn last_selecting_row_wins(app: AppView, rows: Seq<(String, RowAction)>)
    ensures
        app.with_rows(rows) == (AppView {
            selected_instance_id: app.with_rows(rows).selected_instance_id,
            ..app
        }),
        forall|k: int| #[trigger]
            is_last_selecting(rows, k) ==> app.with_rows(rows).selected_instance_id == rows[k].0@,
        (forall|j: int| 0 <= j < rows.len() ==> !(#[trigger] rows[j]).1.select) ==> app.with_rows(
            rows,
        ) == app,
    decreases rows.len(),
{
    if rows.len() > 0 {
        let rest = rows.drop_last();
        let end = rows.len() - 1;
        last_selecting_row_wins(app, rest);
        assert(rows[end] == rows.last());
        assert(forall|j: int| 0 <= j < rest.len() ==> #[trigger] rest[j] == rows[j]);
        assert forall|k: int| #[trigger] is_last_selecting(rows, k) implies app.with_rows(
            rows,
        ).selected_instance_id == rows[k].0@ by {
            if k < end {
                assert(is_last_selecting(rest, k));
            }
        }
    }
}

/// How a row is set off from the others.
#[derive(Debug, Clone, Copy, PartialEq, Eq, Structural)]
pub enum RowHighlight {
    Plain,
    Selected,
    Hovered,
}

/// How a row is set off: being selected counts for more than the pointer.
pub fn row_highlight(selected: bool, hovered: bool) -> (r: RowHighlight)
    ensures
        r is Selected <==> selected,
        r is Hovered <==> hovered && !selected,
        r is Plain <==> !selected && !hovered,
{
    if selected {
        RowHighlight::Selected
    } else if hovered {
        RowHighlight::Hovered
    } else {
        RowHighlight::Plain
    }
}

/// The cells of a row.
#[derive(Debug, Clone, PartialEq, Eq)]
pub struct InventoryRow {
    pub favorite: String,
    pub instance_id: String,
    pub name: String,
    pub state: String,
    pub ssm: String,
    pub private_ip: String,
    pub env: String,
    pub app_service: String,
    pub selected: bool,
}

/// What is said of the SSM agent of an instance.
pub open spec fn ssm_label(instance: Instance) -> Seq<char> {
    if instance.ssm_managed {
        text_or(instance.ssm_ping, "Managed"@)
    } else {
        "No"@
    }
}

/// What is said of a mark that was set or taken away.
pub open spec fn switch_word(enabled: bool) -> Seq<char> {
    if enabled {
        "enabled"@
    } else {
        "disabled"@
    }
}

/// An account and region, and an instance in it.
#[derive(Debug, Clone, PartialEq, Eq)]
pub struct FavoriteTarget {
    pub account_id: String,
    pub region: String,
    pub instance_id: String,
}

impl AppView {
    /// What an instance has to meet to be listed.
    pub open spec fn filters(self) -> FiltersView {
        FiltersView {
            includes: search_terms(self.search_rules, SearchRuleKind::Include),
            excludes: search_terms(self.search_rules, SearchRuleKind::Exclude),
            states: filter_states(self.selected_state_filter),
            only_ssm_managed: self.only_ssm,
        }
    }

    /// This state once `filtered` is what the filters let through.
    pub open spec fn with_filtered(self, filtered: Seq<Instance>) -> AppView {
        AppView { filtered, ..self }.logged(
            LogLevel::Debug,
            "filters applied -> "@ + decimal(filtered.len()) + " visible / "@ + decimal(
                self.inventory.len(),
            ) + " total"@,
        )
    }

    /// Whether the credentials do not allow to load the inventory of `context`.
    pub open spec fn is_blocked(context: AwsContext) -> bool {
        context.mode is Live && !context.auth_status.ok
    }

    /// This state once `context` is in use.
    pub open spec fn with_context(self, context: AwsContext) -> AppView {
        let next = AppView { context: Some(context), ..self };
        if AppView::is_blocked(context) {
            AppView {
                inventory: Seq::empty(),
                filtered: Seq::empty(),
                message: "Auth is not OK (live mode). Refresh credentials and retry."@,
                ..next
            }.logged(LogLevel::Warn, "inventory refresh blocked: auth not OK in live mode"@)
        } else {
            next
        }
    }

    /// This state once the inventory holds `instances`, of which the filters let
    /// `filtered` through.
    pub open spec fn with_inventory(
        self,
        instances: Seq<Instance>,
        filtered: Seq<Instance>,
    ) -> AppView {
        AppView { inventory: instances, ..self }.with_filtered(filtered).told(
            LogLevel::Info,
            "Loaded "@ + decimal(instances.len()) + " instances ("@ + decimal(filtered.len())
                + " filtered)"@,
        )
    }

    /// This state once `action` was carried out for the row of `instance_id`.
    pub open spec fn with_row(self, instance_id: Seq<char>, action: RowAction) -> AppView {
        AppView {
            selected_instance_id: if action.select {
                instance_id
            } else {
                self.selected_instance_id
            },
            ..self
        }
    }

    /// This state once what was clicked in each row was carried out, in order.
    pub open spec fn with_rows(self, rows: Seq<(String, RowAction)>) -> AppView
        decreases rows.len(),
    {
        if rows.len() == 0 {
            self
        } else {
            self.with_rows(rows.drop_last()).with_row(rows.last().0@, rows.last().1)
        }
    }

    /// The instance that is selected, given what a search for the entered id finds
    /// among the listed instances and in the whole inventory.
    pub open spec fn selection(
        self,
        in_filtered: Option<&Instance>,
        in_inventory: Option<&Instance>,
    ) -> Option<Instance> {
        if is_blank(self.selected_instance_id) {
            None
        } else {
            match in_filtered {
                Some(i) => Some(*i),
                None => match in_inventory {
                    Some(i) => Some(*i),
                    None => None,
                },
            }
        }
    }
}

impl Ec2GuiApp {
    /// Notes that context and inventory are being loaded.
    pub fn begin_refresh(&mut self, force: bool)
        ensures
            final(self)@ == old(self)@.logged(
                LogLevel::Info,
                "refresh inventory requested (force="@ + bool_text(force) + ")"@,
            ),
            old(self)@.wf() ==> final(self)@.wf(),
    {
        self.log_info(
            "refresh inventory requested (force=".to_string().concat(bool_str(force)).concat(")"),
        );
    }

    /// The account and the region to remember for it: the region that the
    /// explorer was started with, if the account is known.
    pub fn region_to_remember(&self, context: &AwsContext) -> (r: Option<(String, String)>)
        ensures
            match (context.account_id, self@.options.region) {
                (Some(account), Some(region)) => r == Some((account, region)),
                _ => r is None,
            },
    {
        match (&context.account_id, &self.options.region) {
            (Some(account), Some(region)) => Some((account.clone(), region.clone())),
            _ => None,
        }
    }

    /// Takes a context into use, and says whether its inventory is to be loaded.
    /// In live mode without valid credentials it is not, and the old one is
    /// dropped.
    pub fn accept_context(&mut self, context: AwsContext) -> (r: bool)
        ensures
            final(self)@ == old(self)@.with_context(context),
            r == !AppView::is_blocked(context),
            old(self)@.wf() ==> final(self)@.wf(),
    {
        let blocked = context.mode == Mode::Live && !context.auth_status.ok;
        self.context = Some(context);
        if blocked {
            self.inventory.clear();
            self.filtered.clear();
            self.message = "Auth is not OK (live mode). Refresh credentials and retry.".to_string();
            self.log_warn("inventory refresh blocked: auth not OK in live mode".to_string());
        }
        !blocked
    }

    /// Takes an inventory into use, with the instances that the current filters
    /// let through.
    pub fn accept_inventory(&mut self, instances: Vec<Instance>, filtered: Vec<Instance>)
        ensures
            final(self)@ == old(self)@.with_inventory(instances@, filtered@),
            old(self)@.wf() ==> final(self)@.wf(),
    {
        let total: usize = instances.len();
        let shown: usize = filtered.len();
        self.inventory = instances;
        self.accept_filtered(filtered);
        self.announce(
            "Loaded ".to_string().concat(decimal_string(total as u64).as_str()).concat(
                " instances (",
            ).concat(decimal_string(shown as u64).as_str()).concat(" filtered)"),
        );
    }

    /// What an instance has to meet to be listed.
    pub fn current_filters(&self) -> (r: Filters)
        ensures
            r@ == self@.filters(),
    {
        let (includes, excludes) = search_terms_from_rules(self.search_rules.as_slice());
        Filters {
            includes,
            excludes,
            states: states_from_state_filter(self.selected_state_filter.as_str()),
            only_ssm_managed: self.only_ssm,
        }
    }

    /// Lists the instances that the filters let through.
    pub fn accept_filtered(&mut self, filtered: Vec<Instance>)
        ensures
            final(self)@ == old(self)@.with_filtered(filtered@),
            old(self)@.wf() ==> final(self)@.wf(),
    {
        let text = "filters applied -> ".to_string().concat(
            decimal_string(filtered.len() as u64).as_str(),
        ).concat(" visible / ").concat(
            decimal_string(self.inventory.len() as u64).as_str(),
        ).concat(" total");
        self.filtered = filtered;
        self.log_debug(text);
    }

    /// The id to look for: the one that was entered, trimmed, unless it is blank.
    pub fn wanted_instance_id(&self) -> (r: Option<String>)
        ensures
            match r {
                Some(id) => !is_blank(self@.selected_instance_id) && id@ == trimmed(
                    self@.selected_instance_id,
                ),
                None => is_blank(self@.selected_instance_id),
            },
    {
        let id = self.selected_instance_id.trim();
        if id.is_empty() {
            None
        } else {
            Some(id.to_string())
        }
    }

    /// The instance that is selected: one that is listed where there is one, else
    /// one of the whole inventory. The arguments are what a search for
    /// [`Ec2GuiApp::wanted_instance_id`] finds in the two.
    pub fn selected_instance<'a>(
        &self,
        in_filtered: Option<&'a Instance>,
        in_inventory: Option<&'a Instance>,
    ) -> (r: Option<&'a Instance>)
        ensures
            match self@.selection(in_filtered, in_inventory) {
                Some(i) => r == Some(&i),
                None => r is None,
            },
    {
        if blank(self.selected_instance_id.as_str()) {
            return None;
        }
        match in_filtered {
            Some(i) => Some(i),
            None => in_inventory,
        }
    }

    /// The heading above the list.
    pub fn inventory_heading(&self) -> (r: String)
        ensures
            r@ == "Instances: "@ + decimal(self@.filtered.len()) + " filtered / "@ + decimal(
                self@.inventory.len(),
            ) + " total"@,
    {
        "Instances: ".to_string().concat(decimal_string(self.filtered.len() as u64).as_str()).concat(
            " filtered / ",
        ).concat(decimal_string(self.inventory.len() as u64).as_str()).concat(" total")
    }

    /// The cells of the row for `instance`.
    pub fn inventory_row(&self, instance: &Instance, is_favorite: bool) -> (r: InventoryRow)
        ensures
            r.favorite@ == if is_favorite {
                "*"@
            } else {
                ""@
            },
            r.instance_id == instance.instance_id,
            r.name@ == text_or(instance.name, ""@),
            r.state == instance.state,
            r.ssm@ == ssm_label(*instance),
            r.private_ip@ == text_or(instance.private_ip, ""@),
            r.env@ == text_or(instance.env, ""@),
            r.app_service@ == text_or(instance.app_service, ""@),
            r.selected == (self@.selected_instance_id == instance.instance_id@),
    {
        let favorite = if is_favorite {
            "*"
        } else {
            ""
        };
        let ssm = if instance.ssm_managed {
            copy_or(&instance.ssm_ping, "Managed")
        } else {
            "No".to_string()
        };
        InventoryRow {
            favorite: favorite.to_string(),
            instance_id: instance.instance_id.clone(),
            name: copy_or(&instance.name, ""),
            state: instance.state.clone(),
            ssm,
            private_ip: copy_or(&instance.private_ip, ""),
            env: copy_or(&instance.env, ""),
            app_service: copy_or(&instance.app_service, ""),
            selected: same_text(
                self.selected_instance_id.as_str(),
                instance.instance_id.as_str(),
            ),
        }
    }

    /// Carries out what was clicked in a row: selects it, and returns the id to
    /// connect to, which is `pending` unless this row is to be connected to.
    pub fn act_on_row(&mut self, instance_id: &String, action: RowAction, pending: Option<String>)
        -> (r: Option<String>)
        ensures
            final(self)@ == old(self)@.with_row(instance_id@, action),
            r == pending_after(pending, *instance_id, action),
            old(self)@.wf() ==> final(self)@.wf(),
    {
        if action.select {
            self.selected_instance_id = instance_id.clone();
        }
        if action.connect {
            Some(instance_id.clone())
        } else {
            pending
        }
    }

    /// Selects the instance that is about to be connected to.
    pub fn select_for_connection(&mut self, instance_id: String)
        ensures
            final(self)@ == (AppView { selected_instance_id: instance_id@, ..old(self)@ }),
            old(self)@.wf() ==> final(self)@.wf(),
    {
        self.selected_instance_id = instance_id;
    }

    /// Turns to the connections.
    pub fn show_connections(&mut self)
        ensures
            final(self)@ == (AppView { main_tab: MainTab::Connections, ..old(self)@ }),
            old(self)@.wf() ==> final(self)@.wf(),
    {
        self.main_tab = MainTab::Connections;
    }

    /// What the favourite mark is to be changed for: the selected instance, in the
    /// account and region in use.
    pub fn favorite_target(&self, instance: Option<&Instance>) -> (r: Result<
        FavoriteTarget,
        AppError,
    >)
        ensures
            match instance {
                Some(i) => r matches Ok(t) && t.account_id@ == self@.account_scope() && t.region@
                    == self@.region_scope() && t.instance_id == i.instance_id,
                None => r matches Err(e) && e@ == AppErrorView::NotFound(
                    "Select an instance first"@,
                ),
            },
    {
        match instance {
            Some(i) => Ok(
                FavoriteTarget {
                    account_id: self.account_scope(),
                    region: self.region_scope(),
                    instance_id: i.instance_id.clone(),
                },
            ),
            None => Err(AppError::NotFound("Select an instance first".to_string())),
        }
    }

    /// Tells that the favourite mark was changed.
    pub fn favorite_toggled(&mut self, instance_id: &str, enabled: bool)
        ensures
            final(self)@ == old(self)@.told(
                LogLevel::Info,
                "Favorite "@ + switch_word(enabled) + ": "@ + instance_id@,
            ),
            old(self)@.wf() ==> final(self)@.wf(),
    {
        let word = if enabled {
            "enabled"
        } else {
            "disabled"
        };
        self.announce("Favorite ".to_string().concat(word).concat(": ").concat(instance_id));
    }
}

/// In live mode without valid credentials nothing is listed, whatever was listed
/// before; in every other case the lists stay until a new inventory comes.
pub proof fn blocked_contexts_list_nothing(app: AppView, context: AwsContext)
    ensures
        AppView::is_blocked(context) ==> app.with_context(context).inventory.len() == 0
            && app.with_context(context).filtered.len() == 0,
        !AppView::is_blocked(context) ==> app.with_context(context).inventory == app.inventory
            && app.with_context(context).filtered == app.filtered,
        context.mode is Sim ==> !AppView::is_blocked(context),
{
}

/// What the filters ask for does not depend on what is listed.
pub proof fn filters_are_independent_of_listing(
    app: AppView,
    instances: Seq<Instance>,
    filtered: Seq<Instance>,
)
    ensures
        app.with_inventory(instances, filtered).filters() == app.filters(),
        app.with_filtered(filtered).filters() == app.filters(),
{
}

/// The filters ask for every rule: the trimmed term of each rule that is not blank is
/// among the terms of its kind, there are as many terms as there are such rules, and
/// they stand in the order of the rules.
pub proof fn filters_ask_for_every_rule(app: AppView, i: int)
    ensures
        app.filters().includes == search_terms(app.search_rules, SearchRuleKind::Include),
        app.filters().excludes == search_terms(app.search_rules, SearchRuleKind::Exclude),
        0 <= i < app.search_rules.len() && !is_blank(app.search_rules[i].term) ==> (
        match app.search_rules[i].kind {
            SearchRuleKind::Include => app.filters().includes.contains(
                trimmed(app.search_rules[i].term),
            ),
            SearchRuleKind::Exclude => app.filters().excludes.contains(
                trimmed(app.search_rules[i].term),
            ),
        }),
        app.filters().includes.len() + app.filters().excludes.len() == app.search_rules.filter(
            |r: SearchRuleView| !is_blank(r.term),
        ).len(),
{
    no_rule_is_ignored(app.search_rules, i);
}

/// One more rule asks for one more term, of its kind, unless it is blank; what was
/// asked for before is still asked for.
pub proof fn one_more_rule_asks_for_one_more_term(app: AppView, rule: SearchRuleView)
    ensures
        ({
            let before = app.filters();
            let now = AppView { search_rules: app.search_rules.push(rule), ..app }.filters();
            let term = trimmed(rule.term);
            &&& is_blank(rule.term) ==> now == before
            &&& !is_blank(rule.term) && rule.kind is Include ==> now == FiltersView {
                includes: before.includes.push(term),
                ..before
            }
            &&& !is_blank(rule.term) && rule.kind is Exclude ==> now == FiltersView {
                excludes: before.excludes.push(term),
                ..before
            }
        }),
{
    each_rule_adds_its_term(app.search_rules, rule, SearchRuleKind::Include);
    each_rule_adds_its_term(app.search_rules, rule, SearchRuleKind::Exclude);
}

/// The filters ask for the chosen state, trimmed, if one is chosen, and for instances
/// under SSM only exactly if that is switched on; nothing else has a say in them.
pub proof fn filters_follow_the_controls(app: AppView, other: AppView)
    ensures
        is_blank(app.selected_state_filter) ==> app.filters().states.len() == 0,
        !is_blank(app.selected_state_filter) ==> app.filters().states == seq![
            trimmed(app.selected_state_filter),
        ],
        app.filters().only_ssm_managed == app.only_ssm,
        app.search_rules == other.search_rules && app.selected_state_filter
            == other.selected_state_filter && app.only_ssm == other.only_ssm ==> app.filters()
            == other.filters(),
{
    states_are_asked_for_and_brought_back(app.selected_state_filter, seq![]);
}

/// What the filters let through is listed just as it is, whatever was listed before,
/// and nothing else changes but the log, which tells both numbers.
pub proof fn filtered_instances_are_listed(app: AppView, filtered: Seq<Instance>)
    ensures
        app.with_filtered(filtered) == (AppView {
            filtered,
            logs: log_after(
                app.logs,
                LogLevel::Debug,
                "filters applied -> "@ + decimal(filtered.len()) + " visible / "@ + decimal(
                    app.inventory.len(),
                ) + " total"@,
            ),
            ..app
        }),
{
}

/// A context that is taken into use is the one in use afterwards. It is blocked
/// exactly in live mode without valid credentials; a blocked one is told of, and
/// changes the two lists, the message and the log, while another one changes nothing
/// else.
pub proof fn contexts_are_taken_into_use(app: AppView, context: AwsContext)
    ensures
        AppView::is_blocked(context) <==> context.mode is Live && !context.auth_status.ok,
        app.with_context(context).context == Some(context),
        !(context.mode is Live && !context.auth_status.ok) ==> app.with_context(context) == (
        AppView { context: Some(context), ..app }),
        context.mode is Live && !context.auth_status.ok ==> ({
            let next = app.with_context(context);
            &&& next.inventory.len() == 0 && next.filtered.len() == 0
            &&& next.message == "Auth is not OK (live mode). Refresh credentials and retry."@
            &&& next.logs == log_after(
                app.logs,
                LogLevel::Warn,
                "inventory refresh blocked: auth not OK in live mode"@,
            )
            &&& next == AppView {
                context: Some(context),
                inventory: next.inventory,
                filtered: next.filtered,
                message: next.message,
                logs: next.logs,
                ..app
            }
        }),
{
}

/// An inventory that was loaded is the one in use afterwards, and what the filters
/// let through of it is listed; the message tells both numbers.
pub proof fn inventories_are_taken_into_use(
    app: AppView,
    instances: Seq<Instance>,
    filtered: Seq<Instance>,
)
    ensures
        ({
            let next = app.with_inventory(instances, filtered);
            &&& next.inventory == instances
            &&& next.filtered == filtered
            &&& next.message == "Loaded "@ + decimal(instances.len()) + " instances ("@ + decimal(
                filtered.len(),
            ) + " filtered)"@
            &&& next == AppView {
                inventory: instances,
                filtered,
                message: next.message,
                logs: next.logs,
                ..app
            }
            &&& next.logs == log_after(
                AppView { inventory: instances, ..app }.with_filtered(filtered).logs,
                LogLevel::Info,
                next.message,
            )
        }),
{
}

/// Every click selects the row, and only a double click or the menu entry connects.
pub proof fn clicks_select_and_connect(clicked: bool, double_clicked: bool, quick_connect: bool)
    ensures
        row_action(clicked, double_clicked, quick_connect).select <==> clicked || double_clicked
            || quick_connect,
        row_action(clicked, double_clicked, quick_connect).connect <==> double_clicked
            || quick_connect,
{
}

/// An instance without SSM is said to have none, one with it shows the state of its
/// agent as it was reported, or that it is managed where none was.
pub proof fn agents_are_shown_as_reported(instance: Instance)
    ensures
        !instance.ssm_managed ==> ssm_label(instance) == "No"@,
        instance.ssm_managed ==> (instance.ssm_ping matches Some(ping) ==> ssm_label(instance)
            == ping@),
        instance.ssm_managed && instance.ssm_ping is None ==> ssm_label(instance) == "Managed"@,
        switch_word(true) == "enabled"@,
        switch_word(false) == "disabled"@,
{
}

/// Where an id was entered, what is listed under it counts, else what the inventory
/// has under it; where none was entered nothing is selected.
pub proof fn listed_instances_come_first(app: AppView, listed: &Instance, known: &Instance)
    ensures
        is_blank(app.selected_instance_id) ==> app.selection(Some(listed), Some(known)) is None,
        !is_blank(app.selected_instance_id) ==> {
            &&& app.selection(Some(listed), Some(known)) == Some(*listed)
            &&& app.selection(Some(listed), None) == Some(*listed)
            &&& app.selection(None, Some(known)) == Some(*known)
        },
        app.selection(None, None) is None,
{
}

} // verus!
