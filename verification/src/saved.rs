//! Saved filters: keeping the current one under a name, and going back to one.

use vstd::prelude::*;
use vstd::string::*;

use crate::error::{AppError, AppErrorView};
use crate::log::LogLevel;
use crate::models::{SavedFilter, SavedFilterView};
use crate::search::{
    filter_states,
    is_offered_state,
    restored_rules,
    restored_rules_hold_the_terms,
    restored_state_filter,
    rules_from_search_terms,
    search_survives_saving,
    search_terms,
    search_terms_from_rules,
    state_filter_from_saved_states,
    state_filter_survives_saving,
    states_are_asked_for_and_brought_back,
    states_from_state_filter,
    SearchRuleKind,
    STATE_FILTER_NONE,
};
use crate::state::{AppView, Ec2GuiApp};
use crate::text::{blank_texts_are_white_space, is_blank, lowercased, trimmed};

verus! {

/// A filter to keep, with the account and region that it is kept for.
#[derive(Debug, Clone, PartialEq, Eq)]
pub struct FilterToSave {
    pub account_id: String,
    pub region: String,
    pub filter: SavedFilter,
}

/// The first filter whose name is `name`, whatever the case of its ASCII letters.
pub open spec fn filter_named(filters: Seq<SavedFilter>, name: Seq<char>) -> Option<SavedFilter>
    decreases filters.len(),
{
    if filters.len() == 0 {
        None
    } else if lowercased(filters.first().name@) == lowercased(name) {
        Some(filters.first())
    } else {
        filter_named(filters.drop_first(), name)
    }
}

/// The first filter whose name is `name`, whatever the case of its ASCII letters.
pub fn find_filter<'a>(filters: &'a [SavedFilter], name: &str) -> (r: Option<&'a SavedFilter>)
    ensures
        match filter_named(filters@, name@) {
            Some(f) => r == Some(&f),
            None => r is None,
        },
{
    let mut i: usize = 0;
    assert(filters@.skip(0) == filters@);
    while i < filters.len()
        invariant
            i <= filters.len(),
            filter_named(filters@, name@) == filter_named(filters@.skip(i as int), name@),
        decreases filters.len() - i,
    {
        if filters[i].name.as_str().eq_ignore_ascii_case(name) {
            return Some(&filters[i]);
        }
        assert(filters@.skip(i as int).drop_first() == filters@.skip(i + 1));
        i = i + 1;
    }
    None
}

impl AppView {
    /// The current search, under the name that was entered.
    pub open spec fn saved_filter(self) -> SavedFilterView {
        SavedFilterView {
            name: trimmed(self.save_filter_name),
            include_terms: search_terms(self.search_rules, SearchRuleKind::Include),
            exclude_terms: search_terms(self.search_rules, SearchRuleKind::Exclude),
            states: filter_states(self.selected_state_filter),
            only_ssm_managed: self.only_ssm,
        }
    }

    /// This state with the search that `saved` stands for.
    pub open spec fn with_saved(self, saved: SavedFilterView) -> AppView {
        AppView {
            search_rules: restored_rules(saved.include_terms, saved.exclude_terms),
            selected_state_filter: restored_state_filter(saved.states),
            only_ssm: saved.only_ssm_managed,
            ..self
        }
    }

    /// What going back to the selected filter comes to, given the filters that are
    /// kept for the account and region: why it is refused, or that filter.
    pub open spec fn chosen_filter(self, filters: Seq<SavedFilter>) -> Result<
        SavedFilter,
        AppErrorView,
    > {
        let name = trimmed(self.selected_saved_filter);
        if name.len() == 0 {
            Err(AppErrorView::InvalidArgument("Select a saved filter first"@))
        } else {
            match filter_named(filters, name) {
                Some(f) => Ok(f),
                None => Err(AppErrorView::NotFound("Saved filter not found: "@ + name)),
            }
        }
    }
}

impl Ec2GuiApp {
    /// The current search, to be kept under the name that was entered.
    pub fn save_current_filter(&self) -> (r: Result<FilterToSave, AppError>)
        ensures
            if is_blank(self@.save_filter_name) {
                r matches Err(e) && e@ == AppErrorView::InvalidArgument(
                    "Filter name cannot be empty"@,
                )
            } else {
                r matches Ok(s) && s.account_id@ == self@.account_scope() && s.region@
                    == self@.region_scope() && s.filter@ == self@.saved_filter()
            },
    {
        let name = self.save_filter_name.trim();
        if name.is_empty() {
            return Err(AppError::InvalidArgument("Filter name cannot be empty".to_string()));
        }
        let (include_terms, exclude_terms) = search_terms_from_rules(self.search_rules.as_slice());
        Ok(
            FilterToSave {
                account_id: self.account_scope(),
                region: self.region_scope(),
                filter: SavedFilter {
                    name: name.to_string(),
                    include_terms,
                    exclude_terms,
                    states: states_from_state_filter(self.selected_state_filter.as_str()),
                    only_ssm_managed: self.only_ssm,
                },
            },
        )
    }

    /// Tells that a filter was saved.
    pub fn filter_saved(&mut self, name: &str)
        ensures
            final(self)@ == old(self)@.told(LogLevel::Info, "Saved filter: "@ + name@),
            old(self)@.wf() ==> final(self)@.wf(),
    {
        self.announce("Saved filter: ".to_string().concat(name));
    }

    /// Goes back to the search of the selected filter, which is looked up among
    /// those kept for the account and region, and returns the name that was looked
    /// up.
    pub fn apply_saved_filter(&mut self, scope_filters: &[SavedFilter]) -> (r: Result<
        String,
        AppError,
    >)
        ensures
            match old(self)@.chosen_filter(scope_filters@) {
                Ok(saved) => r matches Ok(name) && name@ == trimmed(
                    old(self)@.selected_saved_filter,
                ) && final(self)@ == old(self)@.with_saved(saved@),
                Err(error) => r matches Err(e) && e@ == error && final(self)@ == old(self)@,
            },
            old(self)@.wf() ==> final(self)@.wf(),
    {
        let name = self.selected_saved_filter.trim().to_string();
        if name.as_str().is_empty() {
            return Err(AppError::InvalidArgument("Select a saved filter first".to_string()));
        }
        match find_filter(scope_filters, name.as_str()) {
            Some(saved) => {
                self.search_rules = rules_from_search_terms(
                    saved.include_terms.as_slice(),
                    saved.exclude_terms.as_slice(),
                );
                self.selected_state_filter = state_filter_from_saved_states(
                    saved.states.as_slice(),
                );
                self.only_ssm = saved.only_ssm_managed;
                Ok(name)
            },
            None => Err(
                AppError::NotFound("Saved filter not found: ".to_string().concat(name.as_str())),
            ),
        }
    }

    /// Tells that the explorer went back to a saved filter.
    pub fn saved_filter_applied(&mut self, name: &str)
        ensures
            final(self)@ == old(self)@.told(LogLevel::Info, "Applied saved filter: "@ + name@),
            old(self)@.wf() ==> final(self)@.wf(),
    {
        self.announce("Applied saved filter: ".to_string().concat(name));
    }
}

/// Going back to a filter that was saved asks for what it asked for when it was
/// saved, whatever was entered in between, as long as its state filter was one of
/// those offered.
pub proof fn saved_filters_come_back(saver: AppView, later: AppView)
    requires
        is_offered_state(saver.selected_state_filter) || saver.selected_state_filter
            == STATE_FILTER_NONE@,
    ensures
        later.with_saved(saver.saved_filter()).filters() == saver.filters(),
        later.with_saved(saver.saved_filter()).selected_state_filter
            == saver.selected_state_filter,
{
    search_survives_saving(saver.search_rules, SearchRuleKind::Include);
    search_survives_saving(saver.search_rules, SearchRuleKind::Exclude);
    state_filter_survives_saving(saver.selected_state_filter);
}

/// The filter that is found is one of those kept, under the name asked for; and
/// one is found whenever one is kept under that name.
pub proof fn found_filters_are_kept(filters: Seq<SavedFilter>, name: Seq<char>)
    ensures
        match filter_named(filters, name) {
            Some(f) => filters.contains(f) && lowercased(f.name@) == lowercased(name),
            None => forall|i: int|
                0 <= i < filters.len() ==> lowercased((#[trigger] filters[i]).name@) != lowercased(
                    name,
                ),
        },
    decreases filters.len(),
{
    if filters.len() > 0 {
        let rest = filters.drop_first();
        if lowercased(filters.first().name@) == lowercased(name) {
            assert(filters.contains(filters[0]));
        } else {
            found_filters_are_kept(rest, name);
            match filter_named(rest, name) {
                Some(f) => {
                    let k = choose|k: int| 0 <= k < rest.len() && rest[k] == f;
                    assert(filters[k + 1] == f);
                },
                None => {
                    assert forall|i: int| 0 <= i < filters.len() implies lowercased(
                        (#[trigger] filters[i]).name@,
                    ) != lowercased(name) by {
                        if i > 0 {
                            assert(filters[i] == rest[i - 1]);
                        }
                    }
                },
            }
        }
    }
}

/// Whether the filter at `k` is the first one named `name`, whatever the case of the
/// ASCII letters.
pub open spec fn is_first_named(filters: Seq<SavedFilter>, name: Seq<char>, k: int) -> bool {
    &&& 0 <= k < filters.len()
    &&& lowercased(filters[k].name@) == lowercased(name)
    &&& forall|j: int| 0 <= j < k ==> lowercased((#[trigger] filters[j]).name@) != lowercased(name)
}

proof fn lemma_first_named_is_found(filters: Seq<SavedFilter>, name: Seq<char>)
    ensures
        match filter_named(filters, name) {
            Some(f) => exists|k: int| #[trigger]
                is_first_named(filters, name, k) && filters[k] == f,
            None => forall|j: int|
                0 <= j < filters.len() ==> lowercased((#[trigger] filters[j]).name@) != lowercased(
                    name,
                ),
        },
    decreases filters.len(),
{
    found_filters_are_kept(filters, name);
    if filters.len() > 0 {
        if lowercased(filters.first().name@) == lowercased(name) {
            assert(is_first_named(filters, name, 0));
        } else {
            let rest = filters.drop_first();
            lemma_first_named_is_found(rest, name);
            assert(forall|j: int| 0 < j < filters.len() ==> #[trigger] filters[j] == rest[j - 1]);
            if let Some(f) = filter_named(rest, name) {
                let k = choose|k: int| #[trigger] is_first_named(rest, name, k) && rest[k] == f;
                assert forall|j: int| 0 <= j < k + 1 implies lowercased(
                    (#[trigger] filters[j]).name@,
                ) != lowercased(name) by {
                    if j > 0 {
                        assert(filters[j] == rest[j - 1]);
                    }
                }
                assert(is_first_named(filters, name, k + 1));
            }
        }
    }
}

/// The filter that is gone back to is the first of those kept whose name is the
/// selected one, trimmed and whatever its ASCII case. It is refused exactly if no
/// name is selected, or if none is kept under that name, and then that name is said.
pub proof fn the_selected_filter_is_applied(app: AppView, filters: Seq<SavedFilter>)
    ensures
        ({
            let name = trimmed(app.selected_saved_filter);
            match app.chosen_filter(filters) {
                Ok(f) => name.len() > 0 && filters.contains(f) && lowercased(f.name@) == lowercased(
                    name,
                ) && exists|k: int| #[trigger] is_first_named(filters, name, k) && filters[k] == f,
                Err(error) => if name.len() == 0 {
                    error == AppErrorView::InvalidArgument("Select a saved filter first"@)
                } else {
                    &&& error == AppErrorView::NotFound("Saved filter not found: "@ + name)
                    &&& forall|j: int|
                        0 <= j < filters.len() ==> lowercased((#[trigger] filters[j]).name@)
                            != lowercased(name)
                },
            }
        }),
{
    let name = trimmed(app.selected_saved_filter);
    lemma_first_named_is_found(filters, name);
    found_filters_are_kept(filters, name);
}

/// Going back to a saved filter takes over its terms, each under its kind, its first
/// state if that is on offer, and its SSM switch, and changes nothing else.
pub proof fn saved_filters_replace_the_search(app: AppView, saved: SavedFilterView, i: int)
    ensures
        ({
            let next = app.with_saved(saved);
            let n = saved.include_terms.len() as int;
            &&& next == AppView {
                search_rules: next.search_rules,
                selected_state_filter: next.selected_state_filter,
                only_ssm: saved.only_ssm_managed,
                ..app
            }
            &&& 0 <= i < n ==> next.search_rules[i].term == saved.include_terms[i]
                && next.search_rules[i].kind is Include
            &&& 0 <= i < saved.exclude_terms.len() ==> next.search_rules[n + i].term
                == saved.exclude_terms[i] && next.search_rules[n + i].kind is Exclude
            &&& n + saved.exclude_terms.len() > 0 ==> next.search_rules.len() == n
                + saved.exclude_terms.len()
            &&& n + saved.exclude_terms.len() == 0 ==> next.search_rules.len() == 1
                && is_blank(next.search_rules[0].term)
            &&& saved.states.len() == 0 ==> next.selected_state_filter.len() == 0
            &&& saved.states.len() > 0 ==> next.selected_state_filter == lowercased(
                trimmed(saved.states[0]),
            ) || next.selected_state_filter.len() == 0
            &&& saved.states.len() > 0 && is_offered_state(lowercased(trimmed(saved.states[0])))
                ==> next.selected_state_filter == lowercased(trimmed(saved.states[0]))
        }),
{
    restored_rules_hold_the_terms(saved.include_terms, saved.exclude_terms, i);
    states_are_asked_for_and_brought_back(Seq::empty(), saved.states);
    blank_texts_are_white_space(app.with_saved(saved).search_rules[0].term);
}

/// A filter is saved under the name that was entered, trimmed, with all that the
/// current filters ask for.
pub proof fn saving_keeps_the_whole_search(app: AppView)
    ensures
        app.saved_filter().name == trimmed(app.save_filter_name),
        app.saved_filter().include_terms == app.filters().includes,
        app.saved_filter().exclude_terms == app.filters().excludes,
        app.saved_filter().states == app.filters().states,
        app.saved_filter().only_ssm_managed == app.filters().only_ssm_managed,
        app.saved_filter().include_terms == search_terms(app.search_rules, SearchRuleKind::Include),
        app.saved_filter().exclude_terms == search_terms(app.search_rules, SearchRuleKind::Exclude),
        app.saved_filter().only_ssm_managed == app.only_ssm,
{
}

} // verus!
