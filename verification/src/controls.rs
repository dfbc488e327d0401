//! The controls that change what is searched for. Each hands back the filters that
//! the instances are to be listed by from then on.

use vstd::prelude::*;

use crate::models::Filters;
use crate::search::{default_rule, rules_of, SearchRuleInput, SearchRuleView};
use crate::state::{AppView, Ec2GuiApp};
use crate::text::same_text;

verus! {

impl AppView {
    /// This state with one more search rule to edit.
    pub open spec fn with_rule_added(self) -> AppView {
        AppView { search_rules: self.search_rules.push(default_rule()), ..self }
    }

    /// This state without the search rule at `index`; a new one takes the place of
    /// the only one.
    pub open spec fn with_rule_removed(self, index: int) -> AppView {
        AppView {
            search_rules: if self.search_rules.len() == 1 {
                seq![default_rule()]
            } else {
                self.search_rules.remove(index)
            },
            ..self
        }
    }

    /// This state with `rule` as the search rule at `index`.
    pub open spec fn with_rule_edited(self, index: int, rule: SearchRuleView) -> AppView {
        AppView { search_rules: self.search_rules.update(index, rule), ..self }
    }
}

impl Ec2GuiApp {
    /// Adds a search rule to edit.
    pub fn add_search_rule(&mut self) -> (r: Filters)
        ensures
            final(self)@ == old(self)@.with_rule_added(),
            r@ == final(self)@.filters(),
            old(self)@.wf() ==> final(self)@.wf(),
    {
        let ghost before = rules_of(self.search_rules@);
        let rule = SearchRuleInput::default();
        self.search_rules.push(rule);
        assert(rules_of(self.search_rules@) =~= before.push(rule@));
        self.current_filters()
    }

    /// Removes a search rule. Where it was the only one, a new one takes its place.
    pub fn remove_search_rule(&mut self, index: usize) -> (r: Filters)
        requires
            index < old(self)@.search_rules.len(),
        ensures
            final(self)@ == old(self)@.with_rule_removed(index as int),
            r@ == final(self)@.filters(),
            old(self)@.wf() ==> final(self)@.wf(),
    {
        let ghost before = rules_of(self.search_rules@);
        self.search_rules.remove(index);
        assert(rules_of(self.search_rules@) =~= before.remove(index as int));
        if self.search_rules.is_empty() {
            let rule = SearchRuleInput::default();
            self.search_rules.push(rule);
            assert(rules_of(self.search_rules@) =~= seq![rule@]);
        }
        self.current_filters()
    }

    /// Replaces a search rule by what was entered for it.
    pub fn edit_search_rule(&mut self, index: usize, rule: SearchRuleInput) -> (r: Filters)
        requires
            index < old(self)@.search_rules.len(),
        ensures
            final(self)@ == old(self)@.with_rule_edited(index as int, rule@),
            r@ == final(self)@.filters(),
            old(self)@.wf() ==> final(self)@.wf(),
    {
        let ghost before = rules_of(self.search_rules@);
        self.search_rules.set(index, rule);
        assert(rules_of(self.search_rules@) =~= before.update(index as int, rule@));
        self.current_filters()
    }

    /// Takes a state filter. There are filters to apply only if it is another one.
    pub fn choose_state_filter(&mut self, state_filter: String) -> (r: Option<Filters>)
        ensures
            final(self)@ == (AppView { selected_state_filter: state_filter@, ..old(self)@ }),
            if state_filter@ == old(self)@.selected_state_filter {
                r is None
            } else {
                r matches Some(filters) && filters@ == final(self)@.filters()
            },
            old(self)@.wf() ==> final(self)@.wf(),
    {
        let changed = !same_text(state_filter.as_str(), self.selected_state_filter.as_str());
        self.selected_state_filter = state_filter;
        if changed {
            Some(self.current_filters())
        } else {
            None
        }
    }

    /// Sets whether only instances under SSM are listed. There are filters to apply
    /// only if that is a change.
    pub fn set_only_ssm(&mut self, only_ssm: bool) -> (r: Option<Filters>)
        ensures
            final(self)@ == (AppView { only_ssm, ..old(self)@ }),
            if only_ssm == old(self)@.only_ssm {
                r is None
            } else {
                r matches Some(filters) && filters@ == final(self)@.filters()
            },
            old(self)@.wf() ==> final(self)@.wf(),
    {
        let changed = self.only_ssm != only_ssm;
        self.only_ssm = only_ssm;
        if changed {
            Some(self.current_filters())
        } else {
            None
        }
    }
}

/// Removing a search rule never leaves the list empty, and takes away one rule where
/// there are more.
pub proof fn there_is_always_a_rule(app: AppView, index: int)
    requires
        0 <= index < app.search_rules.len(),
    ensures
        app.with_rule_removed(index).search_rules.len() >= 1,
        app.search_rules.len() > 1 ==> app.with_rule_removed(index).search_rules.len()
            == app.search_rules.len() - 1,
{
}

/// Adding, removing and editing rules change the list of rules only, and only there:
/// a new rule comes last and is blank, a removed one leaves the others in order, and
/// an edited one is replaced by what was entered.
pub proof fn rules_are_changed_in_place(app: AppView, index: int, rule: SearchRuleView, i: int)
    requires
        0 <= index < app.search_rules.len(),
    ensures
        ({
            let n = app.search_rules.len() as int;
            let added = app.with_rule_added();
            let removed = app.with_rule_removed(index);
            let edited = app.with_rule_edited(index, rule);
            &&& added == AppView { search_rules: added.search_rules, ..app }
            &&& added.search_rules.len() == n + 1
            &&& added.search_rules[n].kind is Include && added.search_rules[n].term.len() == 0
            &&& 0 <= i < n ==> added.search_rules[i] == app.search_rules[i]
            &&& removed == AppView { search_rules: removed.search_rules, ..app }
            &&& n == 1 ==> removed.search_rules.len() == 1 && removed.search_rules[0].kind is Include
                && removed.search_rules[0].term.len() == 0
            &&& n > 1 ==> removed.search_rules.len() == n - 1
            &&& n > 1 && 0 <= i < index ==> removed.search_rules[i] == app.search_rules[i]
            &&& n > 1 && index <= i < n - 1 ==> removed.search_rules[i] == app.search_rules[i + 1]
            &&& edited == AppView { search_rules: edited.search_rules, ..app }
            &&& edited.search_rules.len() == n
            &&& edited.search_rules[index] == rule
            &&& 0 <= i < n && i != index ==> edited.search_rules[i] == app.search_rules[i]
        }),
{
}

} // verus!
