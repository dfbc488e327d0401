//! Search rules and the state filter: what they ask for, and how they are kept
//! in and restored from a saved filter.

use vstd::prelude::*;

use crate::seqs::lemma_filter_push;
use crate::text::{
    is_blank,
    lowercased,
    same_text,
    texts,
    trimmed,
    trimming_is_idempotent,
};

verus! {

/// The state filter that lets every state through.
pub const STATE_FILTER_NONE: &'static str = "";

/// The state filter for running instances.
pub const STATE_FILTER_RUNNING: &'static str = "running";

/// The state filter for stopped instances.
pub const STATE_FILTER_STOPPED: &'static str = "stopped";

/// The state filter for terminated instances.
pub const STATE_FILTER_TERMINATED: &'static str = "terminated";

/// Whether a search rule asks for a term or rules it out.
#[derive(Debug, Clone, Copy, PartialEq, Eq, Structural)]
pub enum SearchRuleKind {
    Include,
    Exclude,
}

impl SearchRuleKind {
    /// The word that stands for the kind in the list of rules.
    pub open spec fn label(self) -> Seq<char> {
        match self {
            SearchRuleKind::Include => "Include"@,
            SearchRuleKind::Exclude => "Exclude"@,
        }
    }

    /// The word that stands for the kind in the list of rules.
    pub fn as_str(self) -> (r: &'static str)
        ensures
            r@ == self.label(),
    {
        match self {
            SearchRuleKind::Include => "Include",
            SearchRuleKind::Exclude => "Exclude",
        }
    }
}

/// A search rule, as it is entered.
#[derive(Debug, Clone, PartialEq, Eq)]
pub struct SearchRuleInput {
    pub kind: SearchRuleKind,
    pub term: String,
}

/// The mathematical value of a [`SearchRuleInput`].
#[verifier::ext_equal]
pub struct SearchRuleView {
    pub kind: SearchRuleKind,
    pub term: Seq<char>,
}

impl View for SearchRuleInput {
    type V = SearchRuleView;

    open spec fn view(&self) -> SearchRuleView {
        SearchRuleView { kind: self.kind, term: self.term@ }
    }
}

/// The rule that a new row starts with.
pub open spec fn default_rule() -> SearchRuleView {
    SearchRuleView { kind: SearchRuleKind::Include, term: Seq::empty() }
}

impl Default for SearchRuleInput {
    fn default() -> (r: Self)
        ensures
            r@ == default_rule(),
    {
        SearchRuleInput { kind: SearchRuleKind::Include, term: String::new() }
    }
}

/// The rules that were entered, in order.
pub open spec fn rules_of(rules: Seq<SearchRuleInput>) -> Seq<SearchRuleView> {
    rules.map_values(|r: SearchRuleInput| r@)
}

/// Whether a rule is of `kind` and has more than white space in it.
pub open spec fn counts_as(kind: SearchRuleKind) -> spec_fn(SearchRuleView) -> bool {
    |r: SearchRuleView| r.kind == kind && !is_blank(r.term)
}

/// The trimmed terms of the rules of `kind`, in order, without the blank ones.
pub open spec fn search_terms(rules: Seq<SearchRuleView>, kind: SearchRuleKind) -> Seq<Seq<char>> {
    rules.filter(counts_as(kind)).map_values(|r: SearchRuleView| trimmed(r.term))
}

/// One rule of `kind` for each term.
pub open spec fn rules_for(terms: Seq<Seq<char>>, kind: SearchRuleKind) -> Seq<SearchRuleView> {
    terms.map_values(|t: Seq<char>| SearchRuleView { kind, term: t })
}

/// The rules that stand for the given terms; where there are none, the rule that
/// a new row starts with.
pub open spec fn restored_rules(includes: Seq<Seq<char>>, excludes: Seq<Seq<char>>) -> Seq<
    SearchRuleView,
> {
    if includes.len() + excludes.len() == 0 {
        seq![default_rule()]
    } else {
        rules_for(includes, SearchRuleKind::Include) + rules_for(excludes, SearchRuleKind::Exclude)
    }
}

/// The trimmed terms without the blank ones.
pub open spec fn cleaned(terms: Seq<Seq<char>>) -> Seq<Seq<char>> {
    terms.filter(|t: Seq<char>| !is_blank(t)).map_values(|t: Seq<char>| trimmed(t))
}

/// The states that a state filter asks for: none, or the one that it names.
pub open spec fn filter_states(state_filter: Seq<char>) -> Seq<Seq<char>> {
    if is_blank(state_filter) {
        Seq::empty()
    } else {
        seq![trimmed(state_filter)]
    }
}

/// Whether `state` is one that the state filter offers.
pub open spec fn is_offered_state(state: Seq<char>) -> bool {
    state == STATE_FILTER_RUNNING@ || state == STATE_FILTER_STOPPED@ || state
        == STATE_FILTER_TERMINATED@
}

/// The state filter for saved states: the first one, if the filter offers it.
pub open spec fn restored_state_filter(states: Seq<Seq<char>>) -> Seq<char> {
    if states.len() > 0 && is_offered_state(lowercased(trimmed(states[0]))) {
        lowercased(trimmed(states[0]))
    } else {
        STATE_FILTER_NONE@
    }
}

/// The terms to look for and those to rule out: trimmed, in order, and without
/// the blank ones.
pub fn search_terms_from_rules(rules: &[SearchRuleInput]) -> (r: (Vec<String>, Vec<String>))
    ensures
        texts(r.0@) == search_terms(rules_of(rules@), SearchRuleKind::Include),
        texts(r.1@) == search_terms(rules_of(rules@), SearchRuleKind::Exclude),
{
    let mut includes: Vec<String> = Vec::new();
    let mut excludes: Vec<String> = Vec::new();
    let ghost all = rules_of(rules@);
    let mut i: usize = 0;
    proof {
        reveal(Seq::filter);
        assert(texts(includes@) =~= search_terms(all.take(0), SearchRuleKind::Include));
        assert(texts(excludes@) =~= search_terms(all.take(0), SearchRuleKind::Exclude));
    }
    while i < rules.len()
        invariant
            i <= rules.len(),
            all == rules_of(rules@),
            texts(includes@) == search_terms(all.take(i as int), SearchRuleKind::Include),
            texts(excludes@) == search_terms(all.take(i as int), SearchRuleKind::Exclude),
        decreases rules.len() - i,
    {
        let rule = &rules[i];
        proof {
            assert(all.take(i + 1) =~= all.take(i as int).push(rule@));
            lemma_terms_push(all.take(i as int), rule@, SearchRuleKind::Include);
            lemma_terms_push(all.take(i as int), rule@, SearchRuleKind::Exclude);
        }
        let ghost wanted = texts(includes@);
        let ghost unwanted = texts(excludes@);
        let term = rule.term.trim();
        if !term.is_empty() {
            match rule.kind {
                SearchRuleKind::Include => {
                    includes.push(term.to_string());
                    assert(texts(includes@) =~= wanted.push(term@));
                },
                SearchRuleKind::Exclude => {
                    excludes.push(term.to_string());
                    assert(texts(excludes@) =~= unwanted.push(term@));
                },
            }
        }
        i = i + 1;
    }
    assert(all.take(i as int) == all);
    (includes, excludes)
}

proof fn lemma_terms_push(rules: Seq<SearchRuleView>, rule: SearchRuleView, kind: SearchRuleKind)
    ensures
        search_terms(rules.push(rule), kind) == if counts_as(kind)(rule) {
            search_terms(rules, kind).push(trimmed(rule.term))
        } else {
            search_terms(rules, kind)
        },
{
    lemma_filter_push(rules, rule, counts_as(kind));
    if counts_as(kind)(rule) {
        assert(search_terms(rules.push(rule), kind) =~= search_terms(rules, kind).push(
            trimmed(rule.term),
        ));
    }
}

fn push_rules(rules: &mut Vec<SearchRuleInput>, terms: &[String], kind: SearchRuleKind)
    ensures
        rules_of(final(rules)@) == rules_of(old(rules)@) + rules_for(texts(terms@), kind),
{
    let ghost before = rules_of(rules@);
    let ghost added = rules_for(texts(terms@), kind);
    let mut i: usize = 0;
    assert(rules_of(rules@) =~= before + added.take(0));
    while i < terms.len()
        invariant
            i <= terms.len(),
            added == rules_for(texts(terms@), kind),
            rules_of(rules@) == before + added.take(i as int),
        decreases terms.len() - i,
    {
        let ghost sofar = rules_of(rules@);
        let rule = SearchRuleInput { kind, term: terms[i].clone() };
        rules.push(rule);
        assert(rules_of(rules@) =~= sofar.push(rule@));
        assert(rule@ == added[i as int]);
        assert(added.take(i + 1) =~= added.take(i as int).push(added[i as int]));
        i = i + 1;
        assert(rules_of(rules@) =~= before + added.take(i as int));
    }
    assert(added.take(i as int) == added);
}

/// The rules that stand for saved terms.
pub fn rules_from_search_terms(includes: &[String], excludes: &[String]) -> (r: Vec<
    SearchRuleInput,
>)
    ensures
        rules_of(r@) == restored_rules(texts(includes@), texts(excludes@)),
{
    let mut rules: Vec<SearchRuleInput> = Vec::new();
    push_rules(&mut rules, includes, SearchRuleKind::Include);
    push_rules(&mut rules, excludes, SearchRuleKind::Exclude);
    assert(rules_of(rules@) =~= rules_for(texts(includes@), SearchRuleKind::Include) + rules_for(
        texts(excludes@),
        SearchRuleKind::Exclude,
    ));
    assert(rules@.len() == rules_of(rules@).len());
    if rules.is_empty() {
        let rule = SearchRuleInput::default();
        rules.push(rule);
        assert(rules_of(rules@) =~= seq![rule@]);
    }
    rules
}

/// The states that the state filter asks for.
pub fn states_from_state_filter(selected_state_filter: &str) -> (r: Vec<String>)
    ensures
        texts(r@) == filter_states(selected_state_filter@),
{
    let state = selected_state_filter.trim();
    let mut states: Vec<String> = Vec::new();
    if !state.is_empty() {
        states.push(state.to_string());
    }
    assert(texts(states@) =~= filter_states(selected_state_filter@));
    states
}

/// The state filter for saved states.
pub fn state_filter_from_saved_states(saved_states: &[String]) -> (r: String)
    ensures
        r@ == restored_state_filter(texts(saved_states@)),
{
    if saved_states.len() == 0 {
        return STATE_FILTER_NONE.to_string();
    }
    let normalized = saved_states[0].trim().to_ascii_lowercase();
    assert(texts(saved_states@)[0] == saved_states@[0]@);
    if same_text(normalized.as_str(), STATE_FILTER_RUNNING) || same_text(
        normalized.as_str(),
        STATE_FILTER_STOPPED,
    ) || same_text(normalized.as_str(), STATE_FILTER_TERMINATED) {
        normalized
    } else {
        STATE_FILTER_NONE.to_string()
    }
}

proof fn lemma_terms_add(a: Seq<SearchRuleView>, b: Seq<SearchRuleView>, kind: SearchRuleKind)
    ensures
        search_terms(a + b, kind) == search_terms(a, kind) + search_terms(b, kind),
    decreases b.len(),
{
    if b.len() == 0 {
        reveal(Seq::filter);
        assert(a + b =~= a);
        assert(search_terms(b, kind) =~= Seq::empty());
        assert(search_terms(a, kind) + search_terms(b, kind) =~= search_terms(a, kind));
    } else {
        let c = b.drop_last();
        lemma_terms_add(a, c, kind);
        assert(a + b =~= (a + c).push(b.last()));
        assert(b =~= c.push(b.last()));
        lemma_terms_push(a + c, b.last(), kind);
        lemma_terms_push(c, b.last(), kind);
        assert(search_terms(a + b, kind) =~= search_terms(a, kind) + search_terms(b, kind));
    }
}

proof fn lemma_terms_of_rules(terms: Seq<Seq<char>>, kind: SearchRuleKind, other: SearchRuleKind)
    requires
        kind != other,
    ensures
        search_terms(rules_for(terms, kind), kind) == cleaned(terms),
        search_terms(rules_for(terms, kind), other) == Seq::<Seq<char>>::empty(),
    decreases terms.len(),
{
    let keeps = |t: Seq<char>| !is_blank(t);
    if terms.len() == 0 {
        reveal(Seq::filter);
        assert(rules_for(terms, kind) =~= Seq::empty());
        assert(search_terms(rules_for(terms, kind), kind) =~= Seq::empty());
        assert(search_terms(rules_for(terms, kind), other) =~= Seq::empty());
        assert(cleaned(terms) =~= Seq::empty());
    } else {
        let rest = terms.drop_last();
        let rule = SearchRuleView { kind, term: terms.last() };
        lemma_terms_of_rules(rest, kind, other);
        assert(terms =~= rest.push(terms.last()));
        assert(rules_for(terms, kind) =~= rules_for(rest, kind).push(rule));
        lemma_terms_push(rules_for(rest, kind), rule, kind);
        lemma_terms_push(rules_for(rest, kind), rule, other);
        lemma_filter_push(rest, terms.last(), keeps);
        if keeps(terms.last()) {
            assert(cleaned(terms) =~= cleaned(rest).push(trimmed(terms.last())));
        }
    }
}

/// Terms come back from the rules that stand for them: trimmed, in order, and
/// without the blank ones.
pub proof fn terms_survive_rules(includes: Seq<Seq<char>>, excludes: Seq<Seq<char>>)
    ensures
        search_terms(restored_rules(includes, excludes), SearchRuleKind::Include) == cleaned(
            includes,
        ),
        search_terms(restored_rules(includes, excludes), SearchRuleKind::Exclude) == cleaned(
            excludes,
        ),
{
    lemma_terms_of_rules(includes, SearchRuleKind::Include, SearchRuleKind::Exclude);
    lemma_terms_of_rules(excludes, SearchRuleKind::Exclude, SearchRuleKind::Include);
    let wanted = rules_for(includes, SearchRuleKind::Include);
    let unwanted = rules_for(excludes, SearchRuleKind::Exclude);
    if includes.len() + excludes.len() == 0 {
        let none = Seq::<SearchRuleView>::empty();
        assert(includes =~= Seq::empty());
        assert(excludes =~= Seq::empty());
        assert(seq![default_rule()] =~= none.push(default_rule()));
        assert(wanted =~= none);
        assert(unwanted =~= none);
        assert(trimmed(Seq::<char>::empty()).len() == 0);
        lemma_terms_push(none, default_rule(), SearchRuleKind::Include);
        lemma_terms_push(none, default_rule(), SearchRuleKind::Exclude);
    } else {
        lemma_terms_add(wanted, unwanted, SearchRuleKind::Include);
        lemma_terms_add(wanted, unwanted, SearchRuleKind::Exclude);
        assert(cleaned(includes) + Seq::<Seq<char>>::empty() =~= cleaned(includes));
        assert(Seq::<Seq<char>>::empty() + cleaned(excludes) =~= cleaned(excludes));
    }
}

proof fn lemma_terms_are_clean(rules: Seq<SearchRuleView>, kind: SearchRuleKind)
    ensures
        cleaned(search_terms(rules, kind)) == search_terms(rules, kind),
    decreases rules.len(),
{
    let keeps = |t: Seq<char>| !is_blank(t);
    if rules.len() == 0 {
        reveal(Seq::filter);
        assert(search_terms(rules, kind) =~= Seq::empty());
        assert(cleaned(search_terms(rules, kind)) =~= Seq::empty());
    } else {
        let rest = rules.drop_last();
        let rule = rules.last();
        lemma_terms_are_clean(rest, kind);
        assert(rules =~= rest.push(rule));
        lemma_terms_push(rest, rule, kind);
        if counts_as(kind)(rule) {
            let term = trimmed(rule.term);
            trimming_is_idempotent(rule.term);
            lemma_filter_push(search_terms(rest, kind), term, keeps);
            assert(cleaned(search_terms(rules, kind)) =~= cleaned(search_terms(rest, kind)).push(
                term,
            ));
        }
    }
}

/// What a set of rules asks for is unchanged when the rules are replaced by those
/// restored from its own terms.
pub proof fn search_survives_saving(rules: Seq<SearchRuleView>, kind: SearchRuleKind)
    ensures
        search_terms(
            restored_rules(
                search_terms(rules, SearchRuleKind::Include),
                search_terms(rules, SearchRuleKind::Exclude),
            ),
            kind,
        ) == search_terms(rules, kind),
{
    terms_survive_rules(
        search_terms(rules, SearchRuleKind::Include),
        search_terms(rules, SearchRuleKind::Exclude),
    );
    lemma_terms_are_clean(rules, SearchRuleKind::Include);
    lemma_terms_are_clean(rules, SearchRuleKind::Exclude);
}

/// Restoring rules never leaves the list of rules empty.
pub proof fn restored_rules_are_never_empty(includes: Seq<Seq<char>>, excludes: Seq<Seq<char>>)
    ensures
        restored_rules(includes, excludes).len() >= 1,
{
}

/// A state filter that is offered, or none, comes back from the states that were
/// saved for it.
pub proof fn state_filter_survives_saving(state_filter: Seq<char>)
    requires
        is_offered_state(state_filter) || state_filter == STATE_FILTER_NONE@,
    ensures
        restored_state_filter(filter_states(state_filter)) == state_filter,
{
    reveal_strlit("");
    reveal_strlit("running");
    reveal_strlit("stopped");
    reveal_strlit("terminated");
    assert(trimmed(state_filter) == state_filter);
    assert(lowercased(state_filter) =~= state_filter);
}

/// Each rule counts: one of the kind asked for that is not blank adds its trimmed
/// term at the end, every other one adds nothing, and without rules there are no
/// terms.
pub proof fn each_rule_adds_its_term(
    rules: Seq<SearchRuleView>,
    rule: SearchRuleView,
    kind: SearchRuleKind,
)
    ensures
        search_terms(seq![], kind).len() == 0,
        rule.kind == kind && !is_blank(rule.term) ==> search_terms(rules.push(rule), kind)
            == search_terms(rules, kind).push(trimmed(rule.term)),
        rule.kind != kind || is_blank(rule.term) ==> search_terms(rules.push(rule), kind)
            == search_terms(rules, kind),
{
    lemma_terms_push(rules, rule, kind);
    reveal(Seq::filter);
}

proof fn lemma_term_is_found(rules: Seq<SearchRuleView>, i: int, kind: SearchRuleKind)
    requires
        0 <= i < rules.len(),
        rules[i].kind == kind,
        !is_blank(rules[i].term),
    ensures
        search_terms(rules, kind).contains(trimmed(rules[i].term)),
    decreases rules.len(),
{
    let rest = rules.drop_last();
    assert(rules =~= rest.push(rules.last()));
    each_rule_adds_its_term(rest, rules.last(), kind);
    let all = search_terms(rules, kind);
    if i < rest.len() {
        lemma_term_is_found(rest, i, kind);
        let found = search_terms(rest, kind);
        let k = choose|k: int| 0 <= k < found.len() && found[k] == trimmed(rules[i].term);
        assert(all[k] == trimmed(rules[i].term));
    } else {
        assert(all[all.len() - 1] == trimmed(rules[i].term));
    }
}

/// Whatever the rules are, the term of each rule that is not blank is among the terms
/// of its kind, and there are just as many terms as there are such rules.
pub proof fn no_rule_is_ignored(rules: Seq<SearchRuleView>, i: int)
    ensures
        0 <= i < rules.len() && !is_blank(rules[i].term) ==> search_terms(
            rules,
            rules[i].kind,
        ).contains(trimmed(rules[i].term)),
        search_terms(rules, SearchRuleKind::Include).len() + search_terms(
            rules,
            SearchRuleKind::Exclude,
        ).len() == rules.filter(|r: SearchRuleView| !is_blank(r.term)).len(),
    decreases rules.len(),
{
    if 0 <= i < rules.len() && !is_blank(rules[i].term) {
        lemma_term_is_found(rules, i, rules[i].kind);
    }
    reveal(Seq::filter);
    if rules.len() > 0 {
        let rest = rules.drop_last();
        assert(rules =~= rest.push(rules.last()));
        no_rule_is_ignored(rest, 0);
        each_rule_adds_its_term(rest, rules.last(), SearchRuleKind::Include);
        each_rule_adds_its_term(rest, rules.last(), SearchRuleKind::Exclude);
        lemma_filter_push(rest, rules.last(), |r: SearchRuleView| !is_blank(r.term));
    }
}

/// Restored rules are one for each term, as it was saved: first those to look for,
/// then those to rule out. Only without terms is there a rule that asks for nothing.
pub proof fn restored_rules_hold_the_terms(
    includes: Seq<Seq<char>>,
    excludes: Seq<Seq<char>>,
    i: int,
)
    ensures
        ({
            let rules = restored_rules(includes, excludes);
            let n = includes.len() as int;
            &&& includes.len() + excludes.len() > 0 ==> rules.len() == includes.len()
                + excludes.len()
            &&& 0 <= i < n ==> rules[i].term == includes[i] && rules[i].kind is Include
            &&& 0 <= i < excludes.len() ==> rules[n + i].term == excludes[i] && rules[n
                + i].kind is Exclude
            &&& includes.len() + excludes.len() == 0 ==> rules.len() == 1 && rules[0].term.len()
                == 0 && rules[0].kind is Include
        }),
{
}

/// A state filter asks for the state that it names, trimmed, and for none if it is
/// blank; a saved filter brings back its first state, whatever its case, if that is
/// one of the three on offer, and else none.
pub proof fn states_are_asked_for_and_brought_back(state_filter: Seq<char>, states: Seq<Seq<char>>)
    ensures
        is_blank(state_filter) ==> filter_states(state_filter).len() == 0,
        !is_blank(state_filter) ==> filter_states(state_filter).len() == 1 && filter_states(
            state_filter,
        )[0] == trimmed(state_filter),
        states.len() == 0 ==> restored_state_filter(states).len() == 0,
        states.len() > 0 ==> ({
            let first = lowercased(trimmed(states[0]));
            if first == "running"@ || first == "stopped"@ || first == "terminated"@ {
                restored_state_filter(states) == first
            } else {
                restored_state_filter(states).len() == 0
            }
        }),
{
    reveal_strlit("");
}

/// The rules that were entered are taken one by one, with their kind and their term.
pub proof fn entered_rules_are_taken_as_they_are(rules: Seq<SearchRuleInput>, i: int)
    ensures
        rules_of(rules).len() == rules.len(),
        0 <= i < rules.len() ==> rules_of(rules)[i].kind == rules[i].kind && rules_of(rules)[i].term
            == rules[i].term@,
        default_rule().kind is Include,
        default_rule().term.len() == 0,
{
}

} // verus!
