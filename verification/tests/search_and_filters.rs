use ec2_manager_gui::error::AppError;
use ec2_manager_gui::models::{
    DependencyStatus, Filters, GuiOptions, Instance, Mode, SavedFilter,
};
use ec2_manager_gui::search::{
    rules_from_search_terms, search_terms_from_rules, state_filter_from_saved_states,
    states_from_state_filter, SearchRuleInput, SearchRuleKind,
};
use ec2_manager_gui::state::Ec2GuiApp;

fn rule(kind: SearchRuleKind, term: &str) -> SearchRuleInput {
    SearchRuleInput { kind, term: term.to_string() }
}

fn app() -> Ec2GuiApp {
    Ec2GuiApp::new(
        GuiOptions {
            mode: Mode::Sim,
            mode_label: "sim".to_string(),
            region: None,
            dry_run: true,
        },
        DependencyStatus { aws_cli_found: false, ssm_plugin_found: false },
        vec![],
        String::new(),
        None,
    )
}

#[test]
fn search_terms_from_rules_splits_include_and_exclude() {
    let rules = vec![
        SearchRuleInput { kind: SearchRuleKind::Include, term: "orders".to_string() },
        SearchRuleInput { kind: SearchRuleKind::Exclude, term: "legacy".to_string() },
        SearchRuleInput { kind: SearchRuleKind::Include, term: "  ".to_string() },
    ];

    let (includes, excludes) = search_terms_from_rules(&rules);
    assert_eq!(includes, vec!["orders"]);
    assert_eq!(excludes, vec!["legacy"]);
}

#[test]
fn rules_from_search_terms_roundtrip() {
    let rules = rules_from_search_terms(
        &["orders".to_string(), "platform".to_string()],
        &["legacy".to_string()],
    );
    let (includes, excludes) = search_terms_from_rules(&rules);
    assert_eq!(includes, vec!["orders", "platform"]);
    assert_eq!(excludes, vec!["legacy"]);
}

#[test]
fn rules_from_search_terms_empty_creates_default_rule() {
    let rules = rules_from_search_terms(&[], &[]);
    assert_eq!(rules.len(), 1);
    assert_eq!(rules[0].kind, SearchRuleKind::Include);
    assert!(rules[0].term.is_empty());
}

#[test]
fn states_from_state_filter_none_is_empty() {
    assert!(states_from_state_filter("").is_empty());
}

#[test]
fn states_from_state_filter_value_is_single_state() {
    assert_eq!(states_from_state_filter("running"), vec!["running".to_string()]);
}

#[test]
fn state_filter_from_saved_states_uses_first_supported_state() {
    assert_eq!(
        state_filter_from_saved_states(&["stopped".to_string(), "running".to_string()]),
        "stopped".to_string()
    );
    assert_eq!(state_filter_from_saved_states(&["unknown".to_string()]), "".to_string());
}

#[test]
fn terms_are_trimmed_of_every_kind_of_white_space() {
    let rules = vec![
        rule(SearchRuleKind::Include, "\t\u{00a0}\u{2003} api a \u{3000}\n"),
        rule(SearchRuleKind::Exclude, "\u{200b}"),
        rule(SearchRuleKind::Exclude, "\u{1680}\u{2028}\u{205f}\u{85}"),
    ];
    let (includes, excludes) = search_terms_from_rules(&rules);
    assert_eq!(includes, vec!["api a"]);
    assert_eq!(excludes, vec!["\u{200b}"]);
}

#[test]
fn saved_states_are_trimmed_and_lowercased() {
    assert_eq!(state_filter_from_saved_states(&["  RunNing ".to_string()]), "running");
    assert_eq!(state_filter_from_saved_states(&["TERMINATED".to_string()]), "terminated");
    assert_eq!(state_filter_from_saved_states(&["\u{212a}".to_string()]), "");
    assert_eq!(
        state_filter_from_saved_states(&["pending".to_string(), "running".to_string()]),
        ""
    );
    assert_eq!(state_filter_from_saved_states(&[]), "");
    assert_eq!(states_from_state_filter("  stopped\t"), vec!["stopped"]);
    assert!(states_from_state_filter("   ").is_empty());
}

#[test]
fn current_filters_follow_the_controls() {
    let mut app = app();
    app.search_rules = vec![
        rule(SearchRuleKind::Exclude, " old "),
        rule(SearchRuleKind::Include, "api"),
        rule(SearchRuleKind::Include, ""),
    ];
    app.selected_state_filter = "stopped".to_string();
    app.only_ssm = true;
    let filters = app.current_filters();
    assert_eq!(filters.includes, vec!["api"]);
    assert_eq!(filters.excludes, vec!["old"]);
    assert_eq!(filters.states, vec!["stopped"]);
    assert!(filters.only_ssm_managed);
}

#[test]
fn saving_needs_a_name() {
    let mut app = app();
    app.save_filter_name = " \t".to_string();
    assert_eq!(
        app.save_current_filter(),
        Err(AppError::InvalidArgument("Filter name cannot be empty".to_string()))
    );
}

#[test]
fn a_saved_filter_comes_back() {
    let mut app = app();
    app.search_rules = vec![
        rule(SearchRuleKind::Include, " orders "),
        rule(SearchRuleKind::Exclude, "legacy"),
        rule(SearchRuleKind::Include, "platform"),
    ];
    app.selected_state_filter = "running".to_string();
    app.only_ssm = true;
    app.save_filter_name = "  Mine ".to_string();
    let before = app.current_filters();
    let saved = app.save_current_filter().expect("a name was entered");
    assert_eq!(saved.account_id, "unknown-account");
    assert_eq!(saved.region, "us-east-1");
    assert_eq!(saved.filter.name, "Mine");

    app.search_rules = vec![];
    app.selected_state_filter = String::new();
    app.only_ssm = false;
    app.selected_saved_filter = " mINE".to_string();
    let other = SavedFilter {
        name: "other".to_string(),
        include_terms: vec![],
        exclude_terms: vec![],
        states: vec![],
        only_ssm_managed: false,
    };
    assert_eq!(app.apply_saved_filter(&[other, saved.filter]), Ok("mINE".to_string()));
    assert_eq!(app.current_filters(), before);
    assert_eq!(app.search_rules[0], rule(SearchRuleKind::Include, "orders"));
    assert_eq!(app.search_rules[1], rule(SearchRuleKind::Include, "platform"));
    assert_eq!(app.search_rules[2], rule(SearchRuleKind::Exclude, "legacy"));

    app.saved_filter_applied("mINE");
    assert_eq!(app.message, "Applied saved filter: mINE");
    app.filter_saved("Mine");
    assert_eq!(app.message, "Saved filter: Mine");
}

#[test]
fn applying_a_filter_can_be_refused() {
    let mut app = app();
    assert_eq!(
        app.apply_saved_filter(&[]),
        Err(AppError::InvalidArgument("Select a saved filter first".to_string()))
    );
    app.selected_saved_filter = " gone ".to_string();
    assert_eq!(
        app.apply_saved_filter(&[]),
        Err(AppError::NotFound("Saved filter not found: gone".to_string()))
    );
    assert_eq!(app.search_rules.len(), 1);
}

#[test]
fn removing_the_last_rule_leaves_a_new_one() {
    let mut app = app();
    app.search_rules[0] = rule(SearchRuleKind::Exclude, "x");
    assert_eq!(app.add_search_rule().excludes, vec!["x"]);
    assert_eq!(app.search_rules.len(), 2);
    assert_eq!(app.remove_search_rule(1).excludes, vec!["x"]);
    assert_eq!(app.search_rules, vec![rule(SearchRuleKind::Exclude, "x")]);
    assert!(app.remove_search_rule(0).excludes.is_empty());
    assert_eq!(app.search_rules, vec![rule(SearchRuleKind::Include, "")]);
}

#[test]
fn controls_hand_back_the_filters_to_apply() {
    let mut app = app();
    app.add_search_rule();
    let filters = app.edit_search_rule(1, rule(SearchRuleKind::Exclude, " y "));
    assert!(filters.includes.is_empty());
    assert_eq!(filters.excludes, vec!["y"]);
    assert_eq!(app.search_rules[0], rule(SearchRuleKind::Include, ""));
    assert_eq!(app.search_rules[1], rule(SearchRuleKind::Exclude, " y "));

    assert_eq!(app.choose_state_filter(String::new()), None);
    let filters = app.choose_state_filter("stopped".to_string()).expect("another one");
    assert_eq!(filters.states, vec!["stopped"]);
    assert_eq!(filters.excludes, vec!["y"]);
    assert_eq!(app.choose_state_filter("stopped".to_string()), None);
    assert_eq!(app.selected_state_filter, "stopped");

    assert_eq!(app.set_only_ssm(false), None);
    let filters = app.set_only_ssm(true).expect("a change");
    assert!(filters.only_ssm_managed);
    assert_eq!(filters, app.current_filters());
    assert_eq!(app.set_only_ssm(true), None);
}

fn listed(inventory: &[Instance], filters: &Filters) -> Vec<Instance> {
    inventory
        .iter()
        .filter(|i| filters.includes.iter().all(|term| i.instance_id.contains(term.as_str())))
        .filter(|i| filters.states.is_empty() || filters.states.contains(&i.state))
        .filter(|i| i.ssm_managed || !filters.only_ssm_managed)
        .cloned()
        .collect()
}

fn machine(id: &str, state: &str, ssm_managed: bool) -> Instance {
    Instance {
        instance_id: id.to_string(),
        name: None,
        state: state.to_string(),
        ssm_managed,
        ssm_ping: None,
        private_ip: None,
        env: None,
        app_service: None,
    }
}

#[test]
fn the_list_is_always_what_the_filters_let_through() {
    let mut app = app();
    assert_eq!(app.filtered, listed(&app.inventory, &app.current_filters()));
    let all = vec![
        machine("i-a", "running", true),
        machine("i-b", "running", false),
        machine("i-c", "stopped", true),
    ];
    let shown = listed(&all, &app.current_filters());
    app.accept_inventory(all.clone(), shown);
    assert_eq!(app.filtered.len(), 3);

    let filters = app.choose_state_filter("running".to_string()).expect("another one");
    app.accept_filtered(listed(&all, &filters));
    assert_eq!(app.filtered, all[..2].to_vec());

    app.log_info("aside".to_string());
    app.rescan_terminals(vec![], None);
    app.close_connection_tab(1);
    app.show_connections();
    assert_eq!(app.filtered, listed(&app.inventory, &app.current_filters()));

    let filters = app.set_only_ssm(true).expect("a change");
    app.accept_filtered(listed(&all, &filters));
    assert_eq!(app.filtered, all[..1].to_vec());

    let filters = app.edit_search_rule(0, rule(SearchRuleKind::Include, "i-b"));
    app.accept_filtered(listed(&all, &filters));
    assert!(app.filtered.is_empty());

    let filters = app.remove_search_rule(0);
    app.accept_filtered(listed(&all, &filters));
    assert_eq!(app.filtered, listed(&app.inventory, &app.current_filters()));
    assert_eq!(app.filtered.len(), 1);
}

#[test]
fn rule_kinds_have_names() {
    assert_eq!(SearchRuleKind::Include.as_str(), "Include");
    assert_eq!(SearchRuleKind::Exclude.as_str(), "Exclude");
}

#[test]
fn trimmed_terms_stay_as_they_are() {
    let (once, _) = search_terms_from_rules(&[rule(SearchRuleKind::Include, " \u{2003}a b\t")]);
    let (twice, _) = search_terms_from_rules(&[rule(SearchRuleKind::Include, &once[0])]);
    assert_eq!(once, vec!["a b"]);
    assert_eq!(twice, once);
}

#[test]
fn filters_do_not_depend_on_what_is_listed() {
    let mut app = app();
    app.search_rules = vec![rule(SearchRuleKind::Exclude, "old")];
    app.selected_state_filter = "running".to_string();
    let before = app.current_filters();
    app.accept_inventory(vec![], vec![]);
    app.accept_filtered(vec![]);
    assert_eq!(app.current_filters(), before);
    assert_eq!(before.excludes, vec!["old"]);
}
