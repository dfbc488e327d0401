//! The plain data that the explorer works on.

use vstd::prelude::*;

use crate::text::texts;

verus! {

/// Whether the explorer talks to AWS or to a simulation.
#[derive(Debug, Clone, Copy, PartialEq, Eq, Structural)]
pub enum Mode {
    Live,
    Sim,
}

/// The state of the credentials, with the word that describes it.
#[derive(Debug, Clone, PartialEq, Eq)]
pub struct AuthStatus {
    pub ok: bool,
    pub label: String,
}

/// The account, region and credentials in use.
#[derive(Debug, Clone, PartialEq, Eq)]
pub struct AwsContext {
    pub mode: Mode,
    pub mode_label: String,
    pub profile: String,
    pub account_id: Option<String>,
    pub region: String,
    pub auth_status: AuthStatus,
}

/// An EC2 instance, as the inventory lists it.
#[derive(Debug, Clone, PartialEq, Eq)]
pub struct Instance {
    pub instance_id: String,
    pub name: Option<String>,
    pub state: String,
    pub ssm_managed: bool,
    pub ssm_ping: Option<String>,
    pub private_ip: Option<String>,
    pub env: Option<String>,
    pub app_service: Option<String>,
}

/// What the explorer was started with.
#[derive(Debug, Clone, PartialEq, Eq)]
pub struct GuiOptions {
    pub mode: Mode,
    pub mode_label: String,
    pub region: Option<String>,
    pub dry_run: bool,
}

/// Which of the programs that a live connection needs were found.
#[derive(Debug, Clone, Copy, PartialEq, Eq, Structural)]
pub struct DependencyStatus {
    pub aws_cli_found: bool,
    pub ssm_plugin_found: bool,
}

/// A terminal program that was found.
#[derive(Debug, Clone, PartialEq, Eq)]
pub struct TerminalOption {
    pub id: String,
    pub display_name: String,
    pub program: String,
}

/// What an instance has to meet to be listed.
#[derive(Debug, Clone, PartialEq, Eq)]
pub struct Filters {
    pub includes: Vec<String>,
    pub excludes: Vec<String>,
    pub states: Vec<String>,
    pub only_ssm_managed: bool,
}

/// The mathematical value of [`Filters`].
#[verifier::ext_equal]
pub struct FiltersView {
    pub includes: Seq<Seq<char>>,
    pub excludes: Seq<Seq<char>>,
    pub states: Seq<Seq<char>>,
    pub only_ssm_managed: bool,
}

impl View for Filters {
    type V = FiltersView;

    open spec fn view(&self) -> FiltersView {
        FiltersView {
            includes: texts(self.includes@),
            excludes: texts(self.excludes@),
            states: texts(self.states@),
            only_ssm_managed: self.only_ssm_managed,
        }
    }
}

/// A filter that is kept under a name.
#[derive(Debug, Clone, PartialEq, Eq)]
pub struct SavedFilter {
    pub name: String,
    pub include_terms: Vec<String>,
    pub exclude_terms: Vec<String>,
    pub states: Vec<String>,
    pub only_ssm_managed: bool,
}

/// The mathematical value of a [`SavedFilter`].
#[verifier::ext_equal]
pub struct SavedFilterView {
    pub name: Seq<char>,
    pub include_terms: Seq<Seq<char>>,
    pub exclude_terms: Seq<Seq<char>>,
    pub states: Seq<Seq<char>>,
    pub only_ssm_managed: bool,
}

impl View for SavedFilter {
    type V = SavedFilterView;

    open spec fn view(&self) -> SavedFilterView {
        SavedFilterView {
            name: self.name@,
            include_terms: texts(self.include_terms@),
            exclude_terms: texts(self.exclude_terms@),
            states: texts(self.states@),
            only_ssm_managed: self.only_ssm_managed,
        }
    }
}

/// A connection that was opened.
#[derive(Debug, Clone, PartialEq, Eq)]
pub struct RecentConnection {
    pub account_id: String,
    pub region: String,
    pub instance_id: String,
    pub name: Option<String>,
    pub timestamp_unix: u64,
}

/// The text, or `default` where there is none.
pub open spec fn text_or(text: Option<String>, default: Seq<char>) -> Seq<char> {
    match text {
        Some(t) => t@,
        None => default,
    }
}

/// The text, or `default` where there is none.
pub fn copy_or(text: &Option<String>, default: &str) -> (r: String)
    ensures
        r@ == text_or(*text, default@),
{
    match text {
        Some(t) => t.clone(),
        None => default.to_string(),
    }
}

/// Filters of the same value ask for the same.
pub proof fn equal_filters_ask_for_the_same(a: Filters, b: Filters)
    requires
        a@ == b@,
    ensures
        texts(a.includes@) == texts(b.includes@),
        texts(a.excludes@) == texts(b.excludes@),
        texts(a.states@) == texts(b.states@),
        a.only_ssm_managed == b.only_ssm_managed,
{
}

/// Saved filters of the same value have the same name and ask for the same.
pub proof fn equal_saved_filters_are_alike(a: SavedFilter, b: SavedFilter)
    requires
        a@ == b@,
    ensures
        a.name@ == b.name@,
        texts(a.include_terms@) == texts(b.include_terms@),
        texts(a.exclude_terms@) == texts(b.exclude_terms@),
        texts(a.states@) == texts(b.states@),
        a.only_ssm_managed == b.only_ssm_managed,
{
}

/// A text that is there is taken as it is; only where there is none does the default
/// count.
pub proof fn present_texts_count(text: String, default: Seq<char>)
    ensures
        text_or(Some(text), default) == text@,
        text_or(None, default) == default,
{
}

} // verus!
