//! The action resolver: selects, from the configured action names, the single
//! action the image store plugin should run.

use vstd::prelude::*;

use crate::strings::starts_with_prefix;
use crate::strings::str_eq;

verus! {

/// Handle to the plugin instance a selected action will later run against.
/// The resolver and the actions treat it as opaque.
pub struct ImageStorePlugin {}

/// The plugin section of the process-wide configuration. The resolver only
/// reads it.
pub struct PluginsConfig {
    /// The ordered list of configured action names, shared by all plugins.
    /// Order matters only in that the first matching entry wins.
    pub internal_actions: Vec<String>,
}

/// The process-wide configuration handle.
pub struct Config {
    pub plugins: PluginsConfig,
}

/// The enumerated actions of the image store plugin. Adding an action means
/// adding a variant here, and the exhaustive matches over this enum then
/// demand the corresponding update everywhere an action is dispatched.
#[derive(Clone, Copy, Debug, PartialEq, Eq, Structural)]
pub enum Action {
    /// The built-in default, selected when nothing targets this plugin; it is
    /// also a nameable entry of the enumerated set, so configuration may
    /// select it explicitly.
    Noop,
}

/// Failure of one resolution call.
#[derive(Debug, Clone, PartialEq, Eq)]
pub enum ResolutionError {
    /// A configured name matched the plugin's prefix but equals none of the
    /// plugin's action identifiers. Carries the plugin's display name and the
    /// offending configured name.
    ActionNotFound(String, String),
}

/// The one diagnostic a resolution call hands to the logging collaborator.
/// Each variant carries the plugin's display name and the configured name
/// concerned.
#[derive(Debug, Clone, PartialEq, Eq)]
pub enum Diagnostic {
    /// Informational: the named action was explicitly configured.
    ActionConfigured(String, String),
    /// Error: the named entry matched the prefix, but no such action exists.
    ActionNotFound(String, String),
}

/// The reserved configuration-name prefix of the image store plugin.
pub open spec fn spec_prefix() -> Seq<char> {
    "image_store_"@
}

/// The display name carried by this plugin's diagnostics and errors.
pub open spec fn spec_plugin_name() -> Seq<char> {
    "ImageStorePlugin"@
}

/// The identifier of the built-in no-op action.
pub open spec fn spec_noop_name() -> Seq<char> {
    "image_store_noop_action"@
}

/// Whether a configured name targets this plugin: it starts with the
/// plugin's reserved prefix.
pub open spec fn targets_plugin(name: Seq<char>) -> bool {
    spec_prefix().is_prefix_of(name)
}

/// Whether a name is one of this plugin's enumerated action identifiers.
pub open spec fn known_action(name: Seq<char>) -> bool {
    name == spec_noop_name()
}

/// The action a known identifier names.
pub open spec fn action_of(name: Seq<char>) -> Action
    recommends
        known_action(name),
{
    Action::Noop
}

/// Abstract outcome of one resolution pass over a configuration list.
pub enum SpecOutcome {
    /// No entry carries the plugin's prefix: the silent no-op default applies.
    NoMatch,
    /// The first prefix-matching entry equals a known action identifier.
    Known(Seq<char>),
    /// The first prefix-matching entry equals no known action identifier.
    Unknown(Seq<char>),
}

/// The outcome of scanning `actions` in order: the first entry that carries
/// the plugin's prefix decides, and later entries are never examined; with no
/// such entry the outcome is the silent default.
pub open spec fn spec_resolve(actions: Seq<Seq<char>>) -> SpecOutcome
    decreases actions.len(),
{
    if actions.len() == 0 {
        SpecOutcome::NoMatch
    } else if targets_plugin(actions[0]) {
        if known_action(actions[0]) {
            SpecOutcome::Known(actions[0])
        } else {
            SpecOutcome::Unknown(actions[0])
        }
    } else {
        spec_resolve(actions.drop_first())
    }
}

/// Concrete outcome of one scan, carrying the deciding entry.
#[derive(Debug, Clone, PartialEq, Eq)]
pub enum Outcome {
    NoMatch,
    Known(String),
    Unknown(String),
}

impl View for Outcome {
    type V = SpecOutcome;

    open spec fn view(&self) -> SpecOutcome {
        match self {
            Outcome::NoMatch => SpecOutcome::NoMatch,
            Outcome::Known(name) => SpecOutcome::Known(name@),
            Outcome::Unknown(name) => SpecOutcome::Unknown(name@),
        }
    }
}

/// Scans the configured names in order and returns the outcome decided by
/// the first entry that carries the plugin's prefix.
pub fn resolve_outcome(actions: &Vec<String>) -> (r: Outcome)
    ensures
        r@ == spec_resolve(actions.deep_view()),
{
    let ghost all: Seq<Seq<char>> = actions.deep_view();
    let n: usize = actions.len();
    let mut i: usize = 0;
    assert(all.skip(0) =~= all);
    while i < n
        invariant
            0 <= i <= n,
            n == actions.len(),
            all == actions.deep_view(),
            spec_resolve(all) == spec_resolve(all.skip(i as int)),
        decreases n - i,
    {
        let action: &String = &actions[i];
        if starts_with_prefix(action.as_str(), "image_store_") {
            if str_eq(action.as_str(), "image_store_noop_action") {
                return Outcome::Known(action.clone());
            } else {
                return Outcome::Unknown(action.clone());
            }
        }
        assert(all.skip(i as int).drop_first() =~= all.skip(i as int + 1));
        i = i + 1;
    }
    assert(all.skip(n as int) =~= Seq::<Seq<char>>::empty());
    Outcome::NoMatch
}

/// The plugin name an error carries.
pub open spec fn error_plugin(e: ResolutionError) -> Seq<char> {
    match e {
        ResolutionError::ActionNotFound(plugin, _) => plugin@,
    }
}

/// The offending configured name an error carries.
pub open spec fn error_action(e: ResolutionError) -> Seq<char> {
    match e {
        ResolutionError::ActionNotFound(_, action) => action@,
    }
}

/// What `select_action` returns, as a function of the configured names: the
/// action of a known first match, the error for an unknown first match, and
/// the no-op default with no match at all.
pub open spec fn resolution_post(
    actions: Seq<Seq<char>>,
    r: Result<Action, ResolutionError>,
) -> bool {
    match spec_resolve(actions) {
        SpecOutcome::NoMatch => r == Result::<Action, ResolutionError>::Ok(Action::Noop),
        SpecOutcome::Known(name) => r == Result::<Action, ResolutionError>::Ok(action_of(name)),
        SpecOutcome::Unknown(name) => {
            &&& r is Err
            &&& error_plugin(r->Err_0) == spec_plugin_name()
            &&& error_action(r->Err_0) == name
        },
    }
}

/// What `resolution_diagnostic` returns: no diagnostic on the silent default,
/// one informational diagnostic for a known first match, one error diagnostic
/// for an unknown first match, each carrying the plugin's display name and
/// the deciding entry.
pub open spec fn diagnostic_post(actions: Seq<Seq<char>>, d: Option<Diagnostic>) -> bool {
    match spec_resolve(actions) {
        SpecOutcome::NoMatch => d is None,
        SpecOutcome::Known(name) => {
            &&& d matches Some(Diagnostic::ActionConfigured(plugin, action))
            &&& plugin@ == spec_plugin_name()
            &&& action@ == name
        },
        SpecOutcome::Unknown(name) => {
            &&& d matches Some(Diagnostic::ActionNotFound(plugin, action))
            &&& plugin@ == spec_plugin_name()
            &&& action@ == name
        },
    }
}

/// The display name under which this plugin appears in diagnostics and
/// errors.
pub fn plugin_display_name() -> (r: String)
    ensures
        r@ == spec_plugin_name(),
{
    "ImageStorePlugin".to_owned()
}

/// Selects this plugin's action from the configuration: scans the configured
/// names in order, and the first one carrying the plugin's reserved prefix
/// decides. A known identifier selects its action; an unknown one fails with
/// `ActionNotFound`, never examining later entries; and with no prefix match
/// at all the built-in no-op action is returned as the default.
pub fn select_action(config: &Config) -> (r: Result<Action, ResolutionError>)
    ensures
        resolution_post(config.plugins.internal_actions.deep_view(), r),
{
    match resolve_outcome(&config.plugins.internal_actions) {
        Outcome::NoMatch => Ok(Action::Noop),
        Outcome::Known(_) => Ok(Action::Noop),
        Outcome::Unknown(action) => Err(
            ResolutionError::ActionNotFound(plugin_display_name(), action),
        ),
    }
}

/// The one diagnostic a resolution call over `config` asks the logging
/// collaborator to emit: informational for an explicitly configured action,
/// error for an unknown prefix-matching entry, and none when the silent
/// no-op default applies.
pub fn resolution_diagnostic(config: &Config) -> (d: Option<Diagnostic>)
    ensures
        diagnostic_post(config.plugins.internal_actions.deep_view(), d),
{
    match resolve_outcome(&config.plugins.internal_actions) {
        Outcome::NoMatch => None,
        Outcome::Known(action) => Some(
            Diagnostic::ActionConfigured(plugin_display_name(), action),
        ),
        Outcome::Unknown(action) => Some(
            Diagnostic::ActionNotFound(plugin_display_name(), action),
        ),
    }
}

/// The no-op action: takes the plugin handle and performs no effect.
#[allow(unused_variables)]
pub fn image_store_noop_action(plugin: &ImageStorePlugin) {
}

impl Action {
    /// Runs the selected action against the plugin instance.
    pub fn invoke(&self, plugin: &ImageStorePlugin) {
        match self {
            Action::Noop => image_store_noop_action(plugin),
        }
    }
}

} // verus!
