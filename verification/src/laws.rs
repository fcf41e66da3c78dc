//! Laws of the resolver, stated over all configurations and proved once.
//!
//! Each law speaks of results through `resolution_post` and
//! `diagnostic_post`, the exact contracts of `select_action` and
//! `resolution_diagnostic`: whatever those functions return satisfies the
//! posts, so each law holds of every call.

use vstd::prelude::*;

use crate::resolver::Action;
use crate::resolver::Diagnostic;
use crate::resolver::ResolutionError;
use crate::resolver::SpecOutcome;
use crate::resolver::action_of;
use crate::resolver::diagnostic_post;
use crate::resolver::error_action;
use crate::resolver::error_plugin;
use crate::resolver::known_action;
use crate::resolver::resolution_post;
use crate::resolver::spec_plugin_name;
use crate::resolver::spec_resolve;
use crate::resolver::targets_plugin;

verus! {

/// A configuration list with no prefix-matching entry resolves to the silent
/// default.
proof fn lemma_spec_resolve_no_match(actions: Seq<Seq<char>>)
    requires
        forall|i: int| 0 <= i < actions.len() ==> !targets_plugin(#[trigger] actions[i]),
    ensures
        spec_resolve(actions) == SpecOutcome::NoMatch,
    decreases actions.len(),
{
    if actions.len() > 0 {
        let rest = actions.drop_first();
        assert forall|i: int| 0 <= i < rest.len() implies !targets_plugin(#[trigger] rest[i]) by {
            assert(rest[i] == actions[i + 1]);
        };
        lemma_spec_resolve_no_match(rest);
    }
}

/// The outcome of a scan is decided by the first prefix-matching entry alone.
proof fn lemma_spec_resolve_first_match(actions: Seq<Seq<char>>, i: int)
    requires
        0 <= i < actions.len(),
        targets_plugin(actions[i]),
        forall|j: int| 0 <= j < i ==> !targets_plugin(#[trigger] actions[j]),
    ensures
        spec_resolve(actions) == if known_action(actions[i]) {
            SpecOutcome::Known(actions[i])
        } else {
            SpecOutcome::Unknown(actions[i])
        },
    decreases i,
{
    if i > 0 {
        let rest = actions.drop_first();
        assert forall|j: int| 0 <= j < i - 1 implies !targets_plugin(#[trigger] rest[j]) by {
            assert(rest[j] == actions[j + 1]);
        };
        assert(rest[i - 1] == actions[i]);
        lemma_spec_resolve_first_match(rest, i - 1);
    }
}

/// With no configured entry carrying the plugin's prefix, resolution
/// succeeds with the no-op action, and no diagnostic is emitted.
pub proof fn lemma_no_match_defaults(
    actions: Seq<Seq<char>>,
    r: Result<Action, ResolutionError>,
    d: Option<Diagnostic>,
)
    requires
        forall|i: int| 0 <= i < actions.len() ==> !targets_plugin(#[trigger] actions[i]),
        resolution_post(actions, r),
        diagnostic_post(actions, d),
    ensures
        r == Result::<Action, ResolutionError>::Ok(Action::Noop),
        d is None,
{
    lemma_spec_resolve_no_match(actions);
}

/// When the first prefix-matching entry is a known action identifier,
/// resolution succeeds with that identifier's action, and the one diagnostic
/// is informational, carrying the plugin's display name and the matched
/// entry.
pub proof fn lemma_known_match_selects(
    actions: Seq<Seq<char>>,
    i: int,
    r: Result<Action, ResolutionError>,
    d: Option<Diagnostic>,
)
    requires
        0 <= i < actions.len(),
        targets_plugin(actions[i]),
        forall|j: int| 0 <= j < i ==> !targets_plugin(#[trigger] actions[j]),
        known_action(actions[i]),
        resolution_post(actions, r),
        diagnostic_post(actions, d),
    ensures
        r == Result::<Action, ResolutionError>::Ok(action_of(actions[i])),
        d matches Some(Diagnostic::ActionConfigured(plugin, action)) && plugin@
            == spec_plugin_name() && action@ == actions[i],
{
    lemma_spec_resolve_first_match(actions, i);
}

/// When the first prefix-matching entry equals no known action identifier,
/// resolution fails with `ActionNotFound` carrying the plugin's display name
/// and that exact entry, whatever stands after it, and the one diagnostic is
/// the error diagnostic with the same contents.
pub proof fn lemma_unknown_match_fails(
    actions: Seq<Seq<char>>,
    i: int,
    r: Result<Action, ResolutionError>,
    d: Option<Diagnostic>,
)
    requires
        0 <= i < actions.len(),
        targets_plugin(actions[i]),
        forall|j: int| 0 <= j < i ==> !targets_plugin(#[trigger] actions[j]),
        !known_action(actions[i]),
        resolution_post(actions, r),
        diagnostic_post(actions, d),
    ensures
        r is Err,
        error_plugin(r->Err_0) == spec_plugin_name(),
        error_action(r->Err_0) == actions[i],
        d matches Some(Diagnostic::ActionNotFound(plugin, action)) && plugin@
            == spec_plugin_name() && action@ == actions[i],
{
    lemma_spec_resolve_first_match(actions, i);
}

/// Entries after the first prefix-matching one never affect the outcome: two
/// configuration lists that agree up to and including their first
/// prefix-matching entry resolve alike, whatever follows that entry in
/// either list, whether it would have succeeded or failed.
pub proof fn lemma_later_entries_ignored(a: Seq<Seq<char>>, b: Seq<Seq<char>>, i: int)
    requires
        0 <= i < a.len(),
        i < b.len(),
        forall|k: int| 0 <= k <= i ==> a[k] == #[trigger] b[k],
        targets_plugin(a[i]),
        forall|k: int| 0 <= k < i ==> !targets_plugin(#[trigger] a[k]),
    ensures
        spec_resolve(a) == spec_resolve(b),
{
    lemma_spec_resolve_first_match(a, i);
    assert forall|k: int| 0 <= k < i implies !targets_plugin(#[trigger] b[k]) by {
        assert(b[k] == a[k]);
    };
    lemma_spec_resolve_first_match(b, i);
}

/// Resolution is deterministic: any two results that satisfy the resolver's
/// contract on one configuration agree, and so do the diagnostics of the two
/// calls. Configuration is immutable, so two calls of `select_action` and
/// `resolution_diagnostic` on the same configuration are two such results.
pub proof fn lemma_resolution_idempotent(
    actions: Seq<Seq<char>>,
    r1: Result<Action, ResolutionError>,
    r2: Result<Action, ResolutionError>,
    d1: Option<Diagnostic>,
    d2: Option<Diagnostic>,
)
    requires
        resolution_post(actions, r1),
        resolution_post(actions, r2),
        diagnostic_post(actions, d1),
        diagnostic_post(actions, d2),
    ensures
        r1 is Ok <==> r2 is Ok,
        r1 matches Ok(a1) ==> r2 matches Ok(a2) && a1 == a2,
        r1 is Err ==> error_plugin(r1->Err_0) == error_plugin(r2->Err_0) && error_action(
            r1->Err_0,
        ) == error_action(r2->Err_0),
        d1 is None <==> d2 is None,
        d1 matches Some(Diagnostic::ActionConfigured(p1, a1)) ==> d2 matches Some(
            Diagnostic::ActionConfigured(p2, a2),
        ) && p1@ == p2@ && a1@ == a2@,
        d1 matches Some(Diagnostic::ActionNotFound(p1, a1)) ==> d2 matches Some(
            Diagnostic::ActionNotFound(p2, a2),
        ) && p1@ == p2@ && a1@ == a2@,
{
}

} // verus!
