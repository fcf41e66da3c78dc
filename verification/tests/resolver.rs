//! Tests of the action resolver on concrete configuration lists.

use image_store_actions::resolver::image_store_noop_action;
use image_store_actions::resolver::plugin_display_name;
use image_store_actions::resolver::resolution_diagnostic;
use image_store_actions::resolver::resolve_outcome;
use image_store_actions::resolver::select_action;
use image_store_actions::resolver::Action;
use image_store_actions::resolver::Config;
use image_store_actions::resolver::Diagnostic;
use image_store_actions::resolver::ImageStorePlugin;
use image_store_actions::resolver::Outcome;
use image_store_actions::resolver::PluginsConfig;
use image_store_actions::resolver::ResolutionError;

fn config_of(names: &[&str]) -> Config {
    Config {
        plugins: PluginsConfig {
            internal_actions: names.iter().map(|name| name.to_string()).collect(),
        },
    }
}

fn info_diagnostic(action: &str) -> Diagnostic {
    Diagnostic::ActionConfigured("ImageStorePlugin".to_string(), action.to_string())
}

fn error_diagnostic(action: &str) -> Diagnostic {
    Diagnostic::ActionNotFound("ImageStorePlugin".to_string(), action.to_string())
}

fn not_found(action: &str) -> ResolutionError {
    ResolutionError::ActionNotFound("ImageStorePlugin".to_string(), action.to_string())
}

#[test]
fn empty_list_defaults_to_noop() {
    let config = config_of(&[]);
    assert_eq!(select_action(&config), Ok(Action::Noop));
    assert_eq!(resolution_diagnostic(&config), None);
}

#[test]
fn foreign_prefix_is_inert() {
    let config = config_of(&["other_prefix_x"]);
    assert_eq!(select_action(&config), Ok(Action::Noop));
    assert_eq!(resolution_diagnostic(&config), None);
}

#[test]
fn explicit_noop_is_selected_and_logged() {
    let config = config_of(&["image_store_noop_action"]);
    assert_eq!(select_action(&config), Ok(Action::Noop));
    assert_eq!(
        resolution_diagnostic(&config),
        Some(info_diagnostic("image_store_noop_action"))
    );
}

#[test]
fn unknown_name_with_prefix_fails() {
    let config = config_of(&["image_store_bogus_action"]);
    assert_eq!(
        select_action(&config),
        Err(not_found("image_store_bogus_action"))
    );
    assert_eq!(
        resolution_diagnostic(&config),
        Some(error_diagnostic("image_store_bogus_action"))
    );
}

#[test]
fn foreign_entry_is_skipped_silently() {
    let config = config_of(&["other_prefix_y", "image_store_noop_action"]);
    assert_eq!(select_action(&config), Ok(Action::Noop));
    assert_eq!(
        resolution_diagnostic(&config),
        Some(info_diagnostic("image_store_noop_action"))
    );
}

#[test]
fn first_match_fails_before_later_valid_entry() {
    let config = config_of(&["image_store_bogus_action", "image_store_noop_action"]);
    assert_eq!(
        select_action(&config),
        Err(not_found("image_store_bogus_action"))
    );
    assert_eq!(
        resolution_diagnostic(&config),
        Some(error_diagnostic("image_store_bogus_action"))
    );
}

#[test]
fn first_match_succeeds_before_later_bogus_entry() {
    let config = config_of(&["image_store_noop_action", "image_store_bogus_action"]);
    assert_eq!(select_action(&config), Ok(Action::Noop));
    assert_eq!(
        resolution_diagnostic(&config),
        Some(info_diagnostic("image_store_noop_action"))
    );
}

#[test]
fn bare_prefix_itself_is_unknown() {
    let config = config_of(&["image_store_"]);
    assert_eq!(select_action(&config), Err(not_found("image_store_")));
}

#[test]
fn resolution_is_idempotent() {
    let ok_config = config_of(&["other", "image_store_noop_action"]);
    assert_eq!(select_action(&ok_config), select_action(&ok_config));
    assert_eq!(
        resolution_diagnostic(&ok_config),
        resolution_diagnostic(&ok_config)
    );
    let err_config = config_of(&["image_store_missing"]);
    assert_eq!(select_action(&err_config), select_action(&err_config));
    assert_eq!(
        resolution_diagnostic(&err_config),
        resolution_diagnostic(&err_config)
    );
}

#[test]
fn outcome_carries_the_deciding_entry() {
    assert_eq!(resolve_outcome(&Vec::new()), Outcome::NoMatch);
    let known = vec!["image_store_noop_action".to_string()];
    assert_eq!(
        resolve_outcome(&known),
        Outcome::Known("image_store_noop_action".to_string())
    );
    let unknown = vec!["image_store_nope".to_string(), "image_store_noop_action".to_string()];
    assert_eq!(
        resolve_outcome(&unknown),
        Outcome::Unknown("image_store_nope".to_string())
    );
}

#[test]
fn display_name_is_fixed() {
    assert_eq!(plugin_display_name(), "ImageStorePlugin");
}

#[test]
fn noop_action_runs_without_effect() {
    let plugin = ImageStorePlugin {};
    image_store_noop_action(&plugin);
    Action::Noop.invoke(&plugin);
}
