//! Naming-convention-based action resolution for the image store plugin.
//!
//! External configuration carries an ordered list of action names shared by
//! all plugins. Each name targets the plugin whose reserved prefix it starts
//! with. For one plugin, the resolver scans that list in order, and the first
//! entry carrying the plugin's prefix decides: a known identifier selects the
//! corresponding action, an unknown one fails resolution, and when no entry
//! matches at all the built-in no-op action is the silent default.

pub mod laws;
pub mod resolver;
pub mod strings;
