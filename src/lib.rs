//! Catalog model, filtering and selection engine of a desktop application launcher.
//!
//! The catalog is a list of categories, each with a list of launchable apps. A free-text
//! query narrows the categories to those whose name, or the name of one of their apps,
//! contains the query regardless of case. A selection of one category and one app is kept
//! against the current view and resolved to the app to launch.

pub mod text;
pub mod catalog;
pub mod selection;
pub mod launch;
pub mod loader;
