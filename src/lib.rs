//! Backend shell of a desktop application: locates a scripting interpreter,
//! prepares the invocation of a companion bridge script, interprets its reply,
//! and maps the externally invocable commands onto bridge requests.
pub mod commands;
pub mod json;
pub mod locator;
pub mod runner;
