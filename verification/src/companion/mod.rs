//! The QuickLaunch companion programs: the helper that keeps the shared state and action
//! queue, and the menubar that shows them.
pub mod helper;
pub mod menubar;
